//! Startup logic of a desktop application that runs a bundled web server as
//! its backend: where the server is launched from and what is done when it is
//! missing, and the scan of the installed-software registry that tells whether
//! an earlier installation is present.
//!
//! The library decides; the program around it opens registry keys, looks at the
//! file system, spawns the process and sleeps.

pub mod detector;
pub mod greeting;
pub mod registry;
pub mod supervisor;
pub mod text;
