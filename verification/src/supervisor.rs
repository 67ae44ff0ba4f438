//! The launch of the bundled server.
//!
//! The server's entry file is expected beside the running executable. The
//! supervisor looks for it, has it started by the interpreter in a detached
//! process, and then waits a fixed time so that the server can come up before
//! anything connects to it. Nothing here is fatal: a missing file and a failed
//! start are reported and the program goes on.
//!
//! The supervisor is a machine of a few phases. Each phase names one step for
//! the caller to carry out; the caller reports back and the machine moves on.

use vstd::prelude::*;

verus! {

/// How long the caller waits after the start was issued, in seconds.
pub const GRACE_SECONDS: u64 = 3;

/// The name of the server's entry file.
pub open spec fn entry_file_name() -> Seq<char> {
    "server.js"@
}

/// The command that runs the entry file, resolved by the host's search path.
pub open spec fn interpreter_name() -> Seq<char> {
    "node"@
}

/// Where the server is launched: the entry file, as its directory and its
/// name, and the directory in which the process runs.
#[derive(Debug)]
pub struct LaunchTarget {
    pub entry_dir: String,
    pub entry_name: String,
    pub working_dir: String,
}

/// What is handed to the host to start the server: the program, its one
/// argument as directory and file name, and the working directory.
#[derive(Debug)]
pub struct SpawnRequest {
    pub program: String,
    pub script_dir: String,
    pub script_name: String,
    pub working_dir: String,
}

/// The stream a diagnostic line goes to.
#[derive(Clone, Copy, Debug, PartialEq, Eq, Structural)]
pub enum Stream {
    Output,
    Error,
}

/// A line for a diagnostic stream.
#[derive(Debug)]
pub struct Diagnostic {
    pub stream: Stream,
    pub text: String,
}

/// Where the supervisor stands.
#[derive(Clone, Copy, Debug, PartialEq, Eq, Structural)]
pub enum Phase {
    /// The entry file has not been looked for yet.
    Locating,
    /// The entry file is there; the start has not been issued yet.
    Launching,
    /// The start was issued; the grace time has not passed yet.
    Settling,
    /// The entry file is not there; this has not been reported yet.
    Missing,
    /// The supervisor is through.
    Done,
}

/// What the caller is to do in a phase.
#[derive(Clone, Copy, Debug, PartialEq, Eq, Structural)]
pub enum Step {
    /// Find out whether the entry file exists.
    CheckEntryFile,
    /// Start the server in a detached process, without waiting for the
    /// outcome.
    SpawnServer,
    /// Wait this many seconds.
    Wait(u64),
    /// Report that the entry file was not found.
    ReportMissing,
    /// Return to the caller.
    Return,
}

/// What the caller reports back.
#[derive(Clone, Copy, Debug, PartialEq, Eq, Structural)]
pub enum Event {
    /// Whether the entry file exists.
    EntryFile(bool),
    /// The step asked for was carried out.
    Completed,
}

/// The step that a phase asks for.
pub open spec fn step_of(phase: Phase) -> Step {
    match phase {
        Phase::Locating => Step::CheckEntryFile,
        Phase::Launching => Step::SpawnServer,
        Phase::Settling => Step::Wait(GRACE_SECONDS),
        Phase::Missing => Step::ReportMissing,
        Phase::Done => Step::Return,
    }
}

/// The phase that follows `phase` on `event`. An event that does not answer
/// the step of the phase changes nothing.
pub open spec fn phase_after(phase: Phase, event: Event) -> Phase {
    match (phase, event) {
        (Phase::Locating, Event::EntryFile(true)) => Phase::Launching,
        (Phase::Locating, Event::EntryFile(false)) => Phase::Missing,
        (Phase::Launching, Event::Completed) => Phase::Settling,
        (Phase::Settling, Event::Completed) => Phase::Done,
        (Phase::Missing, Event::Completed) => Phase::Done,
        _ => phase,
    }
}

/// The phase reached from `phase` by a sequence of events.
pub open spec fn phase_after_all(phase: Phase, events: Seq<Event>) -> Phase
    decreases events.len(),
{
    if events.len() == 0 {
        phase
    } else {
        phase_after(phase_after_all(phase, events.drop_last()), events.last())
    }
}

impl LaunchTarget {
    /// The working directory is the directory that holds the entry file, and
    /// the entry file has its fixed name.
    pub open spec fn wf(&self) -> bool {
        &&& self.working_dir@ == self.entry_dir@
        &&& self.entry_name@ == entry_file_name()
    }

    /// The launch target for an executable that lies in `exe_dir`.
    pub fn resolve(exe_dir: &str) -> (target: LaunchTarget)
        ensures
            target.wf(),
            target.entry_dir@ == exe_dir@,
            target.working_dir@ == exe_dir@,
            target.entry_name@ == entry_file_name(),
    {
        LaunchTarget {
            entry_dir: String::from_str(exe_dir),
            entry_name: String::from_str("server.js"),
            working_dir: String::from_str(exe_dir),
        }
    }

    /// The request that starts the server at this target: the interpreter,
    /// with the entry file as its one argument, in the target's working
    /// directory.
    pub fn spawn_request(&self) -> (request: SpawnRequest)
        ensures
            request.program@ == interpreter_name(),
            request.script_dir@ == self.entry_dir@,
            request.script_name@ == self.entry_name@,
            request.working_dir@ == self.working_dir@,
            self.wf() ==> request.working_dir@ == request.script_dir@,
    {
        SpawnRequest {
            program: String::from_str("node"),
            script_dir: String::from_str(self.entry_dir.as_str()),
            script_name: String::from_str(self.entry_name.as_str()),
            working_dir: String::from_str(self.working_dir.as_str()),
        }
    }
}

impl Phase {
    /// The phase in which the supervisor begins.
    pub fn start() -> (phase: Phase)
        ensures
            phase == Phase::Locating,
    {
        Phase::Locating
    }

    /// What the caller is to do in this phase.
    pub fn step(&self) -> (step: Step)
        ensures
            step == step_of(*self),
    {
        match self {
            Phase::Locating => Step::CheckEntryFile,
            Phase::Launching => Step::SpawnServer,
            Phase::Settling => Step::Wait(GRACE_SECONDS),
            Phase::Missing => Step::ReportMissing,
            Phase::Done => Step::Return,
        }
    }

    /// The phase that follows this one on `event`.
    pub fn on(self, event: Event) -> (next: Phase)
        ensures
            next == phase_after(self, event),
    {
        match self {
            Phase::Locating => match event {
                Event::EntryFile(true) => Phase::Launching,
                Event::EntryFile(false) => Phase::Missing,
                Event::Completed => Phase::Locating,
            },
            Phase::Launching => match event {
                Event::Completed => Phase::Settling,
                Event::EntryFile(_) => Phase::Launching,
            },
            Phase::Settling => match event {
                Event::Completed => Phase::Done,
                Event::EntryFile(_) => Phase::Settling,
            },
            Phase::Missing => match event {
                Event::Completed => Phase::Done,
                Event::EntryFile(_) => Phase::Missing,
            },
            Phase::Done => Phase::Done,
        }
    }
}

/// The line that reports a missing entry file; `entry_path` is the path at
/// which it was looked for, as it is to be shown.
pub fn missing_entry_diagnostic(entry_path: &str) -> (line: Diagnostic)
    ensures
        line.stream == Stream::Error,
        line.text@ == "Next.js server.js not found at: "@ + entry_path@,
{
    Diagnostic {
        stream: Stream::Error,
        text: String::from_str("Next.js server.js not found at: ").concat(entry_path),
    }
}

/// The line that reports how the start of the server went: success on the
/// output stream, a failure with its reason on the error stream.
pub fn spawn_diagnostic(outcome: &Result<(), String>) -> (line: Diagnostic)
    ensures
        outcome is Ok ==> line.stream == Stream::Output && line.text@
            == "Next.js server started successfully"@,
        outcome matches Err(reason) ==> line.stream == Stream::Error && line.text@
            == "Failed to start Next.js server: "@ + reason@,
{
    match outcome {
        Ok(_) => Diagnostic {
            stream: Stream::Output,
            text: String::from_str("Next.js server started successfully"),
        },
        Err(reason) => Diagnostic {
            stream: Stream::Error,
            text: String::from_str("Failed to start Next.js server: ").concat(reason.as_str()),
        },
    }
}

/// Once the entry file was found missing, no sequence of events brings the
/// supervisor to start the server or to wait: it reports, and is through after
/// the report.
pub proof fn lemma_missing_entry_never_spawns(events: Seq<Event>)
    ensures
        phase_after(Phase::Locating, Event::EntryFile(false)) == Phase::Missing,
        phase_after_all(Phase::Missing, events) == Phase::Missing || phase_after_all(
            Phase::Missing,
            events,
        ) == Phase::Done,
        step_of(phase_after_all(Phase::Missing, events)) == Step::ReportMissing || step_of(
            phase_after_all(Phase::Missing, events),
        ) == Step::Return,
        phase_after(Phase::Missing, Event::Completed) == Phase::Done,
    decreases events.len(),
{
    if events.len() > 0 {
        lemma_missing_entry_never_spawns(events.drop_last());
    }
}

/// Once the start of the server is due, the supervisor is not through before
/// it has asked for the grace time: whatever events bring it from the start of
/// the server to its end, some of them, taken from the front, leave it
/// waiting for `GRACE_SECONDS`. How the start went plays no part in this.
pub proof fn lemma_return_follows_grace_wait(events: Seq<Event>)
    requires
        phase_after_all(Phase::Launching, events) == Phase::Done,
    ensures
        exists|k: int|
            0 <= k < events.len() && #[trigger] phase_after_all(Phase::Launching, events.take(k))
                == Phase::Settling,
        step_of(Phase::Settling) == Step::Wait(GRACE_SECONDS),
    decreases events.len(),
{
    lemma_launch_stays_on_course(events);
    assert(events.len() > 0);
    let earlier = events.drop_last();
    lemma_launch_stays_on_course(earlier);
    if phase_after_all(Phase::Launching, earlier) == Phase::Done {
        lemma_return_follows_grace_wait(earlier);
        let k = choose|k: int|
            0 <= k < earlier.len() && #[trigger] phase_after_all(Phase::Launching, earlier.take(k))
                == Phase::Settling;
        assert(earlier.take(k) =~= events.take(k));
    } else {
        assert(events.take(events.len() - 1) =~= earlier);
    }
}

/// From the start of the server on, the supervisor is starting, waiting or
/// through.
proof fn lemma_launch_stays_on_course(events: Seq<Event>)
    ensures
        phase_after_all(Phase::Launching, events) == Phase::Launching || phase_after_all(
            Phase::Launching,
            events,
        ) == Phase::Settling || phase_after_all(Phase::Launching, events) == Phase::Done,
    decreases events.len(),
{
    if events.len() > 0 {
        lemma_launch_stays_on_course(events.drop_last());
    }
}

} // verus!
