//! What the scan for an earlier installation looks at: the registry locations,
//! the order in which they are visited, and the two names by which the product
//! is recognised. All of it is fixed; nothing here can be configured.

use vstd::prelude::*;
use crate::text::{contains_text, str_contains, str_equals};

verus! {

/// How many locations the scan visits at most.
pub const PROBE_COUNT: usize = 5;

/// The privilege scope of a registry root.
#[derive(Clone, Copy, Debug, PartialEq, Eq, Structural)]
pub enum Hive {
    /// Machine-wide.
    LocalMachine,
    /// The current user's.
    CurrentUser,
}

/// A registry subtree whose immediate child keys are enumerated.
#[derive(Clone, Copy, Debug, PartialEq, Eq, Structural)]
pub enum Subtree {
    /// Uninstall records of native programs.
    Uninstall,
    /// Uninstall records of 32-bit programs on a 64-bit system.
    UninstallCompat,
    /// Executable names mapped to install paths.
    AppPaths,
}

/// How a child-key name is held against the product.
#[derive(Clone, Copy, Debug, PartialEq, Eq, Structural)]
pub enum MatchRule {
    /// The name contains the product's display name.
    ContainsDisplayName,
    /// The name is the product's executable file name, exactly.
    EqualsExecutableName,
}

/// One location to open: a subtree under a hive.
#[derive(Clone, Copy, Debug, PartialEq, Eq, Structural)]
pub struct Probe {
    pub hive: Hive,
    pub subtree: Subtree,
}

/// The product's display name, as uninstall records carry it.
pub open spec fn display_name() -> Seq<char> {
    "飞书数据同步工具"@
}

/// The product's executable file name.
pub open spec fn executable_name() -> Seq<char> {
    "feishu_sync_tool.exe"@
}

/// The registry path of a subtree, below its hive.
pub open spec fn subtree_path(subtree: Subtree) -> Seq<char> {
    match subtree {
        Subtree::Uninstall => "SOFTWARE\\Microsoft\\Windows\\CurrentVersion\\Uninstall"@,
        Subtree::UninstallCompat =>
            "SOFTWARE\\Wow6432Node\\Microsoft\\Windows\\CurrentVersion\\Uninstall"@,
        Subtree::AppPaths => "SOFTWARE\\Microsoft\\Windows\\CurrentVersion\\App Paths"@,
    }
}

/// The rule by which the child keys of a subtree are judged: the uninstall
/// subtrees by containment of the display name, the application paths by
/// equality with the executable name.
pub open spec fn rule_of(subtree: Subtree) -> MatchRule {
    match subtree {
        Subtree::Uninstall => MatchRule::ContainsDisplayName,
        Subtree::UninstallCompat => MatchRule::ContainsDisplayName,
        Subtree::AppPaths => MatchRule::EqualsExecutableName,
    }
}

/// The location visited at position `i` of the scan. Both uninstall subtrees
/// come first, each under the machine and then under the user; the application
/// paths come last, under the machine only.
pub open spec fn probe_at(i: int) -> Probe {
    if i == 0 {
        Probe { hive: Hive::LocalMachine, subtree: Subtree::Uninstall }
    } else if i == 1 {
        Probe { hive: Hive::CurrentUser, subtree: Subtree::Uninstall }
    } else if i == 2 {
        Probe { hive: Hive::LocalMachine, subtree: Subtree::UninstallCompat }
    } else if i == 3 {
        Probe { hive: Hive::CurrentUser, subtree: Subtree::UninstallCompat }
    } else {
        Probe { hive: Hive::LocalMachine, subtree: Subtree::AppPaths }
    }
}

/// The rule in force at position `i` of the scan.
pub open spec fn rule_at(i: int) -> MatchRule {
    rule_of(probe_at(i).subtree)
}

/// Whether a child-key name counts as evidence of the product under `rule`.
pub open spec fn name_matches(rule: MatchRule, name: Seq<char>) -> bool {
    match rule {
        MatchRule::ContainsDisplayName => contains_text(name, display_name()),
        MatchRule::EqualsExecutableName => name == executable_name(),
    }
}

/// The product's display name.
pub fn product_display_name() -> (name: &'static str)
    ensures
        name@ == display_name(),
{
    "飞书数据同步工具"
}

/// The product's executable file name.
pub fn product_executable_name() -> (name: &'static str)
    ensures
        name@ == executable_name(),
{
    "feishu_sync_tool.exe"
}

impl Subtree {
    /// The registry path of this subtree, below its hive.
    pub fn path(&self) -> (p: &'static str)
        ensures
            p@ == subtree_path(*self),
    {
        match self {
            Subtree::Uninstall => "SOFTWARE\\Microsoft\\Windows\\CurrentVersion\\Uninstall",
            Subtree::UninstallCompat =>
                "SOFTWARE\\Wow6432Node\\Microsoft\\Windows\\CurrentVersion\\Uninstall",
            Subtree::AppPaths => "SOFTWARE\\Microsoft\\Windows\\CurrentVersion\\App Paths",
        }
    }

    /// The rule by which this subtree's child keys are judged.
    pub fn rule(&self) -> (r: MatchRule)
        ensures
            r == rule_of(*self),
    {
        match self {
            Subtree::Uninstall => MatchRule::ContainsDisplayName,
            Subtree::UninstallCompat => MatchRule::ContainsDisplayName,
            Subtree::AppPaths => MatchRule::EqualsExecutableName,
        }
    }
}

impl MatchRule {
    /// Whether `name` counts as evidence of the product under this rule.
    pub fn accepts(&self, name: &str) -> (hit: bool)
        ensures
            hit == name_matches(*self, name@),
    {
        match self {
            MatchRule::ContainsDisplayName => str_contains(name, product_display_name()),
            MatchRule::EqualsExecutableName => str_equals(name, product_executable_name()),
        }
    }
}

/// The location visited at position `i` of the scan, if there is one.
pub fn probe(i: usize) -> (p: Option<Probe>)
    ensures
        i < PROBE_COUNT ==> p == Some(probe_at(i as int)),
        i >= PROBE_COUNT ==> p is None,
{
    if i == 0 {
        Some(Probe { hive: Hive::LocalMachine, subtree: Subtree::Uninstall })
    } else if i == 1 {
        Some(Probe { hive: Hive::CurrentUser, subtree: Subtree::Uninstall })
    } else if i == 2 {
        Some(Probe { hive: Hive::LocalMachine, subtree: Subtree::UninstallCompat })
    } else if i == 3 {
        Some(Probe { hive: Hive::CurrentUser, subtree: Subtree::UninstallCompat })
    } else if i == 4 {
        Some(Probe { hive: Hive::LocalMachine, subtree: Subtree::AppPaths })
    } else {
        None
    }
}

} // verus!
