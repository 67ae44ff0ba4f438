//! The scan for an earlier installation.
//!
//! The scan is a small machine. In each state it names one action: open a
//! registry location and list its child keys, or report the answer. The caller
//! performs the action and hands the listing back; the machine judges it and
//! moves on. It stops at the first location that holds evidence, so later
//! locations are never opened.

use vstd::prelude::*;
use crate::registry::{
    MatchRule, Probe, Subtree, PROBE_COUNT, display_name, executable_name, name_matches, probe,
    probe_at, rule_at,
};
use crate::text::contains_text;

verus! {

/// The child keys of an opened location, as values: each key's name, or
/// `None` where the name is not known.
pub type KeyNames = Seq<Option<Seq<char>>>;

/// A listing as a value: the child keys, or `None` where the location could
/// not be opened.
pub type ListingModel = Option<KeyNames>;

/// A registry as a value: the listing of each location, by its position in
/// the scan.
pub type RegistryModel = Seq<ListingModel>;

/// One child key, as the enumeration gave it.
#[derive(Debug)]
pub enum Entry {
    /// The key's name.
    Name(String),
    /// The enumeration failed at this key; its name is not known.
    Unreadable,
}

/// What came of opening a location and listing its child keys.
#[derive(Debug)]
pub enum Listing {
    /// The location could not be opened: missing, denied or unsupported.
    Unavailable,
    /// The location was opened; these are its immediate child keys.
    Keys(Vec<Entry>),
}

impl View for Entry {
    type V = Option<Seq<char>>;

    open spec fn view(&self) -> Option<Seq<char>> {
        match self {
            Entry::Name(name) => Some(name@),
            Entry::Unreadable => None,
        }
    }
}

impl View for Listing {
    type V = ListingModel;

    open spec fn view(&self) -> ListingModel {
        match self {
            Listing::Unavailable => None,
            Listing::Keys(entries) => Some(names_of(entries@)),
        }
    }
}

/// The child keys of an opened location, each as its name where it is known.
pub open spec fn names_of(entries: Seq<Entry>) -> KeyNames {
    Seq::new(entries.len(), |i: int| entries[i]@)
}

/// The listings of a whole registry, one per position of the scan.
pub open spec fn listings_view(listings: Seq<Listing>) -> RegistryModel {
    Seq::new(listings.len(), |i: int| listings[i]@)
}

/// Whether one child key counts as evidence under `rule`. A key whose name is
/// not known never does.
pub open spec fn entry_matches(rule: MatchRule, entry: Option<Seq<char>>) -> bool {
    match entry {
        Some(name) => name_matches(rule, name),
        None => false,
    }
}

/// Whether a listing holds evidence under `rule`: it was opened, and one of
/// its child keys matches. A location that could not be opened holds none.
pub open spec fn listing_matches(rule: MatchRule, listing: ListingModel) -> bool {
    match listing {
        Some(entries) => some_entry_matches(rule, entries),
        None => false,
    }
}

/// Whether one of `entries` counts as evidence under `rule`.
pub open spec fn some_entry_matches(rule: MatchRule, entries: KeyNames) -> bool {
    exists|i: int| 0 <= i < entries.len() && entry_matches(rule, #[trigger] entries[i])
}

/// The listing at position `i` of a registry; positions it does not cover
/// count as locations that could not be opened.
pub open spec fn listing_at(registry: RegistryModel, i: int) -> ListingModel {
    if 0 <= i < registry.len() {
        registry[i]
    } else {
        None
    }
}

/// Whether the location at position `i` holds evidence, under the rule in
/// force there.
pub open spec fn evidence_at(registry: RegistryModel, i: int) -> bool {
    listing_matches(rule_at(i), listing_at(registry, i))
}

/// Whether some location before position `limit` holds evidence.
pub open spec fn evidence_before(registry: RegistryModel, limit: int) -> bool {
    exists|i: int| 0 <= i < limit && #[trigger] evidence_at(registry, i)
}

/// Whether a registry shows an earlier installation: some location of the scan
/// holds evidence.
pub open spec fn installed_before(registry: RegistryModel) -> bool {
    evidence_before(registry, PROBE_COUNT as int)
}

/// Whether the host keeps a registry of installed software.
#[derive(Clone, Copy, Debug, PartialEq, Eq, Structural)]
pub enum Detector {
    /// No such registry: nothing is probed and nothing is ever found.
    Null,
    /// The registry is scanned.
    Registry,
}

/// Where the scan stands.
#[derive(Clone, Copy, Debug, PartialEq, Eq, Structural)]
pub enum ScanState {
    /// The location at this position is the next to open.
    Probing(usize),
    /// The scan is over, with this answer.
    Finished(bool),
}

/// What the caller is to do next.
#[derive(Clone, Copy, Debug, PartialEq, Eq, Structural)]
pub enum Action {
    /// Open this location, list its child keys, and hand the listing back.
    Open(Probe),
    /// The scan is over: this is the answer.
    Report(bool),
}

/// The state in which a scan begins.
pub open spec fn initial_state(detector: Detector) -> ScanState {
    match detector {
        Detector::Null => ScanState::Finished(false),
        Detector::Registry => ScanState::Probing(0),
    }
}

/// The action that a state asks for.
pub open spec fn action_of(state: ScanState) -> Action {
    match state {
        ScanState::Probing(i) => if i < PROBE_COUNT {
            Action::Open(probe_at(i as int))
        } else {
            Action::Report(false)
        },
        ScanState::Finished(found) => Action::Report(found),
    }
}

/// The state that follows `state` once the listing of the location it asked
/// for is known. Evidence ends the scan at once; without it the scan moves to
/// the next location, or ends with a negative answer after the last one. A
/// finished scan stays as it is.
pub open spec fn next_state(state: ScanState, listing: ListingModel) -> ScanState {
    match state {
        ScanState::Probing(i) => if i >= PROBE_COUNT {
            ScanState::Finished(false)
        } else if listing_matches(rule_at(i as int), listing) {
            ScanState::Finished(true)
        } else if i + 1 < PROBE_COUNT {
            ScanState::Probing((i + 1) as usize)
        } else {
            ScanState::Finished(false)
        },
        ScanState::Finished(found) => ScanState::Finished(found),
    }
}

/// One round of the scan against `registry`: the caller answers the request
/// of `state` with the listing that `registry` holds for it.
pub open spec fn round(state: ScanState, registry: RegistryModel) -> ScanState {
    match state {
        ScanState::Probing(i) => next_state(state, listing_at(registry, i as int)),
        ScanState::Finished(_) => state,
    }
}

/// The state reached from `state` after `steps` rounds against `registry`.
pub open spec fn state_after(state: ScanState, registry: RegistryModel, steps: nat) -> ScanState
    decreases steps,
{
    if steps == 0 {
        state
    } else {
        round(state_after(state, registry, (steps - 1) as nat), registry)
    }
}

/// Where a scan of `registry` stands after `steps` rounds, said directly:
/// finished with a positive answer once a location among the first `steps`
/// holds evidence, else at position `steps`, else finished with a negative
/// answer.
pub open spec fn progress(registry: RegistryModel, steps: nat) -> ScanState {
    let seen: int = if steps < PROBE_COUNT { steps as int } else { PROBE_COUNT as int };
    if evidence_before(registry, seen) {
        ScanState::Finished(true)
    } else if steps < PROBE_COUNT {
        ScanState::Probing(steps as usize)
    } else {
        ScanState::Finished(false)
    }
}

/// Whether the opened location `entries` holds evidence under `rule`.
fn entries_match(rule: MatchRule, entries: &Vec<Entry>) -> (hit: bool)
    ensures
        hit == listing_matches(rule, Some(names_of(entries@))),
{
    let ghost names = names_of(entries@);
    let n: usize = entries.len();
    let mut i: usize = 0;
    while i < n
        invariant
            n == entries@.len(),
            i <= n,
            names == names_of(entries@),
            forall|k: int| 0 <= k < i ==> !entry_matches(rule, #[trigger] names[k]),
        decreases n - i,
    {
        match &entries[i] {
            Entry::Name(name) => {
                if rule.accepts(name.as_str()) {
                    assert(entry_matches(rule, names[i as int]));
                    return true;
                }
            },
            Entry::Unreadable => {},
        }
        i += 1;
    }
    false
}

impl Listing {
    /// Whether this listing holds evidence of the product under `rule`.
    pub fn holds_evidence(&self, rule: MatchRule) -> (hit: bool)
        ensures
            hit == listing_matches(rule, self@),
    {
        match self {
            Listing::Unavailable => false,
            Listing::Keys(entries) => entries_match(rule, entries),
        }
    }
}

impl Detector {
    /// Begins a scan. Without a registry the scan is over before it starts,
    /// with a negative answer.
    pub fn begin(self) -> (state: ScanState)
        ensures
            state == initial_state(self),
            self == Detector::Null ==> action_of(state) == Action::Report(false),
            state.wf(),
    {
        match self {
            Detector::Null => ScanState::Finished(false),
            Detector::Registry => ScanState::Probing(0),
        }
    }
}

impl ScanState {
    /// A state that a scan can reach: a position to probe lies within the
    /// fixed order.
    pub open spec fn wf(&self) -> bool {
        match self {
            ScanState::Probing(i) => *i < PROBE_COUNT,
            ScanState::Finished(_) => true,
        }
    }

    /// What the caller is to do in this state.
    pub fn action(&self) -> (act: Action)
        ensures
            act == action_of(*self),
    {
        match self {
            ScanState::Probing(i) => match probe(*i) {
                Some(p) => Action::Open(p),
                None => Action::Report(false),
            },
            ScanState::Finished(found) => Action::Report(*found),
        }
    }

    /// Takes the listing of the location that this state asked for and gives
    /// the state that follows.
    pub fn advance(self, listing: &Listing) -> (next: ScanState)
        ensures
            next == next_state(self, listing@),
            next.wf(),
    {
        match self {
            ScanState::Probing(i) => match probe(i) {
                Some(p) => {
                    if listing.holds_evidence(p.subtree.rule()) {
                        ScanState::Finished(true)
                    } else if i + 1 < PROBE_COUNT {
                        ScanState::Probing(i + 1)
                    } else {
                        ScanState::Finished(false)
                    }
                },
                None => ScanState::Finished(false),
            },
            ScanState::Finished(found) => ScanState::Finished(found),
        }
    }
}

/// Answers whether `registry` shows an earlier installation of the product.
///
/// `registry` holds the listing of each location of the scan, in the order of
/// the scan; a location that it does not cover counts as one that could not be
/// opened. Without a registry on the host the answer is negative whatever
/// `registry` holds. The answer is always `Ok`: a location that cannot be
/// opened, or a key that cannot be read, is taken as absent.
pub fn check_previous_deployment(detector: Detector, registry: &Vec<Listing>) -> (answer: Result<
    bool,
    String,
>)
    ensures
        answer == Ok::<bool, String>(
            detector == Detector::Registry && installed_before(listings_view(registry@)),
        ),
{
    let ghost reg = listings_view(registry@);
    let mut state: ScanState = detector.begin();
    loop
        invariant
            reg == listings_view(registry@),
            state.wf(),
            state matches ScanState::Probing(i) ==> detector == Detector::Registry
                && !evidence_before(reg, i as int),
            state matches ScanState::Finished(found) ==> found == (detector == Detector::Registry
                && installed_before(reg)),
        decreases
            match state {
                ScanState::Probing(i) => PROBE_COUNT - i,
                ScanState::Finished(_) => 0,
            },
    {
        match state {
            ScanState::Finished(found) => {
                return Ok(found);
            },
            ScanState::Probing(i) => {
                if i < registry.len() {
                    state = state.advance(&registry[i]);
                } else {
                    state = state.advance(&Listing::Unavailable);
                }
                proof {
                    if evidence_at(reg, i as int) {
                        assert(installed_before(reg));
                    } else {
                        assert(!evidence_before(reg, i + 1));
                    }
                }
            },
        }
    }
}

/// A scan that answers every request from `registry` stands after `steps`
/// rounds where `progress` says. After as many rounds as there are locations it
/// is finished, and its answer is whether `registry` shows an earlier
/// installation.
pub proof fn lemma_scan_follows_progress(registry: RegistryModel, steps: nat)
    ensures
        state_after(initial_state(Detector::Registry), registry, steps) == progress(
            registry,
            steps,
        ),
        steps >= PROBE_COUNT ==> state_after(initial_state(Detector::Registry), registry, steps)
            == ScanState::Finished(installed_before(registry)),
    decreases steps,
{
    if steps > 0 {
        let before: int = steps - 1;
        lemma_scan_follows_progress(registry, before as nat);
        if before < PROBE_COUNT {
            if evidence_before(registry, before) {
                assert(evidence_before(registry, before + 1));
            } else if evidence_at(registry, before) {
                assert(evidence_before(registry, before + 1));
            } else {
                assert(!evidence_before(registry, before + 1));
            }
        }
    }
}

/// Without a registry on the host the scan is over from the start: it asks
/// for no location, and its answer is negative after any number of rounds and
/// whatever the registry would have held.
pub proof fn lemma_null_detector_finds_nothing(registry: RegistryModel, steps: nat)
    ensures
        state_after(initial_state(Detector::Null), registry, steps) == ScanState::Finished(false),
        action_of(state_after(initial_state(Detector::Null), registry, steps)) == Action::Report(
            false,
        ),
    decreases steps,
{
    if steps > 0 {
        lemma_null_detector_finds_nothing(registry, (steps - 1) as nat);
    }
}

/// Whether one of `entries` is a key whose name is known and contains the
/// product's display name.
pub open spec fn some_name_contains_display_name(entries: KeyNames) -> bool {
    exists|k: int|
        0 <= k < entries.len() && (#[trigger] entries[k]) is Some && contains_text(
            entries[k]->0,
            display_name(),
        )
}

/// Whether one of `entries` is a key whose name is known and is the product's
/// executable name.
pub open spec fn some_name_is_executable_name(entries: KeyNames) -> bool {
    exists|k: int|
        0 <= k < entries.len() && (#[trigger] entries[k]) == Some(executable_name())
}

/// An uninstall location holds evidence exactly when it could be opened and
/// one of its child keys has a name that contains the product's display name.
/// Where one does, the registry shows an earlier installation; a listing whose
/// names all lack the display name gives no evidence at that location.
pub proof fn lemma_uninstall_evidence_is_containment(registry: RegistryModel, i: int)
    requires
        0 <= i < PROBE_COUNT,
        probe_at(i).subtree != Subtree::AppPaths,
    ensures
        evidence_at(registry, i) <==> (listing_at(registry, i) matches Some(entries)
            && some_name_contains_display_name(entries)),
        evidence_at(registry, i) ==> installed_before(registry),
{
    match listing_at(registry, i) {
        Some(entries) => {
            if some_entry_matches(MatchRule::ContainsDisplayName, entries) {
                let k = choose|k: int|
                    0 <= k < entries.len() && entry_matches(
                        MatchRule::ContainsDisplayName,
                        #[trigger] entries[k],
                    );
                assert(entries[k] is Some && contains_text(entries[k]->0, display_name()));
            }
            if some_name_contains_display_name(entries) {
                let k = choose|k: int|
                    0 <= k < entries.len() && (#[trigger] entries[k]) is Some && contains_text(
                        entries[k]->0,
                        display_name(),
                    );
                assert(entry_matches(MatchRule::ContainsDisplayName, entries[k]));
            }
        },
        None => {},
    }
}

/// The location of the application paths, the last of the scan, holds
/// evidence exactly when it could be opened and one of its child keys is named
/// by the product's executable name, character for character. A name that
/// only contains it, or differs from it in case, is no evidence there.
pub proof fn lemma_app_paths_evidence_is_equality(registry: RegistryModel)
    ensures
        probe_at(PROBE_COUNT - 1).subtree == Subtree::AppPaths,
        evidence_at(registry, PROBE_COUNT - 1) <==> (listing_at(registry, PROBE_COUNT - 1)
            matches Some(entries) && some_name_is_executable_name(entries)),
        evidence_at(registry, PROBE_COUNT - 1) ==> installed_before(registry),
{
    match listing_at(registry, PROBE_COUNT - 1) {
        Some(entries) => {
            if some_entry_matches(MatchRule::EqualsExecutableName, entries) {
                let k = choose|k: int|
                    0 <= k < entries.len() && entry_matches(
                        MatchRule::EqualsExecutableName,
                        #[trigger] entries[k],
                    );
                assert(entries[k] == Some(executable_name()));
            }
            if some_name_is_executable_name(entries) {
                let k = choose|k: int|
                    0 <= k < entries.len() && (#[trigger] entries[k]) == Some(executable_name());
                assert(entry_matches(MatchRule::EqualsExecutableName, entries[k]));
            }
        },
        None => {},
    }
}

/// The first location that holds evidence ends the scan. Let `registry` hold
/// evidence at position `i`, and let `other` agree with it up to that position
/// and hold anything at all behind it. Then the scan of `other` is finished
/// with a positive answer after `i + 1` rounds and stays so, and no round asks
/// for a location behind position `i`.
pub proof fn lemma_first_evidence_ends_scan(
    registry: RegistryModel,
    other: RegistryModel,
    i: int,
    steps: nat,
)
    requires
        0 <= i < PROBE_COUNT,
        evidence_at(registry, i),
        forall|j: int| 0 <= j <= i ==> listing_at(other, j) == listing_at(registry, j),
    ensures
        steps > i ==> state_after(initial_state(Detector::Registry), other, steps)
            == ScanState::Finished(true),
        action_of(state_after(initial_state(Detector::Registry), other, steps))
            matches Action::Open(p) ==> steps <= i && p == probe_at(steps as int),
{
    lemma_scan_follows_progress(other, steps);
    assert(evidence_at(other, i));
    if steps > i {
        let seen: int = if steps < PROBE_COUNT {
            steps as int
        } else {
            PROBE_COUNT as int
        };
        assert(evidence_before(other, seen));
    }
}

} // verus!
