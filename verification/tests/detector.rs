use feishu_sync_tool::detector::{
    check_previous_deployment, Action, Detector, Entry, Listing, ScanState,
};
use feishu_sync_tool::registry::{
    probe, product_display_name, product_executable_name, Hive, MatchRule, Probe, Subtree,
    PROBE_COUNT,
};

fn keys(names: &[&str]) -> Listing {
    Listing::Keys(names.iter().map(|n| Entry::Name(n.to_string())).collect())
}

fn empty_registry() -> Vec<Listing> {
    vec![keys(&[]), keys(&[]), keys(&[]), keys(&[]), keys(&[])]
}

fn unrelated_registry() -> Vec<Listing> {
    vec![
        keys(&["7-Zip", "{1A2B} Some Editor 3.1"]),
        keys(&["Git_is1"]),
        keys(&["Steam"]),
        Listing::Unavailable,
        keys(&["chrome.exe", "notepad++.exe"]),
    ]
}

/// Runs the machine against a registry and returns the answer with the
/// locations that were opened, in order.
fn run_scan(detector: Detector, registry: &[Listing]) -> (bool, Vec<Probe>) {
    let mut opened: Vec<Probe> = Vec::new();
    let mut state = detector.begin();
    for _ in 0..=PROBE_COUNT {
        match state.action() {
            Action::Report(found) => return (found, opened),
            Action::Open(p) => {
                let at = opened.len();
                opened.push(p);
                state = match registry.get(at) {
                    Some(listing) => state.advance(listing),
                    None => state.advance(&Listing::Unavailable),
                };
            }
        }
    }
    panic!("the scan did not finish");
}

#[test]
fn machine_scope_uninstall_key_with_display_name_is_found() {
    let mut registry = empty_registry();
    registry[0] = keys(&["{GUID} 飞书数据同步工具 1.2.0"]);
    assert_eq!(check_previous_deployment(Detector::Registry, &registry), Ok(true));
    let (found, opened) = run_scan(Detector::Registry, &registry);
    assert!(found);
    assert_eq!(
        opened,
        vec![Probe { hive: Hive::LocalMachine, subtree: Subtree::Uninstall }]
    );
}

#[test]
fn app_paths_key_with_executable_name_is_found() {
    let mut registry = unrelated_registry();
    registry[4] = keys(&["chrome.exe", "feishu_sync_tool.exe"]);
    assert_eq!(check_previous_deployment(Detector::Registry, &registry), Ok(true));
    let (found, opened) = run_scan(Detector::Registry, &registry);
    assert!(found);
    assert_eq!(opened.len(), 5);
}

#[test]
fn registry_without_matches_is_not_found() {
    assert_eq!(check_previous_deployment(Detector::Registry, &unrelated_registry()), Ok(false));
    assert_eq!(check_previous_deployment(Detector::Registry, &empty_registry()), Ok(false));
    let (found, opened) = run_scan(Detector::Registry, &unrelated_registry());
    assert!(!found);
    assert_eq!(opened.len(), 5);
}

#[test]
fn null_detector_never_finds_and_never_probes() {
    let mut registry = empty_registry();
    registry[0] = keys(&["飞书数据同步工具"]);
    registry[4] = keys(&["feishu_sync_tool.exe"]);
    assert_eq!(check_previous_deployment(Detector::Null, &registry), Ok(false));
    assert_eq!(check_previous_deployment(Detector::Null, &Vec::new()), Ok(false));
    assert_eq!(Detector::Null.begin(), ScanState::Finished(false));
    assert_eq!(Detector::Null.begin().action(), Action::Report(false));
    let (found, opened) = run_scan(Detector::Null, &registry);
    assert!(!found);
    assert!(opened.is_empty());
}

#[test]
fn display_name_matches_as_substring_in_every_uninstall_location() {
    for at in 0..4 {
        let mut registry = unrelated_registry();
        registry[at] = keys(&["other", "prefix-飞书数据同步工具-suffix"]);
        assert_eq!(check_previous_deployment(Detector::Registry, &registry), Ok(true));
    }
}

#[test]
fn key_name_without_the_display_name_is_no_match() {
    let mut registry = empty_registry();
    registry[0] = keys(&[
        "{GUID}  1.2.0",
        "飞书数据同步工",
        "书数据同步工具",
        "飞书数据 同步工具",
    ]);
    assert_eq!(check_previous_deployment(Detector::Registry, &registry), Ok(false));
    registry[0] = keys(&["{GUID} 飞书数据同步工具 1.2.0"]);
    assert_eq!(check_previous_deployment(Detector::Registry, &registry), Ok(true));
}

#[test]
fn app_paths_needs_the_exact_executable_name() {
    for name in [
        "FEISHU_SYNC_TOOL.EXE",
        "Feishu_Sync_Tool.exe",
        "feishu_sync_tool.exe.bak",
        "my_feishu_sync_tool.exe",
        "feishu_sync_tool",
        " feishu_sync_tool.exe",
        "飞书数据同步工具",
        "",
    ] {
        let mut registry = empty_registry();
        registry[4] = keys(&[name]);
        assert_eq!(
            check_previous_deployment(Detector::Registry, &registry),
            Ok(false),
            "{:?}",
            name
        );
    }
}

#[test]
fn executable_name_in_an_uninstall_location_is_no_match() {
    for at in 0..4 {
        let mut registry = empty_registry();
        registry[at] = keys(&["feishu_sync_tool.exe"]);
        assert_eq!(check_previous_deployment(Detector::Registry, &registry), Ok(false));
    }
}

#[test]
fn first_match_ends_the_scan() {
    let mut registry = empty_registry();
    registry[1] = keys(&["飞书数据同步工具 0.9"]);
    registry[2] = Listing::Unavailable;
    registry[3] = keys(&["unrelated"]);
    let (found, opened) = run_scan(Detector::Registry, &registry);
    assert!(found);
    assert_eq!(
        opened,
        vec![
            Probe { hive: Hive::LocalMachine, subtree: Subtree::Uninstall },
            Probe { hive: Hive::CurrentUser, subtree: Subtree::Uninstall },
        ]
    );
    assert_eq!(check_previous_deployment(Detector::Registry, &registry), Ok(true));
    // What stands behind the match makes no difference.
    registry.truncate(2);
    assert_eq!(check_previous_deployment(Detector::Registry, &registry), Ok(true));
}

#[test]
fn finished_scan_stays_finished() {
    let hit = keys(&["飞书数据同步工具"]);
    let done = Detector::Registry.begin().advance(&hit);
    assert_eq!(done, ScanState::Finished(true));
    assert_eq!(done.action(), Action::Report(true));
    assert_eq!(done.advance(&keys(&[])), ScanState::Finished(true));
    assert_eq!(ScanState::Finished(false).advance(&hit), ScanState::Finished(false));
}

#[test]
fn scan_visits_the_locations_in_the_fixed_order() {
    let (found, opened) = run_scan(Detector::Registry, &empty_registry());
    assert!(!found);
    assert_eq!(
        opened,
        vec![
            Probe { hive: Hive::LocalMachine, subtree: Subtree::Uninstall },
            Probe { hive: Hive::CurrentUser, subtree: Subtree::Uninstall },
            Probe { hive: Hive::LocalMachine, subtree: Subtree::UninstallCompat },
            Probe { hive: Hive::CurrentUser, subtree: Subtree::UninstallCompat },
            Probe { hive: Hive::LocalMachine, subtree: Subtree::AppPaths },
        ]
    );
    for (i, p) in opened.iter().enumerate() {
        assert_eq!(probe(i), Some(*p));
    }
    assert_eq!(probe(PROBE_COUNT), None);
    assert_eq!(PROBE_COUNT, 5);
}

#[test]
fn advance_moves_one_location_at_a_time() {
    let mut state = Detector::Registry.begin();
    assert_eq!(state, ScanState::Probing(0));
    for i in 1..5 {
        state = state.advance(&Listing::Unavailable);
        assert_eq!(state, ScanState::Probing(i));
    }
    state = state.advance(&Listing::Unavailable);
    assert_eq!(state, ScanState::Finished(false));
}

#[test]
fn state_out_of_range_reports_not_found() {
    let stray = ScanState::Probing(9);
    assert_eq!(stray.action(), Action::Report(false));
    assert_eq!(stray.advance(&keys(&["飞书数据同步工具"])), ScanState::Finished(false));
}

#[test]
fn unavailable_locations_count_as_empty() {
    let registry = vec![
        Listing::Unavailable,
        Listing::Unavailable,
        Listing::Unavailable,
        Listing::Unavailable,
        Listing::Unavailable,
    ];
    assert_eq!(check_previous_deployment(Detector::Registry, &registry), Ok(false));
    assert_eq!(check_previous_deployment(Detector::Registry, &Vec::new()), Ok(false));
    let short = vec![Listing::Unavailable, keys(&["x 飞书数据同步工具"])];
    assert_eq!(check_previous_deployment(Detector::Registry, &short), Ok(true));
}

#[test]
fn unreadable_entries_are_passed_over() {
    let mut registry = empty_registry();
    registry[0] = Listing::Keys(vec![Entry::Unreadable, Entry::Unreadable]);
    assert_eq!(check_previous_deployment(Detector::Registry, &registry), Ok(false));
    registry[2] = Listing::Keys(vec![
        Entry::Unreadable,
        Entry::Name("飞书数据同步工具".to_string()),
    ]);
    assert_eq!(check_previous_deployment(Detector::Registry, &registry), Ok(true));
}

#[test]
fn listing_evidence_goes_by_the_rule() {
    let l = keys(&["飞书数据同步工具 2.0", "feishu_sync_tool.exe.old"]);
    assert!(l.holds_evidence(MatchRule::ContainsDisplayName));
    assert!(!l.holds_evidence(MatchRule::EqualsExecutableName));
    assert!(!Listing::Unavailable.holds_evidence(MatchRule::ContainsDisplayName));
    assert!(!keys(&[]).holds_evidence(MatchRule::EqualsExecutableName));
}

#[test]
fn rules_and_paths_of_the_subtrees() {
    assert_eq!(
        Subtree::Uninstall.path(),
        "SOFTWARE\\Microsoft\\Windows\\CurrentVersion\\Uninstall"
    );
    assert_eq!(
        Subtree::UninstallCompat.path(),
        "SOFTWARE\\Wow6432Node\\Microsoft\\Windows\\CurrentVersion\\Uninstall"
    );
    assert_eq!(
        Subtree::AppPaths.path(),
        "SOFTWARE\\Microsoft\\Windows\\CurrentVersion\\App Paths"
    );
    assert_eq!(Subtree::Uninstall.rule(), MatchRule::ContainsDisplayName);
    assert_eq!(Subtree::UninstallCompat.rule(), MatchRule::ContainsDisplayName);
    assert_eq!(Subtree::AppPaths.rule(), MatchRule::EqualsExecutableName);
    assert_eq!(product_display_name(), "飞书数据同步工具");
    assert_eq!(product_executable_name(), "feishu_sync_tool.exe");
}

#[test]
fn match_rules_on_single_names() {
    assert!(MatchRule::ContainsDisplayName.accepts("{GUID} 飞书数据同步工具 1.2.0"));
    assert!(MatchRule::ContainsDisplayName.accepts("飞书数据同步工具"));
    assert!(!MatchRule::ContainsDisplayName.accepts("{GUID}  1.2.0"));
    assert!(!MatchRule::ContainsDisplayName.accepts(""));
    assert!(MatchRule::EqualsExecutableName.accepts("feishu_sync_tool.exe"));
    assert!(!MatchRule::EqualsExecutableName.accepts("feishu_sync_tool.exe "));
    assert!(!MatchRule::EqualsExecutableName.accepts("Feishu_sync_tool.exe"));
}
