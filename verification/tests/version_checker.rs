use wazuh_agent_status_client::version_checker::{
    check_version, combined_status_from_captures, get_update_title, get_version_title,
    is_update_enabled, is_valid_version_status, next_monitor_action, parse_combined_status,
    parse_outdated_status, parse_prerelease_status, parse_up_to_date_status,
    parse_version_response, prerelease_status_from_captures, should_show_prerelease_update,
    MonitorAction, VersionState, VersionStatus, POLL_INTERVAL_SECS, RETRY_DELAY_SECS,
};

fn s(t: &str) -> String {
    t.to_string()
}

#[test]
fn new_state_is_unknown_and_unmarked() {
    let state = VersionState::new();
    assert_eq!(state.get_status(), VersionStatus::Unknown);
    assert!(!state.is_prerelease_shown());
    let default_state = VersionState::default();
    assert_eq!(default_state.get_status(), VersionStatus::Unknown);
    assert!(!default_state.is_prerelease_shown());
}

#[test]
fn status_read_after_write() {
    let mut state = VersionState::new();
    state.set_status(VersionStatus::Outdated(s("v4.7.0")));
    assert_eq!(state.get_status(), VersionStatus::Outdated(s("v4.7.0")));
    assert!(!state.is_prerelease_shown());
    state.set_status(VersionStatus::Combined(s("v1"), s("v2"), s("v3-rc")));
    assert_eq!(state.get_status(), VersionStatus::Combined(s("v1"), s("v2"), s("v3-rc")));
}

#[test]
fn prerelease_notice_sticks() {
    let mut state = VersionState::new();
    state.mark_prerelease_shown();
    assert!(state.is_prerelease_shown());
    state.mark_prerelease_shown();
    assert!(state.is_prerelease_shown());
    state.set_status(VersionStatus::UpToDate(s("v4.8.0")));
    assert!(state.is_prerelease_shown());
    let _ = parse_version_response("VERSION_CHECK: Up to date, v4.8.0", &mut state);
    assert!(state.is_prerelease_shown());
}

#[test]
fn up_to_date_report() {
    let mut state = VersionState::new();
    let r = parse_version_response("VERSION_CHECK: Up to date, v4.8.0", &mut state);
    assert_eq!(r, VersionStatus::UpToDate(s("v4.8.0")));
    let r = parse_version_response("Up to date, v4.8.0", &mut state);
    assert_eq!(r, VersionStatus::UpToDate(s("v4.8.0")));
    assert!(!state.is_prerelease_shown());
}

#[test]
fn up_to_date_without_version() {
    assert_eq!(parse_up_to_date_status("Up to date"), VersionStatus::UpToDate(s("Unknown")));
    assert_eq!(
        parse_up_to_date_status("Up to date, v1.0.0, extra"),
        VersionStatus::UpToDate(s("v1.0.0, extra"))
    );
}

#[test]
fn outdated_report() {
    let mut state = VersionState::new();
    let r = parse_version_response("VERSION_CHECK: Outdated, v4.7.2", &mut state);
    assert_eq!(r, VersionStatus::Outdated(s("v4.7.2")));
    assert_eq!(parse_outdated_status("Outdated"), VersionStatus::Outdated(s("Unknown")));
}

#[test]
fn combined_report() {
    let mut state = VersionState::new();
    let r = parse_version_response(
        "VERSION_CHECK: Outdated with Prerelease available: 1.2.3 (stable: v1.3.0, prerelease: v1.4.0-rc.1)",
        &mut state,
    );
    assert_eq!(r, VersionStatus::Combined(s("v1.2.3"), s("v1.3.0"), s("v1.4.0-rc.1")));
    assert!(!state.is_prerelease_shown());
}

#[test]
fn combined_report_keeps_tagged_versions() {
    let r = parse_combined_status(
        "Outdated with Prerelease available: v1.2.3 (stable: v1.3.0, prerelease: v1.4.0-rc.1)",
    );
    assert_eq!(r, VersionStatus::Combined(s("v1.2.3"), s("v1.3.0"), s("v1.4.0-rc.1")));
    let r = parse_combined_status(
        "Outdated with Prerelease available: Prerelease: v1.2.3-rc.2 (stable: v1.3.0, prerelease: v1.4.0-rc.1)",
    );
    assert_eq!(
        r,
        VersionStatus::Combined(s("Prerelease: v1.2.3-rc.2"), s("v1.3.0"), s("v1.4.0-rc.1"))
    );
}

#[test]
fn combined_report_that_does_not_match() {
    let mut state = VersionState::new();
    let r = parse_version_response("Outdated with Prerelease available: garbled", &mut state);
    assert_eq!(r, VersionStatus::Outdated(s("Unknown")));
}

#[test]
fn combined_from_given_captures() {
    let caps = Some(vec![Some(s("all")), Some(s("2.0.0")), None]);
    assert_eq!(
        combined_status_from_captures(caps),
        VersionStatus::Combined(s("v2.0.0"), s("Unknown"), s("Unknown"))
    );
    assert_eq!(combined_status_from_captures(None), VersionStatus::Outdated(s("Unknown")));
}

#[test]
fn prerelease_report_marks_the_notice() {
    let mut state = VersionState::new();
    let r = parse_version_response(
        "VERSION_CHECK: Prerelease available: v1.4.0-rc.1 (current: v1.3.0)",
        &mut state,
    );
    assert_eq!(r, VersionStatus::PrereleaseAvailable(s("v1.3.0"), s("v1.4.0-rc.1")));
    assert!(state.is_prerelease_shown());
}

#[test]
fn prerelease_report_with_prerelease_current() {
    let mut state = VersionState::new();
    let r = parse_prerelease_status(
        "Prerelease available: v1.4.0-rc.2 (current: Prerelease: v1.4.0-rc.1)",
        &mut state,
    );
    assert_eq!(
        r,
        VersionStatus::PrereleaseAvailable(s("Prerelease: v1.4.0-rc.1"), s("v1.4.0-rc.2"))
    );
}

#[test]
fn prerelease_report_that_does_not_match() {
    let mut state = VersionState::new();
    let r = parse_version_response("Prerelease available: nothing here", &mut state);
    assert_eq!(r, VersionStatus::Unknown);
    assert!(!state.is_prerelease_shown());
    let r = parse_version_response("A Prerelease available: v2 (current: v1)", &mut state);
    assert_eq!(r, VersionStatus::Unknown);
    assert!(!state.is_prerelease_shown());
}

#[test]
fn prerelease_from_given_captures() {
    let mut state = VersionState::new();
    let caps = Some(vec![Some(s("all")), Some(s("v9-rc")), Some(s("v8"))]);
    assert_eq!(
        prerelease_status_from_captures(caps, &mut state),
        VersionStatus::PrereleaseAvailable(s("v8"), s("v9-rc"))
    );
    assert!(state.is_prerelease_shown());
    let mut fresh = VersionState::new();
    assert_eq!(prerelease_status_from_captures(None, &mut fresh), VersionStatus::Unknown);
    assert!(!fresh.is_prerelease_shown());
}

#[test]
fn unrecognised_report() {
    let mut state = VersionState::new();
    assert_eq!(parse_version_response("", &mut state), VersionStatus::Unknown);
    assert_eq!(parse_version_response("VERSION_CHECK: what?", &mut state), VersionStatus::Unknown);
}

#[test]
fn titles_for_each_status() {
    let cases = vec![
        (VersionStatus::UpToDate(s("v1")), "v1", "Up to date", false, None),
        (VersionStatus::Outdated(s("v2")), "v2", "Update Available", true, None),
        (
            VersionStatus::PrereleaseAvailable(s("v3"), s("v4-rc")),
            "v3",
            "Up to date",
            false,
            Some(s("v4-rc")),
        ),
        (
            VersionStatus::Combined(s("v5"), s("v6"), s("v7-rc")),
            "v5",
            "Update Available (Stable)",
            true,
            Some(s("v7-rc")),
        ),
        (VersionStatus::Unknown, "v---", "---", false, None),
    ];
    for (status, version, update, enabled, prerelease) in cases {
        assert_eq!(get_version_title(&status), version);
        assert_eq!(get_update_title(&status), update);
        assert_eq!(is_update_enabled(&status), enabled);
        assert_eq!(should_show_prerelease_update(&status), prerelease);
    }
}

#[test]
fn valid_version_texts() {
    assert!(is_valid_version_status(&VersionStatus::UpToDate(s("v4.8.0"))));
    assert!(is_valid_version_status(&VersionStatus::Outdated(s("4.8.0-rc.1"))));
    assert!(is_valid_version_status(&VersionStatus::UpToDate(s("Prerelease: v4.8.0-rc.1"))));
    assert!(!is_valid_version_status(&VersionStatus::UpToDate(s("Unknown"))));
    assert!(!is_valid_version_status(&VersionStatus::Unknown));
    assert!(!is_valid_version_status(&VersionStatus::PrereleaseAvailable(s("v1.0.0"), s("v2.0.0"))));
}

#[test]
fn monitor_delivers_only_known() {
    assert_eq!(next_monitor_action(None), MonitorAction::Retry);
    assert_eq!(next_monitor_action(Some(VersionStatus::Unknown)), MonitorAction::Retry);
    assert_eq!(
        next_monitor_action(Some(VersionStatus::UpToDate(s("Unknown")))),
        MonitorAction::Deliver(VersionStatus::UpToDate(s("Unknown")))
    );
    assert_eq!(
        next_monitor_action(Some(VersionStatus::Outdated(s("v1.0.0")))),
        MonitorAction::Deliver(VersionStatus::Outdated(s("v1.0.0")))
    );
    assert_eq!(next_monitor_action(None).wait_secs(), 5);
    assert_eq!(next_monitor_action(Some(VersionStatus::Unknown)).wait_secs(), RETRY_DELAY_SECS);
    assert_eq!(
        next_monitor_action(Some(VersionStatus::UpToDate(s("v4.8.0")))).wait_secs(),
        POLL_INTERVAL_SECS
    );
    assert_eq!(RETRY_DELAY_SECS, 5);
    assert_eq!(POLL_INTERVAL_SECS, 8 * 60 * 60);
}

#[test]
fn check_version_stores_the_parsed_status() {
    let mut state = VersionState::new();
    assert_eq!(check_version(&mut state, None), None);
    assert_eq!(state.get_status(), VersionStatus::Unknown);
    let r = check_version(&mut state, Some("VERSION_CHECK: Outdated, v4.7.2"));
    assert_eq!(r, Some(VersionStatus::Outdated(s("v4.7.2"))));
    assert_eq!(state.get_status(), VersionStatus::Outdated(s("v4.7.2")));
}
