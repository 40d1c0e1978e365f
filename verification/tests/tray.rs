use wazuh_agent_status_client::tray::{
    initial_tray_state, menu_request_for, MenuEntry, MenuRequest, StatusIcon,
};
use wazuh_agent_status_client::version_checker::VersionStatus;

fn s(t: &str) -> String {
    t.to_string()
}

#[test]
fn initial_tray() {
    let tray = initial_tray_state(vec![1], vec![2]);
    assert_eq!(tray.status_item, MenuEntry { text: s("Agent: Unknown"), enabled: false });
    assert_eq!(tray.connection_item, MenuEntry { text: s("Connection: Unknown"), enabled: false });
    assert_eq!(tray.update_item, MenuEntry { text: s("---"), enabled: false });
    assert_eq!(tray.version_item, MenuEntry { text: s("v---"), enabled: false });
    assert_eq!(tray.prerelease_item, None);
    assert!(!tray.update_in_progress);
    assert_eq!(tray.enabled_icon, vec![1]);
    assert_eq!(tray.disabled_icon, vec![2]);
    assert_eq!(tray.status_icon, StatusIcon::Disabled);
}

#[test]
fn status_entries() {
    let mut tray = initial_tray_state(vec![], vec![]);
    tray.update_status("Active", "Connected");
    assert_eq!(tray.status_item.text, "Agent: Active");
    assert_eq!(tray.connection_item.text, "Connection: Connected");
    tray.update_status("Unknown", "Unknown");
    assert_eq!(tray.status_item.text, "Agent: Inactive");
    assert_eq!(tray.connection_item.text, "Connection: Disconnected");
    tray.update_status("active", "Connected ");
    assert_eq!(tray.status_item.text, "Agent: Inactive");
    assert_eq!(tray.connection_item.text, "Connection: Disconnected");
}

#[test]
fn version_entries() {
    let mut tray = initial_tray_state(vec![], vec![]);
    let announced = tray.update_version_display(VersionStatus::Outdated(s("v4.7.2")));
    assert_eq!(announced, None);
    assert_eq!(tray.version_item.text, "v4.7.2");
    assert_eq!(tray.update_item, MenuEntry { text: s("Update Available"), enabled: true });
    let announced = tray.update_version_display(VersionStatus::Combined(
        s("v1.0.0"),
        s("v1.1.0"),
        s("v1.2.0-rc.1"),
    ));
    assert_eq!(announced, Some(s("v1.2.0-rc.1")));
    assert_eq!(tray.update_item, MenuEntry { text: s("Update Available (Stable)"), enabled: true });
}

#[test]
fn prerelease_announced_once() {
    let mut tray = initial_tray_state(vec![], vec![]);
    tray.version_state.mark_prerelease_shown();
    let announced = tray.update_version_display(VersionStatus::PrereleaseAvailable(
        s("v1.0.0"),
        s("v1.1.0-rc.1"),
    ));
    assert_eq!(announced, None);
    assert_eq!(tray.update_item, MenuEntry { text: s("Up to date"), enabled: false });
}

#[test]
fn release_candidate_hides_prerelease_entries() {
    let mut tray = initial_tray_state(vec![], vec![]);
    tray.prerelease_item = Some(MenuEntry { text: s("Prerelease"), enabled: true });
    tray.prerelease_update_item = Some(MenuEntry { text: s("Install"), enabled: true });
    tray.update_version_display(VersionStatus::UpToDate(s("v1.0.0")));
    assert!(tray.prerelease_item.is_some());
    tray.update_version_display(VersionStatus::UpToDate(s("v1.1.0-rc.1")));
    assert_eq!(tray.prerelease_item, None);
    assert_eq!(tray.prerelease_update_item, None);
}

#[test]
fn one_update_at_a_time() {
    let mut tray = initial_tray_state(vec![], vec![]);
    assert!(tray.start_update());
    assert!(tray.update_in_progress);
    assert_eq!(tray.update_item, MenuEntry { text: s("Starting Update..."), enabled: false });
    assert!(!tray.start_update());
    assert_eq!(tray.update_item.text, "Starting Update...");
    tray.show_update_progress("Downloading");
    assert_eq!(tray.update_item.text, "Updating: Downloading");
    assert!(!tray.start_update());
    tray.finish_update(true);
    assert!(!tray.update_in_progress);
    assert_eq!(tray.update_item.text, "Updating: Downloading");
    assert!(tray.start_update());
    tray.finish_update(false);
    assert_eq!(tray.update_item, MenuEntry { text: s("Update Failed"), enabled: true });
    assert!(!tray.update_in_progress);
}

#[test]
fn menu_clicks() {
    assert_eq!(menu_request_for("update"), Some(MenuRequest::Update(false)));
    assert_eq!(menu_request_for("prerelease_update"), Some(MenuRequest::Update(true)));
    assert_eq!(menu_request_for("quit"), Some(MenuRequest::Quit));
    assert_eq!(menu_request_for("version"), None);
    assert_eq!(menu_request_for(""), None);
}

#[test]
fn status_dot() {
    let mut tray = initial_tray_state(vec![1], vec![2]);
    assert_eq!(tray.status_icon, StatusIcon::Disabled);
    assert_eq!(tray.shown_status_icon(), &vec![2]);
    tray.update_status("Active", "Connected");
    assert_eq!(tray.status_icon, StatusIcon::Enabled);
    assert_eq!(tray.shown_status_icon(), &vec![1]);
    tray.update_status("Active", "Disconnected");
    assert_eq!(tray.status_icon, StatusIcon::Disabled);
    assert_eq!(tray.shown_status_icon(), &vec![2]);
    tray.update_status("Inactive", "Connected");
    assert_eq!(tray.status_icon, StatusIcon::Disabled);
}

#[test]
fn status_and_version_reports_commute() {
    let mut a = initial_tray_state(vec![], vec![]);
    a.update_status("Active", "Disconnected");
    a.update_version_display(VersionStatus::Outdated(s("v2.0.0")));
    let mut b = initial_tray_state(vec![], vec![]);
    b.update_version_display(VersionStatus::Outdated(s("v2.0.0")));
    b.update_status("Active", "Disconnected");
    assert_eq!(a.status_item, b.status_item);
    assert_eq!(a.connection_item, b.connection_item);
    assert_eq!(a.update_item, b.update_item);
    assert_eq!(a.version_item, b.version_item);
    assert_eq!(a.update_in_progress, b.update_in_progress);
}
