use wazuh_agent_status_client::cli::{select_main_icon, wants_version};
use wazuh_agent_status_client::logging::{get_log_file_path, resolve_home};
use wazuh_agent_status_client::text::{
    char_is_whitespace, contains_str, find, split_once_str, starts_with, str_eq,
    strip_prefix_str, trim_str,
};

#[test]
fn whitespace_matches_std() {
    for code in 0u32..0x3100 {
        if let Some(c) = char::from_u32(code) {
            assert_eq!(char_is_whitespace(c), c.is_whitespace(), "char {:#x}", code);
        }
    }
}

#[test]
fn trimming_matches_std() {
    for t in ["", "  ", " a ", "\tSTATUS\r\n", "\u{3000}x\u{2009}", "a b", "\u{85}y"] {
        assert_eq!(trim_str(t), t.trim());
    }
}

#[test]
fn searching() {
    assert!(starts_with("STATUS_UPDATE: x", "STATUS_UPDATE:"));
    assert!(!starts_with("STATUS", "STATUS_UPDATE:"));
    assert_eq!(find("a, b, c", ", "), Some(1));
    assert_eq!(find("abc", ""), Some(0));
    assert_eq!(find("abc", "d"), None);
    assert!(contains_str("Outdated with Prerelease available", "Prerelease available"));
    assert_eq!(strip_prefix_str("VERSION_CHECK: x", "VERSION_CHECK: "), Some("x"));
    assert_eq!(strip_prefix_str("x", "VERSION_CHECK: "), None);
    assert_eq!(split_once_str("a, b, c", ", "), Some(("a", "b, c")));
    assert_eq!(split_once_str("éé: ü", ": "), Some(("éé", "ü")));
    assert_eq!(split_once_str("abc", ", "), None);
    assert!(str_eq("Active", "Active"));
    assert!(!str_eq("Active", "Activ"));
}

#[test]
fn log_paths() {
    assert_eq!(
        get_log_file_path("/home/ana", false, None),
        "/home/ana/.wazuh/wazuh-agent-status-client.log"
    );
    assert_eq!(
        get_log_file_path("C:\\Users\\ana", true, Some("C:\\Data")),
        "C:\\Data\\wazuh\\logs\\wazuh-agent-status-client.log"
    );
    assert_eq!(
        get_log_file_path("C:\\Users\\ana", true, None),
        "C:\\Users\\ana\\AppData\\Roaming\\wazuh\\logs\\wazuh-agent-status-client.log"
    );
    assert_eq!(resolve_home(Some("/h"), Some("/u")), "/h");
    assert_eq!(resolve_home(None, Some("/u")), "/u");
    assert_eq!(resolve_home(None, None), ".");
}

#[test]
fn command_line() {
    let args = |v: &[&str]| v.iter().map(|a| a.to_string()).collect::<Vec<String>>();
    assert!(wants_version(&args(&["client", "--version"])));
    assert!(wants_version(&args(&["client", "-v", "x"])));
    assert!(!wants_version(&args(&["client"])));
    assert!(!wants_version(&args(&["client", "--verbose"])));
    assert_eq!(select_main_icon(true, &[1], &[2]), vec![2]);
    assert_eq!(select_main_icon(false, &[1], &[2]), vec![1]);
}
