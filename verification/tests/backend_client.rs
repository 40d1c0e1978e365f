use wazuh_agent_status_client::backend_client::{
    BackendClient, ResponseError, SessionFollowUp, StatusLine, UpdateLine, BACKEND_ADDRESS,
    RESUBSCRIBE_DELAY_SECS, SUBSCRIBE_COMMAND,
    VERSION_COMMAND,
};

fn s(t: &str) -> String {
    t.to_string()
}

#[test]
fn parse_status_update_reads_both_fields() {
    assert_eq!(
        BackendClient::parse_status_update("STATUS_UPDATE: Active, Connected"),
        Some((s("Active"), s("Connected")))
    );
    assert_eq!(
        BackendClient::parse_status_update("STATUS_UPDATE: Inactive, Disconnected, extra"),
        Some((s("Inactive"), s("Disconnected, extra")))
    );
}

#[test]
fn parse_status_update_rejects_other_lines() {
    assert_eq!(BackendClient::parse_status_update("STATUS: Active, Connected"), None);
    assert_eq!(BackendClient::parse_status_update("STATUS_UPDATE: Active"), None);
    assert_eq!(BackendClient::parse_status_update("STATUS_UPDATE:Active, Connected"), None);
    assert_eq!(BackendClient::parse_status_update(""), None);
}

#[test]
fn status_lines_are_trimmed_and_classified() {
    assert_eq!(
        BackendClient::classify_status_line("  STATUS_UPDATE: Active, Connected\r\n"),
        StatusLine::Update(s("Active"), s("Connected"))
    );
    assert_eq!(
        BackendClient::classify_status_line("ERROR: agent not found \n"),
        StatusLine::ServerError(s("ERROR: agent not found"))
    );
    assert_eq!(BackendClient::classify_status_line("hello"), StatusLine::Other);
}

#[test]
fn command_answers() {
    assert_eq!(BackendClient::interpret_response(Some(" Status: Active \n")), Ok(s("Status: Active")));
    let err = BackendClient::interpret_response(Some("ERROR: unknown command\n")).unwrap_err();
    assert_eq!(err, ResponseError::ServerError(s("ERROR: unknown command")));
    assert_eq!(err.message(), "Server error: ERROR: unknown command");
    let none = BackendClient::interpret_response(None).unwrap_err();
    assert_eq!(none, ResponseError::NoResponse);
    assert_eq!(none.message(), "No response from server");
}

#[test]
fn update_commands_by_channel() {
    assert_eq!(
        BackendClient::update_commands(false),
        (s("update"), s("initiate-update-stream"))
    );
    assert_eq!(
        BackendClient::update_commands(true),
        (s("update-prerelease"), s("initiate-prerelease-update-stream"))
    );
}

#[test]
fn update_progress_lines() {
    assert_eq!(
        BackendClient::classify_update_line("UPDATE_PROGRESS: Downloading\n"),
        UpdateLine::Progress { status: s("Downloading"), last: false }
    );
    assert_eq!(
        BackendClient::classify_update_line("UPDATE_PROGRESS: Complete"),
        UpdateLine::Progress { status: s("Complete"), last: true }
    );
    assert_eq!(
        BackendClient::classify_update_line("UPDATE_PROGRESS: Error"),
        UpdateLine::Progress { status: s("Error"), last: true }
    );
    assert_eq!(
        BackendClient::classify_update_line("UPDATE_PROGRESS: ERROR: disk full"),
        UpdateLine::Progress { status: s("ERROR: disk full"), last: true }
    );
    assert_eq!(
        BackendClient::classify_update_line("UPDATE_PROGRESS:Complete"),
        UpdateLine::Progress { status: s("UPDATE_PROGRESS:Complete"), last: false }
    );
    assert_eq!(BackendClient::classify_update_line("Complete"), UpdateLine::Other);
}

#[test]
fn unreachable_backend_reads_unknown() {
    assert_eq!(BackendClient::unreachable_status(), (s("Unknown"), s("Unknown")));
    assert_eq!(BACKEND_ADDRESS, "localhost:50505");
    assert_eq!(SUBSCRIBE_COMMAND, "subscribe-status");
    assert_eq!(VERSION_COMMAND, "get-version");
}

#[test]
fn subscription_cycle() {
    assert_eq!(
        BackendClient::after_subscription(true),
        SessionFollowUp { report: Some((s("Unknown"), s("Unknown"))), wait_secs: 5 }
    );
    assert_eq!(
        BackendClient::after_subscription(false),
        SessionFollowUp { report: None, wait_secs: RESUBSCRIBE_DELAY_SECS }
    );
}
