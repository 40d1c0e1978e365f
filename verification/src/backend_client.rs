//! The line protocol spoken with the wazuh-agent-status backend: the commands
//! the client sends and what it makes of each line that comes back.
use vstd::prelude::*;
use crate::text::{
    is_prefix, split_once, split_once_str, starts_with, str_eq, strip_prefix, strip_prefix_str,
    trim, trim_str,
};

verus! {

/// Where the backend listens.
pub const BACKEND_ADDRESS: &'static str = "localhost:50505";

/// Seconds allowed for connecting to the backend.
pub const CONNECT_TIMEOUT_SECS: u64 = 5;

/// Seconds allowed for reading the backend's answer.
pub const READ_TIMEOUT_SECS: u64 = 5;

/// Seconds between two attempts to subscribe to status updates.
pub const RESUBSCRIBE_DELAY_SECS: u64 = 5;

/// The command that opens the status stream.
pub const SUBSCRIBE_COMMAND: &'static str = "subscribe-status";

/// The command that asks for the version report.
pub const VERSION_COMMAND: &'static str = "get-version";

/// Client for communicating with the wazuh-agent-status server.
pub struct BackendClient;

/// Why a command got no usable answer.
#[derive(Debug, PartialEq, Eq)]
pub enum ResponseError {
    /// The backend answered with an "ERROR:" line (given trimmed).
    ServerError(String),
    /// The connection ended before any line came.
    NoResponse,
}

/// The mathematical value of a [`ResponseError`].
pub enum SpecResponseError {
    ServerError(Seq<char>),
    NoResponse,
}

impl View for ResponseError {
    type V = SpecResponseError;

    open spec fn view(&self) -> SpecResponseError {
        match self {
            ResponseError::ServerError(t) => SpecResponseError::ServerError(t@),
            ResponseError::NoResponse => SpecResponseError::NoResponse,
        }
    }
}

/// The text that describes an error to the user.
pub open spec fn response_error_message(e: SpecResponseError) -> Seq<char> {
    match e {
        SpecResponseError::ServerError(t) => "Server error: "@ + t,
        SpecResponseError::NoResponse => "No response from server"@,
    }
}

impl ResponseError {
    /// The text that describes this error to the user.
    pub fn message(&self) -> (r: String)
        ensures
            r@ == response_error_message(self@),
    {
        match self {
            ResponseError::ServerError(t) => String::from_str("Server error: ").concat(t.as_str()),
            ResponseError::NoResponse => String::from_str("No response from server"),
        }
    }
}

/// What the first line of the answer to a command means.
pub open spec fn command_outcome(first_line: Option<Seq<char>>) -> Result<Seq<char>, SpecResponseError> {
    match first_line {
        None => Err(SpecResponseError::NoResponse),
        Some(line) => if is_prefix("ERROR:"@, trim(line)) {
            Err(SpecResponseError::ServerError(trim(line)))
        } else {
            Ok(trim(line))
        },
    }
}

/// The value of a command's outcome.
pub open spec fn outcome_view(r: Result<String, ResponseError>) -> Result<Seq<char>, SpecResponseError> {
    match r {
        Ok(t) => Ok(t@),
        Err(e) => Err(e@),
    }
}

/// The (agent status, connection status) pair that a status line carries.
pub open spec fn status_update(response: Seq<char>) -> Option<(Seq<char>, Seq<char>)> {
    if !is_prefix("STATUS_UPDATE:"@, response) {
        None
    } else {
        match split_once(response, ": "@) {
            Some(parts) => split_once(parts.1, ", "@),
            None => None,
        }
    }
}

/// A line of the status stream, as the client reads it.
#[derive(Debug, PartialEq, Eq)]
pub enum StatusLine {
    /// (agent status, connection status)
    Update(String, String),
    /// An "ERROR:" line (trimmed): the subscription ends with this error.
    ServerError(String),
    /// Anything else, which is skipped.
    Other,
}

/// The mathematical value of a [`StatusLine`].
pub enum SpecStatusLine {
    Update(Seq<char>, Seq<char>),
    ServerError(Seq<char>),
    Other,
}

impl View for StatusLine {
    type V = SpecStatusLine;

    open spec fn view(&self) -> SpecStatusLine {
        match self {
            StatusLine::Update(s, c) => SpecStatusLine::Update(s@, c@),
            StatusLine::ServerError(t) => SpecStatusLine::ServerError(t@),
            StatusLine::Other => SpecStatusLine::Other,
        }
    }
}

/// The meaning of a raw line of the status stream.
pub open spec fn status_line(line: Seq<char>) -> SpecStatusLine {
    let t = trim(line);
    match status_update(t) {
        Some(p) => SpecStatusLine::Update(p.0, p.1),
        None => if is_prefix("ERROR:"@, t) {
            SpecStatusLine::ServerError(t)
        } else {
            SpecStatusLine::Other
        },
    }
}

/// A line of the update stream, as the client reads it.
#[derive(Debug, PartialEq, Eq)]
pub enum UpdateLine {
    /// A progress report; `last` says that the stream is over after it.
    Progress { status: String, last: bool },
    /// Anything else, which is skipped.
    Other,
}

/// The mathematical value of an [`UpdateLine`].
pub enum SpecUpdateLine {
    Progress { status: Seq<char>, last: bool },
    Other,
}

impl View for UpdateLine {
    type V = SpecUpdateLine;

    open spec fn view(&self) -> SpecUpdateLine {
        match self {
            UpdateLine::Progress { status, last } => SpecUpdateLine::Progress {
                status: status@,
                last: *last,
            },
            UpdateLine::Other => SpecUpdateLine::Other,
        }
    }
}

/// Whether a progress status ends the update stream.
pub open spec fn is_final_progress(status: Seq<char>) -> bool {
    status == "Complete"@ || status == "Error"@ || is_prefix("ERROR:"@, status)
}

/// The progress status of a trimmed progress line.
pub open spec fn progress_status(t: Seq<char>) -> Seq<char> {
    match strip_prefix(t, "UPDATE_PROGRESS: "@) {
        Some(rest) => rest,
        None => t,
    }
}

/// The meaning of a raw line of the update stream.
pub open spec fn update_line(line: Seq<char>) -> SpecUpdateLine {
    let t = trim(line);
    if is_prefix("UPDATE_PROGRESS:"@, t) {
        SpecUpdateLine::Progress {
            status: progress_status(t),
            last: is_final_progress(progress_status(t)),
        }
    } else {
        SpecUpdateLine::Other
    }
}

/// The two commands of an update: the one that starts it and the one that
/// opens its progress stream.
pub open spec fn update_commands_for(is_prerelease: bool) -> (Seq<char>, Seq<char>) {
    if is_prerelease {
        ("update-prerelease"@, "initiate-prerelease-update-stream"@)
    } else {
        ("update"@, "initiate-update-stream"@)
    }
}

/// What the client does when a status subscription has ended.
#[derive(Debug, PartialEq, Eq)]
pub struct SessionFollowUp {
    /// The (agent status, connection status) pair to report, if any.
    pub report: Option<(String, String)>,
    /// Seconds to wait before subscribing again.
    pub wait_secs: u64,
}

/// The value of a [`SessionFollowUp`]: the reported pair and the wait.
pub open spec fn follow_up_view(f: SessionFollowUp) -> (Option<(Seq<char>, Seq<char>)>, u64) {
    (
        match f.report {
            Some(p) => Some((p.0@, p.1@)),
            None => None,
        },
        f.wait_secs,
    )
}

/// After a subscription that failed, the status is reported as ("Unknown",
/// "Unknown"); after one that ended normally nothing is reported. Either way the
/// client subscribes again after `RESUBSCRIBE_DELAY_SECS`.
pub open spec fn subscription_follow_up(failed: bool) -> (Option<(Seq<char>, Seq<char>)>, u64) {
    (
        if failed {
            Some(("Unknown"@, "Unknown"@))
        } else {
            None
        },
        RESUBSCRIBE_DELAY_SECS,
    )
}

impl BackendClient {
    /// Interprets the first line of the answer to a command (`None` when the
    /// connection ended first): its trimmed text, unless it is an error.
    pub fn interpret_response(first_line: Option<&str>) -> (r: Result<String, ResponseError>)
        ensures
            outcome_view(r) == command_outcome(
                match first_line {
                    Some(l) => Some(l@),
                    None => None,
                },
            ),
    {
        match first_line {
            Some(line) => {
                let trimmed = trim_str(line);
                if starts_with(trimmed, "ERROR:") {
                    Err(ResponseError::ServerError(String::from_str(trimmed)))
                } else {
                    Ok(String::from_str(trimmed))
                }
            },
            None => Err(ResponseError::NoResponse),
        }
    }

    /// Parse a STATUS_UPDATE message.
    pub fn parse_status_update(response: &str) -> (r: Option<(String, String)>)
        ensures
            r is Some <==> status_update(response@) is Some,
            r matches Some(p) ==> (p.0@, p.1@) == status_update(response@)->Some_0,
    {
        if !starts_with(response, "STATUS_UPDATE:") {
            return None;
        }
        match split_once_str(response, ": ") {
            Some((_, data)) => match split_once_str(data, ", ") {
                Some((status, connection)) => Some(
                    (String::from_str(status), String::from_str(connection)),
                ),
                None => None,
            },
            None => None,
        }
    }

    /// Reads one raw line of the status stream.
    pub fn classify_status_line(line: &str) -> (r: StatusLine)
        ensures
            r@ == status_line(line@),
    {
        let trimmed = trim_str(line);
        match Self::parse_status_update(trimmed) {
            Some((status, connection)) => StatusLine::Update(status, connection),
            None => if starts_with(trimmed, "ERROR:") {
                StatusLine::ServerError(String::from_str(trimmed))
            } else {
                StatusLine::Other
            },
        }
    }

    /// The agent and connection status reported while the status stream is down.
    pub fn unreachable_status() -> (r: (String, String))
        ensures
            r.0@ == "Unknown"@,
            r.1@ == "Unknown"@,
    {
        (String::from_str("Unknown"), String::from_str("Unknown"))
    }

    /// What follows the end of a status subscription (`failed` when it ended in an
    /// error): the status to report, and the wait before subscribing again.
    pub fn after_subscription(failed: bool) -> (r: SessionFollowUp)
        ensures
            follow_up_view(r) == subscription_follow_up(failed),
    {
        let report = if failed {
            Some(Self::unreachable_status())
        } else {
            None
        };
        SessionFollowUp { report, wait_secs: RESUBSCRIBE_DELAY_SECS }
    }

    /// The command that starts an update and the one that streams its progress.
    pub fn update_commands(is_prerelease: bool) -> (r: (String, String))
        ensures
            (r.0@, r.1@) == update_commands_for(is_prerelease),
    {
        if is_prerelease {
            (
                String::from_str("update-prerelease"),
                String::from_str("initiate-prerelease-update-stream"),
            )
        } else {
            (String::from_str("update"), String::from_str("initiate-update-stream"))
        }
    }

    /// Reads one raw line of the update stream.
    pub fn classify_update_line(line: &str) -> (r: UpdateLine)
        ensures
            r@ == update_line(line@),
    {
        let trimmed = trim_str(line);
        if starts_with(trimmed, "UPDATE_PROGRESS:") {
            let status = match strip_prefix_str(trimmed, "UPDATE_PROGRESS: ") {
                Some(rest) => rest,
                None => trimmed,
            };
            let last = str_eq(status, "Complete") || str_eq(status, "Error") || starts_with(
                status,
                "ERROR:",
            );
            UpdateLine::Progress { status: String::from_str(status), last }
        } else {
            UpdateLine::Other
        }
    }
}

} // verus!
