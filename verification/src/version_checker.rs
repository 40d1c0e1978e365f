//! What the backend says of the agent's version: parsing its report, the
//! shared version state, and the texts the tray shows for it.
use vstd::prelude::*;
use crate::patterns::{
    captures, group_or_unknown, group_text, regex_captures, COMBINED_PATTERN, PRERELEASE_PATTERN,
    VERSION_PATTERN,
};
use crate::text::{
    contains, contains_str, is_prefix, split_once, split_once_str, starts_with, strip_prefix,
    strip_prefix_str,
};

verus! {

/// The version situation of the agent, as last reported by the backend.
#[derive(Debug, PartialEq, Eq)]
pub enum VersionStatus {
    /// The installed version is the newest one.
    UpToDate(String),
    /// A newer stable version exists; the installed version is given.
    Outdated(String),
    /// (current version, prerelease version)
    PrereleaseAvailable(String, String),
    /// (current version, stable version, prerelease version)
    Combined(String, String, String),
    /// Nothing usable was reported.
    Unknown,
}

/// The mathematical value of a [`VersionStatus`]: its variant and the text of its fields.
pub enum SpecVersionStatus {
    UpToDate(Seq<char>),
    Outdated(Seq<char>),
    PrereleaseAvailable(Seq<char>, Seq<char>),
    Combined(Seq<char>, Seq<char>, Seq<char>),
    Unknown,
}

impl View for VersionStatus {
    type V = SpecVersionStatus;

    open spec fn view(&self) -> SpecVersionStatus {
        match self {
            VersionStatus::UpToDate(v) => SpecVersionStatus::UpToDate(v@),
            VersionStatus::Outdated(v) => SpecVersionStatus::Outdated(v@),
            VersionStatus::PrereleaseAvailable(c, p) => SpecVersionStatus::PrereleaseAvailable(
                c@,
                p@,
            ),
            VersionStatus::Combined(c, s, p) => SpecVersionStatus::Combined(c@, s@, p@),
            VersionStatus::Unknown => SpecVersionStatus::Unknown,
        }
    }
}

impl Clone for VersionStatus {
    fn clone(&self) -> (r: Self)
        ensures
            r@ == self@,
    {
        match self {
            VersionStatus::UpToDate(v) => VersionStatus::UpToDate(v.clone()),
            VersionStatus::Outdated(v) => VersionStatus::Outdated(v.clone()),
            VersionStatus::PrereleaseAvailable(c, p) => VersionStatus::PrereleaseAvailable(
                c.clone(),
                p.clone(),
            ),
            VersionStatus::Combined(c, s, p) => VersionStatus::Combined(
                c.clone(),
                s.clone(),
                p.clone(),
            ),
            VersionStatus::Unknown => VersionStatus::Unknown,
        }
    }
}

/// The version state shared between the version monitor and the tray.
pub struct VersionState {
    /// The last status that was parsed.
    pub status: VersionStatus,
    /// Whether the prerelease notice was already given in this session.
    pub prerelease_shown: bool,
}

/// The mathematical value of a [`VersionState`].
pub struct SpecVersionState {
    pub status: SpecVersionStatus,
    pub prerelease_shown: bool,
}

impl View for VersionState {
    type V = SpecVersionState;

    open spec fn view(&self) -> SpecVersionState {
        SpecVersionState { status: self.status@, prerelease_shown: self.prerelease_shown }
    }
}

/// The state with its status replaced.
pub open spec fn with_status(s: SpecVersionState, status: SpecVersionStatus) -> SpecVersionState {
    SpecVersionState { status, prerelease_shown: s.prerelease_shown }
}

/// The state with the prerelease notice marked as given.
pub open spec fn with_prerelease_shown(s: SpecVersionState) -> SpecVersionState {
    SpecVersionState { status: s.status, prerelease_shown: true }
}

/// The state at the start of a session.
pub open spec fn initial_version_state() -> SpecVersionState {
    SpecVersionState { status: SpecVersionStatus::Unknown, prerelease_shown: false }
}

impl VersionState {
    /// A state with an unknown status and no prerelease notice given.
    pub fn new() -> (r: Self)
        ensures
            r@ == initial_version_state(),
    {
        VersionState { status: VersionStatus::Unknown, prerelease_shown: false }
    }

    /// Replaces the status.
    pub fn set_status(&mut self, status: VersionStatus)
        ensures
            final(self)@ == with_status(old(self)@, status@),
    {
        self.status = status;
    }

    /// A copy of the current status.
    pub fn get_status(&self) -> (r: VersionStatus)
        ensures
            r@ == self@.status,
    {
        self.status.clone()
    }

    /// Whether the prerelease notice was already given.
    pub fn is_prerelease_shown(&self) -> (r: bool)
        ensures
            r == self@.prerelease_shown,
    {
        self.prerelease_shown
    }

    /// Records that the prerelease notice was given.
    pub fn mark_prerelease_shown(&mut self)
        ensures
            final(self)@ == with_prerelease_shown(old(self)@),
    {
        self.prerelease_shown = true;
    }
}

impl Default for VersionState {
    fn default() -> (r: Self)
        ensures
            r@ == initial_version_state(),
    {
        VersionState::new()
    }
}

// ---------------------------------------------------------------------------
// Parsing the backend's version report
// ---------------------------------------------------------------------------

/// The report without its "VERSION_CHECK: " tag, if it has one.
pub open spec fn version_report_body(response: Seq<char>) -> Seq<char> {
    match strip_prefix(response, "VERSION_CHECK: "@) {
        Some(rest) => rest,
        None => response,
    }
}

/// The status that an "Outdated with Prerelease available" report gives, from the
/// capture groups of the combined pattern.
pub open spec fn combined_from_captures(c: Option<Seq<Option<Seq<char>>>>) -> SpecVersionStatus {
    match c {
        Some(groups) => {
            let current = group_or_unknown(groups, 1);
            let current_version = if !is_prefix("v"@, current) && !is_prefix(
                "Prerelease:"@,
                current,
            ) {
                "v"@ + current
            } else {
                current
            };
            SpecVersionStatus::Combined(
                current_version,
                group_or_unknown(groups, 2),
                group_or_unknown(groups, 3),
            )
        },
        None => SpecVersionStatus::Outdated("Unknown"@),
    }
}

/// The status that a "Prerelease available" report gives, from the capture groups
/// of the prerelease pattern.
pub open spec fn prerelease_from_captures(c: Option<Seq<Option<Seq<char>>>>) -> SpecVersionStatus {
    match c {
        Some(groups) => SpecVersionStatus::PrereleaseAvailable(
            group_or_unknown(groups, 2),
            group_or_unknown(groups, 1),
        ),
        None => SpecVersionStatus::Unknown,
    }
}

/// The text after the first ", " of a report, or "Unknown" when there is none.
pub open spec fn text_after_comma(body: Seq<char>) -> Seq<char> {
    match split_once(body, ", "@) {
        Some(parts) => parts.1,
        None => "Unknown"@,
    }
}

/// Which kind of report a body is.
pub enum ReportKind {
    Combined,
    Outdated,
    Prerelease,
    UpToDate,
    Other,
}

/// The kind of a report body, tested in this order.
pub open spec fn report_kind(body: Seq<char>) -> ReportKind {
    if contains(body, "Outdated with Prerelease available"@) {
        ReportKind::Combined
    } else if contains(body, "Outdated"@) {
        ReportKind::Outdated
    } else if contains(body, "Prerelease available"@) {
        ReportKind::Prerelease
    } else if contains(body, "Up to date"@) {
        ReportKind::UpToDate
    } else {
        ReportKind::Other
    }
}

/// Whether a "Prerelease available" body is well tagged and the prerelease pattern matches it.
pub open spec fn prerelease_recognised(body: Seq<char>) -> bool {
    is_prefix("Prerelease available:"@, body) && regex_captures(PRERELEASE_PATTERN@, body) is Some
}

/// The status that a version report gives.
pub open spec fn parsed_version_status(response: Seq<char>) -> SpecVersionStatus {
    let body = version_report_body(response);
    match report_kind(body) {
        ReportKind::Combined => combined_from_captures(regex_captures(COMBINED_PATTERN@, body)),
        ReportKind::Outdated => SpecVersionStatus::Outdated(text_after_comma(body)),
        ReportKind::Prerelease => if is_prefix("Prerelease available:"@, body) {
            prerelease_from_captures(regex_captures(PRERELEASE_PATTERN@, body))
        } else {
            SpecVersionStatus::Unknown
        },
        ReportKind::UpToDate => SpecVersionStatus::UpToDate(text_after_comma(body)),
        ReportKind::Other => SpecVersionStatus::Unknown,
    }
}

/// Whether parsing a version report gives the prerelease notice.
pub open spec fn report_gives_prerelease_notice(response: Seq<char>) -> bool {
    let body = version_report_body(response);
    report_kind(body) is Prerelease && prerelease_recognised(body)
}

/// The status of a combined report, from the capture groups of the combined pattern.
pub fn combined_status_from_captures(caps: Option<Vec<Option<String>>>) -> (r: VersionStatus)
    ensures
        r@ == combined_from_captures(caps.deep_view()),
{
    match caps {
        Some(groups) => {
            let current = group_text(&groups, 1);
            let stable = group_text(&groups, 2);
            let prerelease = group_text(&groups, 3);
            let current_version = if !starts_with(current.as_str(), "v") && !starts_with(
                current.as_str(),
                "Prerelease:",
            ) {
                String::from_str("v").concat(current.as_str())
            } else {
                current
            };
            VersionStatus::Combined(current_version, stable, prerelease)
        },
        None => VersionStatus::Outdated(String::from_str("Unknown")),
    }
}

/// Parses "Outdated with Prerelease available: <current> (stable: <stable>, prerelease: <prerelease>)".
pub fn parse_combined_status(response: &str) -> (r: VersionStatus)
    ensures
        r@ == combined_from_captures(regex_captures(COMBINED_PATTERN@, response@)),
{
    combined_status_from_captures(captures(COMBINED_PATTERN, response))
}

/// The text after the first ", ", or "Unknown".
fn after_comma(response: &str) -> (r: String)
    ensures
        r@ == text_after_comma(response@),
{
    match split_once_str(response, ", ") {
        Some((_, version)) => String::from_str(version),
        None => String::from_str("Unknown"),
    }
}

/// Parses "Outdated, <version>".
pub fn parse_outdated_status(response: &str) -> (r: VersionStatus)
    ensures
        r@ == SpecVersionStatus::Outdated(text_after_comma(response@)),
{
    VersionStatus::Outdated(after_comma(response))
}

/// Parses "Up to date, <version>".
pub fn parse_up_to_date_status(response: &str) -> (r: VersionStatus)
    ensures
        r@ == SpecVersionStatus::UpToDate(text_after_comma(response@)),
{
    VersionStatus::UpToDate(after_comma(response))
}

/// The status of a prerelease report, from the capture groups of the prerelease
/// pattern; a match gives the prerelease notice.
pub fn prerelease_status_from_captures(
    caps: Option<Vec<Option<String>>>,
    version_state: &mut VersionState,
) -> (r: VersionStatus)
    ensures
        r@ == prerelease_from_captures(caps.deep_view()),
        final(version_state)@ == (if caps is Some {
            with_prerelease_shown(old(version_state)@)
        } else {
            old(version_state)@
        }),
{
    match caps {
        Some(groups) => {
            let prerelease_version = group_text(&groups, 1);
            let current_version = group_text(&groups, 2);
            if !version_state.is_prerelease_shown() {
                version_state.mark_prerelease_shown();
            }
            VersionStatus::PrereleaseAvailable(current_version, prerelease_version)
        },
        None => VersionStatus::Unknown,
    }
}

/// Parses "Prerelease available: <prerelease> (current: <current>)".
pub fn parse_prerelease_status(response: &str, version_state: &mut VersionState) -> (r:
    VersionStatus)
    ensures
        r@ == (if is_prefix("Prerelease available:"@, response@) {
            prerelease_from_captures(regex_captures(PRERELEASE_PATTERN@, response@))
        } else {
            SpecVersionStatus::Unknown
        }),
        final(version_state)@ == (if prerelease_recognised(response@) {
            with_prerelease_shown(old(version_state)@)
        } else {
            old(version_state)@
        }),
{
    if !starts_with(response, "Prerelease available:") {
        return VersionStatus::Unknown;
    }
    prerelease_status_from_captures(captures(PRERELEASE_PATTERN, response), version_state)
}

/// Parses the backend's answer to "get-version".
pub fn parse_version_response(response: &str, version_state: &mut VersionState) -> (r:
    VersionStatus)
    ensures
        r@ == parsed_version_status(response@),
        final(version_state)@ == (if report_gives_prerelease_notice(response@) {
            with_prerelease_shown(old(version_state)@)
        } else {
            old(version_state)@
        }),
{
    let body = match strip_prefix_str(response, "VERSION_CHECK: ") {
        Some(rest) => rest,
        None => response,
    };
    assert(body@ == version_report_body(response@));
    let is_outdated = contains_str(body, "Outdated");
    let is_prerelease = contains_str(body, "Prerelease available");
    let is_combined = contains_str(body, "Outdated with Prerelease available");
    if is_combined {
        parse_combined_status(body)
    } else if is_outdated {
        parse_outdated_status(body)
    } else if is_prerelease {
        parse_prerelease_status(body, version_state)
    } else if contains_str(body, "Up to date") {
        parse_up_to_date_status(body)
    } else {
        VersionStatus::Unknown
    }
}

// ---------------------------------------------------------------------------
// Texts of the tray's version entries
// ---------------------------------------------------------------------------

/// The text of the version entry for a status.
pub open spec fn version_title(s: SpecVersionStatus) -> Seq<char> {
    match s {
        SpecVersionStatus::UpToDate(v) => v,
        SpecVersionStatus::Outdated(v) => v,
        SpecVersionStatus::PrereleaseAvailable(v, _) => v,
        SpecVersionStatus::Combined(v, _, _) => v,
        SpecVersionStatus::Unknown => "v---"@,
    }
}

/// The text of the update entry for a status.
pub open spec fn update_title(s: SpecVersionStatus) -> Seq<char> {
    match s {
        SpecVersionStatus::UpToDate(_) => "Up to date"@,
        SpecVersionStatus::Outdated(_) => "Update Available"@,
        SpecVersionStatus::PrereleaseAvailable(_, _) => "Up to date"@,
        SpecVersionStatus::Combined(_, _, _) => "Update Available (Stable)"@,
        SpecVersionStatus::Unknown => "---"@,
    }
}

/// Whether the update entry can be clicked for a status.
pub open spec fn update_enabled(s: SpecVersionStatus) -> bool {
    s is Outdated || s is Combined
}

/// The prerelease that a status offers, if any.
pub open spec fn offered_prerelease(s: SpecVersionStatus) -> Option<Seq<char>> {
    match s {
        SpecVersionStatus::PrereleaseAvailable(_, p) => Some(p),
        SpecVersionStatus::Combined(_, _, p) => Some(p),
        _ => None,
    }
}

/// Get a display title for the version status.
pub fn get_version_title(status: &VersionStatus) -> (r: String)
    ensures
        r@ == version_title(status@),
{
    match status {
        VersionStatus::UpToDate(v) => v.clone(),
        VersionStatus::Outdated(v) => v.clone(),
        VersionStatus::PrereleaseAvailable(v, _) => v.clone(),
        VersionStatus::Combined(v, _, _) => v.clone(),
        VersionStatus::Unknown => String::from_str("v---"),
    }
}

/// Get a display title for the update button.
pub fn get_update_title(status: &VersionStatus) -> (r: String)
    ensures
        r@ == update_title(status@),
{
    match status {
        VersionStatus::UpToDate(_) => String::from_str("Up to date"),
        VersionStatus::Outdated(_) => String::from_str("Update Available"),
        VersionStatus::PrereleaseAvailable(_, _) => String::from_str("Up to date"),
        VersionStatus::Combined(_, _, _) => String::from_str("Update Available (Stable)"),
        VersionStatus::Unknown => String::from_str("---"),
    }
}

/// Check if update button should be enabled.
pub fn is_update_enabled(status: &VersionStatus) -> (r: bool)
    ensures
        r == update_enabled(status@),
{
    match status {
        VersionStatus::Outdated(_) | VersionStatus::Combined(_, _, _) => true,
        _ => false,
    }
}

/// Check if prerelease update should be shown.
pub fn should_show_prerelease_update(status: &VersionStatus) -> (r: Option<String>)
    ensures
        r.deep_view() == offered_prerelease(status@),
{
    match status {
        VersionStatus::PrereleaseAvailable(_, prerelease) => Some(prerelease.clone()),
        VersionStatus::Combined(_, _, prerelease) => Some(prerelease.clone()),
        _ => None,
    }
}

// ---------------------------------------------------------------------------
// Checking and monitoring
// ---------------------------------------------------------------------------

/// Seconds the monitor waits before trying again after a failed or unusable check.
pub const RETRY_DELAY_SECS: u64 = 5;

/// Seconds the monitor waits between checks once it holds a usable status.
pub const POLL_INTERVAL_SECS: u64 = 28800;

/// A version text that looks like a release number, or a prerelease marker.
pub open spec fn is_valid_version_text(v: Seq<char>) -> bool {
    regex_captures(VERSION_PATTERN@, v) is Some || is_prefix("Prerelease: "@, v)
}

/// An up-to-date or outdated status that carries a well-formed version.
pub open spec fn valid_version_status(s: SpecVersionStatus) -> bool {
    match s {
        SpecVersionStatus::UpToDate(v) => is_valid_version_text(v),
        SpecVersionStatus::Outdated(v) => is_valid_version_text(v),
        _ => false,
    }
}

/// Whether a status is an up-to-date or outdated one with a well-formed version.
pub fn is_valid_version_status(status: &VersionStatus) -> (r: bool)
    ensures
        r == valid_version_status(status@),
{
    match status {
        VersionStatus::UpToDate(v) | VersionStatus::Outdated(v) => {
            captures(VERSION_PATTERN, v.as_str()).is_some() || starts_with(
                v.as_str(),
                "Prerelease: ",
            )
        },
        _ => false,
    }
}

/// What the version monitor does after one check.
#[derive(Debug, PartialEq, Eq)]
pub enum MonitorAction {
    /// Hand the status to the tray, then wait `POLL_INTERVAL_SECS`.
    Deliver(VersionStatus),
    /// Wait `RETRY_DELAY_SECS` and check again.
    Retry,
}

/// The value of a check's outcome.
pub open spec fn check_view(check: Option<VersionStatus>) -> Option<SpecVersionStatus> {
    match check {
        Some(s) => Some(s@),
        None => None,
    }
}

/// The action that follows a check: a check that failed (`None`) or gave an
/// unknown status is retried; any other status is delivered.
pub open spec fn monitor_delivers(check: Option<SpecVersionStatus>) -> Option<SpecVersionStatus> {
    match check {
        Some(s) => if s is Unknown {
            None
        } else {
            Some(s)
        },
        None => None,
    }
}

/// The seconds the monitor waits after an action: the polling interval after a
/// delivery, the retry delay after a retry.
pub open spec fn action_wait(a: MonitorAction) -> u64 {
    match a {
        MonitorAction::Deliver(_) => POLL_INTERVAL_SECS,
        MonitorAction::Retry => RETRY_DELAY_SECS,
    }
}

/// The seconds the monitor waits after a check's outcome before the next check.
pub open spec fn monitor_wait(check: Option<SpecVersionStatus>) -> u64 {
    if monitor_delivers(check) is Some {
        POLL_INTERVAL_SECS
    } else {
        RETRY_DELAY_SECS
    }
}

impl MonitorAction {
    /// The seconds to wait after this action before the next check.
    pub fn wait_secs(&self) -> (r: u64)
        ensures
            r == action_wait(*self),
    {
        match self {
            MonitorAction::Deliver(_) => POLL_INTERVAL_SECS,
            MonitorAction::Retry => RETRY_DELAY_SECS,
        }
    }
}

/// Decides the version monitor's next step from the outcome of a check.
pub fn next_monitor_action(check: Option<VersionStatus>) -> (r: MonitorAction)
    ensures
        monitor_delivers(check_view(check)) matches Some(s) ==> r matches MonitorAction::Deliver(d) && d@ == s,
        monitor_delivers(check_view(check)) is None ==> r is Retry,
        action_wait(r) == monitor_wait(check_view(check)),
{
    match check {
        Some(status) => {
            let is_valid = is_valid_version_status(&status);
            let is_unknown = match status {
                VersionStatus::Unknown => true,
                _ => false,
            };
            if is_valid || !is_unknown {
                MonitorAction::Deliver(status)
            } else {
                MonitorAction::Retry
            }
        },
        None => MonitorAction::Retry,
    }
}

/// Applies the backend's answer to "get-version" (`None` when the request
/// failed): the parsed status is stored and returned.
pub fn check_version(version_state: &mut VersionState, response: Option<&str>) -> (r: Option<
    VersionStatus,
>)
    ensures
        response is None ==> r is None && final(version_state)@ == old(version_state)@,
        response matches Some(text) ==> {
            let noticed = if report_gives_prerelease_notice(text@) {
                with_prerelease_shown(old(version_state)@)
            } else {
                old(version_state)@
            };
            &&& r matches Some(s) && s@ == parsed_version_status(text@)
            &&& final(version_state)@ == with_status(noticed, parsed_version_status(text@))
        },
{
    match response {
        Some(text) => {
            let parsed = parse_version_response(text, version_state);
            version_state.set_status(parsed.clone());
            Some(parsed)
        },
        None => None,
    }
}

} // verus!
