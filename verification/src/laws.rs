//! Properties that hold across the library's operations.
use vstd::prelude::*;
use crate::backend_client::{
    command_outcome, response_error_message, status_line, status_update, subscription_follow_up,
    update_commands_for, update_line, SpecResponseError, SpecStatusLine, SpecUpdateLine,
    RESUBSCRIBE_DELAY_SECS,
};
use crate::cli::asks_for_version;
use crate::logging::{home_dir, log_path};
use crate::patterns::{group_or_unknown, regex_captures, COMBINED_PATTERN, PRERELEASE_PATTERN};
use crate::text::{
    contains, is_first_occurrence, is_prefix, is_whitespace,
    lemma_first_occurrence_exists, lemma_first_occurrence_unique, lemma_split_once_at, occurs_at,
    split_once, strip_prefix, trim, trim_end, trim_start,
};
use crate::tray::{
    agent_text, announced_prerelease, connection_text, initial_tray, menu_request,
    progress_shown, status_shown, update_finished, update_started, version_shown, MenuRequest,
    SpecMenuEntry, SpecTrayState, StatusIcon,
};
use crate::version_checker::{
    combined_from_captures, initial_version_state, monitor_delivers, monitor_wait,
    offered_prerelease, parsed_version_status, prerelease_from_captures,
    report_gives_prerelease_notice, report_kind, text_after_comma, update_enabled, update_title,
    version_report_body, version_title, with_prerelease_shown, with_status, SpecVersionState,
    SpecVersionStatus, POLL_INTERVAL_SECS, RETRY_DELAY_SECS,
};

verus! {

/// The separator `", "` occurs at index `i` of `a + ", " + b` when it occurs nowhere in `a`,
/// with `i == a.len()` the leftmost place.
proof fn lemma_comma_split(a: Seq<char>, b: Seq<char>)
    requires
        !contains(a, ", "@),
    ensures
        split_once(a + ", "@ + b, ", "@) == Some((a, b)),
{
    reveal_strlit(", ");
    let sep = ", "@;
    let s = a + sep + b;
    let n = a.len() as int;
    assert(s.subrange(n, n + 2) =~= sep);
    assert forall|j: int| 0 <= j < n implies !occurs_at(s, sep, j) by {
        if occurs_at(s, sep, j) {
            if j + 2 <= n {
                assert(a.subrange(j, j + 2) =~= s.subrange(j, j + 2));
                assert(occurs_at(a, sep, j));
            } else {
                assert(s.subrange(j, j + 2)[1] == s[n]);
                assert(s[n] == ',');
            }
        }
    }
    assert(is_first_occurrence(s, sep, n));
    lemma_split_once_at(s, sep, n);
    assert(s.take(n) =~= a);
    assert(s.skip(n + 2) =~= b);
}

/// A status line as the backend writes it, "STATUS_UPDATE: <status>, <connection>",
/// reads back as the pair it was written from, whenever the agent status holds no ", ".
pub proof fn law_status_update_round_trip(status: Seq<char>, connection: Seq<char>)
    requires
        !contains(status, ", "@),
    ensures
        status_update("STATUS_UPDATE: "@ + status + ", "@ + connection) == Some((status, connection)),
{
    reveal_strlit("STATUS_UPDATE: ");
    reveal_strlit("STATUS_UPDATE:");
    reveal_strlit(": ");
    let head = "STATUS_UPDATE: "@;
    let data = status + ", "@ + connection;
    let line = head + data;
    assert(line =~= "STATUS_UPDATE: "@ + status + ", "@ + connection);
    assert(line.subrange(0, 14) =~= "STATUS_UPDATE:"@);
    assert(line.subrange(13, 15) =~= ": "@);
    assert forall|j: int| 0 <= j < 13 implies !occurs_at(line, ": "@, j) by {
        assert(line.subrange(j, j + 2)[0] == line[j]);
        assert(line[j] == head[j]);
    }
    assert(is_first_occurrence(line, ": "@, 13));
    lemma_split_once_at(line, ": "@, 13);
    assert(line.skip(15) =~= data);
    lemma_comma_split(status, connection);
}

/// A text without commas holds no ", ".
proof fn lemma_no_comma(s: Seq<char>)
    requires
        forall|i: int| 0 <= i < s.len() ==> s[i] != ',',
    ensures
        !contains(s, ", "@),
{
    reveal_strlit(", ");
    assert forall|j: int| !occurs_at(s, ", "@, j) by {
        if occurs_at(s, ", "@, j) {
            assert(s.subrange(j, j + 2)[0] == s[j]);
        }
    }
}

/// A text that holds `q` holds every prefix of `q`.
proof fn lemma_contains_prefix(s: Seq<char>, p: Seq<char>, q: Seq<char>)
    requires
        is_prefix(p, q),
        contains(s, q),
    ensures
        contains(s, p),
{
    let i = choose|i: int| occurs_at(s, q, i);
    assert(s.subrange(i, i + p.len()) =~= q.subrange(0, p.len() as int));
    assert(occurs_at(s, p, i));
}

/// A report that is tagged with "VERSION_CHECK: " is read without the tag.
proof fn lemma_tagged_body(body: Seq<char>)
    ensures
        version_report_body("VERSION_CHECK: "@ + body) == body,
{
    let tagged = "VERSION_CHECK: "@ + body;
    assert(tagged.subrange(0, "VERSION_CHECK: "@.len() as int) =~= "VERSION_CHECK: "@);
    assert(tagged.skip("VERSION_CHECK: "@.len() as int) =~= body);
}

/// A text that starts with a capital U, O or P holds no "VERSION_CHECK: " tag.
proof fn lemma_untagged_body(body: Seq<char>)
    requires
        body.len() > 0,
        body[0] == 'U' || body[0] == 'O' || body[0] == 'P',
    ensures
        version_report_body(body) == body,
{
    reveal_strlit("VERSION_CHECK: ");
    if is_prefix("VERSION_CHECK: "@, body) {
        assert(body.subrange(0, 15)[0] == body[0]);
    }
}

/// The backend's report "Up to date, <version>", tagged or not, reads as an
/// up-to-date status with that version, whenever the report mentions neither
/// "Outdated" nor "Prerelease available"; it gives no prerelease notice.
pub proof fn law_up_to_date_report(version: Seq<char>)
    requires
        !contains("Up to date, "@ + version, "Outdated"@),
        !contains("Up to date, "@ + version, "Prerelease available"@),
    ensures
        parsed_version_status("VERSION_CHECK: "@ + ("Up to date, "@ + version))
            == SpecVersionStatus::UpToDate(version),
        parsed_version_status("Up to date, "@ + version) == SpecVersionStatus::UpToDate(version),
        !report_gives_prerelease_notice("VERSION_CHECK: "@ + ("Up to date, "@ + version)),
        !report_gives_prerelease_notice("Up to date, "@ + version),
{
    reveal_strlit("Up to date, ");
    reveal_strlit(", ");
    reveal_strlit("Up to date");
    reveal_strlit("Outdated");
    reveal_strlit("Outdated with Prerelease available");
    let body = "Up to date, "@ + version;
    lemma_tagged_body(body);
    lemma_untagged_body(body);
    if contains(body, "Outdated with Prerelease available"@) {
        assert("Outdated with Prerelease available"@.subrange(0, 8) =~= "Outdated"@);
        lemma_contains_prefix(body, "Outdated"@, "Outdated with Prerelease available"@);
    }
    assert(body.subrange(0, 10) =~= "Up to date"@);
    assert(occurs_at(body, "Up to date"@, 0));
    assert(report_kind(body) is UpToDate);
    lemma_no_comma("Up to date"@);
    assert(body =~= "Up to date"@ + ", "@ + version);
    lemma_comma_split("Up to date"@, version);
    assert(text_after_comma(body) == version);
}

/// The backend's report "Outdated, <version>", tagged or not, reads as an outdated
/// status with that version, whenever it does not announce a prerelease as well.
pub proof fn law_outdated_report(version: Seq<char>)
    requires
        !contains("Outdated, "@ + version, "Outdated with Prerelease available"@),
    ensures
        parsed_version_status("VERSION_CHECK: "@ + ("Outdated, "@ + version))
            == SpecVersionStatus::Outdated(version),
        parsed_version_status("Outdated, "@ + version) == SpecVersionStatus::Outdated(version),
        !report_gives_prerelease_notice("VERSION_CHECK: "@ + ("Outdated, "@ + version)),
        !report_gives_prerelease_notice("Outdated, "@ + version),
{
    reveal_strlit("Outdated, ");
    reveal_strlit(", ");
    reveal_strlit("Outdated");
    let body = "Outdated, "@ + version;
    lemma_tagged_body(body);
    lemma_untagged_body(body);
    assert(body.subrange(0, 8) =~= "Outdated"@);
    assert(occurs_at(body, "Outdated"@, 0));
    assert(report_kind(body) is Outdated);
    lemma_no_comma("Outdated"@);
    assert(body =~= "Outdated"@ + ", "@ + version);
    lemma_comma_split("Outdated"@, version);
}

/// Reading the version status gives back what was last written, and writing it
/// leaves the prerelease flag alone.
pub proof fn law_status_read_after_write(state: SpecVersionState, status: SpecVersionStatus)
    ensures
        with_status(state, status).status == status,
        with_status(state, status).prerelease_shown == state.prerelease_shown,
        with_status(with_status(state, status), status) == with_status(state, status),
{
}

/// Once the prerelease notice is given it stays given: marking again changes
/// nothing, and neither writing a status nor parsing any report clears it.
pub proof fn law_prerelease_notice_sticks(
    state: SpecVersionState,
    status: SpecVersionStatus,
    response: Seq<char>,
)
    requires
        state.prerelease_shown,
    ensures
        with_prerelease_shown(state) == state,
        with_status(state, status).prerelease_shown,
        (if report_gives_prerelease_notice(response) {
            with_prerelease_shown(state)
        } else {
            state
        }) == state,
{
}

/// The version of a combined status always carries its "v" (or the "Prerelease:" marker).
pub proof fn law_combined_version_is_tagged(caps: Option<Seq<Option<Seq<char>>>>)
    ensures
        combined_from_captures(caps) matches SpecVersionStatus::Combined(current, _, _) ==> (
        is_prefix("v"@, current) || is_prefix("Prerelease:"@, current)),
{
    match caps {
        Some(groups) => {
            let current = crate::patterns::group_or_unknown(groups, 1);
            if !is_prefix("v"@, current) && !is_prefix("Prerelease:"@, current) {
                reveal_strlit("v");
                assert(("v"@ + current).subrange(0, 1) =~= "v"@);
            }
        },
        None => {},
    }
}

/// The update entry can be clicked exactly when its text offers an update.
pub proof fn law_update_entry_consistent(status: SpecVersionStatus)
    ensures
        update_enabled(status) <==> (update_title(status) == "Update Available"@
            || update_title(status) == "Update Available (Stable)"@),
        offered_prerelease(status) is Some <==> (status is PrereleaseAvailable
            || status is Combined),
{
    reveal_strlit("Update Available");
    reveal_strlit("Update Available (Stable)");
    reveal_strlit("Up to date");
    reveal_strlit("---");
    if !update_enabled(status) {
        if status is UpToDate || status is PrereleaseAvailable {
            assert("Up to date"@[2] != "Update Available"@[2]);
            assert("Up to date"@.len() != "Update Available (Stable)"@.len());
        } else {
            assert("---"@.len() != "Update Available"@.len());
            assert("---"@.len() != "Update Available (Stable)"@.len());
        }
    }
}

/// The version monitor never hands an unknown status to the tray, and hands on
/// every other status it obtains.
pub proof fn law_monitor_delivers_only_known(check: Option<SpecVersionStatus>)
    ensures
        monitor_delivers(check) matches Some(s) ==> !(s is Unknown) && check == Some(s),
        check matches Some(s) ==> (!(s is Unknown) ==> monitor_delivers(check) == Some(s)),
{
}

/// Only one update runs at a time: while one runs a second request is refused and
/// changes nothing; progress reports do not end it; once it has finished, a new
/// one can start.
pub proof fn law_one_update_at_a_time(
    tray: SpecTrayState,
    progress: Seq<char>,
    succeeded: bool,
)
    requires
        !tray.update_in_progress,
    ensures
        update_started(tray).update_in_progress,
        update_started(update_started(tray)) == update_started(tray),
        progress_shown(update_started(tray), progress).update_in_progress,
        update_started(progress_shown(update_started(tray), progress)) == progress_shown(
            update_started(tray),
            progress,
        ),
        !update_finished(progress_shown(update_started(tray), progress), succeeded).update_in_progress,
        update_started(
            update_finished(progress_shown(update_started(tray), progress), succeeded),
        ).update_in_progress,
{
}

/// Status reports and version reports touch different entries: applying them in
/// either order gives the same tray.
pub proof fn law_status_and_version_commute(
    tray: SpecTrayState,
    status: Seq<char>,
    connection: Seq<char>,
    version: SpecVersionStatus,
)
    ensures
        version_shown(status_shown(tray, status, connection), version) == status_shown(
            version_shown(tray, version),
            status,
            connection,
        ),
{
}

/// Once the prerelease notice was given, no version report announces a prerelease again.
pub proof fn law_prerelease_announced_once(tray: SpecTrayState, version: SpecVersionStatus)
    requires
        tray.version_state.prerelease_shown,
    ensures
        announced_prerelease(tray, version) is None,
        announced_prerelease(version_shown(tray, version), version) is None,
{
}

/// An answer that is accepted never is an error line, and an error line is never accepted.
pub proof fn law_command_errors_are_rejected(line: Seq<char>)
    ensures
        command_outcome(Some(line)) matches Ok(text) ==> !is_prefix("ERROR:"@, text),
        is_prefix("ERROR:"@, trim(line)) ==> command_outcome(Some(line)) is Err,
{
}

/// A progress line "UPDATE_PROGRESS: <status>", as the backend writes it (with no
/// whitespace around it), reads back as that status, and ends the stream exactly
/// when the status is "Complete", "Error" or an "ERROR:" message.
pub proof fn law_update_progress_round_trip(status: Seq<char>)
    requires
        trim("UPDATE_PROGRESS: "@ + status) == "UPDATE_PROGRESS: "@ + status,
    ensures
        update_line("UPDATE_PROGRESS: "@ + status) == (SpecUpdateLine::Progress {
            status,
            last: status == "Complete"@ || status == "Error"@ || (6 <= status.len()
                && status.take(6) == "ERROR:"@),
        }),
{
    reveal_strlit("UPDATE_PROGRESS: ");
    reveal_strlit("UPDATE_PROGRESS:");
    reveal_strlit("ERROR:");
    let line = "UPDATE_PROGRESS: "@ + status;
    assert(line.subrange(0, 16) =~= "UPDATE_PROGRESS:"@);
    assert(line.subrange(0, 17) =~= "UPDATE_PROGRESS: "@);
    assert(line.skip(17) =~= status);
}

/// A status line as the backend writes it (with no whitespace around it) is read
/// as a status update carrying its two fields, whenever the agent status holds no ", ".
pub proof fn law_status_line_round_trip(status: Seq<char>, connection: Seq<char>)
    requires
        !contains(status, ", "@),
        trim("STATUS_UPDATE: "@ + status + ", "@ + connection) == "STATUS_UPDATE: "@ + status
            + ", "@ + connection,
    ensures
        status_line("STATUS_UPDATE: "@ + status + ", "@ + connection) == SpecStatusLine::Update(
            status,
            connection,
        ),
{
    law_status_update_round_trip(status, connection);
}

/// The green status dot shows exactly when the entries read "Agent: Active" and
/// "Connection: Connected".
pub proof fn law_status_dot_matches_entries(
    tray: SpecTrayState,
    status: Seq<char>,
    connection: Seq<char>,
)
    ensures
        (status_shown(tray, status, connection).status_icon == StatusIcon::Enabled) <==> (
        agent_text(status) == "Agent: Active"@ && connection_text(connection)
            == "Connection: Connected"@),
{
    reveal_strlit("Agent: Active");
    reveal_strlit("Agent: ");
    reveal_strlit("Active");
    reveal_strlit("Inactive");
    reveal_strlit("Connection: Connected");
    reveal_strlit("Connection: ");
    reveal_strlit("Connected");
    reveal_strlit("Disconnected");
    assert("Agent: "@ + "Active"@ =~= "Agent: Active"@);
    assert(("Agent: "@ + "Inactive"@).len() != "Agent: Active"@.len());
    assert("Connection: "@ + "Connected"@ =~= "Connection: Connected"@);
    assert(("Connection: "@ + "Disconnected"@).len() != "Connection: Connected"@.len());
}

/// The version monitor's timing: after it hands a status to the tray it waits
/// the polling interval (8 hours) before the next check, so two deliveries are at
/// least that far apart; after a failed or unknown check it tries again after the
/// retry delay (5 seconds).
pub proof fn law_monitor_timing(check: Option<SpecVersionStatus>)
    ensures
        monitor_delivers(check) is Some ==> monitor_wait(check) == POLL_INTERVAL_SECS,
        monitor_delivers(check) is None ==> monitor_wait(check) == RETRY_DELAY_SECS,
        (check is None || check == Some(SpecVersionStatus::Unknown)) ==> monitor_wait(check)
            == RETRY_DELAY_SECS,
        POLL_INTERVAL_SECS == 8 * 60 * 60,
        RETRY_DELAY_SECS == 5,
{
}

/// The status subscription's cycle: a session that fails is followed by the
/// report ("Unknown", "Unknown"), one that ends normally by no report, and either
/// way the next session starts after the resubscribe delay (5 seconds).
pub proof fn law_subscription_cycle(failed: bool)
    ensures
        subscription_follow_up(failed).0 is Some <==> failed,
        failed ==> subscription_follow_up(failed).0 == Some(("Unknown"@, "Unknown"@)),
        subscription_follow_up(failed).1 == RESUBSCRIBE_DELAY_SECS,
        RESUBSCRIBE_DELAY_SECS == 5,
{
}

// ---------------------------------------------------------------------------
// Results in concrete terms
// ---------------------------------------------------------------------------

/// A prerelease report whose pattern matches reads as a prerelease status that
/// carries the "current" group as the installed version and the first group as
/// the prerelease, whatever their text, tagged with "VERSION_CHECK: " or not; it
/// gives the prerelease notice.
pub proof fn law_prerelease_report(
    body: Seq<char>,
    groups: Seq<Option<Seq<char>>>,
    prerelease: Seq<char>,
    current: Seq<char>,
)
    requires
        is_prefix("Prerelease available:"@, body),
        !contains(body, "Outdated"@),
        regex_captures(PRERELEASE_PATTERN@, body) == Some(groups),
        groups.len() > 2,
        groups[1] == Some(prerelease),
        groups[2] == Some(current),
    ensures
        parsed_version_status(body) == SpecVersionStatus::PrereleaseAvailable(current, prerelease),
        parsed_version_status("VERSION_CHECK: "@ + body)
            == SpecVersionStatus::PrereleaseAvailable(current, prerelease),
        report_gives_prerelease_notice(body),
        report_gives_prerelease_notice("VERSION_CHECK: "@ + body),
{
    reveal_strlit("Prerelease available:");
    reveal_strlit("Prerelease available");
    reveal_strlit("Outdated");
    reveal_strlit("Outdated with Prerelease available");
    lemma_tagged_body(body);
    assert(body.subrange(0, 21)[0] == body[0]);
    lemma_untagged_body(body);
    if contains(body, "Outdated with Prerelease available"@) {
        assert("Outdated with Prerelease available"@.subrange(0, 8) =~= "Outdated"@);
        lemma_contains_prefix(body, "Outdated"@, "Outdated with Prerelease available"@);
    }
    assert(body.subrange(0, 20) =~= "Prerelease available"@);
    assert(occurs_at(body, "Prerelease available"@, 0));
}

/// Whatever groups the prerelease pattern yields, the status takes group 2 as the
/// installed version and group 1 as the prerelease ("Unknown" for a missing group);
/// no match gives an unknown status.
pub proof fn law_prerelease_groups(groups: Seq<Option<Seq<char>>>, prerelease: Seq<char>, current: Seq<char>)
    ensures
        prerelease_from_captures(None) == SpecVersionStatus::Unknown,
        (groups.len() > 2 && groups[1] == Some(prerelease) && groups[2] == Some(current))
            ==> prerelease_from_captures(Some(groups))
            == SpecVersionStatus::PrereleaseAvailable(current, prerelease),
        groups.len() <= 1 ==> prerelease_from_captures(Some(groups))
            == SpecVersionStatus::PrereleaseAvailable("Unknown"@, "Unknown"@),
{
}

/// A combined report whose pattern matches reads as a combined status with the
/// three groups (the installed version gets a "v" in front unless it has one or
/// is a "Prerelease:" marker), tagged or not; it gives no prerelease notice.
pub proof fn law_combined_report(
    body: Seq<char>,
    groups: Seq<Option<Seq<char>>>,
    current: Seq<char>,
    stable: Seq<char>,
    prerelease: Seq<char>,
)
    requires
        is_prefix("Outdated with Prerelease available"@, body),
        regex_captures(COMBINED_PATTERN@, body) == Some(groups),
        groups.len() > 3,
        groups[1] == Some(current),
        groups[2] == Some(stable),
        groups[3] == Some(prerelease),
    ensures
        parsed_version_status(body) == SpecVersionStatus::Combined(
            if (current.len() > 0 && current[0] == 'v') || (current.len() >= 11 && current.take(11)
                == "Prerelease:"@) {
                current
            } else {
                seq!['v'] + current
            },
            stable,
            prerelease,
        ),
        parsed_version_status("VERSION_CHECK: "@ + body) == parsed_version_status(body),
        !report_gives_prerelease_notice(body),
        !report_gives_prerelease_notice("VERSION_CHECK: "@ + body),
{
    reveal_strlit("Outdated with Prerelease available");
    reveal_strlit("Prerelease:");
    reveal_strlit("v");
    lemma_tagged_body(body);
    assert(body.subrange(0, 34)[0] == body[0]);
    lemma_untagged_body(body);
    assert(body.subrange(0, 34) =~= "Outdated with Prerelease available"@);
    assert(occurs_at(body, "Outdated with Prerelease available"@, 0));
    if current.len() > 0 && current[0] == 'v' {
        assert(current.subrange(0, 1) =~= "v"@);
    }
    if is_prefix("v"@, current) {
        assert(current.subrange(0, 1)[0] == current[0]);
    }
    assert("v"@ =~= seq!['v']);
}

/// The update entry after a version report: clickable exactly for an outdated or
/// combined status, whatever it was before; and its text and the version entry's
/// text for each kind of status.
pub proof fn law_version_entries(tray: SpecTrayState, status: SpecVersionStatus)
    ensures
        version_shown(tray, status).update_item.enabled <==> (status is Outdated
            || status is Combined),
        status matches SpecVersionStatus::UpToDate(v) ==> version_shown(tray, status).version_item.text == v
            && version_shown(tray, status).update_item == (SpecMenuEntry { text: "Up to date"@, enabled: false }),
        status matches SpecVersionStatus::Outdated(v) ==> version_shown(tray, status).version_item.text == v
            && version_shown(tray, status).update_item == (SpecMenuEntry { text: "Update Available"@, enabled: true }),
        status matches SpecVersionStatus::PrereleaseAvailable(v, _) ==> version_shown(tray, status).version_item.text == v
            && version_shown(tray, status).update_item == (SpecMenuEntry { text: "Up to date"@, enabled: false }),
        status matches SpecVersionStatus::Combined(v, _, _) ==> version_shown(tray, status).version_item.text == v
            && version_shown(tray, status).update_item == (SpecMenuEntry { text: "Update Available (Stable)"@, enabled: true }),
        status is Unknown ==> version_shown(tray, status).version_item.text == "v---"@
            && version_shown(tray, status).update_item == (SpecMenuEntry { text: "---"@, enabled: false }),
        version_shown(tray, status).version_item.enabled == tray.version_item.enabled,
        version_shown(tray, status).status_item == tray.status_item,
        version_shown(tray, status).connection_item == tray.connection_item,
        version_shown(tray, status).version_state == tray.version_state,
        version_shown(tray, status).update_in_progress == tray.update_in_progress,
{
}

/// A version report hides the prerelease entries exactly when it says that the
/// installed version is an up-to-date release candidate (its text holds "rc").
pub proof fn law_release_candidate_hides_prerelease(tray: SpecTrayState, status: SpecVersionStatus)
    ensures
        (status matches SpecVersionStatus::UpToDate(v) && exists|i: int| 0 <= i && i + 2 <= v.len() && #[trigger] v.subrange(i, i + 2) == "rc"@)
            ==> version_shown(tray, status).prerelease_item is None
            && version_shown(tray, status).prerelease_update_item is None,
        !(status is UpToDate) ==> version_shown(tray, status).prerelease_item == tray.prerelease_item
            && version_shown(tray, status).prerelease_update_item == tray.prerelease_update_item,
{
    reveal_strlit("rc");
    if let SpecVersionStatus::UpToDate(v) = status {
        if exists|i: int| 0 <= i && i + 2 <= v.len() && #[trigger] v.subrange(i, i + 2) == "rc"@ {
            let i = choose|i: int| 0 <= i && i + 2 <= v.len() && #[trigger] v.subrange(i, i + 2) == "rc"@;
            assert(occurs_at(v, "rc"@, i));
        }
    }
}

/// The prerelease that a version report announces: the offered prerelease of a
/// prerelease or combined status, and only while no notice was given yet.
pub proof fn law_announced_prerelease(tray: SpecTrayState, status: SpecVersionStatus)
    ensures
        tray.version_state.prerelease_shown ==> announced_prerelease(tray, status) is None,
        !tray.version_state.prerelease_shown ==> announced_prerelease(tray, status) == match status {
            SpecVersionStatus::PrereleaseAvailable(_, p) => Some(p),
            SpecVersionStatus::Combined(_, _, p) => Some(p),
            _ => None,
        },
{
}

/// The agent entry reads "Agent: Active" exactly when the agent status is
/// "Active", whatever the connection; the connection entry reads "Connection:
/// Connected" exactly when the connection status is "Connected", whatever the
/// agent; the green dot shows exactly when both hold; nothing else changes.
pub proof fn law_status_entries(
    tray: SpecTrayState,
    status: Seq<char>,
    connection: Seq<char>,
)
    ensures
        status_shown(tray, status, connection).status_item.text == (if status == "Active"@ {
            "Agent: Active"@
        } else {
            "Agent: Inactive"@
        }),
        status_shown(tray, status, connection).connection_item.text == (if connection
            == "Connected"@ {
            "Connection: Connected"@
        } else {
            "Connection: Disconnected"@
        }),
        status_shown(tray, status, connection).status_icon == (if status == "Active"@ && connection
            == "Connected"@ {
            StatusIcon::Enabled
        } else {
            StatusIcon::Disabled
        }),
        status_shown(tray, status, connection).status_item.enabled == tray.status_item.enabled,
        status_shown(tray, status, connection).connection_item.enabled == tray.connection_item.enabled,
        status_shown(tray, status, connection).update_item == tray.update_item,
        status_shown(tray, status, connection).version_item == tray.version_item,
        status_shown(tray, status, connection).version_state == tray.version_state,
        status_shown(tray, status, connection).update_in_progress == tray.update_in_progress,
{
    reveal_strlit("Agent: ");
    reveal_strlit("Active");
    reveal_strlit("Inactive");
    reveal_strlit("Agent: Active");
    reveal_strlit("Agent: Inactive");
    reveal_strlit("Connection: ");
    reveal_strlit("Connected");
    reveal_strlit("Disconnected");
    reveal_strlit("Connection: Connected");
    reveal_strlit("Connection: Disconnected");
    assert("Agent: "@ + "Active"@ =~= "Agent: Active"@);
    assert("Agent: "@ + "Inactive"@ =~= "Agent: Inactive"@);
    assert("Connection: "@ + "Connected"@ =~= "Connection: Connected"@);
    assert("Connection: "@ + "Disconnected"@ =~= "Connection: Disconnected"@);
}

/// The entries while an update runs: starting shows "Starting Update..." and
/// disables the entry, progress shows "Updating: <progress>", a failure shows
/// "Update Failed" and enables the entry, a success leaves the entry as it was;
/// the status and version entries are never touched.
pub proof fn law_update_entries(tray: SpecTrayState, progress: Seq<char>)
    ensures
        !tray.update_in_progress ==> update_started(tray).update_item == (SpecMenuEntry {
            text: "Starting Update..."@,
            enabled: false,
        }),
        tray.update_in_progress ==> update_started(tray) == tray,
        progress_shown(tray, progress).update_item.text == "Updating: "@ + progress,
        progress_shown(tray, progress).update_item.enabled == tray.update_item.enabled,
        update_finished(tray, false).update_item == (SpecMenuEntry {
            text: "Update Failed"@,
            enabled: true,
        }),
        update_finished(tray, true).update_item == tray.update_item,
        !update_finished(tray, true).update_in_progress,
        !update_finished(tray, false).update_in_progress,
        update_started(tray).status_item == tray.status_item,
        update_started(tray).version_item == tray.version_item,
        update_finished(tray, false).status_item == tray.status_item,
        update_finished(tray, false).version_item == tray.version_item,
{
}

/// Menu clicks: "update" asks for a stable update, "prerelease_update" for a
/// prerelease update, "quit" for leaving the application, anything else for nothing.
pub proof fn law_menu_requests(id: Seq<char>)
    ensures
        menu_request("update"@) == Some(MenuRequest::Update(false)),
        menu_request("prerelease_update"@) == Some(MenuRequest::Update(true)),
        menu_request("quit"@) == Some(MenuRequest::Quit),
        (id != "update"@ && id != "prerelease_update"@ && id != "quit"@) ==> menu_request(id) is None,
{
    reveal_strlit("update");
    reveal_strlit("prerelease_update");
    reveal_strlit("quit");
    assert("prerelease_update"@.len() != "update"@.len());
    assert("quit"@.len() != "update"@.len());
    assert("quit"@.len() != "prerelease_update"@.len());
}

/// The tray as it is built: unknown agent and connection, no update offered, no
/// version known, every entry disabled, the gray dot, no update running.
pub proof fn law_initial_tray(enabled_icon: Seq<u8>, disabled_icon: Seq<u8>)
    ensures
        initial_tray(enabled_icon, disabled_icon).status_item == (SpecMenuEntry { text: "Agent: Unknown"@, enabled: false }),
        initial_tray(enabled_icon, disabled_icon).connection_item == (SpecMenuEntry { text: "Connection: Unknown"@, enabled: false }),
        initial_tray(enabled_icon, disabled_icon).update_item == (SpecMenuEntry { text: "---"@, enabled: false }),
        initial_tray(enabled_icon, disabled_icon).version_item == (SpecMenuEntry { text: "v---"@, enabled: false }),
        initial_tray(enabled_icon, disabled_icon).status_icon == StatusIcon::Disabled,
        !initial_tray(enabled_icon, disabled_icon).update_in_progress,
        initial_tray(enabled_icon, disabled_icon).version_state.status == SpecVersionStatus::Unknown,
        !initial_tray(enabled_icon, disabled_icon).version_state.prerelease_shown,
        initial_tray(enabled_icon, disabled_icon).enabled_icon == enabled_icon,
        initial_tray(enabled_icon, disabled_icon).disabled_icon == disabled_icon,
{
}

/// The home directory: a set `HOME` always wins, else `USERPROFILE`, else ".";
/// and the log file lies in ".wazuh" under it (outside Windows), or under
/// "wazuh\logs" of `APPDATA` (on Windows, by default the roaming application data).
pub proof fn law_log_location(
    home: Seq<char>,
    user_profile: Option<Seq<char>>,
    app_data: Seq<char>,
)
    ensures
        home_dir(Some(home), user_profile) == home,
        user_profile matches Some(u) ==> home_dir(None, user_profile) == u,
        home_dir(None, None) == seq!['.'],
        log_path(home, false, None) == home + "/.wazuh/wazuh-agent-status-client.log"@,
        log_path(home, false, Some(app_data)) == home + "/.wazuh/wazuh-agent-status-client.log"@,
        log_path(home, true, Some(app_data)) == app_data
            + "\\wazuh\\logs\\wazuh-agent-status-client.log"@,
        log_path(home, true, None) == home + "\\AppData\\Roaming"@
            + "\\wazuh\\logs\\wazuh-agent-status-client.log"@,
{
    reveal_strlit(".");
    assert("."@ =~= seq!['.']);
}

/// A command's answer: no line means no response; otherwise the line is trimmed,
/// and the trimmed line is the answer unless it starts with "ERROR:", in which
/// case it is the server's error.
pub proof fn law_command_answers(line: Seq<char>)
    ensures
        command_outcome(None) == Err::<Seq<char>, _>(SpecResponseError::NoResponse),
        !(6 <= trim(line).len() && trim(line).take(6) == "ERROR:"@) ==> command_outcome(Some(line))
            == Ok::<Seq<char>, SpecResponseError>(trim(line)),
        (6 <= trim(line).len() && trim(line).take(6) == "ERROR:"@) ==> command_outcome(Some(line))
            == Err::<Seq<char>, _>(SpecResponseError::ServerError(trim(line))),
{
    reveal_strlit("ERROR:");
}

/// Trimming removes exactly the whitespace at both ends: the result is a stretch
/// of the text, everything before and after it is whitespace, and it neither
/// starts nor ends with whitespace.
pub proof fn law_trim_removes_outer_whitespace(s: Seq<char>)
    ensures
        exists|a: int, b: int|
            #![trigger s.subrange(a, b)]
            0 <= a <= b <= s.len() && trim(s) == s.subrange(a, b) && (forall|i: int|
                0 <= i < a ==> is_whitespace(s[i])) && (forall|i: int|
                b <= i < s.len() ==> is_whitespace(s[i])) && (a < b ==> !is_whitespace(s[a])
                && !is_whitespace(s[b - 1])),
{
    let a = lemma_trim_start_index(s);
    let rest = s.skip(a);
    let k = lemma_trim_end_index(rest);
    assert(rest.take(k) =~= s.subrange(a, a + k));
    assert forall|i: int| a + k <= i < s.len() implies is_whitespace(s[i]) by {
        assert(s[i] == rest[i - a]);
    }
    if 0 < k {
        assert(s[a] == rest[0]);
        assert(s[a + k - 1] == rest[k - 1]);
    }
    assert(trim(s) == s.subrange(a, a + k));
}

proof fn lemma_trim_start_index(s: Seq<char>) -> (a: int)
    ensures
        0 <= a <= s.len(),
        trim_start(s) == s.skip(a),
        forall|i: int| 0 <= i < a ==> is_whitespace(s[i]),
        a < s.len() ==> !is_whitespace(s[a]),
    decreases s.len(),
{
    if s.len() > 0 && is_whitespace(s[0]) {
        let a1 = lemma_trim_start_index(s.drop_first());
        assert(s.drop_first().skip(a1) =~= s.skip(a1 + 1));
        assert forall|i: int| 0 <= i < a1 + 1 implies is_whitespace(s[i]) by {
            if i > 0 {
                assert(s[i] == s.drop_first()[i - 1]);
            }
        }
        if a1 + 1 < s.len() {
            assert(s[a1 + 1] == s.drop_first()[a1]);
        }
        a1 + 1
    } else {
        assert(s.skip(0) =~= s);
        0
    }
}

proof fn lemma_trim_end_index(s: Seq<char>) -> (b: int)
    ensures
        0 <= b <= s.len(),
        trim_end(s) == s.take(b),
        forall|i: int| b <= i < s.len() ==> is_whitespace(s[i]),
        b > 0 ==> !is_whitespace(s[b - 1]),
    decreases s.len(),
{
    if s.len() > 0 && is_whitespace(s.last()) {
        let b1 = lemma_trim_end_index(s.drop_last());
        assert(s.drop_last().take(b1) =~= s.take(b1));
        assert forall|i: int| b1 <= i < s.len() implies is_whitespace(s[i]) by {
            if i < s.len() - 1 {
                assert(s[i] == s.drop_last()[i]);
            }
        }
        if b1 > 0 {
            assert(s[b1 - 1] == s.drop_last()[b1 - 1]);
        }
        b1
    } else {
        assert(s.take(s.len() as int) =~= s);
        s.len() as int
    }
}

/// The whitespace that trimming removes is exactly the Unicode `White_Space` set.
pub proof fn law_whitespace_set(c: char)
    ensures
        is_whitespace(c) <==> (c == '\t' || c == '\n' || c == '\u{0B}' || c == '\u{0C}' || c == '\r'
            || c == ' ' || c == '\u{85}' || c == '\u{A0}' || c == '\u{1680}' || ('\u{2000}' <= c
            && c <= '\u{200A}') || c == '\u{2028}' || c == '\u{2029}' || c == '\u{202F}' || c
            == '\u{205F}' || c == '\u{3000}'),
{
}

/// Splitting at a separator that occurs cuts the text around its leftmost
/// occurrence: the parts with the separator between them give back the text, and
/// the separator occurs nowhere earlier; a separator that never occurs gives no split.
pub proof fn law_split_at_leftmost(s: Seq<char>, sep: Seq<char>)
    ensures
        split_once(s, sep) is None <==> forall|j: int|
            0 <= j && j + sep.len() <= s.len() ==> #[trigger] s.subrange(j, j + sep.len()) != sep,
        split_once(s, sep) matches Some(parts) ==> s == parts.0 + sep + parts.1 && forall|j: int|
            0 <= j < parts.0.len() ==> #[trigger] s.subrange(j, j + sep.len()) != sep,
{
    if contains(s, sep) {
        let i0 = choose|i: int| occurs_at(s, sep, i);
        lemma_first_occurrence_exists(s, sep, i0);
        let k = choose|k: int| is_first_occurrence(s, sep, k);
        lemma_first_occurrence_unique(s, sep, k);
        assert(s =~= s.take(k) + sep + s.skip(k + sep.len()));
        assert forall|j: int| 0 <= j < k implies #[trigger] s.subrange(j, j + sep.len()) != sep by {
            assert(!occurs_at(s, sep, j));
        }
        assert(!(forall|j: int|
            0 <= j && j + sep.len() <= s.len() ==> #[trigger] s.subrange(j, j + sep.len()) != sep)) by {
            assert(occurs_at(s, sep, k));
        }
    } else {
        assert forall|j: int| 0 <= j && j + sep.len() <= s.len() implies #[trigger] s.subrange(j, j + sep.len()) != sep by {
            assert(!occurs_at(s, sep, j));
        }
    }
}

/// Stripping a prefix gives the rest of the text after it, and nothing when the
/// text does not start with it.
pub proof fn law_strip_prefix(p: Seq<char>, s: Seq<char>)
    ensures
        strip_prefix(p + s, p) == Some(s),
        !(p.len() <= s.len() && s.take(p.len() as int) == p) ==> strip_prefix(s, p) is None,
{
    assert((p + s).subrange(0, p.len() as int) =~= p);
    assert((p + s).skip(p.len() as int) =~= s);
}

/// The version entry's text for each status, and the groups a match of the
/// combined pattern yields fill its three fields ("Unknown" for a missing group).
pub proof fn law_version_titles(groups: Seq<Option<Seq<char>>>, i: int)
    ensures
        (0 <= i < groups.len() && groups[i] is Some) ==> group_or_unknown(groups, i) == groups[i]->Some_0,
        !(0 <= i < groups.len() && groups[i] is Some) ==> group_or_unknown(groups, i) == "Unknown"@,
        version_title(SpecVersionStatus::Unknown) == "v---"@,
        combined_from_captures(None) == SpecVersionStatus::Outdated("Unknown"@),
{
}

/// The update commands: "update" then "initiate-update-stream" for the stable
/// channel, "update-prerelease" then "initiate-prerelease-update-stream" for prereleases.
pub proof fn law_update_commands()
    ensures
        update_commands_for(false) == ("update"@, "initiate-update-stream"@),
        update_commands_for(true) == ("update-prerelease"@, "initiate-prerelease-update-stream"@),
{
}

/// The messages of command errors.
pub proof fn law_error_messages(text: Seq<char>)
    ensures
        response_error_message(SpecResponseError::ServerError(text)) == "Server error: "@ + text,
        response_error_message(SpecResponseError::NoResponse) == "No response from server"@,
{
}

/// What any line of the status stream means: once trimmed, a status update gives
/// its two fields, else an "ERROR:" line is the server's error, else it is skipped;
/// and only a line that starts with "STATUS_UPDATE:" is a status update.
pub proof fn law_status_lines(line: Seq<char>, response: Seq<char>)
    ensures
        status_update(trim(line)) matches Some(p) ==> status_line(line) == SpecStatusLine::Update(
            p.0,
            p.1,
        ),
        (status_update(trim(line)) is None && 6 <= trim(line).len() && trim(line).take(6)
            == "ERROR:"@) ==> status_line(line) == SpecStatusLine::ServerError(trim(line)),
        (status_update(trim(line)) is None && !(6 <= trim(line).len() && trim(line).take(6)
            == "ERROR:"@)) ==> status_line(line) == SpecStatusLine::Other,
        status_update(response) is Some ==> 14 <= response.len() && response.take(14)
            == "STATUS_UPDATE:"@,
{
    reveal_strlit("ERROR:");
    reveal_strlit("STATUS_UPDATE:");
}

/// What any line of the update stream means: once trimmed, a line that starts
/// with "UPDATE_PROGRESS:" is progress, whose status is the text after
/// "UPDATE_PROGRESS: " (the whole line when that space is missing) and which ends
/// the stream exactly for "Complete", "Error" or an "ERROR:" status; any other
/// line is skipped.
pub proof fn law_update_lines(line: Seq<char>)
    ensures
        !(16 <= trim(line).len() && trim(line).take(16) == "UPDATE_PROGRESS:"@) ==> update_line(
            line,
        ) == SpecUpdateLine::Other,
        (17 <= trim(line).len() && trim(line).take(17) == "UPDATE_PROGRESS: "@) ==> update_line(
            line,
        ) == (SpecUpdateLine::Progress {
            status: trim(line).skip(17),
            last: trim(line).skip(17) == "Complete"@ || trim(line).skip(17) == "Error"@ || (6
                <= trim(line).skip(17).len() && trim(line).skip(17).take(6) == "ERROR:"@),
        }),
        (16 <= trim(line).len() && trim(line).take(16) == "UPDATE_PROGRESS:"@ && !(17 <= trim(
            line,
        ).len() && trim(line).take(17) == "UPDATE_PROGRESS: "@)) ==> update_line(line) == (
        SpecUpdateLine::Progress {
            status: trim(line),
            last: trim(line) == "Complete"@ || trim(line) == "Error"@ || (6 <= trim(line).len()
                && trim(line).take(6) == "ERROR:"@),
        }),
{
    reveal_strlit("UPDATE_PROGRESS:");
    reveal_strlit("UPDATE_PROGRESS: ");
    reveal_strlit("ERROR:");
    let t = trim(line);
    if 17 <= t.len() && t.take(17) == "UPDATE_PROGRESS: "@ {
        assert(t.take(16) =~= "UPDATE_PROGRESS:"@);
    }
}

/// A report tagged "VERSION_CHECK: " is read without the tag; an untagged report is read whole.
pub proof fn law_report_tag(body: Seq<char>, response: Seq<char>)
    ensures
        version_report_body("VERSION_CHECK: "@ + body) == body,
        !(15 <= response.len() && response.take(15) == "VERSION_CHECK: "@) ==> version_report_body(
            response,
        ) == response,
{
    reveal_strlit("VERSION_CHECK: ");
    lemma_tagged_body(body);
}

/// A report that mentions none of "Outdated", "Prerelease available" and "Up to
/// date" reads as unknown, and so does a "Prerelease available" report that does
/// not start with "Prerelease available:"; neither gives the prerelease notice.
pub proof fn law_unrecognised_report(response: Seq<char>)
    ensures
        (!contains(version_report_body(response), "Outdated"@) && !contains(
            version_report_body(response),
            "Prerelease available"@,
        ) && !contains(version_report_body(response), "Up to date"@)) ==> parsed_version_status(
            response,
        ) == SpecVersionStatus::Unknown && !report_gives_prerelease_notice(response),
        (!contains(version_report_body(response), "Outdated"@) && contains(
            version_report_body(response),
            "Prerelease available"@,
        ) && !is_prefix("Prerelease available:"@, version_report_body(response)))
            ==> parsed_version_status(response) == SpecVersionStatus::Unknown
            && !report_gives_prerelease_notice(response),
{
    reveal_strlit("Outdated");
    reveal_strlit("Outdated with Prerelease available");
    let body = version_report_body(response);
    if contains(body, "Outdated with Prerelease available"@) {
        assert("Outdated with Prerelease available"@.subrange(0, 8) =~= "Outdated"@);
        lemma_contains_prefix(body, "Outdated"@, "Outdated with Prerelease available"@);
    }
}

/// The groups of a combined match fill the combined status directly: the
/// installed version (with a "v" put in front unless it starts with "v" or
/// "Prerelease:"), the stable version and the prerelease.
pub proof fn law_combined_groups(
    groups: Seq<Option<Seq<char>>>,
    current: Seq<char>,
    stable: Seq<char>,
    prerelease: Seq<char>,
)
    requires
        groups.len() > 3,
        groups[1] == Some(current),
        groups[2] == Some(stable),
        groups[3] == Some(prerelease),
    ensures
        combined_from_captures(Some(groups)) == SpecVersionStatus::Combined(
            if (current.len() > 0 && current[0] == 'v') || (current.len() >= 11 && current.take(11)
                == "Prerelease:"@) {
                current
            } else {
                seq!['v'] + current
            },
            stable,
            prerelease,
        ),
{
    reveal_strlit("Prerelease:");
    reveal_strlit("v");
    if current.len() > 0 && current[0] == 'v' {
        assert(current.subrange(0, 1) =~= "v"@);
    }
    if is_prefix("v"@, current) {
        assert(current.subrange(0, 1)[0] == current[0]);
    }
    assert("v"@ =~= seq!['v']);
}

/// A fresh version state knows no status and has given no prerelease notice.
pub proof fn law_initial_version_state()
    ensures
        initial_version_state().status == SpecVersionStatus::Unknown,
        !initial_version_state().prerelease_shown,
{
}

/// The command line asks for the version exactly when its first argument after
/// the program's name is "--version" or "-v".
pub proof fn law_version_flag(args: Seq<Seq<char>>)
    ensures
        asks_for_version(args) <==> (args.len() >= 2 && (args[1] == seq!['-', '-', 'v', 'e', 'r', 's', 'i', 'o', 'n'] || args[1] == seq!['-', 'v'])),
{
    reveal_strlit("--version");
    reveal_strlit("-v");
    assert("--version"@ =~= seq!['-', '-', 'v', 'e', 'r', 's', 'i', 'o', 'n']);
    assert("-v"@ =~= seq!['-', 'v']);
}

/// The leftmost occurrence of a pattern: it occurs there and at no earlier index.
pub proof fn law_leftmost_occurrence(s: Seq<char>, pat: Seq<char>, i: int)
    ensures
        is_first_occurrence(s, pat, i) <==> (0 <= i && i + pat.len() <= s.len() && s.subrange(
            i,
            i + pat.len(),
        ) == pat && forall|j: int|
            0 <= j < i ==> !(j + pat.len() <= s.len() && #[trigger] s.subrange(j, j + pat.len()) == pat)),
        contains(s, pat) <==> exists|j: int|
            0 <= j && j + pat.len() <= s.len() && #[trigger] s.subrange(j, j + pat.len()) == pat,
{
    if contains(s, pat) {
        let j = choose|j: int| occurs_at(s, pat, j);
        assert(0 <= j && j + pat.len() <= s.len() && s.subrange(j, j + pat.len()) == pat);
    }
    if is_first_occurrence(s, pat, i) {
        assert forall|j: int| 0 <= j < i implies !(j + pat.len() <= s.len()
            && #[trigger] s.subrange(j, j + pat.len()) == pat) by {
            assert(!occurs_at(s, pat, j));
        }
    }
    if 0 <= i && i + pat.len() <= s.len() && s.subrange(i, i + pat.len()) == pat && forall|j: int|
        0 <= j < i ==> !(j + pat.len() <= s.len() && #[trigger] s.subrange(j, j + pat.len()) == pat) {
        assert forall|j: int| 0 <= j < i implies !occurs_at(s, pat, j) by {
            if occurs_at(s, pat, j) {
                assert(s.subrange(j, j + pat.len()) == pat);
            }
        }
        assert(occurs_at(s, pat, i));
    }
    if exists|j: int| 0 <= j && j + pat.len() <= s.len() && #[trigger] s.subrange(j, j + pat.len()) == pat {
        let j = choose|j: int| 0 <= j && j + pat.len() <= s.len() && #[trigger] s.subrange(j, j + pat.len()) == pat;
        assert(occurs_at(s, pat, j));
    }
}

} // verus!
