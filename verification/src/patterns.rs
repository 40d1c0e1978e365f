//! The regular expressions that pick version numbers out of the backend's
//! version report, and the one place where they are run.
use vstd::prelude::*;

verus! {

/// A bare release number such as `v1.2.3` or `1.2.3-rc.1`.
pub const VERSION_PATTERN: &'static str = "^v?\\d+\\.\\d+\\.\\d+(-rc[.\\d]*)?$";

/// "Prerelease available: <prerelease> (current: <current>)".
pub const PRERELEASE_PATTERN: &'static str =
    "Prerelease available: ([^\\s]+) \\(current: (v[^\\)]+|Prerelease: v[^\\)]+)\\)";

/// "Outdated with Prerelease available: <current> (stable: <stable>, prerelease: <prerelease>)".
pub const COMBINED_PATTERN: &'static str =
    "Outdated with Prerelease available: (.+?) \\(stable: ([^,]+), prerelease: ([^\\)]+)\\)";

/// The capture groups of the leftmost match of `pattern` in `haystack`, as the
/// `regex` crate finds them: `None` when there is no match, else one entry per
/// group (group 0 is the whole match), `None` for a group that took no part in it.
pub uninterp spec fn regex_captures(pattern: Seq<char>, haystack: Seq<char>) -> Option<
    Seq<Option<Seq<char>>>,
>;

/// Runs `pattern` over `haystack` and returns the text of each capture group.
///
/// Calls `regex::Regex::new` and then `regex::Regex::captures`. The contract
/// claims that the result is `regex_captures(pattern, haystack)` (a name for
/// the crate's leftmost-first matching, which is not spelled out here) and, as
/// the crate documents, that a match always reports group 0. A pattern that
/// does not compile gives `None`.
#[verifier::external_body]
pub(crate) fn captures(pattern: &str, haystack: &str) -> (r: Option<Vec<Option<String>>>)
    ensures
        r.deep_view() == regex_captures(pattern@, haystack@),
        r matches Some(c) ==> c@.len() >= 1 && c@[0] is Some,
{
    let re = regex::Regex::new(pattern).ok()?;
    re.captures(haystack).map(
        |caps| caps.iter().map(|m| m.map(|m| m.as_str().to_string())).collect(),
    )
}

/// The text of group `i`, or "Unknown" when the group is absent.
pub open spec fn group_or_unknown(c: Seq<Option<Seq<char>>>, i: int) -> Seq<char> {
    if 0 <= i < c.len() && c[i] is Some {
        c[i]->Some_0
    } else {
        "Unknown"@
    }
}

/// The text of capture group `i`, or "Unknown" when the group is absent or took no part.
pub fn group_text(caps: &Vec<Option<String>>, i: usize) -> (r: String)
    ensures
        r@ == group_or_unknown(caps.deep_view(), i as int),
{
    if i < caps.len() {
        match &caps[i] {
            Some(g) => {
                return g.clone();
            },
            None => {},
        }
    }
    String::from_str("Unknown")
}

} // verus!
