//! The two patterns that are looked for in a line of diagnostic output.
//!
//! A line may hold a duration marker, `Duration: H:MM:SS[.fraction]`, and a
//! position marker, `time=H:MM:SS[.fraction]`, each anywhere in the line. Hours
//! are one or more digits, minutes and seconds two digits each.

use crate::timestamp::{Marker, MarkerText};
use vstd::prelude::*;

verus! {

/// The capture groups of the first match of the regular expression `pattern`
/// in `haystack`, as the `regex` crate finds them: group 0 is the whole match,
/// a group that took no part in the match is `None`. The result is `None`
/// where nothing in `haystack` matches, or `pattern` is no regular expression.
pub uninterp spec fn regex_captures(pattern: Seq<char>, haystack: Seq<char>) -> Option<
    Seq<Option<Seq<char>>>,
>;

/// The pattern of a duration marker.
pub open spec fn duration_pattern() -> Seq<char> {
    r"Duration: (\d+):(\d{2}):(\d{2}(?:\.\d+)?)"@
}

/// The pattern of a position marker.
pub open spec fn position_pattern() -> Seq<char> {
    r"time=(\d+):(\d{2}):(\d{2}(?:\.\d+)?)"@
}

/// The marker that a match stands for: the three groups after the whole match.
/// Anything but a match of exactly those groups, all three present, gives none.
pub open spec fn marker_of(found: Option<Seq<Option<Seq<char>>>>) -> Option<MarkerText> {
    match found {
        Some(groups) => if groups.len() == 4 && groups[1] is Some && groups[2] is Some
            && groups[3] is Some {
            Some(MarkerText { hours: groups[1]->0, minutes: groups[2]->0, seconds: groups[3]->0 })
        } else {
            None
        },
        None => None,
    }
}

/// The duration marker of a line, if it has one.
pub open spec fn duration_marker(line: Seq<char>) -> Option<MarkerText> {
    marker_of(regex_captures(duration_pattern(), line))
}

/// The position marker of a line, if it has one.
pub open spec fn position_marker(line: Seq<char>) -> Option<MarkerText> {
    marker_of(regex_captures(position_pattern(), line))
}

/// The view of a marker that may be absent.
pub open spec fn marker_text(marker: Option<Marker>) -> Option<MarkerText> {
    match marker {
        Some(m) => Some(m@),
        None => None,
    }
}

/// Compiles `pattern` with `regex::Regex::new` and searches `haystack` with
/// `Regex::captures`, handing back each group's text as characters.
///
/// Trusted: for the two patterns of this module, the result is what
/// `regex_captures` names. Both compile; a search does not fail.
#[verifier::external_body]
fn capture_groups(pattern: &str, haystack: &str) -> (groups: Option<Vec<Option<Vec<char>>>>)
    requires
        pattern@ == duration_pattern() || pattern@ == position_pattern(),
    ensures
        groups.deep_view() == regex_captures(pattern@, haystack@),
{
    let re = regex::Regex::new(pattern).ok()?;
    let found = re.captures(haystack)?;
    Some(found.iter().map(|g| g.map(|m| m.as_str().chars().collect())).collect())
}

/// The marker that the groups of a match stand for.
pub fn marker_from_groups(groups: Option<Vec<Option<Vec<char>>>>) -> (marker: Option<Marker>)
    ensures
        marker_text(marker) == marker_of(groups.deep_view()),
{
    match groups {
        None => None,
        Some(mut list) => {
            let ghost before = list.deep_view();
            if list.len() != 4 {
                return None;
            }
            let third = list.pop();
            let second = list.pop();
            let first = list.pop();
            match (first, second, third) {
                (Some(Some(hours)), Some(Some(minutes)), Some(Some(seconds))) => {
                    let marker = Marker { hours, minutes, seconds };
                    assert(before[1] == Some(hours.deep_view()));
                    assert(before[2] == Some(minutes.deep_view()));
                    assert(before[3] == Some(seconds.deep_view()));
                    assert(hours.deep_view() =~= hours@);
                    assert(minutes.deep_view() =~= minutes@);
                    assert(seconds.deep_view() =~= seconds@);
                    Some(marker)
                },
                _ => None,
            }
        },
    }
}

/// Looks for a duration marker in `line`.
pub fn find_duration(line: &str) -> (marker: Option<Marker>)
    ensures
        marker_text(marker) == duration_marker(line@),
{
    marker_from_groups(capture_groups(r"Duration: (\d+):(\d{2}):(\d{2}(?:\.\d+)?)", line))
}

/// Looks for a position marker in `line`.
pub fn find_position(line: &str) -> (marker: Option<Marker>)
    ensures
        marker_text(marker) == position_marker(line@),
{
    marker_from_groups(capture_groups(r"time=(\d+):(\d{2}):(\d{2}(?:\.\d+)?)", line))
}

} // verus!
