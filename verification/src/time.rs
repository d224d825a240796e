//! Timestamps.

use vstd::prelude::*;

verus! {

/// The instant that an RFC 3339 text names, as seconds since the epoch and
/// nanoseconds within the second; nothing where the text is not RFC 3339.
pub uninterp spec fn rfc3339_instant(text: Seq<char>) -> Option<(i64, u32)>;

/// Calls `chrono::DateTime::parse_from_rfc3339`. Trusted: whether the text
/// parses, and the instant it names, depend on the text alone. What RFC 3339
/// text looks like is left unsaid.
#[verifier::external_body]
pub(crate) fn parse_rfc3339(text: &str) -> (instant: Option<(i64, u32)>)
    ensures
        instant == rfc3339_instant(text@),
{
    match chrono::DateTime::parse_from_rfc3339(text) {
        Ok(time) => Some((time.timestamp(), time.timestamp_subsec_nanos())),
        Err(_) => None,
    }
}

/// Whether both instants are known and `later` comes after `earlier`.
pub open spec fn strictly_after(later: Option<(i64, u32)>, earlier: Option<(i64, u32)>) -> bool {
    match (later, earlier) {
        (Some(later), Some(earlier)) => later.0 > earlier.0 || (later.0 == earlier.0 && later.1
            > earlier.1),
        _ => false,
    }
}

/// Whether both instants are known and `later` comes after `earlier`.
pub fn is_strictly_after(later: Option<(i64, u32)>, earlier: Option<(i64, u32)>) -> (after: bool)
    ensures
        after == strictly_after(later, earlier),
{
    match (later, earlier) {
        (Some(later), Some(earlier)) => {
            later.0 > earlier.0 || (later.0 == earlier.0 && later.1 > earlier.1)
        },
        _ => false,
    }
}

/// Calls `chrono::Utc::now` and `chrono::DateTime::to_rfc3339`. Trusted: nothing
/// is claimed of the time that it is.
#[verifier::external_body]
pub(crate) fn now_rfc3339() -> (now: String)
{
    chrono::Utc::now().to_rfc3339()
}

} // verus!
