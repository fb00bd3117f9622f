//! Reading timestamps out of image metadata. A malformed timestamp is a
//! recoverable condition: it becomes "timestamp unknown", never a failure of
//! the status query. An instant is carried as plain seconds since the Unix
//! epoch, in UTC.

use vstd::prelude::*;

verus! {

/// The instant a well-formed RFC 3339 timestamp denotes, as Unix epoch
/// seconds in UTC — exactly what chrono's parser computes — or nothing for
/// a malformed string.
pub uninterp spec fn rfc3339_utc_seconds(s: Seq<char>) -> Option<int>;

/// Relies on chrono::DateTime::parse_from_rfc3339: whether and what a
/// timestamp string parses to depends on the text alone; the parsed instant
/// is reduced to Unix epoch seconds.
#[verifier::external_body]
fn parse_rfc3339_seconds(t: &str) -> (r: Option<i64>)
    ensures
        match r {
            Some(v) => rfc3339_utc_seconds(t@) == Some(v as int),
            None => rfc3339_utc_seconds(t@) is None,
        },
{
    chrono::DateTime::parse_from_rfc3339(t).ok().map(|d| d.timestamp())
}

/// Parses a timestamp found in image metadata into Unix epoch seconds; a
/// malformed one yields `None` rather than an error.
pub fn try_deserialize_timestamp(t: &str) -> (r: Option<i64>)
    ensures
        match r {
            Some(v) => rfc3339_utc_seconds(t@) == Some(v as int),
            None => rfc3339_utc_seconds(t@) is None,
        },
{
    parse_rfc3339_seconds(t)
}

} // verus!
