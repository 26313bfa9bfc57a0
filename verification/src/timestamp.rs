//! RFC 3339 timestamp parsing, delegated to chrono. A malformed timestamp
//! is never an error anywhere in the pipeline: it only yields absence.

use crate::atom::Timestamp;
use vstd::prelude::*;

verus! {

/// What chrono's RFC 3339 parser makes of a text: the parsed instant, or
/// `None` when the text is not a valid RFC 3339 timestamp. A function of
/// the text alone.
pub uninterp spec fn rfc3339_instant(s: Seq<char>) -> Option<Timestamp>;

/// Relies on chrono's `DateTime::parse_from_rfc3339`, read out through the
/// `timestamp`, `timestamp_subsec_nanos` and `FixedOffset::local_minus_utc`
/// accessors: parsing depends on the input text alone, and the instant is
/// handed back as plain seconds, nanoseconds and UTC offset.
#[verifier::external_body]
pub(crate) fn parse_rfc3339(s: &str) -> (r: Option<Timestamp>)
    ensures
        r == rfc3339_instant(s@),
{
    match chrono::DateTime::parse_from_rfc3339(s) {
        Ok(dt) => Some(
            Timestamp {
                secs: dt.timestamp(),
                nanos: dt.timestamp_subsec_nanos(),
                offset_secs: dt.offset().local_minus_utc(),
            },
        ),
        Err(_) => None,
    }
}

} // verus!
