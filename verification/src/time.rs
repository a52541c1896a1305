//! Timestamps carried by every decoded record.
//!
//! A journal timestamp is a timezone-aware date-time written as RFC 3339 text.
//! The library holds it as plain calendar and clock components; the parsing
//! itself is done by chrono behind a trusted wrapper.

use vstd::prelude::*;
use chrono::Datelike;
use chrono::Timelike;

verus! {

/// A point in time with timezone offset, as plain components.
///
/// `offset_seconds` is the local offset from UTC, in seconds, as written in
/// the source text.
#[derive(Debug, Clone, Copy, PartialEq, Eq, Structural)]
pub struct Timestamp {
    pub year: i32,
    pub month: u32,
    pub day: u32,
    pub hour: u32,
    pub minute: u32,
    pub second: u32,
    pub nanosecond: u32,
    pub offset_seconds: i32,
}

/// What parsing a timestamp string yields: `None` where the text is not a
/// well-formed RFC 3339 date-time. The result is a function of the text alone.
pub uninterp spec fn timestamp_of(s: Seq<char>) -> Option<Timestamp>;

/// Relies on chrono's `DateTime::parse_from_rfc3339` (and chrono's component
/// accessors) to parse a timezone-aware date-time; the result depends on the
/// text alone.
#[verifier::external_body]
pub(crate) fn parse_timestamp(s: &str) -> (r: Option<Timestamp>)
    ensures
        r == timestamp_of(s@),
{
    let dt = match chrono::DateTime::parse_from_rfc3339(s) {
        Ok(d) => d,
        Err(_) => return None,
    };
    Some(Timestamp {
        year: dt.year(),
        month: dt.month(),
        day: dt.day(),
        hour: dt.hour(),
        minute: dt.minute(),
        second: dt.second(),
        nanosecond: dt.nanosecond(),
        offset_seconds: dt.offset().local_minus_utc(),
    })
}

} // verus!
