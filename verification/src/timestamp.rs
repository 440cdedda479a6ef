//! Points in time, held as plain integers.
//!
//! The upstream API transmits timestamps as RFC 3339 strings. The library
//! holds a parsed timestamp as seconds and subsecond nanoseconds since the
//! Unix epoch; the parse itself is done by the `chrono` crate behind a
//! trusted wrapper.

use vstd::prelude::*;

verus! {

/// A point in time: seconds since the Unix epoch, plus subsecond nanoseconds.
#[derive(Clone, Copy, Debug, PartialEq, Eq, Structural)]
pub struct Timestamp {
    /// Whole seconds since 1970-01-01T00:00:00Z (negative for earlier times).
    pub secs: i64,
    /// Nanoseconds past `secs`. Values of 1_000_000_000 and above encode a
    /// leap second, following chrono's convention.
    pub nanos: u32,
}

impl Timestamp {
    /// A timestamp as produced by parsing: nanoseconds stay below two
    /// billion (the extra second of room encodes a leap second).
    pub open spec fn wf(self) -> bool {
        self.nanos < 2_000_000_000
    }
}

/// What `chrono::DateTime::parse_from_rfc3339` yields on a given string,
/// reduced to epoch seconds and subsecond nanoseconds; `None` when the
/// string is not a valid RFC 3339 timestamp.
pub uninterp spec fn rfc3339_parse(s: Seq<char>) -> Option<Timestamp>;

/// Relies on `chrono::DateTime::parse_from_rfc3339` to parse an RFC 3339
/// string, and on `timestamp`/`timestamp_subsec_nanos` to read the result;
/// chrono keeps subsecond nanoseconds below two billion.
#[verifier::external_body]
pub fn parse_rfc3339(s: &str) -> (r: Option<Timestamp>)
    ensures
        r == rfc3339_parse(s@),
        r matches Some(t) ==> t.wf(),
{
    match chrono::DateTime::parse_from_rfc3339(s) {
        Ok(dt) => Some(Timestamp { secs: dt.timestamp(), nanos: dt.timestamp_subsec_nanos() }),
        Err(_) => None,
    }
}

} // verus!
