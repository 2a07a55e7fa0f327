//! Points in time and spans of time.
//!
//! A point in time is held as plain integers so that contracts can speak of
//! it; the calendar arithmetic itself is done by the `chrono` crate.

use vstd::prelude::*;

verus! {

#[verifier::external_type_specification]
#[verifier::external_body]
pub struct ExTimeDelta(chrono::TimeDelta);

#[verifier::external_type_specification]
#[verifier::external_body]
pub struct ExOutOfRangeError(chrono::OutOfRangeError);

/// A point in time on the UTC time line: whole seconds since the Unix epoch
/// and the nanoseconds since the last whole second.
#[derive(Debug, Clone, Copy, PartialEq, Eq, Structural)]
pub struct Timestamp {
    pub secs: i64,
    pub nanos: u32,
}

impl Timestamp {
    /// The point in time `secs` seconds and `nanos` nanoseconds after the epoch.
    pub fn new(secs: i64, nanos: u32) -> (r: Timestamp)
        ensures
            r.secs == secs,
            r.nanos == nanos,
    {
        Timestamp { secs, nanos }
    }
}

/// The point in time that lies `by` after `at`, or `None` where the calendar
/// has no such point.
pub uninterp spec fn shifted(at: Timestamp, by: chrono::TimeDelta) -> Option<Timestamp>;

/// The signed span that covers the same time as the unsigned `span`, or
/// `None` where it is too long for one.
pub uninterp spec fn signed_span(span: std::time::Duration) -> Option<chrono::TimeDelta>;

/// Reads the clock through `chrono::Utc::now`. Nothing is claimed of the
/// reading: two calls may give any two points in time.
#[verifier::external_body]
pub(crate) fn now() -> Timestamp {
    let at = chrono::Utc::now();
    Timestamp { secs: at.timestamp(), nanos: at.timestamp_subsec_nanos() }
}

/// Adds a span to a point in time with `chrono::DateTime::checked_add_signed`.
/// The claim is only that the outcome depends on the two arguments alone; it
/// is `None` where `at` is no valid point in time or the sum leaves the range
/// of the calendar.
#[verifier::external_body]
pub(crate) fn shift(at: Timestamp, by: chrono::TimeDelta) -> (r: Option<Timestamp>)
    ensures
        r == shifted(at, by),
{
    let start = chrono::DateTime::from_timestamp(at.secs, at.nanos)?;
    let end = start.checked_add_signed(by)?;
    Some(Timestamp { secs: end.timestamp(), nanos: end.timestamp_subsec_nanos() })
}

/// Converts an unsigned span with `chrono::TimeDelta::from_std`. The claim is
/// only that the outcome depends on the argument alone; the error stands for
/// a span too long to be held as a signed one.
#[verifier::external_body]
pub(crate) fn to_signed_span(span: std::time::Duration) -> (r: Result<
    chrono::TimeDelta,
    chrono::OutOfRangeError,
>)
    ensures
        r.ok() == signed_span(span),
{
    chrono::TimeDelta::from_std(span)
}

} // verus!
