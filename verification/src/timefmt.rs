//! Timestamps and durations. Records carry wall-clock time as milliseconds
//! since the Unix epoch and format it as a millisecond-precision ISO-8601 UTC
//! string through chrono; durations are integer microseconds computed from a
//! monotonic clock read supplied by the caller.
use vstd::prelude::*;

verus! {

/// Timestamps this library formats: milliseconds from the Unix epoch up to
/// the end of year 9999. Within this range chrono is guaranteed to accept
/// the value.
pub open spec fn ts_in_range(ms: int) -> bool {
    0 <= ms < 253_402_300_800_000
}

/// The millisecond-precision RFC 3339 UTC text for a count of milliseconds
/// since the Unix epoch. A function of the millisecond value alone.
pub uninterp spec fn rfc3339_of(ms: int) -> Seq<char>;

/// Relies on chrono::DateTime::from_timestamp_millis and
/// DateTime::to_rfc3339_opts: the conversion accepts every millisecond count
/// from the epoch through year 9999 (it fails only when the day count leaves
/// the supported calendar range), and the formatted text of a UTC value is a
/// function of the millisecond count alone.
#[verifier::external_body]
pub fn rfc3339_millis(ms: i64) -> (r: Option<String>)
    ensures
        ts_in_range(ms as int) ==> r is Some,
        r matches Some(s) ==> s@ == rfc3339_of(ms as int),
{
    match chrono::DateTime::<chrono::Utc>::from_timestamp_millis(ms) {
        Some(d) => Some(d.to_rfc3339_opts(chrono::SecondsFormat::Millis, true)),
        None => None,
    }
}

/// The duration reported in an exit record for a span opened at monotonic
/// microsecond `start` and closed at `end`: their difference, floored at
/// zero.
pub open spec fn duration_of(start: u64, end: u64) -> u64 {
    if end >= start {
        (end - start) as u64
    } else {
        0
    }
}

/// Executable form of `duration_of`.
pub fn duration_micros(start: u64, end: u64) -> (d: u64)
    ensures
        d == duration_of(start, end),
{
    if end >= start {
        end - start
    } else {
        0
    }
}

/// Durations are non-negative and grow with the close instant: closing the
/// same span later never reports a smaller duration.
pub proof fn lemma_duration_monotone(start: u64, end1: u64, end2: u64)
    requires
        end1 <= end2,
    ensures
        duration_of(start, end1) <= duration_of(start, end2),
{
}

} // verus!
