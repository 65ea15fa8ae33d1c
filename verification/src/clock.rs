//! The wall clock, as far as the poller reads it.

use vstd::prelude::*;
use chrono::Timelike;

verus! {

/// One reading of the UTC wall clock.
#[derive(Clone, Copy, Debug, PartialEq, Eq, Structural)]
pub(crate) struct ClockReading {
    /// Whole seconds since 1970-01-01 00:00:00 UTC, leap seconds not counted.
    pub unix_seconds: i64,
    /// Seconds within the minute.
    pub second: u32,
    /// Nanoseconds within the second.
    pub nanosecond: u32,
}

/// Reads the clock with chrono's `Utc::now` and takes from the `DateTime` it
/// returns the values of `DateTime::timestamp`, `Timelike::second` and
/// `Timelike::nanosecond`. Nothing is claimed of the instant itself, only of
/// the ranges: the second is one of 0 to 59, as chrono documents of the
/// accessor, and the nanosecond is less than a thousand million, because
/// `Utc::now` makes its value from `Duration::subsec_nanos` of the time since
/// 1970 and so never stands inside a leap second. `Utc::now` panics where the
/// system clock stands before 1970.
#[verifier::external_body]
pub(crate) fn read_clock() -> (now: ClockReading)
    ensures
        now.second < 60,
        now.nanosecond < 1_000_000_000,
{
    let t = chrono::Utc::now();
    ClockReading { unix_seconds: t.timestamp(), second: t.second(), nanosecond: t.nanosecond() }
}

} // verus!
