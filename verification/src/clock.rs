//! Calendar fields of Unix timestamps and of the local clock, as chrono
//! computes them.

use chrono::{Datelike, Timelike};
use vstd::prelude::*;

verus! {

/// Whether chrono can represent `secs` seconds after the Unix epoch as a UTC
/// date and time (`DateTime::from_timestamp(secs, 0)` gives `Some`).
pub uninterp spec fn utc_in_range(secs: i64) -> bool;

/// The day of the month, counted from 0, of the UTC date `secs` seconds
/// after the Unix epoch, as chrono's `Datelike::day0` gives it.
pub uninterp spec fn utc_day0(secs: i64) -> u32;

/// The UTC hour of the timestamp: whole hours since the last UTC midnight.
pub open spec fn utc_hour(secs: i64) -> int {
    (secs as int % 86400) / 3600
}

/// The UTC minute of the timestamp within its hour.
pub open spec fn utc_minute(secs: i64) -> int {
    ((secs as int % 86400) / 60) % 60
}

/// A timestamp that chrono cannot place on the calendar.
#[derive(Debug, Clone, Copy, PartialEq, Eq)]
pub struct TimestampOutOfRange {
    pub secs: i64,
}

/// Hour and minute of a UTC time of day.
#[derive(Debug, Clone, Copy, PartialEq, Eq)]
pub struct HourMinute {
    pub hour: u32,
    pub minute: u32,
}

/// The local date and time fields that the scheduling decisions read.
#[derive(Debug, Clone, Copy, PartialEq, Eq)]
pub struct LocalClock {
    /// Day of the month, counted from 0.
    pub day0: u32,
    pub hour: u32,
    pub minute: u32,
}

impl LocalClock {
    /// The ranges chrono keeps these fields in.
    pub open spec fn wf(self) -> bool {
        &&& self.day0 < 31
        &&& self.hour < 24
        &&& self.minute < 60
    }
}

/// Calls `chrono::DateTime::from_timestamp(secs, 0)` and, where it gives a
/// date, `Datelike::day0` of it. Trusted: the result is present exactly when
/// the timestamp is in chrono's range, and is then the named day, below 31
/// (chrono documents day0 as ranging over 0 to 30).
#[verifier::external_body]
pub(crate) fn utc_day0_of(secs: i64) -> (r: Option<u32>)
    ensures
        r is Some <==> utc_in_range(secs),
        r matches Some(d) ==> d == utc_day0(secs) && d < 31,
{
    match chrono::DateTime::from_timestamp(secs, 0) {
        Some(dt) => Some(dt.day0()),
        None => None,
    }
}

/// Calls `chrono::DateTime::from_timestamp(secs, 0)` and, where it gives a
/// date, `Timelike::hour` and `Timelike::minute` of it. Trusted: the result
/// is present exactly when the timestamp is in chrono's range; chrono takes
/// the time of day as `secs.rem_euclid(86_400)` seconds past midnight, so
/// the hour and minute are the whole hours and the minutes within the hour
/// of that count.
#[verifier::external_body]
pub(crate) fn utc_hour_minute_of(secs: i64) -> (r: Option<HourMinute>)
    ensures
        r is Some <==> utc_in_range(secs),
        r matches Some(hm) ==> hm.hour == utc_hour(secs) && hm.minute == utc_minute(secs),
{
    match chrono::DateTime::from_timestamp(secs, 0) {
        Some(dt) => Some(HourMinute { hour: dt.hour(), minute: dt.minute() }),
        None => None,
    }
}

/// Calls `chrono::Local::now()` and reads its day of month (from 0), hour
/// and minute. Trusted: only that each lies in chrono's documented range;
/// the values themselves depend on the time of the call and the machine's
/// time zone, so nothing more is stated.
#[verifier::external_body]
pub(crate) fn local_clock_now() -> (c: LocalClock)
    ensures
        c.wf(),
{
    let now = chrono::Local::now();
    LocalClock { day0: now.day0(), hour: now.hour(), minute: now.minute() }
}

} // verus!
