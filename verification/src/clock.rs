//! Reading the local wall clock, and the duration from the instant of that
//! reading to the next aligned boundary of each granularity.

use vstd::prelude::*;

use crate::boundary::Granularity;
use crate::boundary::next_boundary_duration;
use crate::boundary::next_boundary_ns;
use crate::boundary::period_ns;
use crate::reading::ClockReading;

verus! {

/// Relies on `chrono::Local::now` and the `chrono::Timelike` accessors of
/// the returned date-time: `hour` is 0 to 23, `minute` and `second` are 0
/// to 59, and `timestamp_subsec_nanos` is below 2_000_000_000 (the range
/// from 1_000_000_000 up represents a leap second). Nothing more can be
/// said of a clock reading: each call may return a different time.
#[verifier::external_body]
fn read_local_clock() -> (r: ClockReading)
    ensures
        r.raw_wf(),
{
    let now = chrono::Local::now();
    ClockReading {
        hour: chrono::Timelike::hour(&now),
        minute: chrono::Timelike::minute(&now),
        second: chrono::Timelike::second(&now),
        nanosecond: now.timestamp_subsec_nanos(),
    }
}

/// Returns the current local time of day as a well-formed reading, with a
/// leap second folded back into an ordinary sub-second field.
pub fn now_local() -> (r: ClockReading)
    ensures
        r.wf(),
{
    read_local_clock().normalized()
}

/// Returns the nanoseconds from now to the next boundary of granularity
/// `g`: the exact wait for the fresh clock reading taken by this call,
/// always strictly shorter than one period of `g`, and zero exactly when
/// that reading is already on a boundary.
pub fn duration_to_next(g: Granularity) -> (d: u64)
    ensures
        d < period_ns(g),
        exists|now: ClockReading| now.wf() && d == next_boundary_ns(g, now),
{
    let now = now_local();
    let d = next_boundary_duration(g, now);
    assert(now.wf() && d == next_boundary_ns(g, now));
    d
}

/// Returns the duration to the next midnight (00:00:00.000000000), as
/// nanoseconds: zero if the clock reads exactly midnight, and the rest of
/// the current day otherwise.
pub fn duration_to_next_day() -> (d: u64)
    ensures
        d < period_ns(Granularity::Day),
        exists|now: ClockReading| now.wf() && d == next_boundary_ns(Granularity::Day, now),
{
    duration_to_next(Granularity::Day)
}

/// Returns the duration to the next top of an hour (__:00:00.000000000),
/// as nanoseconds: zero if the clock reads exactly a whole hour, and the
/// rest of the current hour otherwise.
pub fn duration_to_next_hour() -> (d: u64)
    ensures
        d < period_ns(Granularity::Hour),
        exists|now: ClockReading| now.wf() && d == next_boundary_ns(Granularity::Hour, now),
{
    duration_to_next(Granularity::Hour)
}

/// Returns the duration to the next top of a minute (__:__:00.000000000),
/// as nanoseconds: zero if the clock reads exactly a whole minute, and the
/// rest of the current minute otherwise.
pub fn duration_to_next_minute() -> (d: u64)
    ensures
        d < period_ns(Granularity::Minute),
        exists|now: ClockReading| now.wf() && d == next_boundary_ns(Granularity::Minute, now),
{
    duration_to_next(Granularity::Minute)
}

/// Returns the duration to the next whole second (__:__:__.000000000), as
/// nanoseconds: zero if the clock reads exactly a whole second, and the
/// rest of the current second otherwise.
pub fn duration_to_next_second() -> (d: u64)
    ensures
        d < period_ns(Granularity::Second),
        exists|now: ClockReading| now.wf() && d == next_boundary_ns(Granularity::Second, now),
{
    duration_to_next(Granularity::Second)
}

} // verus!
