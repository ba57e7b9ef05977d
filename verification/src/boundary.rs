//! The boundary calculator: from a wall-clock reading, the exact number of
//! nanoseconds until the next aligned boundary of a chosen granularity.

use vstd::prelude::*;

use crate::reading::ClockReading;
use crate::reading::NANOS_PER_DAY;
use crate::reading::NANOS_PER_HOUR;
use crate::reading::NANOS_PER_MINUTE;
use crate::reading::NANOS_PER_SECOND;

verus! {

/// Which clock boundary a computation targets: the next midnight, top of
/// hour, top of minute, or top of second.
#[derive(Clone, Copy, Debug, PartialEq, Eq, Structural)]
pub enum Granularity {
    /// The next midnight (00:00:00.000000000).
    Day,
    /// The next top of an hour (__:00:00.000000000).
    Hour,
    /// The next top of a minute (__:__:00.000000000).
    Minute,
    /// The next whole second (__:__:__.000000000).
    Second,
}

/// The length of one period of granularity `g`, in nanoseconds.
pub open spec fn period_ns(g: Granularity) -> int {
    match g {
        Granularity::Day => NANOS_PER_DAY as int,
        Granularity::Hour => NANOS_PER_HOUR as int,
        Granularity::Minute => NANOS_PER_MINUTE as int,
        Granularity::Second => NANOS_PER_SECOND as int,
    }
}

/// Nanoseconds elapsed since the most recent boundary of granularity `g`:
/// the weighted sum of the fields of `now` finer than `g`.
pub open spec fn elapsed_ns(g: Granularity, now: ClockReading) -> int {
    match g {
        Granularity::Day => now.offset_in_day(),
        Granularity::Hour => now.minute * (NANOS_PER_MINUTE as int)
            + now.second * (NANOS_PER_SECOND as int) + now.nanosecond,
        Granularity::Minute => now.second * (NANOS_PER_SECOND as int) + now.nanosecond,
        Granularity::Second => now.nanosecond as int,
    }
}

/// Whether `now` lies exactly on a boundary of granularity `g`: every field
/// finer than `g` is zero.
pub open spec fn on_boundary(g: Granularity, now: ClockReading) -> bool {
    match g {
        Granularity::Day => now.hour == 0 && now.minute == 0 && now.second == 0
            && now.nanosecond == 0,
        Granularity::Hour => now.minute == 0 && now.second == 0 && now.nanosecond == 0,
        Granularity::Minute => now.second == 0 && now.nanosecond == 0,
        Granularity::Second => now.nanosecond == 0,
    }
}

/// The number of nanoseconds to wait until the next boundary of granularity
/// `g`: zero when `now` is already exactly on one, and the remainder of the
/// current period otherwise.
pub open spec fn next_boundary_ns(g: Granularity, now: ClockReading) -> int {
    if on_boundary(g, now) {
        0
    } else {
        period_ns(g) - elapsed_ns(g, now)
    }
}

/// The elapsed part of the current period is non-negative, is strictly
/// smaller than the period, and vanishes exactly on a boundary.
pub proof fn lemma_elapsed_in_period(g: Granularity, now: ClockReading)
    requires
        now.wf(),
    ensures
        0 <= elapsed_ns(g, now) < period_ns(g),
        on_boundary(g, now) <==> elapsed_ns(g, now) == 0,
{
    assert(NANOS_PER_HOUR == 3_600_000_000_000u64);
    assert(now.hour * (NANOS_PER_HOUR as int) <= 23 * 3_600_000_000_000);
    assert(now.minute * (NANOS_PER_MINUTE as int) <= 59 * 60_000_000_000);
    assert(now.second * (NANOS_PER_SECOND as int) <= 59 * 1_000_000_000);
}

/// The computed wait is always non-negative and strictly smaller than the
/// period of its granularity.
pub proof fn lemma_wait_in_period(g: Granularity, now: ClockReading)
    requires
        now.wf(),
    ensures
        0 <= next_boundary_ns(g, now) < period_ns(g),
{
    lemma_elapsed_in_period(g, now);
}

/// A reading exactly on a boundary of granularity `g` waits not at all.
pub proof fn lemma_on_boundary_zero_wait(g: Granularity, now: ClockReading)
    requires
        now.wf(),
        on_boundary(g, now),
    ensures
        next_boundary_ns(g, now) == 0,
{
}

/// A reading off a boundary of granularity `g` waits a strictly positive
/// time, and that wait closes the current period exactly: the elapsed part
/// plus the wait equals one full period, so the clock lands precisely on
/// the next boundary.
pub proof fn lemma_off_boundary_exact_wait(g: Granularity, now: ClockReading)
    requires
        now.wf(),
        !on_boundary(g, now),
    ensures
        0 < next_boundary_ns(g, now) < period_ns(g),
        elapsed_ns(g, now) + next_boundary_ns(g, now) == period_ns(g),
{
    lemma_elapsed_in_period(g, now);
}

/// Whatever the reading, elapsed time plus the computed wait is a whole
/// number of periods: waiting exactly that long always lands on a boundary
/// of granularity `g`.
pub proof fn lemma_wait_lands_on_boundary(g: Granularity, now: ClockReading)
    requires
        now.wf(),
    ensures
        (elapsed_ns(g, now) + next_boundary_ns(g, now)) % period_ns(g) == 0,
{
    lemma_elapsed_in_period(g, now);
    if on_boundary(g, now) {
        assert(elapsed_ns(g, now) + next_boundary_ns(g, now) == 0);
    } else {
        assert(elapsed_ns(g, now) + next_boundary_ns(g, now) == period_ns(g));
    }
}

/// Moving a reading earlier never shortens the wait, as long as the earlier
/// reading is not itself on the boundary. Decreasing any of the fields of
/// `now` (holding the others fixed, or decreasing them too) decreases the
/// elapsed part of the period, so the remaining part can only grow.
pub proof fn lemma_wait_monotone_in_fields(g: Granularity, later: ClockReading, earlier: ClockReading)
    requires
        later.wf(),
        earlier.wf(),
        earlier.hour <= later.hour,
        earlier.minute <= later.minute,
        earlier.second <= later.second,
        earlier.nanosecond <= later.nanosecond,
        !on_boundary(g, earlier),
    ensures
        next_boundary_ns(g, earlier) >= next_boundary_ns(g, later),
{
    lemma_elapsed_in_period(g, later);
    lemma_elapsed_in_period(g, earlier);
    assert(earlier.hour * (NANOS_PER_HOUR as int) <= later.hour * (NANOS_PER_HOUR as int))
        by (nonlinear_arith)
        requires earlier.hour <= later.hour;
    assert(earlier.minute * (NANOS_PER_MINUTE as int) <= later.minute * (NANOS_PER_MINUTE as int))
        by (nonlinear_arith)
        requires earlier.minute <= later.minute;
    assert(earlier.second * (NANOS_PER_SECOND as int) <= later.second * (NANOS_PER_SECOND as int))
        by (nonlinear_arith)
        requires earlier.second <= later.second;
    assert(elapsed_ns(g, earlier) <= elapsed_ns(g, later));
}

/// Reports whether `now` lies exactly on a boundary of granularity `g`.
pub fn is_on_boundary(g: Granularity, now: ClockReading) -> (r: bool)
    ensures
        r == on_boundary(g, now),
{
    match g {
        Granularity::Day => now.hour == 0 && now.minute == 0 && now.second == 0
            && now.nanosecond == 0,
        Granularity::Hour => now.minute == 0 && now.second == 0 && now.nanosecond == 0,
        Granularity::Minute => now.second == 0 && now.nanosecond == 0,
        Granularity::Second => now.nanosecond == 0,
    }
}

/// Computes the exact number of nanoseconds to wait until the next boundary
/// of granularity `g`, given the current wall-clock reading: zero when the
/// reading is already exactly on a boundary, and the remainder of the
/// current period otherwise. The result is always strictly smaller than the
/// period of `g`, and strictly positive off a boundary.
pub fn next_boundary_duration(g: Granularity, now: ClockReading) -> (d: u64)
    requires
        now.wf(),
    ensures
        d == next_boundary_ns(g, now),
        d < period_ns(g),
        on_boundary(g, now) <==> d == 0,
{
    proof {
        lemma_elapsed_in_period(g, now);
    }
    if is_on_boundary(g, now) {
        0
    } else {
        let elapsed: u64 = match g {
            Granularity::Day => now.hour as u64 * NANOS_PER_HOUR
                + now.minute as u64 * NANOS_PER_MINUTE
                + now.second as u64 * NANOS_PER_SECOND as u64
                + now.nanosecond as u64,
            Granularity::Hour => now.minute as u64 * NANOS_PER_MINUTE
                + now.second as u64 * NANOS_PER_SECOND as u64
                + now.nanosecond as u64,
            Granularity::Minute => now.second as u64 * NANOS_PER_SECOND as u64
                + now.nanosecond as u64,
            Granularity::Second => now.nanosecond as u64,
        };
        let period: u64 = match g {
            Granularity::Day => NANOS_PER_DAY,
            Granularity::Hour => NANOS_PER_HOUR,
            Granularity::Minute => NANOS_PER_MINUTE,
            Granularity::Second => NANOS_PER_SECOND as u64,
        };
        period - elapsed
    }
}

} // verus!

