//! The invocation driver's decisions: which wait precedes each invocation
//! of a callback, and when a loop is finished.
//!
//! The waiting itself — suspending a thread or an asynchronous task — is a
//! capability of the host and stays outside this crate. A loop built on
//! this model repeats three steps: ask [`Driver::next_wait`] how long to
//! wait given a fresh clock reading, suspend for that long and invoke the
//! callback, then record the invocation and stop once [`Driver::is_done`].

use vstd::prelude::*;

use crate::boundary::Granularity;
use crate::boundary::elapsed_ns;
use crate::boundary::lemma_wait_in_period;
use crate::boundary::lemma_wait_lands_on_boundary;
use crate::boundary::next_boundary_duration;
use crate::boundary::next_boundary_ns;
use crate::boundary::period_ns;
use crate::reading::ClockReading;

verus! {

/// The repetition pattern of an invocation loop.
#[derive(Clone, Copy, Debug, PartialEq, Eq, Structural)]
pub enum Cadence {
    /// Wait the given number of nanoseconds, invoke once, and stop.
    Once {
        /// The single wait, in nanoseconds.
        wait_ns: u64,
    },
    /// Wait the same given number of nanoseconds before every invocation,
    /// forever. The wait runs from the end of one invocation to the start
    /// of the next: time spent inside the callback is not compensated.
    FixedInterval {
        /// The wait before each invocation, in nanoseconds.
        wait_ns: u64,
    },
    /// Before every invocation, wait until the next boundary of the given
    /// granularity, recomputed from a fresh clock reading each cycle so
    /// that invocation latency never accumulates.
    AlignedRepeat {
        /// The boundary to re-align to each cycle.
        granularity: Granularity,
    },
}

/// The wait that cadence `c` prescribes before the coming invocation, when
/// the clock reads `now`: the caller-supplied duration for the one-shot and
/// fixed-interval cadences, and the duration to the next boundary for the
/// aligned cadence.
pub open spec fn cadence_wait_ns(c: Cadence, now: ClockReading) -> int {
    match c {
        Cadence::Once { wait_ns } => wait_ns as int,
        Cadence::FixedInterval { wait_ns } => wait_ns as int,
        Cadence::AlignedRepeat { granularity } => next_boundary_ns(granularity, now),
    }
}

/// Drives one invocation loop: holds the loop's cadence and counts the
/// invocations made so far, deciding each cycle's wait and when the loop
/// is over.
#[derive(Clone, Copy, Debug, PartialEq, Eq, Structural)]
pub struct Driver {
    /// The repetition pattern this loop follows.
    pub cadence: Cadence,
    /// How many invocations the loop has made so far.
    pub invocations: u64,
}

impl Driver {
    /// Whether the loop has made every invocation its cadence calls for:
    /// only the one-shot cadence ever finishes, after its one invocation.
    pub open spec fn done(self) -> bool {
        self.cadence is Once && self.invocations >= 1
    }

    /// Starts a loop of cadence `c`, with no invocation made yet.
    pub fn new(c: Cadence) -> (d: Driver)
        ensures
            d.cadence == c,
            d.invocations == 0,
            !d.done(),
    {
        Driver { cadence: c, invocations: 0 }
    }

    /// Decides how long the loop must wait before its next invocation,
    /// given a fresh reading of the wall clock: exactly the wait the
    /// cadence prescribes for that reading.
    pub fn next_wait(&self, now: ClockReading) -> (d: u64)
        requires
            now.wf(),
        ensures
            d == cadence_wait_ns(self.cadence, now),
    {
        match self.cadence {
            Cadence::Once { wait_ns } => wait_ns,
            Cadence::FixedInterval { wait_ns } => wait_ns,
            Cadence::AlignedRepeat { granularity } => next_boundary_duration(granularity, now),
        }
    }

    /// Records that the callback was invoked once: the invocation count
    /// grows by exactly one and the cadence is unchanged.
    pub fn record_invocation(&mut self)
        requires
            old(self).invocations < u64::MAX,
        ensures
            final(self).cadence == old(self).cadence,
            final(self).invocations == old(self).invocations + 1,
    {
        self.invocations = self.invocations + 1;
    }

    /// Reports whether the loop is over: true only for the one-shot
    /// cadence once its single invocation has been recorded.
    pub fn is_done(&self) -> (r: bool)
        ensures
            r == self.done(),
    {
        match self.cadence {
            Cadence::Once { .. } => self.invocations >= 1,
            _ => false,
        }
    }
}

/// A fixed-interval loop never compensates: the wait it prescribes is the
/// caller-supplied duration on every cycle, whatever the clock reads and
/// however long the previous invocation took.
pub proof fn lemma_fixed_interval_wait_constant(wait_ns: u64, r1: ClockReading, r2: ClockReading)
    ensures
        cadence_wait_ns(Cadence::FixedInterval { wait_ns }, r1) == wait_ns,
        cadence_wait_ns(Cadence::FixedInterval { wait_ns }, r1)
            == cadence_wait_ns(Cadence::FixedInterval { wait_ns }, r2),
{
}

/// An aligned loop self-corrects on every cycle: whatever the fresh clock
/// reading — however much time the previous invocation consumed — the
/// prescribed wait closes the current period exactly, so the invocation it
/// precedes lands on a boundary of the loop's granularity; and the wait
/// never reaches a full period.
pub proof fn lemma_aligned_wait_self_corrects(g: Granularity, now: ClockReading)
    requires
        now.wf(),
    ensures
        (elapsed_ns(g, now) + cadence_wait_ns(Cadence::AlignedRepeat { granularity: g }, now))
            % period_ns(g) == 0,
        cadence_wait_ns(Cadence::AlignedRepeat { granularity: g }, now) < period_ns(g),
{
    lemma_wait_lands_on_boundary(g, now);
    lemma_wait_in_period(g, now);
}

} // verus!
