//! A snapshot of the local wall clock, reduced to the time-of-day fields
//! that boundary computations read.

use vstd::prelude::*;

verus! {

/// Nanoseconds in one second.
pub const NANOS_PER_SECOND: u32 = 1_000_000_000;

/// Nanoseconds in one minute.
pub const NANOS_PER_MINUTE: u64 = 60 * 1_000_000_000;

/// Nanoseconds in one hour.
pub const NANOS_PER_HOUR: u64 = 60 * 60 * 1_000_000_000;

/// Nanoseconds in one day.
pub const NANOS_PER_DAY: u64 = 24 * 60 * 60 * 1_000_000_000;

/// An immutable snapshot of the current local time of day.
///
/// A reading taken from the system clock may carry a `nanosecond` field of
/// `1_000_000_000` or more: that range represents a leap second. Such a raw
/// reading is normalized (see [`ClockReading::normalized`]) before any
/// boundary computation, so the calculator itself only ever sees a
/// sub-second field below one second.
#[derive(Clone, Copy, Debug, PartialEq, Eq, Structural)]
pub struct ClockReading {
    /// Hour of the day, `0 ..= 23`.
    pub hour: u32,
    /// Minute of the hour, `0 ..= 59`.
    pub minute: u32,
    /// Second of the minute, `0 ..= 59`.
    pub second: u32,
    /// Nanoseconds since the whole second, below `1_000_000_000` once
    /// normalized; a raw reading may reach `1_999_999_999` during a leap
    /// second.
    pub nanosecond: u32,
}

impl ClockReading {
    /// The field ranges that a raw reading of the system clock satisfies:
    /// the sub-second field may still encode a leap second.
    pub open spec fn raw_wf(self) -> bool {
        &&& self.hour < 24
        &&& self.minute < 60
        &&& self.second < 60
        &&& self.nanosecond < 2_000_000_000
    }

    /// A well-formed time of day: every field within its calendar range,
    /// with the sub-second field strictly below one second.
    pub open spec fn wf(self) -> bool {
        &&& self.hour < 24
        &&& self.minute < 60
        &&& self.second < 60
        &&& self.nanosecond < 1_000_000_000
    }

    /// Nanoseconds elapsed since the most recent midnight.
    pub open spec fn offset_in_day(self) -> int {
        self.hour * (NANOS_PER_HOUR as int)
            + self.minute * (NANOS_PER_MINUTE as int)
            + self.second * (NANOS_PER_SECOND as int)
            + self.nanosecond
    }

    /// Folds a leap-second reading back into an ordinary one.
    ///
    /// During a leap second the clock reports the previous second number
    /// with a sub-second field of one second or more; subtracting the extra
    /// second puts the reading at the equivalent offset within its minute,
    /// so every boundary computed from the normalized reading falls where
    /// the leap second actually ends. A reading that is already ordinary
    /// comes back unchanged.
    pub fn normalized(self) -> (r: ClockReading)
        requires
            self.raw_wf(),
        ensures
            r.wf(),
            r.hour == self.hour,
            r.minute == self.minute,
            r.second == self.second,
            r.nanosecond == if self.nanosecond >= NANOS_PER_SECOND {
                self.nanosecond - NANOS_PER_SECOND
            } else {
                self.nanosecond as int
            },
    {
        if self.nanosecond >= NANOS_PER_SECOND {
            ClockReading { nanosecond: self.nanosecond - NANOS_PER_SECOND, ..self }
        } else {
            self
        }
    }
}

} // verus!
