//! Calls a function on clock events: after a delay, on a fixed interval, or
//! re-aligned to the next calendar boundary (day, hour, minute or second).
//!
//! The core of the crate is the boundary calculator: from a wall-clock
//! reading it computes the exact number of nanoseconds until the next
//! aligned boundary, returning zero when the clock is already exactly on
//! one. On top of it, a small cadence model decides how long each cycle of
//! a repeating loop must wait before invoking its callback.

pub mod boundary;
pub mod clock;
pub mod driver;
pub mod reading;

pub use boundary::Granularity;
pub use boundary::next_boundary_duration;
pub use clock::duration_to_next;
pub use clock::duration_to_next_day;
pub use clock::duration_to_next_hour;
pub use clock::duration_to_next_minute;
pub use clock::duration_to_next_second;
pub use clock::now_local;
pub use driver::Cadence;
pub use driver::Driver;
pub use reading::ClockReading;
