//! The boundary calculator on concrete readings.

use zila::next_boundary_duration;
use zila::ClockReading;
use zila::Granularity;

fn reading(hour: u32, minute: u32, second: u32, nanosecond: u32) -> ClockReading {
    ClockReading { hour, minute, second, nanosecond }
}

const SECOND_NS: u64 = 1_000_000_000;
const MINUTE_NS: u64 = 60 * SECOND_NS;
const HOUR_NS: u64 = 60 * MINUTE_NS;
const DAY_NS: u64 = 24 * HOUR_NS;

fn period(g: Granularity) -> u64 {
    match g {
        Granularity::Day => DAY_NS,
        Granularity::Hour => HOUR_NS,
        Granularity::Minute => MINUTE_NS,
        Granularity::Second => SECOND_NS,
    }
}

#[test]
fn on_boundary_readings_wait_zero() {
    assert_eq!(next_boundary_duration(Granularity::Day, reading(0, 0, 0, 0)), 0);
    assert_eq!(next_boundary_duration(Granularity::Hour, reading(13, 0, 0, 0)), 0);
    assert_eq!(next_boundary_duration(Granularity::Minute, reading(13, 45, 0, 0)), 0);
    assert_eq!(next_boundary_duration(Granularity::Second, reading(13, 45, 12, 0)), 0);
}

#[test]
fn midnight_waits_zero_at_every_granularity() {
    let midnight = reading(0, 0, 0, 0);
    assert_eq!(next_boundary_duration(Granularity::Day, midnight), 0);
    assert_eq!(next_boundary_duration(Granularity::Hour, midnight), 0);
    assert_eq!(next_boundary_duration(Granularity::Minute, midnight), 0);
    assert_eq!(next_boundary_duration(Granularity::Second, midnight), 0);
}

#[test]
fn example_quarter_past_ten() {
    let now = reading(10, 15, 30, 500_000_000);
    assert_eq!(next_boundary_duration(Granularity::Second, now), 500_000_000);
    assert_eq!(next_boundary_duration(Granularity::Minute, now), 29_500_000_000);
    assert_eq!(
        next_boundary_duration(Granularity::Hour, now),
        44 * MINUTE_NS + 29 * SECOND_NS + 500_000_000,
    );
    assert_eq!(
        next_boundary_duration(Granularity::Day, now),
        13 * HOUR_NS + 44 * MINUTE_NS + 29 * SECOND_NS + 500_000_000,
    );
}

#[test]
fn off_boundary_wait_is_positive_and_below_period() {
    let cases = [
        reading(0, 0, 0, 1),
        reading(10, 15, 30, 500_000_000),
        reading(23, 59, 59, 999_999_999),
        reading(12, 0, 0, 1),
        reading(7, 59, 0, 0),
    ];
    let granularities =
        [Granularity::Day, Granularity::Hour, Granularity::Minute, Granularity::Second];
    for now in cases {
        for g in granularities {
            let d = next_boundary_duration(g, now);
            assert!(d < period(g));
            let elapsed = match g {
                Granularity::Day => {
                    now.hour as u64 * HOUR_NS + now.minute as u64 * MINUTE_NS
                        + now.second as u64 * SECOND_NS + now.nanosecond as u64
                }
                Granularity::Hour => {
                    now.minute as u64 * MINUTE_NS + now.second as u64 * SECOND_NS
                        + now.nanosecond as u64
                }
                Granularity::Minute => now.second as u64 * SECOND_NS + now.nanosecond as u64,
                Granularity::Second => now.nanosecond as u64,
            };
            if elapsed == 0 {
                assert_eq!(d, 0);
            } else {
                assert!(d > 0);
                assert_eq!(elapsed + d, period(g));
            }
        }
    }
}

#[test]
fn last_instant_of_day_waits_one_nanosecond() {
    let now = reading(23, 59, 59, 999_999_999);
    assert_eq!(next_boundary_duration(Granularity::Day, now), 1);
    assert_eq!(next_boundary_duration(Granularity::Hour, now), 1);
    assert_eq!(next_boundary_duration(Granularity::Minute, now), 1);
    assert_eq!(next_boundary_duration(Granularity::Second, now), 1);
}

#[test]
fn earlier_readings_never_wait_less() {
    // Decreasing fields of the reading never shortens the wait, unless the
    // decreased reading lands exactly on the boundary (where the wait drops
    // to zero): such readings are skipped here.
    let later = reading(10, 15, 30, 500_000_000);
    let earlier_readings = [
        reading(10, 15, 30, 1),
        reading(10, 15, 1, 500_000_000),
        reading(10, 1, 30, 500_000_000),
        reading(1, 15, 30, 500_000_000),
        reading(1, 1, 1, 1),
    ];
    for g in [Granularity::Day, Granularity::Hour, Granularity::Minute, Granularity::Second] {
        let d = next_boundary_duration(g, later);
        for earlier in earlier_readings {
            assert!(next_boundary_duration(g, earlier) >= d);
        }
    }
}

#[test]
fn decreasing_onto_a_boundary_drops_the_wait_to_zero() {
    let later = reading(10, 15, 30, 500_000_000);
    let on_minute_boundary = reading(10, 15, 0, 0);
    assert_eq!(next_boundary_duration(Granularity::Minute, later), 29_500_000_000);
    assert_eq!(next_boundary_duration(Granularity::Minute, on_minute_boundary), 0);
}

#[test]
fn leap_second_reading_normalizes() {
    let leap = reading(23, 59, 59, 1_500_000_000);
    let folded = leap.normalized();
    assert_eq!(folded, reading(23, 59, 59, 500_000_000));
    assert_eq!(next_boundary_duration(Granularity::Second, folded), 500_000_000);
    assert_eq!(next_boundary_duration(Granularity::Minute, folded), 500_000_000);
    assert_eq!(next_boundary_duration(Granularity::Hour, folded), 500_000_000);
    assert_eq!(next_boundary_duration(Granularity::Day, folded), 500_000_000);
}

#[test]
fn ordinary_reading_is_unchanged_by_normalization() {
    let now = reading(10, 15, 30, 999_999_999);
    assert_eq!(now.normalized(), now);
}
