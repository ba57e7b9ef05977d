//! The real local clock, read through the public functions.

use zila::duration_to_next;
use zila::duration_to_next_day;
use zila::duration_to_next_hour;
use zila::duration_to_next_minute;
use zila::duration_to_next_second;
use zila::now_local;
use zila::Granularity;

const SECOND_NS: u64 = 1_000_000_000;
const MINUTE_NS: u64 = 60 * SECOND_NS;
const HOUR_NS: u64 = 60 * MINUTE_NS;
const DAY_NS: u64 = 24 * HOUR_NS;

#[test]
fn now_local_fields_are_in_range() {
    for _ in 0..100 {
        let now = now_local();
        assert!(now.hour < 24);
        assert!(now.minute < 60);
        assert!(now.second < 60);
        assert!(now.nanosecond < SECOND_NS as u32);
    }
}

#[test]
fn duration_to_next_second_is_below_one_second() {
    for _ in 0..100 {
        assert!(duration_to_next_second() < SECOND_NS);
    }
}

#[test]
fn duration_to_next_minute_is_below_one_minute() {
    assert!(duration_to_next_minute() < MINUTE_NS);
}

#[test]
fn duration_to_next_hour_is_below_one_hour() {
    assert!(duration_to_next_hour() < HOUR_NS);
}

#[test]
fn duration_to_next_day_is_below_one_day() {
    assert!(duration_to_next_day() < DAY_NS);
}

#[test]
fn duration_to_next_matches_each_granularity_bound() {
    assert!(duration_to_next(Granularity::Day) < DAY_NS);
    assert!(duration_to_next(Granularity::Hour) < HOUR_NS);
    assert!(duration_to_next(Granularity::Minute) < MINUTE_NS);
    assert!(duration_to_next(Granularity::Second) < SECOND_NS);
}

#[test]
fn coarser_waits_dominate_at_one_instant() {
    // The four durations are taken moments apart, so compare them with a
    // slack of the time the four calls themselves can take.
    let day = duration_to_next_day();
    let hour = duration_to_next_hour();
    let minute = duration_to_next_minute();
    let second = duration_to_next_second();
    let slack = SECOND_NS;
    if day > slack && hour > slack && minute > slack {
        assert!(day + slack >= hour);
        assert!(hour + slack >= minute);
        assert!(minute + slack >= second);
    }
}
