use core::time::Duration;

use embassy_time::MockDriver;
use statime_embassy_net::ticks::{
    deadline_after, deadline_after_nanos, deadline_from_now, earlier, Instant, TickDuration,
};

fn at(ticks: u64) -> Instant {
    Instant { ticks }
}

#[test]
fn deadline_counts_from_the_driver_clock() {
    MockDriver::get().advance(embassy_time::Duration::from_millis(3));
    assert_eq!(
        deadline_from_now(Duration::from_nanos(1_500)),
        Some(at(3_002))
    );
    assert_eq!(deadline_from_now(Duration::from_secs(1)), Some(at(1_003_000)));
}

#[test]
fn nanoseconds_are_rounded_up_to_ticks() {
    assert_eq!(TickDuration::from_nanos(0).ticks, 0);
    assert_eq!(TickDuration::from_nanos(1).ticks, 1);
    assert_eq!(TickDuration::from_nanos(1_000).ticks, 1);
    assert_eq!(TickDuration::from_nanos(1_001).ticks, 2);
    assert_eq!(TickDuration::from_nanos(u64::MAX - 1000).ticks, 18_446_744_073_709_551);
}

#[test]
fn milliseconds_and_seconds_are_whole_ticks() {
    assert_eq!(TickDuration::from_millis(100).ticks, 100_000);
    assert_eq!(TickDuration::from_secs(10).ticks, 10_000_000);
}

#[test]
fn deadline_of_a_standard_duration() {
    let second = Duration::new(1, 1);
    assert_eq!(deadline_after(at(5), second), Some(at(1_000_006)));
    assert_eq!(deadline_after(at(5), Duration::ZERO), Some(at(5)));
}

#[test]
fn deadline_out_of_range_is_refused() {
    assert_eq!(deadline_after_nanos(at(u64::MAX), 1), None);
    assert_eq!(deadline_after_nanos(at(u64::MAX), 0), Some(at(u64::MAX)));
    assert_eq!(
        deadline_after_nanos(at(0), u64::MAX as u128 - 1000),
        Some(at(18_446_744_073_709_551))
    );
    assert_eq!(deadline_after_nanos(at(0), u64::MAX as u128 - 999), None);
    assert_eq!(deadline_after_nanos(at(0), u128::MAX), None);
    assert_eq!(deadline_after(at(0), Duration::MAX), None);
}

#[test]
fn longer_durations_end_no_earlier() {
    let mut last = at(0);
    for nanos in [0u128, 1, 999, 1_000, 1_001, 2_000, 1_000_000] {
        let deadline = deadline_after_nanos(at(7), nanos).unwrap();
        assert!(last.ticks <= deadline.ticks);
        assert!(nanos <= 1000 * (deadline.ticks as u128 - 7));
        last = deadline;
    }
}

#[test]
fn instants_are_added_and_subtracted() {
    let span = TickDuration { ticks: 4 };
    assert_eq!(at(3).checked_add(span), Some(at(7)));
    assert_eq!(at(u64::MAX - 3).checked_add(span), None);
    assert_eq!(at(7).duration_since(at(3)), span);
}

#[test]
fn the_earlier_of_two_instants() {
    assert_eq!(earlier(Some(at(3)), Some(at(2))), Some(at(2)));
    assert_eq!(earlier(Some(at(2)), Some(at(3))), Some(at(2)));
    assert_eq!(earlier(Some(at(2)), None), Some(at(2)));
    assert_eq!(earlier(None, Some(at(3))), Some(at(3)));
    assert_eq!(earlier(None, None), None);
}
