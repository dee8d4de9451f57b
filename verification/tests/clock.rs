use statime::time::{Duration, Time};
use statime_embassy_net::clock::{
    frequency_addend, nanos_from, saturating_i64, step_nanos, time_from, AddendChange,
};
use statime_embassy_net::packet::PtpTimestamp;

fn stamp(seconds: u32, nanos: u32) -> PtpTimestamp {
    PtpTimestamp { seconds, nanos }
}

fn change(faster: bool, delta: u32) -> Option<AddendChange> {
    Some(AddendChange { faster, delta })
}

#[test]
fn timestamps_count_nanoseconds() {
    assert_eq!(nanos_from(stamp(0, 0)), 0);
    assert_eq!(nanos_from(stamp(2, 5)), 2_000_000_005);
    assert_eq!(
        nanos_from(stamp(u32::MAX, u32::MAX)),
        4_294_967_295_000_000_000 + 4_294_967_295
    );
    assert_eq!(time_from(stamp(2, 5)), Time::from_nanos(2_000_000_005));
    assert_eq!(time_from(stamp(7, 0)), Time::from_secs(7));
}

#[test]
fn timestamps_are_ordered() {
    let stamps = [stamp(0, 1), stamp(0, 999_999_999), stamp(1, 0), stamp(1, 1)];
    for pair in stamps.windows(2) {
        assert!(nanos_from(pair[0]) < nanos_from(pair[1]));
        assert!(time_from(pair[0]) < time_from(pair[1]));
    }
}

#[test]
fn wide_counts_are_clamped() {
    assert_eq!(saturating_i64(0), 0);
    assert_eq!(saturating_i64(-5), -5);
    assert_eq!(saturating_i64(i64::MAX as i128), i64::MAX);
    assert_eq!(saturating_i64(i64::MAX as i128 + 1), i64::MAX);
    assert_eq!(saturating_i64(i64::MIN as i128), i64::MIN);
    assert_eq!(saturating_i64(i64::MIN as i128 - 1), i64::MIN);
    assert_eq!(saturating_i64(i128::MAX), i64::MAX);
    assert_eq!(saturating_i64(i128::MIN), i64::MIN);
}

#[test]
fn steps_are_whole_nanoseconds() {
    assert_eq!(step_nanos(Duration::from_nanos(-17)), -17);
    assert_eq!(step_nanos(Duration::from_millis(3)), 3_000_000);
    assert_eq!(step_nanos(Duration::from_fixed_nanos(1.75f64)), 1);
    assert_eq!(step_nanos(Duration::from_fixed_nanos(-1.25f64)), -2);
    assert_eq!(step_nanos(Duration::from_secs(i64::MAX)), i64::MAX);
    assert_eq!(step_nanos(Duration::from_secs(-i64::MAX)), i64::MIN);
}

#[test]
fn the_addend_stays_in_its_register() {
    assert_eq!(frequency_addend(1000, None), 1000);
    assert_eq!(frequency_addend(1000, change(true, 10)), 1010);
    assert_eq!(frequency_addend(1000, change(false, 10)), 990);
    assert_eq!(frequency_addend(1000, change(true, u32::MAX)), u32::MAX);
    assert_eq!(frequency_addend(1000, change(false, 999)), 1);
    assert_eq!(frequency_addend(1000, change(false, 1000)), 1);
    assert_eq!(frequency_addend(1000, change(false, u32::MAX)), 1);
    assert_eq!(frequency_addend(0, change(false, 0)), 1);
    assert_eq!(frequency_addend(0, None), 0);
}

#[test]
fn larger_changes_give_larger_addends() {
    let changes = [
        change(false, u32::MAX),
        change(false, 999),
        change(false, 1),
        change(false, 0),
        change(true, 0),
        change(true, 1),
        change(true, u32::MAX - 1000),
        change(true, u32::MAX),
    ];
    let addends = changes.map(|change| frequency_addend(1000, change));
    assert_eq!(
        addends,
        [1, 1, 999, 1000, 1000, 1001, u32::MAX, u32::MAX]
    );
}

#[test]
fn corrections_do_not_accumulate() {
    let mut register = 0;
    for correction in [change(true, 10), change(false, 70), None, change(true, 10)] {
        register = frequency_addend(1000, correction);
    }
    assert_eq!(register, 1010);
}
