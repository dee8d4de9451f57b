use embassy_time::MockDriver;
use statime_embassy_net::ticks::Instant;
use statime_embassy_net::timers::{StatimeTimer, Timers};

const ALL: [StatimeTimer; 5] = [
    StatimeTimer::Announce,
    StatimeTimer::Sync,
    StatimeTimer::DelayRequest,
    StatimeTimer::AnnounceReceipt,
    StatimeTimer::FilterUpdate,
];

fn at(ticks: u64) -> Instant {
    Instant { ticks }
}

#[test]
fn no_timer_runs_at_first() {
    let mut timers = Timers::default();
    assert_eq!(timers.next_deadline(), None);
    assert_eq!(timers.take_due_at(at(u64::MAX)), None);
}

#[test]
fn due_timers_are_served_in_order_and_once() {
    let mut timers = Timers::default();
    for timer in ALL.iter().rev() {
        timers.set(*timer, at(5));
    }
    for timer in ALL {
        assert_eq!(timers.take_due_at(at(5)), Some(timer));
    }
    assert_eq!(timers.take_due_at(at(u64::MAX)), None);
    assert_eq!(timers, Timers::default());
}

#[test]
fn a_timer_is_due_at_its_deadline() {
    let mut timers = Timers::default();
    timers.set(StatimeTimer::Sync, at(10));
    timers.set(StatimeTimer::FilterUpdate, at(7));
    assert_eq!(timers.take_due_at(at(6)), None);
    assert_eq!(timers.take_due_at(at(7)), Some(StatimeTimer::FilterUpdate));
    assert_eq!(timers.sync, Some(at(10)));
    assert_eq!(timers.take_due_at(at(9)), None);
    assert_eq!(timers.take_due_at(at(10)), Some(StatimeTimer::Sync));
}

#[test]
fn the_next_deadline_is_the_earliest() {
    let mut timers = Timers::default();
    timers.set(StatimeTimer::AnnounceReceipt, at(30));
    assert_eq!(timers.next_deadline(), Some(at(30)));
    timers.set(StatimeTimer::Announce, at(20));
    timers.set(StatimeTimer::DelayRequest, at(40));
    assert_eq!(timers.next_deadline(), Some(at(20)));
    timers.set(StatimeTimer::DelayRequest, at(10));
    assert_eq!(timers.next_deadline(), Some(at(10)));
}

#[test]
fn take_due_reads_the_driver_clock() {
    let mut timers = Timers::default();
    timers.set(StatimeTimer::Announce, at(50));
    assert_eq!(timers.take_due(), None);
    MockDriver::get().advance(embassy_time::Duration::from_ticks(50));
    assert_eq!(timers.take_due(), Some(StatimeTimer::Announce));
    assert_eq!(timers.take_due(), None);
}
