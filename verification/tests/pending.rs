use embassy_time::MockDriver;
use statime_embassy_net::packet::{PacketMeta, PtpTimestamp};
use statime_embassy_net::pending::{PendingTxQueue, Settled};
use statime_embassy_net::ticks::{Instant, TickDuration, TimeError};

fn at(ticks: u64) -> Instant {
    Instant { ticks }
}

fn meta(id: u32) -> PacketMeta {
    PacketMeta { id }
}

const STAMP: PtpTimestamp = PtpTimestamp {
    seconds: 3,
    nanos: 4,
};

fn full() -> PendingTxQueue<&'static str> {
    let mut queue = PendingTxQueue::new(TickDuration { ticks: 100 });
    assert!(queue.push_at("a", meta(1), at(10)));
    assert!(queue.push_at("b", meta(2), at(20)));
    assert!(queue.push_at("c", meta(3), at(5)));
    assert!(queue.push_at("d", meta(4), at(30)));
    queue
}

#[test]
fn an_empty_queue_waits_for_nothing() {
    let queue = PendingTxQueue::<u8>::new(TickDuration { ticks: 100 });
    assert_eq!(queue.next_waiting(0), None);
    assert_eq!(queue.waiting(), [None; 4]);
    assert_eq!(queue.next_timeout_deadline(), None);
    assert!(queue.deadlines_fit());
}

#[test]
fn a_fifth_packet_is_refused() {
    let mut queue = full();
    assert!(!queue.push_at("e", meta(5), at(40)));
    assert_eq!(queue.waiting(), [1, 2, 3, 4].map(|id| Some(meta(id))));
}

#[test]
fn push_reads_the_driver_clock() {
    MockDriver::get().advance(embassy_time::Duration::from_ticks(77));
    let mut queue = PendingTxQueue::new(TickDuration { ticks: 3 });
    assert!(queue.push((), meta(1)));
    assert_eq!(queue.next_timeout_deadline(), Some(at(80)));
}

#[test]
fn a_timestamp_brings_the_context_back() {
    let mut queue = full();
    match queue.settle_at(1, Some(STAMP), at(0)) {
        Ok(Settled::Stamped { context, timestamp }) => {
            assert_eq!(context, "b");
            assert_eq!(timestamp, STAMP);
        }
        _ => panic!("not stamped"),
    }
    assert_eq!(
        queue.waiting(),
        [Some(meta(1)), None, Some(meta(3)), Some(meta(4))]
    );
    assert!(queue.push_at("e", meta(5), at(40)));
    assert_eq!(queue.waiting(), [1, 5, 3, 4].map(|id| Some(meta(id))));
}

#[test]
fn a_packet_expires_after_the_timeout() {
    let mut queue = full();
    assert!(matches!(
        queue.settle_at(0, None, at(109)),
        Ok(Settled::Waiting)
    ));
    assert_eq!(queue.next_waiting(0), Some((0, meta(1))));
    match queue.settle_at(0, None, at(110)) {
        Ok(Settled::Expired { meta: expired }) => assert_eq!(expired, meta(1)),
        _ => panic!("not expired"),
    }
    assert_eq!(queue.next_waiting(0), Some((1, meta(2))));
}

#[test]
fn a_clock_that_went_back_is_an_error() {
    let mut queue = full();
    assert!(matches!(
        queue.settle_at(0, None, at(9)),
        Err(TimeError::WentBackwards)
    ));
    assert_eq!(queue.waiting(), [1, 2, 3, 4].map(|id| Some(meta(id))));
}

#[test]
fn waiting_packets_are_found_slot_by_slot() {
    let mut queue = full();
    assert!(queue.settle_at(1, Some(STAMP), at(50)).is_ok());
    assert_eq!(queue.next_waiting(0), Some((0, meta(1))));
    assert_eq!(queue.next_waiting(1), Some((2, meta(3))));
    assert_eq!(queue.next_waiting(3), Some((3, meta(4))));
    assert_eq!(queue.next_waiting(4), None);
    assert_eq!(queue.next_waiting(usize::MAX), None);
}

#[test]
fn the_first_deadline_is_the_least() {
    let mut queue = full();
    assert_eq!(queue.next_timeout_deadline(), Some(at(105)));
    assert!(matches!(
        queue.settle_at(2, None, at(105)),
        Ok(Settled::Expired { .. })
    ));
    assert_eq!(queue.next_timeout_deadline(), Some(at(110)));
}

#[test]
fn deadlines_out_of_range_are_noticed() {
    let mut queue = PendingTxQueue::new(TickDuration { ticks: 100 });
    assert!(queue.push_at((), meta(1), at(u64::MAX - 100)));
    assert!(queue.deadlines_fit());
    assert!(queue.push_at((), meta(2), at(u64::MAX - 99)));
    assert!(!queue.deadlines_fit());
}
