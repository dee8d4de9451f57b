use core::time::Duration as StdDuration;

use embassy_time::MockDriver;
use statime::time::{Duration, Time};
use statime_embassy_net::config::Config;
use statime_embassy_net::log::{FilterEstimate, PortState, ServoEstimate};
use statime_embassy_net::packet::{PacketMeta, PtpTimestamp};
use statime_embassy_net::runner::{
    Action, Event, Outgoing, PortAction, Reception, RunError, Runner,
};
use statime_embassy_net::ticks::{Instant, TickDuration, TimeError};
use statime_embassy_net::timers::StatimeTimer;

const STAMP: PtpTimestamp = PtpTimestamp {
    seconds: 6,
    nanos: 7,
};

fn at(ticks: u64) -> Instant {
    Instant { ticks }
}

fn meta(id: u32) -> Option<PacketMeta> {
    Some(PacketMeta { id })
}

fn config() -> Config {
    let mut config = Config::new([2, 0, 0, 0, 0, 1], 4);
    config.tx_timestamp_timeout = TickDuration { ticks: 100 };
    config.log_period = TickDuration { ticks: 1_000 };
    config
}

/// A service that runs the best master clock algorithm after 500 ticks and
/// reports after 1000.
fn runner() -> Runner<&'static str> {
    Runner::new_at(&config(), StdDuration::from_micros(500), at(0), at(0)).unwrap()
}

fn packet(kind: u8) -> [u8; 44] {
    let mut packet = [0u8; 44];
    packet[0] = 0x10 | kind;
    packet
}

fn received<'a>(packet: &'a [u8], id: u32) -> Event<'a> {
    Event::Received {
        reception: Reception::Packet {
            packet,
            meta: PacketMeta { id },
        },
    }
}

fn observed() -> Event<'static> {
    Event::PortObserved {
        state: PortState::Slave,
        estimate: None,
    }
}

fn set(runner: &mut Runner<&'static str>, action: PortAction<'static, &'static str>, now: u64) {
    assert!(matches!(
        runner.handle_action_at(action, at(now)),
        Ok(Outgoing::Nothing)
    ));
}

fn send(runner: &mut Runner<&'static str>, context: &'static str, now: u64) -> u32 {
    let action = PortAction::SendEvent {
        context,
        data: &[1, 2, 3],
        link_local: false,
    };
    match runner.handle_action_at(action, at(now)) {
        Ok(Outgoing::Event {
            context,
            data,
            metadata,
        }) => {
            assert_eq!(data, &[1, 2, 3]);
            runner.event_sent_at(context, metadata.meta, at(now));
            metadata.meta.id
        }
        _ => panic!("nothing to send"),
    }
}

#[test]
fn the_sockets_are_asked_when_nothing_is_due() {
    let mut runner = runner();
    assert!(matches!(
        runner.run_at(Event::ActionsDone, at(1)),
        Ok(Action::ReceiveEvent)
    ));
    let nothing = Event::Received {
        reception: Reception::WouldBlock,
    };
    assert!(matches!(runner.run_at(nothing, at(1)), Ok(Action::ReceiveGeneral)));
    let nothing = Event::Received {
        reception: Reception::WouldBlock,
    };
    assert!(matches!(runner.run_at(nothing, at(1)), Ok(Action::ObservePort)));
    match runner.run_at(observed(), at(1)) {
        Ok(Action::Sleep { until, report }) => {
            assert_eq!(until, at(500));
            assert_eq!(report, None);
        }
        _ => panic!("no sleep"),
    }
}

#[test]
fn the_best_master_clock_algorithm_comes_first() {
    let mut runner = runner();
    set(
        &mut runner,
        PortAction::ResetSyncTimer {
            duration: StdDuration::ZERO,
        },
        0,
    );
    send(&mut runner, "context", 0);
    assert!(matches!(
        runner.run_at(Event::ActionsDone, at(500)),
        Ok(Action::RunBmca)
    ));
    assert!(matches!(
        runner.run_at(Event::ActionsDone, at(999)),
        Ok(Action::LookUpTx { .. })
    ));
}

#[test]
fn the_best_master_clock_algorithm_runs_every_interval() {
    let mut runner = runner();
    for turn in 1..5u64 {
        assert!(matches!(
            runner.run_at(Event::ActionsDone, at(500 * turn)),
            Ok(Action::RunBmca)
        ));
    }
    assert!(matches!(
        runner.run_at(Event::ActionsDone, at(2_499)),
        Ok(Action::ReceiveEvent)
    ));
}

#[test]
fn a_transmit_timestamp_goes_to_the_port() {
    let mut runner = runner();
    assert_eq!(send(&mut runner, "first", 0), 1);
    assert_eq!(send(&mut runner, "second", 0), 2);
    assert_eq!(
        runner.awaited(),
        [meta(1), meta(2), None, None]
    );
    match runner.run_at(Event::ActionsDone, at(10)) {
        Ok(Action::LookUpTx { meta }) => assert_eq!(meta.id, 1),
        _ => panic!("no lookup"),
    }
    match runner.run_at(Event::TxTimestamp { stored: None }, at(10)) {
        Ok(Action::LookUpTx { meta }) => assert_eq!(meta.id, 2),
        _ => panic!("no lookup"),
    }
    match runner.run_at(Event::TxTimestamp { stored: Some(STAMP) }, at(10)) {
        Ok(Action::HandleSendTimestamp { context, time }) => {
            assert_eq!(context, "second");
            assert_eq!(time, Time::from_nanos(6_000_000_007));
        }
        _ => panic!("no timestamp"),
    }
    assert_eq!(runner.awaited(), [meta(1), None, None, None]);
    assert!(matches!(
        runner.run_at(Event::ActionsDone, at(10)),
        Ok(Action::ObservePort)
    ));
    match runner.run_at(observed(), at(10)) {
        Ok(Action::Sleep { until, .. }) => assert_eq!(until, at(100)),
        _ => panic!("no sleep"),
    }
}

#[test]
fn packets_without_a_timestamp_are_given_up() {
    let mut runner = runner();
    send(&mut runner, "early", 0);
    send(&mut runner, "late", 50);
    assert!(matches!(
        runner.run_at(Event::ActionsDone, at(120)),
        Ok(Action::LookUpTx { .. })
    ));
    match runner.run_at(Event::TxTimestamp { stored: None }, at(120)) {
        Ok(Action::GiveUpTx { meta }) => assert_eq!(meta.id, 1),
        _ => panic!("not given up"),
    }
    match runner.run_at(Event::TxGivenUp, at(120)) {
        Ok(Action::LookUpTx { meta }) => assert_eq!(meta.id, 2),
        _ => panic!("no lookup"),
    }
    assert!(matches!(
        runner.run_at(Event::TxTimestamp { stored: None }, at(120)),
        Ok(Action::ReceiveEvent)
    ));
    assert_eq!(runner.awaited(), [None, meta(2), None, None]);
}

#[test]
fn a_clock_that_goes_back_stops_the_service() {
    let mut runner = runner();
    send(&mut runner, "context", 50);
    assert!(runner.run_at(Event::ActionsDone, at(60)).is_ok());
    assert!(matches!(
        runner.run_at(Event::TxTimestamp { stored: None }, at(40)),
        Err(RunError::Clock(TimeError::WentBackwards))
    ));
    assert!(matches!(
        runner.run_at(Event::TxTimestamp { stored: Some(STAMP) }, at(40)),
        Ok(Action::HandleSendTimestamp { .. })
    ));
}

#[test]
fn timers_are_served_before_the_network() {
    let mut runner = runner();
    set(
        &mut runner,
        PortAction::ResetDelayRequestTimer {
            duration: StdDuration::from_micros(20),
        },
        0,
    );
    set(
        &mut runner,
        PortAction::ResetAnnounceTimer {
            duration: StdDuration::from_nanos(19_001),
        },
        0,
    );
    match runner.run_at(Event::ActionsDone, at(20)) {
        Ok(Action::HandleTimer { timer }) => assert_eq!(timer, StatimeTimer::Announce),
        _ => panic!("no timer"),
    }
    assert!(runner.run_at(Event::ActionsDone, at(20)).is_ok());
    match runner.run_at(observed(), at(20)) {
        Ok(Action::Sleep { until, .. }) => assert_eq!(until, at(20)),
        _ => panic!("no sleep"),
    }
    match runner.run_at(Event::Woken, at(20)) {
        Ok(Action::HandleTimer { timer }) => assert_eq!(timer, StatimeTimer::DelayRequest),
        _ => panic!("no timer"),
    }
}

#[test]
fn each_reset_sets_one_timer() {
    let duration = StdDuration::from_micros(30);
    let resets: [(PortAction<'static, &'static str>, StatimeTimer); 5] = [
        (PortAction::ResetAnnounceTimer { duration }, StatimeTimer::Announce),
        (PortAction::ResetSyncTimer { duration }, StatimeTimer::Sync),
        (
            PortAction::ResetDelayRequestTimer { duration },
            StatimeTimer::DelayRequest,
        ),
        (
            PortAction::ResetAnnounceReceiptTimer { duration },
            StatimeTimer::AnnounceReceipt,
        ),
        (
            PortAction::ResetFilterUpdateTimer { duration },
            StatimeTimer::FilterUpdate,
        ),
    ];
    for (reset, expected) in resets {
        let mut runner = runner();
        set(&mut runner, reset, 5);
        assert!(matches!(
            runner.run_at(Event::ActionsDone, at(34)),
            Ok(Action::ReceiveEvent)
        ));
        let nothing = Event::Received {
            reception: Reception::Truncated,
        };
        assert!(runner.run_at(nothing, at(34)).is_ok());
        assert!(runner.run_at(observed(), at(34)).is_ok());
        match runner.run_at(Event::Woken, at(35)) {
            Ok(Action::HandleTimer { timer }) => assert_eq!(timer, expected),
            _ => panic!("no timer"),
        }
    }
}

#[test]
fn event_packets_are_handled_with_their_timestamp() {
    let mut runner = runner();
    assert!(runner.run_at(Event::ActionsDone, at(1)).is_ok());
    match runner.run_at(received(&packet(0), 9), at(1)) {
        Ok(Action::LookUpRx { meta }) => assert_eq!(meta.id, 9),
        _ => panic!("no lookup"),
    }
    match runner.run_at(Event::RxTimestamp { stored: Some(STAMP) }, at(1)) {
        Ok(Action::HandleEventReceive { time }) => assert_eq!(time, Time::from_nanos(6_000_000_007)),
        _ => panic!("not handled"),
    }
}

#[test]
fn event_packets_without_a_timestamp_are_passed_over() {
    let mut runner = runner();
    assert!(runner.run_at(Event::ActionsDone, at(1)).is_ok());
    assert!(runner.run_at(received(&packet(0), 9), at(1)).is_ok());
    assert!(matches!(
        runner.run_at(Event::RxTimestamp { stored: None }, at(1)),
        Ok(Action::ObservePort)
    ));
}

#[test]
fn delay_requests_and_short_packets_are_passed_over() {
    for bytes in [&packet(1)[..], &packet(2)[..], &packet(3)[..], &packet(0)[..33]] {
        let mut runner = runner();
        assert!(runner.run_at(Event::ActionsDone, at(1)).is_ok());
        assert!(matches!(
            runner.run_at(received(bytes, 9), at(1)),
            Ok(Action::ObservePort)
        ));
    }
}

#[test]
fn general_packets_need_a_header() {
    let cases = [
        (&packet(0xb)[..], true),
        (&packet(1)[..], true),
        (&packet(0xb)[..33], false),
    ];
    for (bytes, handled) in cases {
        let mut runner = runner();
        assert!(runner.run_at(Event::ActionsDone, at(1)).is_ok());
        let nothing = Event::Received {
            reception: Reception::WouldBlock,
        };
        assert!(runner.run_at(nothing, at(1)).is_ok());
        match runner.run_at(received(bytes, 0), at(1)) {
            Ok(Action::HandleGeneralReceive) => assert!(handled),
            Ok(Action::ObservePort) => assert!(!handled),
            _ => panic!("unexpected action"),
        }
    }
}

#[test]
fn a_truncated_event_packet_ends_the_turn() {
    let mut runner = runner();
    assert!(runner.run_at(Event::ActionsDone, at(1)).is_ok());
    let truncated = Event::Received {
        reception: Reception::Truncated,
    };
    assert!(matches!(runner.run_at(truncated, at(1)), Ok(Action::ObservePort)));
}

#[test]
fn the_servo_is_reported_once_per_period() {
    let mut runner: Runner<()> =
        Runner::new_at(&config(), StdDuration::from_secs(1), at(0), at(0)).unwrap();
    assert!(runner.run_at(Event::ActionsDone, at(1_000)).is_ok());
    let truncated = Event::Received {
        reception: Reception::Truncated,
    };
    assert!(runner.run_at(truncated, at(1_000)).is_ok());
    let estimate = FilterEstimate {
        offset_from_master: Duration::from_nanos(5),
        mean_delay: Duration::from_nanos(-6),
    };
    let observed = Event::PortObserved {
        state: PortState::Slave,
        estimate: Some(estimate),
    };
    match runner.run_at(observed, at(1_000)) {
        Ok(Action::Sleep { until, report }) => {
            assert_eq!(until, at(2_000));
            assert_eq!(
                report.unwrap().estimate,
                Some(ServoEstimate {
                    offset_ns: 5,
                    mean_delay_ns: -6
                })
            );
        }
        _ => panic!("no sleep"),
    }
}

#[test]
fn other_events_are_refused() {
    let mut runner = runner();
    assert!(matches!(
        runner.run_at(Event::Woken, at(1)),
        Err(RunError::Unexpected)
    ));
    assert!(matches!(
        runner.run_at(Event::ActionsDone, at(1)),
        Ok(Action::ReceiveEvent)
    ));
    assert!(matches!(
        runner.run_at(Event::ActionsDone, at(1)),
        Err(RunError::Unexpected)
    ));
    assert!(matches!(
        runner.run_at(Event::TxTimestamp { stored: None }, at(1)),
        Err(RunError::Unexpected)
    ));
}

#[test]
fn instants_out_of_range_are_refused() {
    let interval = StdDuration::from_micros(500);
    assert!(Runner::<()>::new_at(&config(), interval, at(u64::MAX), at(0)).is_none());
    assert!(Runner::<()>::new_at(&config(), interval, at(0), at(u64::MAX)).is_none());
    let mut runner = runner();
    assert!(matches!(
        runner.run_at(Event::ActionsDone, at(u64::MAX)),
        Err(RunError::Clock(TimeError::Overflow))
    ));
    assert!(matches!(
        runner.handle_action_at(
            PortAction::ResetSyncTimer {
                duration: StdDuration::MAX
            },
            at(0)
        ),
        Err(TimeError::Overflow)
    ));
}

#[test]
fn event_packets_carry_fresh_identifiers() {
    let mut runner = runner();
    for id in 1..=20u32 {
        assert_eq!(send(&mut runner, "context", 0), id);
    }
    assert_eq!(runner.awaited(), [meta(1), meta(2), meta(3), meta(4)]);
    assert!(!runner.event_sent_at("context", PacketMeta { id: 21 }, at(0)));
}

#[test]
fn packets_go_to_their_endpoints() {
    let mut runner = runner();
    let action = PortAction::SendEvent {
        context: "context",
        data: &[5],
        link_local: true,
    };
    match runner.handle_action_at(action, at(0)) {
        Ok(Outgoing::Event { metadata, .. }) => {
            assert_eq!(metadata.endpoint.addr, [224, 0, 0, 107]);
            assert_eq!(metadata.endpoint.port, 319);
            assert_eq!(metadata.local_address, None);
            assert_eq!(metadata.meta.id, 1);
        }
        _ => panic!("nothing to send"),
    }
    let action = PortAction::SendGeneral {
        data: &[6],
        link_local: false,
    };
    match runner.handle_action_at(action, at(0)) {
        Ok(Outgoing::General { data, metadata }) => {
            assert_eq!(data, &[6]);
            assert_eq!(metadata.endpoint.addr, [224, 0, 1, 129]);
            assert_eq!(metadata.endpoint.port, 320);
            assert_eq!(metadata.local_address, None);
            assert_eq!(metadata.meta.id, 0);
        }
        _ => panic!("nothing to send"),
    }
    assert!(matches!(
        runner.handle_action_at(PortAction::ForwardTLV, at(0)),
        Ok(Outgoing::Nothing)
    ));
}

#[test]
fn general_packets_use_up_no_identifier() {
    let mut runner = runner();
    assert_eq!(send(&mut runner, "first", 0), 1);
    let action = PortAction::SendGeneral {
        data: &[6],
        link_local: false,
    };
    match runner.handle_action_at(action, at(0)) {
        Ok(Outgoing::General { metadata, .. }) => assert_eq!(metadata.meta.id, 0),
        _ => panic!("nothing to send"),
    }
    assert_eq!(send(&mut runner, "second", 0), 2);
}

#[test]
fn a_failed_send_skips_nothing() {
    let mut runner = runner();
    let failed = PortAction::SendEvent {
        context: "lost",
        data: &[1],
        link_local: false,
    };
    assert!(matches!(
        runner.handle_action_at(failed, at(0)),
        Ok(Outgoing::Event { .. })
    ));
    assert_eq!(runner.awaited(), [None; 4]);
    let duration = StdDuration::from_micros(30);
    set(&mut runner, PortAction::ResetSyncTimer { duration }, 0);
    assert_eq!(send(&mut runner, "kept", 0), 2);
    assert_eq!(runner.awaited(), [meta(2), None, None, None]);
    assert!(runner.run_at(Event::ActionsDone, at(30)).is_ok());
    match runner.run_at(Event::TxTimestamp { stored: None }, at(30)) {
        Ok(Action::HandleTimer { timer }) => assert_eq!(timer, StatimeTimer::Sync),
        _ => panic!("no timer"),
    }
}

#[test]
fn the_last_of_several_resets_decides() {
    let mut runner = runner();
    for (micros, now) in [(300, 0), (10, 5), (60, 7)] {
        let duration = StdDuration::from_micros(micros);
        set(&mut runner, PortAction::ResetAnnounceTimer { duration }, now);
    }
    assert!(runner.run_at(Event::ActionsDone, at(66)).is_ok());
    let truncated = Event::Received {
        reception: Reception::Truncated,
    };
    assert!(matches!(runner.run_at(truncated, at(66)), Ok(Action::ObservePort)));
    match runner.run_at(observed(), at(66)) {
        Ok(Action::Sleep { until, .. }) => assert_eq!(until, at(67)),
        _ => panic!("no sleep"),
    }
}

#[test]
fn losses_do_not_stop_the_service() {
    let mut runner = runner();
    let mut now = 1;
    let mut event = Event::ActionsDone;
    let mut given_up = Vec::new();
    let mut turns = 0;
    let short = packet(0);
    for _ in 0..5_000 {
        match runner.run_at(event, at(now)).unwrap() {
            Action::RunBmca | Action::HandleTimer { .. } => event = Event::ActionsDone,
            Action::LookUpTx { .. } => event = Event::TxTimestamp { stored: None },
            Action::GiveUpTx { meta } => {
                given_up.push(meta.id);
                event = Event::TxGivenUp;
            }
            Action::ReceiveEvent => {
                event = match turns % 3 {
                    0 => received(&short[..20], 3),
                    1 => received(&short, 3),
                    _ => Event::Received {
                        reception: Reception::WouldBlock,
                    },
                }
            }
            Action::LookUpRx { .. } => event = Event::RxTimestamp { stored: None },
            Action::ReceiveGeneral => {
                event = Event::Received {
                    reception: Reception::Truncated,
                }
            }
            Action::ObservePort => event = observed(),
            Action::Sleep { until, .. } => {
                turns += 1;
                now = until.ticks.max(now);
                send(&mut runner, "context", now);
                event = Event::Woken;
            }
            _ => panic!("nothing reaches the port"),
        }
    }
    assert!(turns > 100);
    assert!(!given_up.is_empty());
}

#[test]
fn the_service_reads_the_driver_clock() {
    let driver = MockDriver::get();
    driver.advance(embassy_time::Duration::from_ticks(40));
    let mut runner: Runner<&'static str> =
        Runner::new(&config(), StdDuration::from_micros(500)).unwrap();
    driver.advance(embassy_time::Duration::from_ticks(10));
    let reset = PortAction::ResetSyncTimer {
        duration: StdDuration::from_micros(30),
    };
    assert!(runner.handle_action(reset).is_ok());
    assert!(runner.event_sent("context", PacketMeta { id: 1 }));
    driver.advance(embassy_time::Duration::from_ticks(100));
    assert!(matches!(
        runner.run(Event::ActionsDone),
        Ok(Action::LookUpTx { .. })
    ));
    assert!(matches!(
        runner.run(Event::TxTimestamp { stored: None }),
        Ok(Action::GiveUpTx { .. })
    ));
    match runner.run(Event::TxGivenUp) {
        Ok(Action::HandleTimer { timer }) => assert_eq!(timer, StatimeTimer::Sync),
        _ => panic!("no timer"),
    }
    assert_eq!(runner.awaited(), [None; 4]);
    assert!(runner.run(Event::ActionsDone).is_ok());
    match runner.run(observed()) {
        Ok(Action::Sleep { until, .. }) => assert_eq!(until, at(540)),
        _ => panic!("no sleep"),
    }
    driver.advance(embassy_time::Duration::from_ticks(390));
    assert!(matches!(runner.run(Event::Woken), Ok(Action::RunBmca)));
}
