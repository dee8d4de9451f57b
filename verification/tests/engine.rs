//! The library together with the protocol engine.

use core::convert::Infallible;

use statime::config::{
    AcceptAnyMaster, ClockIdentity, DelayMechanism, InstanceConfig, PortConfig, PtpMinorVersion,
    SdoId, TimePropertiesDS,
};
use statime::filters::{KalmanConfiguration, KalmanFilter};
use statime::port::{NoForwardedTLVs, PortAction as EngineAction, TimestampContext};
use statime::time::{Duration, Time};
use statime::{Clock, PtpInstance};
use statime_embassy_net::config::Config;
use statime_embassy_net::log::PortState;
use statime_embassy_net::packet::PtpTimestamp;
use statime_embassy_net::runner::{Action, Event, Outgoing, PortAction, Reception, Runner};
use statime_embassy_net::ticks::Instant;
use statime_embassy_net::timers::StatimeTimer;

struct FixedClock;

impl Clock for FixedClock {
    type Error = Infallible;

    fn now(&self) -> Time {
        Time::from_secs(1)
    }

    fn step_clock(&mut self, _offset: Duration) -> Result<Time, Infallible> {
        Ok(self.now())
    }

    fn set_frequency(&mut self, _ppm: f64) -> Result<Time, Infallible> {
        Ok(self.now())
    }

    fn set_properties(&mut self, _properties: &TimePropertiesDS) -> Result<(), Infallible> {
        Ok(())
    }
}

fn convert(action: EngineAction<'_>) -> PortAction<'_, TimestampContext> {
    match action {
        EngineAction::SendEvent {
            context,
            data,
            link_local,
        } => PortAction::SendEvent {
            context,
            data,
            link_local,
        },
        EngineAction::SendGeneral { data, link_local } => PortAction::SendGeneral { data, link_local },
        EngineAction::ResetAnnounceTimer { duration } => PortAction::ResetAnnounceTimer { duration },
        EngineAction::ResetSyncTimer { duration } => PortAction::ResetSyncTimer { duration },
        EngineAction::ResetDelayRequestTimer { duration } => {
            PortAction::ResetDelayRequestTimer { duration }
        }
        EngineAction::ResetAnnounceReceiptTimer { duration } => {
            PortAction::ResetAnnounceReceiptTimer { duration }
        }
        EngineAction::ResetFilterUpdateTimer { duration } => {
            PortAction::ResetFilterUpdateTimer { duration }
        }
        EngineAction::ForwardTLV { .. } => PortAction::ForwardTLV,
    }
}

/// The message types that were sent for the actions of a port.
fn carry_out<'a>(
    runner: &mut Runner<TimestampContext>,
    actions: impl Iterator<Item = EngineAction<'a>>,
    now: Instant,
) -> Vec<u8> {
    let mut sent = Vec::new();
    for action in actions {
        match runner.handle_action_at(convert(action), now).unwrap() {
            Outgoing::Event {
                context,
                data,
                metadata,
            } => {
                sent.push(data[0] & 0x0f);
                assert!(runner.event_sent_at(context, metadata.meta, now));
            }
            Outgoing::General { data, .. } => sent.push(data[0] & 0x0f),
            Outgoing::Nothing => {}
        }
    }
    sent
}

#[test]
fn a_lone_clock_becomes_master_and_sends_a_follow_up() {
    let mut config = Config::new([2, 0, 0, 0, 0, 1], 4);
    config.slave_only = false;
    let settings = config.instance_config();
    let instance = PtpInstance::<KalmanFilter>::new(
        InstanceConfig {
            clock_identity: ClockIdentity(settings.clock_identity.0),
            priority_1: settings.priority_1,
            priority_2: settings.priority_2,
            domain_number: settings.domain_number,
            sdo_id: SdoId::try_from(settings.sdo_id).unwrap(),
            slave_only: settings.slave_only,
            path_trace: settings.path_trace,
        },
        config.time_properties,
    );
    let port_settings = config.port_config();
    let port = instance.add_port(
        PortConfig {
            acceptable_master_list: AcceptAnyMaster,
            delay_mechanism: DelayMechanism::E2E {
                interval: config.delay_request_interval,
            },
            announce_interval: port_settings.announce_interval,
            announce_receipt_timeout: port_settings.announce_receipt_timeout,
            sync_interval: port_settings.sync_interval,
            master_only: port_settings.master_only,
            delay_asymmetry: port_settings.delay_asymmetry,
            minor_ptp_version: PtpMinorVersion::Zero,
        },
        KalmanConfiguration::default(),
        FixedClock,
        config.port_rng(),
    );
    let (mut port, actions) = port.end_bmca();
    let mut now = Instant { ticks: 0 };
    let mut runner: Runner<TimestampContext> =
        Runner::new_at(&config, instance.bmca_interval(), now, now).unwrap();
    carry_out(&mut runner, actions, now);

    let mut forwarded = NoForwardedTLVs;
    let mut sent = Vec::new();
    let mut timers = Vec::new();
    let mut event = Event::ActionsDone;
    for _ in 0..200 {
        if sent.contains(&8) {
            break;
        }
        match runner.run_at(event, now).unwrap() {
            Action::RunBmca => {
                let mut bmca = port.start_bmca();
                instance.bmca(&mut [&mut bmca]);
                let (running, actions) = bmca.end_bmca();
                port = running;
                sent.extend(carry_out(&mut runner, actions, now));
                event = Event::ActionsDone;
            }
            Action::LookUpTx { meta } => {
                assert_ne!(meta.id, 0);
                event = Event::TxTimestamp {
                    stored: Some(PtpTimestamp {
                        seconds: 0x0a0b,
                        nanos: 0x0102_0304,
                    }),
                };
            }
            Action::HandleSendTimestamp { context, time } => {
                assert_eq!(time, Time::from_nanos(0x0a0b * 1_000_000_000 + 0x0102_0304));
                let actions: Vec<EngineAction> = port.handle_send_timestamp(context, time).collect();
                for action in &actions {
                    if let EngineAction::SendGeneral { data, .. } = action {
                        assert_eq!(&data[34..44], &[0, 0, 0, 0, 0x0a, 0x0b, 1, 2, 3, 4]);
                    }
                }
                sent.extend(carry_out(&mut runner, actions.into_iter(), now));
                event = Event::ActionsDone;
            }
            Action::HandleTimer { timer } => {
                timers.push(timer);
                let actions = match timer {
                    StatimeTimer::Announce => port.handle_announce_timer(&mut forwarded),
                    StatimeTimer::Sync => port.handle_sync_timer(),
                    StatimeTimer::DelayRequest => port.handle_delay_request_timer(),
                    StatimeTimer::AnnounceReceipt => port.handle_announce_receipt_timer(),
                    StatimeTimer::FilterUpdate => port.handle_filter_update_timer(),
                };
                sent.extend(carry_out(&mut runner, actions, now));
                event = Event::ActionsDone;
            }
            Action::ReceiveEvent | Action::ReceiveGeneral => {
                event = Event::Received {
                    reception: Reception::WouldBlock,
                };
            }
            Action::ObservePort => {
                event = Event::PortObserved {
                    state: PortState::Listening,
                    estimate: None,
                };
            }
            Action::Sleep { until, .. } => {
                now = if until.ticks > now.ticks { until } else { now };
                event = Event::Woken;
            }
            _ => panic!("a packet was handled, but none was received"),
        }
    }
    assert!(timers.contains(&StatimeTimer::AnnounceReceipt));
    assert!(timers.contains(&StatimeTimer::Sync));
    assert!(sent.contains(&0xb));
    assert!(sent.contains(&0x0));
    assert!(sent.contains(&0x8));
    assert!(port.is_master());
}
