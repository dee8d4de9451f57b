//! The service itself: what a single-port ordinary clock does next.
//!
//! The service alternates between deciding and waiting for the world: the
//! network, the timestamp store of the driver, the protocol engine's port. A
//! [`Runner`] makes the decisions. It is told what happened as an [`Event`] and
//! answers with the [`Action`] that is to be carried out next.

use vstd::prelude::*;

use statime::time::Time;

use crate::clock::{time_from, timestamp_nanos};
use crate::config::Config;
use crate::endpoint::{multicast_endpoint, multicast_group};
use crate::endpoint::{UdpMetadata, EVENT_PORT, GENERAL_PORT};
use crate::log::{FilterEstimate, PortState, ServoLog, ServoReport};
use crate::packet::{message_type, successor_id, timestamped_type};
use crate::packet::{ptp_message_type, rx_event_type, PacketIdGenerator, PacketMeta, PtpTimestamp};
use crate::pending::{deadlines_in_range, first_deadline, first_free, first_waiting};
use crate::pending::{first_waiting_is_first, push_keeps_every_packet};
use crate::pending::{settlement, waiting_metas, with_pushed};
use crate::pending::{PendingTx, PendingTxQueue, Settled, TX_PENDING};
use crate::statime_types::time_at_nanos;
use crate::ticks::{deadline_after, earlier, read_clock, Instant, TickDuration, TimeError};
use crate::ticks::{deadline_of, duration_nanos, earlier_of, instant_after, is_reading};
use crate::timers::{StatimeTimer, Timers};

verus! {

/// What came of an attempt to receive a packet.
pub enum Reception<'a> {
    /// A packet.
    Packet {
        /// What was received.
        packet: &'a [u8],
        /// The metadata of the packet.
        meta: PacketMeta,
    },
    /// A packet that did not fit the buffer.
    Truncated,
    /// There is no packet.
    WouldBlock,
}

/// What happened.
pub enum Event<'a> {
    /// The actions that the port asked for were carried out.
    ActionsDone,
    /// The timestamp store was asked for a sent packet.
    TxTimestamp {
        /// What the store holds for the packet.
        stored: Option<PtpTimestamp>,
    },
    /// The loss of a transmit timestamp was noted.
    TxGivenUp,
    /// A socket was asked for a packet.
    Received {
        /// What came of it.
        reception: Reception<'a>,
    },
    /// The timestamp store was asked for a received packet.
    RxTimestamp {
        /// What the store holds for the packet.
        stored: Option<PtpTimestamp>,
    },
    /// The port was looked at.
    PortObserved {
        /// State of the port.
        state: PortState,
        /// Estimate of the port's filter.
        estimate: Option<FilterEstimate>,
    },
    /// The service woke up, because of a packet or a timestamp or because its
    /// time was up.
    Woken,
}

/// What is to be done next. Each action is answered with one event.
pub enum Action<C> {
    /// Run the best master clock algorithm and carry out the actions that the
    /// port asks for. Answered with [`Event::ActionsDone`].
    RunBmca,
    /// Ask the timestamp store for a sent packet. Answered with
    /// [`Event::TxTimestamp`].
    LookUpTx {
        /// The metadata of the packet.
        meta: PacketMeta,
    },
    /// Note that the transmit timestamp of a packet did not come in time.
    /// Answered with [`Event::TxGivenUp`].
    GiveUpTx {
        /// The metadata of the packet.
        meta: PacketMeta,
    },
    /// Give the port the transmit timestamp of a packet, and carry out the
    /// actions that it asks for. Answered with [`Event::ActionsDone`].
    HandleSendTimestamp {
        /// What the port handed out with the packet.
        context: C,
        /// When the packet was sent.
        time: Time,
    },
    /// Tell the port that a timer went off, and carry out the actions that it
    /// asks for. Answered with [`Event::ActionsDone`].
    HandleTimer {
        /// The timer.
        timer: StatimeTimer,
    },
    /// Ask the event socket for a packet. Answered with [`Event::Received`].
    ReceiveEvent,
    /// Ask the timestamp store for the packet that the event socket gave.
    /// Answered with [`Event::RxTimestamp`].
    LookUpRx {
        /// The metadata of the packet.
        meta: PacketMeta,
    },
    /// Give the port the packet that the event socket gave, and carry out the
    /// actions that it asks for. Answered with [`Event::ActionsDone`].
    HandleEventReceive {
        /// When the packet arrived.
        time: Time,
    },
    /// Ask the general socket for a packet. Answered with [`Event::Received`].
    ReceiveGeneral,
    /// Give the port the packet that the general socket gave, and carry out
    /// the actions that it asks for. Answered with [`Event::ActionsDone`].
    HandleGeneralReceive,
    /// Look at the port. Answered with [`Event::PortObserved`].
    ObservePort,
    /// Log the report, if there is one, and sleep. Answered with
    /// [`Event::Woken`].
    Sleep {
        /// When to wake up at the latest.
        until: Instant,
        /// What to log.
        report: Option<ServoReport>,
    },
}

/// Which event the service waits for.
#[derive(Clone, Copy, Debug, PartialEq, Eq, Structural)]
pub enum Phase {
    /// The port's actions are being carried out.
    Acting {
        /// Whether this ends the turn, so that the service sleeps before the
        /// next one.
        sleeps: bool,
    },
    /// The timestamp store is being asked for the packet in a slot.
    TxLookup {
        /// The slot.
        slot: usize,
    },
    /// The loss of the packet that was in a slot is being noted.
    GivingUp {
        /// The slot.
        slot: usize,
    },
    /// The event socket is being asked for a packet.
    EventSocket,
    /// The timestamp store is being asked for a received packet.
    RxLookup,
    /// The general socket is being asked for a packet.
    GeneralSocket,
    /// The port is being looked at.
    Observing,
    /// The service sleeps.
    Sleeping,
}

/// Why an event could not be answered.
#[derive(Clone, Copy, Debug, PartialEq, Eq, Structural)]
pub enum RunError {
    /// The time does not allow it.
    Clock(TimeError),
    /// The event is not the one that was waited for.
    Unexpected,
}

/// What the port asks for.
pub enum PortAction<'a, C> {
    /// Send a packet whose transmit timestamp the port needs.
    SendEvent {
        /// What the port wants back with the timestamp.
        context: C,
        /// The packet.
        data: &'a [u8],
        /// Whether the packet stays on the link.
        link_local: bool,
    },
    /// Send a packet.
    SendGeneral {
        /// The packet.
        data: &'a [u8],
        /// Whether the packet stays on the link.
        link_local: bool,
    },
    /// Let the announce timer go off after `duration`.
    ResetAnnounceTimer {
        /// Time until then.
        duration: core::time::Duration,
    },
    /// Let the sync timer go off after `duration`.
    ResetSyncTimer {
        /// Time until then.
        duration: core::time::Duration,
    },
    /// Let the delay request timer go off after `duration`.
    ResetDelayRequestTimer {
        /// Time until then.
        duration: core::time::Duration,
    },
    /// Let the announce receipt timer go off after `duration`.
    ResetAnnounceReceiptTimer {
        /// Time until then.
        duration: core::time::Duration,
    },
    /// Let the filter update timer go off after `duration`.
    ResetFilterUpdateTimer {
        /// Time until then.
        duration: core::time::Duration,
    },
    /// Forward a part of a message to the other ports, of which there are none.
    ForwardTLV,
}

/// What is to be sent on behalf of the port.
pub enum Outgoing<'a, C> {
    /// A packet for the event socket. Once it is sent, [`Runner::event_sent`]
    /// takes its context and metadata.
    Event {
        /// What the port wants back with the timestamp.
        context: C,
        /// The packet.
        data: &'a [u8],
        /// Where it goes.
        metadata: UdpMetadata,
    },
    /// A packet for the general socket.
    General {
        /// The packet.
        data: &'a [u8],
        /// Where it goes.
        metadata: UdpMetadata,
    },
    /// Nothing.
    Nothing,
}

/// The service: what it has to do, and what it waits for.
pub struct Runner<C> {
    /// Time between two runs of the best master clock algorithm.
    bmca_interval: core::time::Duration,
    /// When the best master clock algorithm runs next.
    bmca: Instant,
    /// The port's timers.
    timers: Timers,
    /// Identifiers for sent event packets.
    packet_id: PacketIdGenerator,
    /// Sent event packets whose timestamp is still to come.
    pending_tx: PendingTxQueue<C>,
    /// When to report on how the clock follows the master.
    servo_log: ServoLog,
    /// Which event the service waits for.
    phase: Phase,
}

/// The state of the service, as its contracts speak of it.
#[verifier::ext_equal]
pub struct RunnerView<C> {
    /// Nanoseconds between two runs of the best master clock algorithm.
    pub bmca_nanos: int,
    /// When the best master clock algorithm runs next.
    pub bmca: Instant,
    /// The port's timers.
    pub timers: Timers,
    /// The identifier that the next event packet is sent with.
    pub next_id: u32,
    /// The slots for sent event packets whose timestamp is still to come.
    pub slots: Seq<Option<PendingTx<C>>>,
    /// How long a timestamp is waited for.
    pub timeout: TickDuration,
    /// When to report on how the clock follows the master.
    pub servo_log: ServoLog,
    /// Which event the service waits for.
    pub phase: Phase,
}

impl<C> View for Runner<C> {
    type V = RunnerView<C>;

    closed spec fn view(&self) -> RunnerView<C> {
        RunnerView {
            bmca_nanos: duration_nanos(self.bmca_interval) as int,
            bmca: self.bmca,
            timers: self.timers,
            next_id: self.packet_id@,
            slots: self.pending_tx@,
            timeout: self.pending_tx.timeout,
            servo_log: self.servo_log,
            phase: self.phase,
        }
    }
}

/// The outcome of a step: the state after it and the action to carry out, or
/// why there is none.
pub type Step<C> = Result<(RunnerView<C>, Action<C>), RunError>;

impl<C> RunnerView<C> {
    /// Whether the next identifier is not 0, which stands for none, the slot that
    /// is being worked on is one of the slots, and the slot that the timestamp
    /// store is being asked for holds a packet.
    pub open spec fn wf(self) -> bool {
        &&& self.next_id != 0
        &&& self.slots.len() == TX_PENDING
        &&& self.phase matches Phase::TxLookup { slot } ==> slot < TX_PENDING
            && self.slots[slot as int] is Some
        &&& self.phase matches Phase::GivingUp { slot } ==> slot < TX_PENDING
    }

    /// The same state in another phase.
    pub open spec fn in_phase(self, phase: Phase) -> RunnerView<C> {
        RunnerView { phase, ..self }
    }

    /// The same state without the packet in a slot.
    pub open spec fn without_packet(self, slot: int) -> RunnerView<C> {
        RunnerView { slots: self.slots.update(slot, None), ..self }
    }

    /// The next step once no sent packet is left to ask for: the first timer
    /// that is due is served, and without one the event socket is asked.
    pub open spec fn serve_timers(self, now: Instant) -> (RunnerView<C>, Action<C>) {
        match self.timers.first_due(now) {
            Some(timer) => (
                RunnerView {
                    timers: self.timers.after_service(now),
                    phase: Phase::Acting { sleeps: true },
                    ..self
                },
                Action::HandleTimer { timer },
            ),
            None => (self.in_phase(Phase::EventSocket), Action::ReceiveEvent),
        }
    }

    /// The next step once the sent packets before a slot were asked for.
    pub open spec fn look_up_from(self, slot: int, now: Instant) -> (RunnerView<C>, Action<C>) {
        match first_waiting(self.slots, slot) {
            Some(i) => (
                self.in_phase(Phase::TxLookup { slot: i as usize }),
                Action::LookUpTx { meta: self.slots[i]->0.meta },
            ),
            None => self.serve_timers(now),
        }
    }

    /// The first step of a turn: the best master clock algorithm, if it is
    /// due, and everything else otherwise.
    pub open spec fn begin_turn(self, now: Instant) -> Step<C> {
        if self.bmca.ticks <= now.ticks {
            match deadline_of(now, self.bmca_nanos) {
                Some(bmca) => Ok(
                    (
                        RunnerView { bmca, phase: Phase::Acting { sleeps: false }, ..self },
                        Action::RunBmca,
                    ),
                ),
                None => Err(RunError::Clock(TimeError::Overflow)),
            }
        } else {
            Ok(self.look_up_from(0, now))
        }
    }

    /// The step once the timestamp store was asked for the packet in a slot.
    pub open spec fn answer_tx(
        self,
        slot: int,
        stored: Option<PtpTimestamp>,
        now: Instant,
    ) -> Step<C> {
        match settlement(self.slots[slot]->0, self.timeout, stored, now) {
            Ok(Settled::Stamped { context, timestamp }) => Ok(
                (
                    self.without_packet(slot).in_phase(Phase::Acting { sleeps: true }),
                    Action::HandleSendTimestamp {
                        context,
                        time: time_at_nanos(timestamp_nanos(timestamp) as u64),
                    },
                ),
            ),
            Ok(Settled::Expired { meta }) => Ok(
                (
                    self.without_packet(slot).in_phase(Phase::GivingUp { slot: slot as usize }),
                    Action::GiveUpTx { meta },
                ),
            ),
            Ok(Settled::Waiting) => Ok(self.look_up_from(slot + 1, now)),
            Err(error) => Err(RunError::Clock(error)),
        }
    }

    /// The step that ends a turn without work for the port.
    pub open spec fn observe(self) -> (RunnerView<C>, Action<C>) {
        (self.in_phase(Phase::Observing), Action::ObservePort)
    }

    /// The step once the event socket was asked for a packet.
    pub open spec fn answer_event_socket(self, reception: Reception) -> (RunnerView<C>, Action<C>) {
        match reception {
            Reception::Packet { packet, meta } => if timestamped_type(packet@) is Some {
                (self.in_phase(Phase::RxLookup), Action::LookUpRx { meta })
            } else {
                self.observe()
            },
            Reception::Truncated => self.observe(),
            Reception::WouldBlock => (
                self.in_phase(Phase::GeneralSocket),
                Action::ReceiveGeneral,
            ),
        }
    }

    /// The step once the timestamp store was asked for a received packet.
    pub open spec fn answer_rx(self, stored: Option<PtpTimestamp>) -> (RunnerView<C>, Action<C>) {
        match stored {
            Some(timestamp) => (
                self.in_phase(Phase::Acting { sleeps: true }),
                Action::HandleEventReceive {
                    time: time_at_nanos(timestamp_nanos(timestamp) as u64),
                },
            ),
            None => self.observe(),
        }
    }

    /// The step once the general socket was asked for a packet.
    pub open spec fn answer_general_socket(self, reception: Reception) -> (
        RunnerView<C>,
        Action<C>,
    ) {
        match reception {
            Reception::Packet { packet, meta } => if message_type(packet@) is Some {
                (self.in_phase(Phase::Acting { sleeps: true }), Action::HandleGeneralReceive)
            } else {
                self.observe()
            },
            Reception::Truncated => self.observe(),
            Reception::WouldBlock => self.observe(),
        }
    }

    /// When the service has to wake up at the latest.
    pub open spec fn wake_up(self) -> Instant {
        earlier_of(
            earlier_of(
                earlier_of(Some(self.bmca), Some(self.servo_log.next_log)),
                self.timers.earliest(),
            ),
            first_deadline(self.slots, self.timeout),
        )->0
    }

    /// The last step of a turn: the report that is due, and sleep.
    pub open spec fn end_turn(
        self,
        state: PortState,
        estimate: Option<FilterEstimate>,
        now: Instant,
    ) -> Step<C> {
        match self.servo_log.reported(state, estimate, now) {
            Ok(report) => if deadlines_in_range(self.slots, self.timeout) {
                let after = RunnerView {
                    servo_log: self.servo_log.after_asking(now),
                    phase: Phase::Sleeping,
                    ..self
                };
                Ok((after, Action::Sleep { until: after.wake_up(), report }))
            } else {
                Err(RunError::Clock(TimeError::Overflow))
            },
            Err(error) => Err(RunError::Clock(error)),
        }
    }

    /// How the service answers an event.
    pub open spec fn answer(self, event: Event, now: Instant) -> Step<C> {
        match (self.phase, event) {
            (Phase::Acting { sleeps }, Event::ActionsDone) => if sleeps {
                Ok(self.observe())
            } else {
                self.begin_turn(now)
            },
            (Phase::TxLookup { slot }, Event::TxTimestamp { stored }) => self.answer_tx(
                slot as int,
                stored,
                now,
            ),
            (Phase::GivingUp { slot }, Event::TxGivenUp) => Ok(self.look_up_from(slot + 1, now)),
            (Phase::EventSocket, Event::Received { reception }) => Ok(
                self.answer_event_socket(reception),
            ),
            (Phase::RxLookup, Event::RxTimestamp { stored }) => Ok(self.answer_rx(stored)),
            (Phase::GeneralSocket, Event::Received { reception }) => Ok(
                self.answer_general_socket(reception),
            ),
            (Phase::Observing, Event::PortObserved { state, estimate }) => self.end_turn(
                state,
                estimate,
                now,
            ),
            (Phase::Sleeping, Event::Woken) => self.begin_turn(now),
            _ => Err(RunError::Unexpected),
        }
    }
}

/// Whether a step's result and the states around it are what was decided: the
/// state changes with the action, and stays as it was where there is none.
pub open spec fn follows<C>(
    before: RunnerView<C>,
    step: Step<C>,
    after: RunnerView<C>,
    result: Result<Action<C>, RunError>,
) -> bool {
    match step {
        Ok((state, action)) => after == state && result == Ok::<Action<C>, RunError>(action),
        Err(error) => after == before && result == Err::<Action<C>, RunError>(error),
    }
}

/// The state in which a service starts.
pub open spec fn initial<C>(
    bmca_nanos: int,
    bmca: Instant,
    timeout: TickDuration,
    servo_log: ServoLog,
) -> RunnerView<C> {
    RunnerView {
        bmca_nanos,
        bmca,
        timers: Timers::stopped(),
        next_id: 1,
        slots: Seq::new(TX_PENDING as nat, |i: int| None::<PendingTx<C>>),
        timeout,
        servo_log,
        phase: Phase::Acting { sleeps: false },
    }
}

/// What is sent for an action of the port, given the next packet identifier.
pub open spec fn is_sent_for<C>(outgoing: Outgoing<C>, action: PortAction<C>, id: u32) -> bool {
    match action {
        PortAction::SendEvent { context, data, link_local } => {
            &&& outgoing matches Outgoing::Event { context: sent_context, data: sent, metadata }
            &&& sent_context == context
            &&& sent@ == data@
            &&& metadata.endpoint.addr@ == multicast_group(link_local)
            &&& metadata.endpoint.port == EVENT_PORT
            &&& metadata.local_address is None
            &&& metadata.meta.id == id
        },
        PortAction::SendGeneral { data, link_local } => {
            &&& outgoing matches Outgoing::General { data: sent, metadata }
            &&& sent@ == data@
            &&& metadata.endpoint.addr@ == multicast_group(link_local)
            &&& metadata.endpoint.port == GENERAL_PORT
            &&& metadata.local_address is None
            &&& metadata.meta.id == 0
        },
        _ => outgoing is Nothing,
    }
}

/// The timer that an action of the port sets, and the time until it goes off.
pub open spec fn timer_set_by<C>(action: PortAction<C>) -> Option<
    (StatimeTimer, core::time::Duration),
> {
    match action {
        PortAction::ResetAnnounceTimer { duration } => Some((StatimeTimer::Announce, duration)),
        PortAction::ResetSyncTimer { duration } => Some((StatimeTimer::Sync, duration)),
        PortAction::ResetDelayRequestTimer { duration } => Some(
            (StatimeTimer::DelayRequest, duration),
        ),
        PortAction::ResetAnnounceReceiptTimer { duration } => Some(
            (StatimeTimer::AnnounceReceipt, duration),
        ),
        PortAction::ResetFilterUpdateTimer { duration } => Some(
            (StatimeTimer::FilterUpdate, duration),
        ),
        _ => None,
    }
}

impl<C> RunnerView<C> {
    /// The state once an action of the port was taken up. There is none where
    /// the action sets a timer to an instant that cannot be represented.
    pub open spec fn taken_up(self, action: PortAction<C>, now: Instant) -> Option<RunnerView<C>> {
        if action is SendEvent {
            Some(RunnerView { next_id: successor_id(self.next_id), ..self })
        } else {
            match timer_set_by(action) {
                Some((timer, duration)) => match deadline_of(now, duration_nanos(duration) as int) {
                    Some(deadline) => Some(
                        RunnerView {
                            timers: self.timers.with_deadline(timer, Some(deadline)),
                            ..self
                        },
                    ),
                    None => None,
                },
                None => Some(self),
            }
        }
    }

    /// The state once an event packet was sent.
    pub open spec fn with_sent(self, pending: PendingTx<C>) -> RunnerView<C> {
        RunnerView { slots: with_pushed(self.slots, pending), ..self }
    }
}

impl<C> Runner<C> {
    /// A service that carries out the first actions of its port. The best
    /// master clock algorithm runs one interval after `bmca_from`, and the
    /// first report is due one period after `log_from`. There is no service if
    /// one of these instants cannot be represented.
    pub fn new_at(
        config: &Config,
        bmca_interval: core::time::Duration,
        bmca_from: Instant,
        log_from: Instant,
    ) -> (runner: Option<Runner<C>>)
        ensures
            match (
                deadline_of(bmca_from, duration_nanos(bmca_interval) as int),
                instant_after(log_from, config.log_period),
            ) {
                (Some(bmca), Some(next_log)) => runner matches Some(runner) && runner@ == initial::<
                    C,
                >(
                    duration_nanos(bmca_interval) as int,
                    bmca,
                    config.tx_timestamp_timeout,
                    ServoLog { next_log, period: config.log_period },
                ),
                _ => runner is None,
            },
            runner matches Some(runner) ==> runner@.wf(),
    {
        match (
            deadline_after(bmca_from, bmca_interval),
            ServoLog::new_at(config.log_period, log_from),
        ) {
            (Some(bmca), Some(servo_log)) => Some(
                Runner {
                    bmca_interval,
                    bmca,
                    timers: Timers::default(),
                    packet_id: PacketIdGenerator::new(),
                    pending_tx: PendingTxQueue::new(config.tx_timestamp_timeout),
                    servo_log,
                    phase: Phase::Acting { sleeps: false },
                },
            ),
            _ => None,
        }
    }

    /// A service that starts now and carries out the first actions of its
    /// port.
    pub fn new(config: &Config, bmca_interval: core::time::Duration) -> (runner: Option<Runner<C>>)
        ensures
            exists|bmca_from: Instant, log_from: Instant|
                is_reading(bmca_from) && is_reading(log_from) && (match (
                    #[trigger] deadline_of(bmca_from, duration_nanos(bmca_interval) as int),
                    #[trigger] instant_after(log_from, config.log_period),
                ) {
                    (Some(bmca), Some(next_log)) => runner matches Some(runner) && runner@
                        == initial::<C>(
                        duration_nanos(bmca_interval) as int,
                        bmca,
                        config.tx_timestamp_timeout,
                        ServoLog { next_log, period: config.log_period },
                    ),
                    _ => runner is None,
                }),
            runner matches Some(runner) ==> runner@.wf(),
    {
        let bmca_from = read_clock();
        let log_from = read_clock();
        Runner::new_at(config, bmca_interval, bmca_from, log_from)
    }

    /// Answers an event that happened at `now` with the next action.
    pub fn run_at(&mut self, event: Event, now: Instant) -> (action: Result<Action<C>, RunError>)
        requires
            old(self)@.wf(),
        ensures
            follows(old(self)@, old(self)@.answer(event, now), final(self)@, action),
            final(self)@.wf(),
    {
        match (self.phase, event) {
            (Phase::Acting { sleeps }, Event::ActionsDone) => {
                if sleeps {
                    Ok(self.observe_port())
                } else {
                    self.begin_turn_at(now)
                }
            },
            (Phase::TxLookup { slot }, Event::TxTimestamp { stored }) => {
                match self.pending_tx.settle_at(slot, stored, now) {
                    Ok(Settled::Stamped { context, timestamp }) => {
                        self.phase = Phase::Acting { sleeps: true };
                        Ok(Action::HandleSendTimestamp { context, time: time_from(timestamp) })
                    },
                    Ok(Settled::Expired { meta }) => {
                        self.phase = Phase::GivingUp { slot };
                        Ok(Action::GiveUpTx { meta })
                    },
                    Ok(Settled::Waiting) => Ok(self.look_up_from_at(slot + 1, now)),
                    Err(error) => Err(RunError::Clock(error)),
                }
            },
            (Phase::GivingUp { slot }, Event::TxGivenUp) => Ok(self.look_up_from_at(slot + 1, now)),
            (Phase::EventSocket, Event::Received { reception }) => {
                match reception {
                    Reception::Packet { packet, meta } => {
                        if rx_event_type(packet).is_some() {
                            self.phase = Phase::RxLookup;
                            Ok(Action::LookUpRx { meta })
                        } else {
                            Ok(self.observe_port())
                        }
                    },
                    Reception::Truncated => Ok(self.observe_port()),
                    Reception::WouldBlock => {
                        self.phase = Phase::GeneralSocket;
                        Ok(Action::ReceiveGeneral)
                    },
                }
            },
            (Phase::RxLookup, Event::RxTimestamp { stored }) => {
                match stored {
                    Some(timestamp) => {
                        self.phase = Phase::Acting { sleeps: true };
                        Ok(Action::HandleEventReceive { time: time_from(timestamp) })
                    },
                    None => Ok(self.observe_port()),
                }
            },
            (Phase::GeneralSocket, Event::Received { reception }) => {
                match reception {
                    Reception::Packet { packet, meta: _ } => {
                        if ptp_message_type(packet).is_some() {
                            self.phase = Phase::Acting { sleeps: true };
                            Ok(Action::HandleGeneralReceive)
                        } else {
                            Ok(self.observe_port())
                        }
                    },
                    Reception::Truncated => Ok(self.observe_port()),
                    Reception::WouldBlock => Ok(self.observe_port()),
                }
            },
            (Phase::Observing, Event::PortObserved { state, estimate }) => {
                self.end_turn_at(state, estimate, now)
            },
            (Phase::Sleeping, Event::Woken) => self.begin_turn_at(now),
            _ => Err(RunError::Unexpected),
        }
    }

    /// Answers an event with the next action.
    pub fn run(&mut self, event: Event) -> (action: Result<Action<C>, RunError>)
        requires
            old(self)@.wf(),
        ensures
            exists|now: Instant|
                is_reading(now) && follows(
                    old(self)@,
                    #[trigger] old(self)@.answer(event, now),
                    final(self)@,
                    action,
                ),
            final(self)@.wf(),
    {
        self.run_at(event, read_clock())
    }

    /// The metadata of the sent packets whose timestamp is still to come, slot
    /// by slot, in the order in which the timestamp store is asked for them.
    pub fn awaited(&self) -> (metas: [Option<PacketMeta>; TX_PENDING])
        ensures
            metas@ == waiting_metas(self@.slots),
    {
        self.pending_tx.waiting()
    }

    /// Asks for the state of the port.
    fn observe_port(&mut self) -> (action: Action<C>)
        ensures
            (final(self)@, action) == old(self)@.observe(),
    {
        self.phase = Phase::Observing;
        Action::ObservePort
    }

    /// Begins a turn.
    fn begin_turn_at(&mut self, now: Instant) -> (action: Result<Action<C>, RunError>)
        ensures
            follows(old(self)@, old(self)@.begin_turn(now), final(self)@, action),
            old(self)@.wf() ==> final(self)@.wf(),
    {
        if now.ticks >= self.bmca.ticks {
            match deadline_after(now, self.bmca_interval) {
                Some(bmca) => {
                    self.bmca = bmca;
                    self.phase = Phase::Acting { sleeps: false };
                    Ok(Action::RunBmca)
                },
                None => Err(RunError::Clock(TimeError::Overflow)),
            }
        } else {
            Ok(self.look_up_from_at(0, now))
        }
    }

    /// Asks for the first sent packet from a slot on, or goes on to the timers
    /// and to the event socket.
    fn look_up_from_at(&mut self, slot: usize, now: Instant) -> (action: Action<C>)
        ensures
            (final(self)@, action) == old(self)@.look_up_from(slot as int, now),
            old(self)@.next_id != 0 ==> final(self)@.wf(),
    {
        proof {
            first_waiting_is_first(self.pending_tx@, slot as int);
        }
        match self.pending_tx.next_waiting(slot) {
            Some((slot, meta)) => {
                self.phase = Phase::TxLookup { slot };
                Action::LookUpTx { meta }
            },
            None => match self.timers.take_due_at(now) {
                Some(timer) => {
                    self.phase = Phase::Acting { sleeps: true };
                    Action::HandleTimer { timer }
                },
                None => {
                    self.phase = Phase::EventSocket;
                    Action::ReceiveEvent
                },
            },
        }
    }

    /// Ends a turn: reports, and sleeps until the first deadline.
    fn end_turn_at(
        &mut self,
        state: PortState,
        estimate: Option<FilterEstimate>,
        now: Instant,
    ) -> (action: Result<Action<C>, RunError>)
        ensures
            follows(old(self)@, old(self)@.end_turn(state, estimate, now), final(self)@, action),
    {
        if !self.pending_tx.deadlines_fit() {
            return Err(RunError::Clock(TimeError::Overflow));
        }
        let report = match self.servo_log.log_if_due_at(state, estimate, now) {
            Ok(report) => report,
            Err(error) => {
                return Err(RunError::Clock(error));
            },
        };
        self.phase = Phase::Sleeping;
        let next = earlier(
            earlier(
                earlier(Some(self.bmca), Some(self.servo_log.next_deadline())),
                self.timers.next_deadline(),
            ),
            self.pending_tx.next_timeout_deadline(),
        );
        match next {
            Some(until) => Ok(Action::Sleep { until, report }),
            None => Ok(Action::Sleep { until: self.bmca, report }),
        }
    }

    /// Takes up an action of the port at `now`: says what is to be sent, or
    /// sets a timer.
    pub fn handle_action_at<'a>(
        &mut self,
        action: PortAction<'a, C>,
        now: Instant,
    ) -> (outgoing: Result<Outgoing<'a, C>, TimeError>)
        requires
            old(self)@.wf(),
        ensures
            match old(self)@.taken_up(action, now) {
                Some(state) => final(self)@ == state && (outgoing matches Ok(outgoing)
                    && is_sent_for(outgoing, action, old(self)@.next_id)),
                None => final(self)@ == old(self)@ && outgoing == Err::<Outgoing<'a, C>, TimeError>(
                    TimeError::Overflow,
                ),
            },
            final(self)@.wf(),
    {
        match action {
            PortAction::SendEvent { context, data, link_local } => Ok(
                Outgoing::Event {
                    context,
                    data,
                    metadata: UdpMetadata {
                        endpoint: multicast_endpoint(EVENT_PORT, link_local),
                        local_address: None,
                        meta: self.packet_id.next(),
                    },
                },
            ),
            PortAction::SendGeneral { data, link_local } => Ok(
                Outgoing::General {
                    data,
                    metadata: UdpMetadata {
                        endpoint: multicast_endpoint(GENERAL_PORT, link_local),
                        local_address: None,
                        meta: PacketMeta::default(),
                    },
                },
            ),
            PortAction::ResetAnnounceTimer { duration } => {
                self.reset_at(StatimeTimer::Announce, duration, now)
            },
            PortAction::ResetSyncTimer { duration } => {
                self.reset_at(StatimeTimer::Sync, duration, now)
            },
            PortAction::ResetDelayRequestTimer { duration } => {
                self.reset_at(StatimeTimer::DelayRequest, duration, now)
            },
            PortAction::ResetAnnounceReceiptTimer { duration } => {
                self.reset_at(StatimeTimer::AnnounceReceipt, duration, now)
            },
            PortAction::ResetFilterUpdateTimer { duration } => {
                self.reset_at(StatimeTimer::FilterUpdate, duration, now)
            },
            PortAction::ForwardTLV => Ok(Outgoing::Nothing),
        }
    }

    /// Takes up an action of the port: says what is to be sent, or sets a
    /// timer.
    pub fn handle_action<'a>(
        &mut self,
        action: PortAction<'a, C>,
    ) -> (outgoing: Result<Outgoing<'a, C>, TimeError>)
        requires
            old(self)@.wf(),
        ensures
            exists|now: Instant|
                is_reading(now) && (match #[trigger] old(self)@.taken_up(action, now) {
                    Some(state) => final(self)@ == state && (outgoing matches Ok(outgoing)
                        && is_sent_for(outgoing, action, old(self)@.next_id)),
                    None => final(self)@ == old(self)@ && outgoing == Err::<
                        Outgoing<'a, C>,
                        TimeError,
                    >(TimeError::Overflow),
                }),
            final(self)@.wf(),
    {
        self.handle_action_at(action, read_clock())
    }

    /// Sets a timer to go off after a duration.
    fn reset_at<'a>(
        &mut self,
        timer: StatimeTimer,
        duration: core::time::Duration,
        now: Instant,
    ) -> (outgoing: Result<Outgoing<'a, C>, TimeError>)
        ensures
            match deadline_of(now, duration_nanos(duration) as int) {
                Some(deadline) => final(self)@ == (RunnerView {
                    timers: old(self)@.timers.with_deadline(timer, Some(deadline)),
                    ..old(self)@
                }) && outgoing == Ok::<Outgoing<'a, C>, TimeError>(Outgoing::Nothing),
                None => final(self)@ == old(self)@ && outgoing == Err::<Outgoing<'a, C>, TimeError>(
                    TimeError::Overflow,
                ),
            },
    {
        match deadline_after(now, duration) {
            Some(deadline) => {
                self.timers.set(timer, deadline);
                Ok(Outgoing::Nothing)
            },
            None => Err(TimeError::Overflow),
        }
    }

    /// Takes note that an event packet was sent at `started`. The result is
    /// `false` if too many packets wait already, so that the timestamp of this
    /// one is not waited for.
    pub fn event_sent_at(
        &mut self,
        context: C,
        meta: PacketMeta,
        started: Instant,
    ) -> (queued: bool)
        requires
            old(self)@.wf(),
        ensures
            queued == first_free(old(self)@.slots, 0) is Some,
            final(self)@ == old(self)@.with_sent(PendingTx { context, meta, started }),
            final(self)@.wf(),
    {
        proof {
            push_keeps_every_packet(self.pending_tx@, PendingTx { context, meta, started });
        }
        self.pending_tx.push_at(context, meta, started)
    }

    /// Takes note that an event packet was sent now. The result is `false` if
    /// too many packets wait already, so that the timestamp of this one is not
    /// waited for.
    pub fn event_sent(&mut self, context: C, meta: PacketMeta) -> (queued: bool)
        requires
            old(self)@.wf(),
        ensures
            queued == first_free(old(self)@.slots, 0) is Some,
            exists|started: Instant|
                is_reading(started) && final(self)@ == #[trigger] old(self)@.with_sent(
                    PendingTx { context, meta, started },
                ),
            final(self)@.wf(),
    {
        self.event_sent_at(context, meta, read_clock())
    }
}

} // verus!
