//! What the service does, in terms of ticks, bytes and slots: the answer to
//! every event, and what becomes of every action of the port.

use vstd::prelude::*;

use crate::endpoint::UdpMetadata;
use crate::log::{FilterEstimate, PortState, ServoLog, ServoReport};
use crate::packet::{PacketMeta, PtpTimestamp};
use crate::pending::deadlines_are_in_range_up_to_the_last_instant;
use crate::pending::{first_deadline_is_started_plus_timeout, first_free_is_first};
use crate::pending::{first_waiting_is_first, PendingTx};
use crate::runner::{follows, initial, is_sent_for};
use crate::runner::{Action, Event, Outgoing, Phase, PortAction, Reception, RunError};
use crate::runner::{RunnerView, Step};
use crate::statime_types::{time_at_nanos, whole_nanos};
use crate::ticks::{duration_nanos, Instant, TickDuration, TimeError};
use crate::timers::{StatimeTimer, Timers};

verus! {

/// Whether an instant is there and not later than `now`.
pub open spec fn passed(at: Option<Instant>, now: Instant) -> bool {
    at is Some && at->0.ticks <= now.ticks
}

/// Whether an event begins a turn: the service was woken, or it has carried out
/// what the best master clock algorithm asked for.
pub open spec fn begins_turn<C>(state: RunnerView<C>, event: Event) -> bool {
    ||| state.phase == Phase::Acting { sleeps: false } && event is ActionsDone
    ||| state.phase == Phase::Sleeping && event is Woken
}

/// Whether an event brings the service to the question for the packets from
/// slot `from` on: at the beginning of a turn in which the best master clock
/// algorithm is not due, after a packet was given up, and after the store had
/// nothing for a packet that has not waited for the whole time-out.
pub open spec fn comes_to_slot<C>(
    state: RunnerView<C>,
    event: Event,
    now: Instant,
    from: int,
) -> bool {
    ||| begins_turn(state, event) && now.ticks < state.bmca.ticks && from == 0
    ||| (state.phase matches Phase::GivingUp { slot } && event is TxGivenUp && from == slot + 1)
    ||| (state.phase matches Phase::TxLookup { slot } && event == (Event::TxTimestamp {
        stored: None,
    }) && from == slot + 1 && state.slots[slot as int] is Some && 0 <= now.ticks
        - state.slots[slot as int]->0.started.ticks < state.timeout.ticks)
}

/// A step gives what it says: where there is an action, it comes with the state
/// after it, and where there is none, the error comes and the state stays.
pub proof fn steps_give_what_they_say<C>(
    before: RunnerView<C>,
    step: Step<C>,
    after: RunnerView<C>,
    result: Result<Action<C>, RunError>,
)
    requires
        follows(before, step, after, result),
    ensures
        step is Ok <==> result is Ok,
        step is Ok ==> step->Ok_0 == (after, result->Ok_0),
        step is Err ==> step->Err_0 == result->Err_0 && after == before,
{
}

/// When the best master clock algorithm is due at the beginning of a turn it
/// runs, and is due again after the least whole number of ticks that covers its
/// interval. The turn ends in an error exactly where there is no such instant.
pub proof fn bmca_runs_once_per_interval<C>(
    state: RunnerView<C>,
    event: Event,
    now: Instant,
    ticks: int,
)
    requires
        begins_turn(state, event),
        state.bmca.ticks <= now.ticks,
        0 <= state.bmca_nanos,
        1000 * ticks - 1000 < state.bmca_nanos <= 1000 * ticks,
    ensures
        state.bmca_nanos + 1000 <= u64::MAX && now.ticks + ticks <= u64::MAX ==> state.answer(
            event,
            now,
        ) == Ok::<(RunnerView<C>, Action<C>), RunError>(
            (
                RunnerView {
                    bmca: Instant { ticks: (now.ticks + ticks) as u64 },
                    phase: Phase::Acting { sleeps: false },
                    ..state
                },
                Action::RunBmca,
            ),
        ),
        state.bmca_nanos + 1000 > u64::MAX || now.ticks + ticks > u64::MAX ==> state.answer(
            event,
            now,
        ) == Err::<(RunnerView<C>, Action<C>), RunError>(RunError::Clock(TimeError::Overflow)),
{
}

/// The service asks for the first packet that waits in the slots it has come
/// to. Nothing but the phase changes.
pub proof fn the_first_waiting_packet_is_asked_for<C>(
    state: RunnerView<C>,
    event: Event,
    now: Instant,
    from: int,
    slot: int,
)
    requires
        state.slots.len() == 4,
        comes_to_slot(state, event, now, from),
        from <= slot < 4,
        state.slots[slot] is Some,
        forall|i: int| from <= i < slot ==> (#[trigger] state.slots[i]) is None,
    ensures
        state.answer(event, now) == Ok::<(RunnerView<C>, Action<C>), RunError>(
            (
                RunnerView { phase: Phase::TxLookup { slot: slot as usize }, ..state },
                Action::LookUpTx { meta: state.slots[slot]->0.meta },
            ),
        ),
{
    first_waiting_is_first(state.slots, from);
}

/// When no packet waits in the slots that the service has come to, the timers
/// have their turn: of those whose deadline has passed, the announce timer goes
/// first, and the sync, delay request, announce receipt and filter update timers
/// follow. The one that is served is stopped. Without one the event socket is
/// asked for a packet.
pub proof fn timers_are_served_in_order<C>(
    state: RunnerView<C>,
    event: Event,
    now: Instant,
    from: int,
)
    requires
        state.slots.len() == 4,
        comes_to_slot(state, event, now, from),
        forall|i: int| from <= i < 4 ==> (#[trigger] state.slots[i]) is None,
    ensures
        ({
            let timers = state.timers;
            let (left, action) = if passed(timers.announce, now) {
                (
                    Timers { announce: None, ..timers },
                    Action::<C>::HandleTimer { timer: StatimeTimer::Announce },
                )
            } else if passed(timers.sync, now) {
                (
                    Timers { sync: None, ..timers },
                    Action::<C>::HandleTimer { timer: StatimeTimer::Sync },
                )
            } else if passed(timers.delay_request, now) {
                (
                    Timers { delay_request: None, ..timers },
                    Action::<C>::HandleTimer { timer: StatimeTimer::DelayRequest },
                )
            } else if passed(timers.announce_receipt, now) {
                (
                    Timers { announce_receipt: None, ..timers },
                    Action::<C>::HandleTimer { timer: StatimeTimer::AnnounceReceipt },
                )
            } else if passed(timers.filter_update, now) {
                (
                    Timers { filter_update: None, ..timers },
                    Action::<C>::HandleTimer { timer: StatimeTimer::FilterUpdate },
                )
            } else {
                (timers, Action::<C>::ReceiveEvent)
            };
            state.answer(event, now) == Ok::<(RunnerView<C>, Action<C>), RunError>(
                (
                    RunnerView {
                        timers: left,
                        phase: if action is ReceiveEvent {
                            Phase::EventSocket
                        } else {
                            Phase::Acting { sleeps: true }
                        },
                        ..state
                    },
                    action,
                ),
            )
        }),
{
    first_waiting_is_first(state.slots, from);
}

/// A packet whose timestamp is in the store goes to the port with the context
/// it was sent with and the nanoseconds of the timestamp, however long it has
/// waited. Without a timestamp the packet is given up exactly when it has waited
/// for the time-out. Either way its slot is free, and nothing else changes. A
/// clock that reads earlier than the packet was sent is an error.
pub proof fn sent_packets_are_settled<C>(
    state: RunnerView<C>,
    stored: Option<PtpTimestamp>,
    now: Instant,
)
    requires
        state.slots.len() == 4,
        state.phase is TxLookup,
        state.phase->TxLookup_slot < 4,
        state.slots[state.phase->TxLookup_slot as int] is Some,
    ensures
        ({
            let slot = state.phase->TxLookup_slot;
            let pending = state.slots[slot as int]->0;
            let answer = state.answer(Event::TxTimestamp { stored }, now);
            let free = RunnerView { slots: state.slots.update(slot as int, None), ..state };
            &&& stored is Some ==> answer == Ok::<(RunnerView<C>, Action<C>), RunError>(
                (
                    RunnerView { phase: Phase::Acting { sleeps: true }, ..free },
                    Action::HandleSendTimestamp {
                        context: pending.context,
                        time: time_at_nanos(
                            (1_000_000_000 * stored->0.seconds + stored->0.nanos) as u64,
                        ),
                    },
                ),
            )
            &&& stored is None && now.ticks < pending.started.ticks ==> answer == Err::<
                (RunnerView<C>, Action<C>),
                RunError,
            >(RunError::Clock(TimeError::WentBackwards))
            &&& stored is None && pending.started.ticks <= now.ticks && now.ticks
                - pending.started.ticks >= state.timeout.ticks ==> answer == Ok::<
                (RunnerView<C>, Action<C>),
                RunError,
            >(
                (
                    RunnerView { phase: Phase::GivingUp { slot }, ..free },
                    Action::GiveUpTx { meta: pending.meta },
                ),
            )
            &&& stored is None && pending.started.ticks <= now.ticks && now.ticks
                - pending.started.ticks < state.timeout.ticks ==> (answer matches Ok((after, action))
                && after.slots == state.slots && !(action is GiveUpTx))
        }),
{
    first_waiting_is_first(state.slots, state.phase->TxLookup_slot + 1);
}

/// Of a packet that the event socket gives, the receive timestamp is asked for
/// if the packet has at least 34 bytes and the low four bits of the first byte
/// are not 1, 2 or 3. Every other packet, and a truncated one, ends the turn. If
/// there is no packet, the general socket is asked. Nothing but the phase
/// changes.
pub proof fn event_packets_are_looked_up<C>(
    state: RunnerView<C>,
    packet: &[u8],
    meta: PacketMeta,
    now: Instant,
)
    requires
        state.phase is EventSocket,
    ensures
        ({
            let kind = packet@[0] % 16;
            let wanted = packet@.len() >= 34 && kind != 1 && kind != 2 && kind != 3;
            state.answer(Event::Received { reception: Reception::Packet { packet, meta } }, now)
                == Ok::<(RunnerView<C>, Action<C>), RunError>(
                if wanted {
                    (RunnerView { phase: Phase::RxLookup, ..state }, Action::LookUpRx { meta })
                } else {
                    (RunnerView { phase: Phase::Observing, ..state }, Action::ObservePort)
                },
            )
        }),
        state.answer(Event::Received { reception: Reception::Truncated }, now) == Ok::<
            (RunnerView<C>, Action<C>),
            RunError,
        >((RunnerView { phase: Phase::Observing, ..state }, Action::ObservePort)),
        state.answer(Event::Received { reception: Reception::WouldBlock }, now) == Ok::<
            (RunnerView<C>, Action<C>),
            RunError,
        >((RunnerView { phase: Phase::GeneralSocket, ..state }, Action::ReceiveGeneral)),
{
}

/// A received event packet goes to the port with the nanoseconds of its
/// timestamp, and is passed over if the store has none. Nothing but the phase
/// changes.
pub proof fn event_packets_are_handed_over<C>(
    state: RunnerView<C>,
    stored: Option<PtpTimestamp>,
    now: Instant,
)
    requires
        state.phase is RxLookup,
    ensures
        state.answer(Event::RxTimestamp { stored }, now) == Ok::<
            (RunnerView<C>, Action<C>),
            RunError,
        >(
            match stored {
                Some(timestamp) => (
                    RunnerView { phase: Phase::Acting { sleeps: true }, ..state },
                    Action::HandleEventReceive {
                        time: time_at_nanos(
                            (1_000_000_000 * timestamp.seconds + timestamp.nanos) as u64,
                        ),
                    },
                ),
                None => (RunnerView { phase: Phase::Observing, ..state }, Action::ObservePort),
            },
        ),
{
}

/// Every packet of at least 34 bytes that the general socket gives goes to the
/// port, whatever its bytes are. A shorter one, a truncated one and none end the
/// turn. Nothing but the phase changes.
pub proof fn general_packets_are_handed_over<C>(
    state: RunnerView<C>,
    packet: &[u8],
    meta: PacketMeta,
    now: Instant,
)
    requires
        state.phase is GeneralSocket,
    ensures
        state.answer(Event::Received { reception: Reception::Packet { packet, meta } }, now)
            == Ok::<(RunnerView<C>, Action<C>), RunError>(
            if packet@.len() >= 34 {
                (
                    RunnerView { phase: Phase::Acting { sleeps: true }, ..state },
                    Action::HandleGeneralReceive,
                )
            } else {
                (RunnerView { phase: Phase::Observing, ..state }, Action::ObservePort)
            },
        ),
        state.answer(Event::Received { reception: Reception::Truncated }, now) == Ok::<
            (RunnerView<C>, Action<C>),
            RunError,
        >((RunnerView { phase: Phase::Observing, ..state }, Action::ObservePort)),
        state.answer(Event::Received { reception: Reception::WouldBlock }, now) == Ok::<
            (RunnerView<C>, Action<C>),
            RunError,
        >((RunnerView { phase: Phase::Observing, ..state }, Action::ObservePort)),
{
}

/// Once the port has been served, the turn ends. Nothing but the phase changes.
pub proof fn the_turn_ends_once_the_port_was_served<C>(state: RunnerView<C>, now: Instant)
    requires
        state.phase == (Phase::Acting { sleeps: true }),
    ensures
        state.answer(Event::ActionsDone, now) == Ok::<(RunnerView<C>, Action<C>), RunError>(
            (RunnerView { phase: Phase::Observing, ..state }, Action::ObservePort),
        ),
{
}

/// Whether a report says of a measured span what it has to: the whole
/// nanoseconds, or the nearest number that fits.
pub open spec fn reports_nanos(reported: i64, nanos: i128) -> bool {
    &&& i64::MIN <= nanos <= i64::MAX ==> reported == nanos
    &&& nanos > i64::MAX ==> reported == i64::MAX
    &&& nanos < i64::MIN ==> reported == i64::MIN
}

/// Whether a report is on a state and on an estimate.
pub open spec fn reports_on(
    report: ServoReport,
    state: PortState,
    estimate: Option<FilterEstimate>,
) -> bool {
    &&& report.state == state
    &&& report.estimate is Some <==> estimate is Some
    &&& estimate is Some ==> reports_nanos(
        report.estimate->0.offset_ns,
        whole_nanos(estimate->0.offset_from_master),
    ) && reports_nanos(report.estimate->0.mean_delay_ns, whole_nanos(estimate->0.mean_delay))
}

/// Whether the next report, if one is due, or the time-out of a waiting packet
/// lies beyond the last instant.
pub open spec fn is_out_of_time<C>(state: RunnerView<C>, now: Instant) -> bool {
    ||| state.servo_log.next_log.ticks <= now.ticks && now.ticks + state.servo_log.period.ticks
        > u64::MAX
    ||| exists|i: int|
        0 <= i < state.slots.len() && (#[trigger] state.slots[i]) is Some
            && state.slots[i]->0.started.ticks + state.timeout.ticks > u64::MAX
}

/// A turn ends with sleep. A report goes with it exactly when the log's instant
/// has passed, and the next one is then due one period after `now`. Nothing else
/// but the phase changes. The turn ends in an error exactly where the next
/// report, or the time-out of a waiting packet, lies beyond the last instant.
pub proof fn turns_end_with_sleep<C>(
    state: RunnerView<C>,
    port: PortState,
    estimate: Option<FilterEstimate>,
    now: Instant,
)
    requires
        state.phase is Observing,
    ensures
        is_out_of_time(state, now) ==> state.answer(
            Event::PortObserved { state: port, estimate },
            now,
        ) == Err::<(RunnerView<C>, Action<C>), RunError>(RunError::Clock(TimeError::Overflow)),
        !is_out_of_time(state, now) ==> ({
            let due = state.servo_log.next_log.ticks <= now.ticks;
            let period = state.servo_log.period;
            let next = Instant { ticks: (now.ticks + period.ticks) as u64 };
            &&& state.answer(Event::PortObserved { state: port, estimate }, now) matches Ok(
                (after, Action::Sleep { until: _, report }),
            )
            &&& due ==> after == (RunnerView {
                servo_log: (ServoLog { next_log: next, period }),
                phase: Phase::Sleeping,
                ..state
            })
            &&& !due ==> after == (RunnerView { phase: Phase::Sleeping, ..state })
            &&& report is Some <==> due
            &&& due ==> reports_on(report->0, port, estimate)
        }),
{
    deadlines_are_in_range_up_to_the_last_instant(state.slots, state.timeout);
}

/// Whether an instant is one of the deadlines of a state: that of the best
/// master clock algorithm, of the report, of one of the five timers, or of a
/// packet that has then waited for the whole time-out.
pub open spec fn is_deadline<C>(state: RunnerView<C>, at: Instant) -> bool {
    ||| at == state.bmca
    ||| at == state.servo_log.next_log
    ||| state.timers.announce == Some(at)
    ||| state.timers.sync == Some(at)
    ||| state.timers.delay_request == Some(at)
    ||| state.timers.announce_receipt == Some(at)
    ||| state.timers.filter_update == Some(at)
    ||| exists|i: int|
        0 <= i < state.slots.len() && (#[trigger] state.slots[i]) is Some
            && state.slots[i]->0.started.ticks + state.timeout.ticks == at.ticks
}

/// The service sleeps until one of its deadlines, and no other deadline of it
/// is earlier.
pub proof fn the_service_sleeps_until_its_first_deadline<C>(
    state: RunnerView<C>,
    event: Event,
    now: Instant,
    other: Instant,
)
    requires
        state.answer(event, now) matches Ok((_, action)) && action is Sleep,
    ensures
        state.answer(event, now) matches Ok((after, Action::Sleep { until, .. })) && is_deadline(
            after,
            until,
        ) && (is_deadline(after, other) ==> until.ticks <= other.ticks),
{
    if let Ok((after, Action::Sleep { until, .. })) = state.answer(event, now) {
        first_deadline_is_started_plus_timeout(after.slots, after.timeout);
    }
}

/// Every event but the one that is waited for is refused.
pub proof fn other_events_are_refused<C>(state: RunnerView<C>, event: Event, now: Instant)
    ensures
        state.answer(event, now) == Err::<(RunnerView<C>, Action<C>), RunError>(
            RunError::Unexpected,
        ) <==> !(match state.phase {
            Phase::Acting { .. } => event is ActionsDone,
            Phase::TxLookup { .. } => event is TxTimestamp,
            Phase::GivingUp { .. } => event is TxGivenUp,
            Phase::EventSocket => event is Received,
            Phase::RxLookup => event is RxTimestamp,
            Phase::GeneralSocket => event is Received,
            Phase::Observing => event is PortObserved,
            Phase::Sleeping => event is Woken,
        }),
{
}

/// Whether a packet goes to a port of the group 224.0.0.107, if it stays on the
/// link, or of the group 224.0.1.129, if it does not, from an address that the
/// network stack chooses.
pub open spec fn is_addressed(metadata: UdpMetadata, link_local: bool, port: u16) -> bool {
    &&& metadata.endpoint.port == port
    &&& metadata.endpoint.addr@ == if link_local {
        seq![224u8, 0u8, 0u8, 107u8]
    } else {
        seq![224u8, 0u8, 1u8, 129u8]
    }
    &&& metadata.local_address is None
}

/// An event packet goes to port 319 with the next identifier, and a general one
/// to port 320 with the identifier 0, both to the group that the port asked for
/// and with the bytes that it gave. Nothing is sent for the other actions.
pub proof fn packets_go_where_the_port_asked<C>(
    outgoing: Outgoing<C>,
    action: PortAction<C>,
    id: u32,
)
    requires
        is_sent_for(outgoing, action, id),
    ensures
        match action {
            PortAction::SendEvent { context, data, link_local } => {
                &&& outgoing matches Outgoing::Event { context: back, data: sent, metadata }
                &&& back == context
                &&& sent@ == data@
                &&& metadata.meta.id == id
                &&& is_addressed(metadata, link_local, 319)
            },
            PortAction::SendGeneral { data, link_local } => {
                &&& outgoing matches Outgoing::General { data: sent, metadata }
                &&& sent@ == data@
                &&& metadata.meta.id == 0
                &&& is_addressed(metadata, link_local, 320)
            },
            _ => outgoing is Nothing,
        },
{
}

/// An action that sends an event packet moves the next identifier on by one, or
/// from the largest number to 1. One that sends a general packet, and one that
/// forwards, change nothing.
pub proof fn sending_moves_the_identifier_on<C>(
    state: RunnerView<C>,
    action: PortAction<C>,
    now: Instant,
)
    ensures
        action is SendEvent ==> state.taken_up(action, now) == Some(
            RunnerView {
                next_id: if state.next_id < u32::MAX {
                    (state.next_id + 1) as u32
                } else {
                    1
                },
                ..state
            },
        ),
        action is SendGeneral || action is ForwardTLV ==> state.taken_up(action, now) == Some(
            state,
        ),
{
}

/// An action that sets a timer sets the timer of its name, and no other, to the
/// least whole number of ticks from now that covers the duration. It is refused
/// exactly where there is no such instant.
pub proof fn resets_set_the_timer_of_their_name<C>(
    state: RunnerView<C>,
    duration: core::time::Duration,
    now: Instant,
    ticks: int,
)
    requires
        1000 * ticks - 1000 < duration_nanos(duration) <= 1000 * ticks,
    ensures
        ({
            let fits = duration_nanos(duration) + 1000 <= u64::MAX && now.ticks + ticks <= u64::MAX;
            let at = Some(Instant { ticks: (now.ticks + ticks) as u64 });
            let announce = state.taken_up(PortAction::ResetAnnounceTimer { duration }, now);
            let sync = state.taken_up(PortAction::ResetSyncTimer { duration }, now);
            let delay_request = state.taken_up(PortAction::ResetDelayRequestTimer { duration }, now);
            let receipt = state.taken_up(PortAction::ResetAnnounceReceiptTimer { duration }, now);
            let filter_update = state.taken_up(PortAction::ResetFilterUpdateTimer { duration }, now);
            &&& fits ==> announce == Some(
                RunnerView { timers: Timers { announce: at, ..state.timers }, ..state },
            )
            &&& fits ==> sync == Some(
                RunnerView { timers: Timers { sync: at, ..state.timers }, ..state },
            )
            &&& fits ==> delay_request == Some(
                RunnerView { timers: Timers { delay_request: at, ..state.timers }, ..state },
            )
            &&& fits ==> receipt == Some(
                RunnerView { timers: Timers { announce_receipt: at, ..state.timers }, ..state },
            )
            &&& fits ==> filter_update == Some(
                RunnerView { timers: Timers { filter_update: at, ..state.timers }, ..state },
            )
            &&& !fits ==> announce is None && sync is None && delay_request is None && receipt
                is None && filter_update is None
        }),
{
}

/// A packet that was sent waits in the first free slot, just as it was handed
/// in, and nothing else changes. Where every slot is taken nothing changes.
pub proof fn sent_packets_wait_in_the_first_free_slot<C>(
    state: RunnerView<C>,
    pending: PendingTx<C>,
    slot: int,
)
    requires
        0 <= slot <= state.slots.len(),
        forall|i: int| 0 <= i < slot ==> (#[trigger] state.slots[i]) is Some,
        slot < state.slots.len() ==> state.slots[slot] is None,
    ensures
        state.with_sent(pending) == if slot < state.slots.len() {
            RunnerView { slots: state.slots.update(slot, Some(pending)), ..state }
        } else {
            state
        },
{
    first_free_is_first(state.slots, 0);
}

/// A service starts with no timer running, with four free slots and the
/// identifier 1, as if it had just run the best master clock algorithm.
pub proof fn services_start_empty<C>(
    bmca_nanos: int,
    bmca: Instant,
    timeout: TickDuration,
    servo_log: ServoLog,
)
    ensures
        ({
            let state = initial::<C>(bmca_nanos, bmca, timeout, servo_log);
            &&& state.bmca_nanos == bmca_nanos
            &&& state.bmca == bmca
            &&& state.timeout == timeout
            &&& state.servo_log == servo_log
            &&& state.next_id == 1
            &&& state.slots == seq![
                None::<PendingTx<C>>,
                None::<PendingTx<C>>,
                None::<PendingTx<C>>,
                None::<PendingTx<C>>,
            ]
            &&& state.timers.announce is None
            &&& state.timers.sync is None
            &&& state.timers.delay_request is None
            &&& state.timers.announce_receipt is None
            &&& state.timers.filter_update is None
            &&& state.phase == (Phase::Acting { sleeps: false })
        }),
{
}

/// A state is well formed exactly when the next identifier is not 0, there are
/// four slots, and the slot in the phase is one of them, with a packet in it if
/// the store is being asked for that packet.
pub proof fn well_formed_states<C>(state: RunnerView<C>)
    ensures
        state.wf() <==> state.next_id != 0 && state.slots.len() == 4 && (match state.phase {
            Phase::TxLookup { slot } => slot < 4 && state.slots[slot as int] is Some,
            Phase::GivingUp { slot } => slot < 4,
            _ => true,
        }),
{
}

} // verus!
