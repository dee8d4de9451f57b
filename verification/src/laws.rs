//! What holds of the service over several steps, whatever happens around it.

use vstd::prelude::*;

use crate::clock::timestamp_nanos;
use crate::log::ServoLog;
use crate::packet::{is_passed_over, message_type, PacketMeta, PtpTimestamp};
use crate::pending::{deadlines_in_range, first_free, has_expired, slot_deadline};
use crate::pending::{first_deadline_is_least, first_free_is_first, first_waiting_is_first};
use crate::pending::{push_keeps_every_packet, pushed_context_comes_back};
use crate::pending::some_packet_expires_at_the_first_deadline;
use crate::pending::{PendingTx, TX_PENDING};
use crate::runner::{initial, is_sent_for, timer_set_by};
use crate::runner::{Action, Event, Outgoing, Phase, PortAction, Reception, RunError};
use crate::runner::{RunnerView, Step};
use crate::statime_types::time_at_nanos;
use crate::ticks::{deadline_of, duration_nanos, instant_after, Instant, TickDuration};
use crate::timers::{earliest_is_least, some_timer_is_due_at_the_earliest_deadline, StatimeTimer};

verus! {

/// Whether an event is the answer that an action asks for.
pub open spec fn answers<C>(action: Action<C>, event: Event) -> bool {
    match action {
        Action::RunBmca => event is ActionsDone,
        Action::LookUpTx { .. } => event is TxTimestamp,
        Action::GiveUpTx { .. } => event is TxGivenUp,
        Action::HandleSendTimestamp { .. } => event is ActionsDone,
        Action::HandleTimer { .. } => event is ActionsDone,
        Action::ReceiveEvent => event is Received,
        Action::LookUpRx { .. } => event is RxTimestamp,
        Action::HandleEventReceive { .. } => event is ActionsDone,
        Action::ReceiveGeneral => event is Received,
        Action::HandleGeneralReceive => event is ActionsDone,
        Action::ObservePort => event is PortObserved,
        Action::Sleep { .. } => event is Woken,
    }
}

/// A service starts in a well-formed state, and no event leads out of the
/// well-formed states.
pub proof fn states_stay_well_formed<C>(
    state: RunnerView<C>,
    event: Event,
    now: Instant,
    bmca_nanos: int,
    bmca: Instant,
    timeout: TickDuration,
    servo_log: ServoLog,
)
    requires
        state.wf(),
    ensures
        initial::<C>(bmca_nanos, bmca, timeout, servo_log).wf(),
        state.answer(event, now) matches Ok((after, _)) ==> after.wf(),
{
    first_waiting_is_first(state.slots, 0);
    if let Phase::TxLookup { slot } = state.phase {
        first_waiting_is_first(state.slots, slot + 1);
    }
    if let Phase::GivingUp { slot } = state.phase {
        first_waiting_is_first(state.slots, slot + 1);
    }
}

/// Whether a phase is the one in which the answer to an action is waited for.
pub open spec fn awaits<C>(phase: Phase, action: Action<C>) -> bool {
    match phase {
        Phase::Acting { sleeps: false } => action is RunBmca,
        Phase::Acting { sleeps: true } => action is HandleSendTimestamp || action is HandleTimer
            || action is HandleEventReceive || action is HandleGeneralReceive,
        Phase::TxLookup { .. } => action is LookUpTx,
        Phase::GivingUp { .. } => action is GiveUpTx,
        Phase::EventSocket => action is ReceiveEvent,
        Phase::RxLookup => action is LookUpRx,
        Phase::GeneralSocket => action is ReceiveGeneral,
        Phase::Observing => action is ObservePort,
        Phase::Sleeping => action is Sleep,
    }
}

/// A step ends in the phase in which the answer to its action is waited for.
pub proof fn steps_await_their_answer<C>(state: RunnerView<C>, event: Event, now: Instant)
    ensures
        state.answer(event, now) matches Ok((after, action)) ==> awaits(after.phase, action),
{
}

/// An event is unexpected exactly when it is not the answer that is waited for.
proof fn other_events_are_unexpected<C>(
    state: RunnerView<C>,
    action: Action<C>,
    event: Event,
    now: Instant,
)
    requires
        awaits(state.phase, action),
    ensures
        answers(action, event) <==> state.answer(event, now) != Err::<
            (RunnerView<C>, Action<C>),
            RunError,
        >(RunError::Unexpected),
{
}

/// After each action the service expects the answer to that action, and no
/// other event.
pub proof fn each_action_has_its_answer<C>(
    state: RunnerView<C>,
    event: Event,
    now: Instant,
    next: Event,
    later: Instant,
)
    ensures
        state.answer(event, now) matches Ok((after, action)) ==> (answers(action, next)
            <==> after.answer(next, later) != Err::<(RunnerView<C>, Action<C>), RunError>(
            RunError::Unexpected,
        )),
{
    steps_await_their_answer(state, event, now);
    if let Ok((after, action)) = state.answer(event, now) {
        other_events_are_unexpected(after, action, next, later);
    }
}

/// Whether the clock lets the service go on at `now`: the next run of the best
/// master clock algorithm, the next report and the time-out of every waiting
/// packet can be represented, and no packet was sent after `now`.
pub open spec fn clock_allows<C>(state: RunnerView<C>, now: Instant) -> bool {
    &&& deadline_of(now, state.bmca_nanos) is Some
    &&& instant_after(now, state.servo_log.period) is Some
    &&& deadlines_in_range(state.slots, state.timeout)
    &&& forall|i: int|
        0 <= i < state.slots.len() ==> ((#[trigger] state.slots[i]) matches Some(pending)
            ==> pending.started.ticks <= now.ticks)
}

/// The answer that is waited for always leads to a next action, unless the
/// clock stands in the way.
pub proof fn awaited_answers_lead_on<C>(
    state: RunnerView<C>,
    action: Action<C>,
    event: Event,
    now: Instant,
)
    requires
        state.wf(),
        awaits(state.phase, action),
        answers(action, event),
        clock_allows(state, now),
    ensures
        state.answer(event, now) is Ok,
{
}

/// Nothing but the clock stops the service: the answer to an action leads to a
/// next action, whatever the answer says, as long as the clock allows it.
pub proof fn only_the_clock_stops_the_service<C>(
    state: RunnerView<C>,
    event: Event,
    now: Instant,
    next: Event,
    later: Instant,
)
    requires
        state.wf(),
        state.answer(event, now) matches Ok((after, action)) && answers(action, next)
            && clock_allows(after, later),
    ensures
        state.answer(event, now) matches Ok((after, _)) && after.answer(next, later) is Ok,
{
    if let Ok((after, action)) = state.answer(event, now) {
        steps_await_their_answer(state, event, now);
        states_stay_well_formed(state, event, now, 0, now, state.timeout, state.servo_log);
        awaited_answers_lead_on(after, action, next, later);
    }
}

/// A loss costs no more than what was lost. After a truncated packet, a missing
/// receive timestamp or a missing general packet the turn ends as it does
/// without a packet, with nothing else changed; a packet that finds every slot
/// taken changes nothing at all.
pub proof fn losses_change_nothing_else<C>(state: RunnerView<C>, pending: PendingTx<C>, now: Instant)
    requires
        state.wf(),
    ensures
        state.observe() == (state.in_phase(Phase::Observing), Action::<C>::ObservePort),
        state.phase is EventSocket || state.phase is GeneralSocket ==> state.answer(
            Event::Received { reception: Reception::Truncated },
            now,
        ) == Ok::<(RunnerView<C>, Action<C>), RunError>(state.observe()),
        state.phase is RxLookup ==> state.answer(Event::RxTimestamp { stored: None }, now) == Ok::<
            (RunnerView<C>, Action<C>),
            RunError,
        >(state.observe()),
        state.phase is GeneralSocket ==> state.answer(
            Event::Received { reception: Reception::WouldBlock },
            now,
        ) == Ok::<(RunnerView<C>, Action<C>), RunError>(state.observe()),
        (forall|i: int| 0 <= i < state.slots.len() ==> (#[trigger] state.slots[i]) is Some)
            ==> state.with_sent(pending) == state,
{
    push_keeps_every_packet(state.slots, pending);
}

/// The best master clock algorithm comes before everything else: it runs at
/// the beginning of a turn exactly when it is due.
pub proof fn bmca_comes_first<C>(state: RunnerView<C>, now: Instant)
    ensures
        state.begin_turn(now) matches Ok((_, action)) ==> (action is RunBmca <==> state.bmca.ticks
            <= now.ticks),
        state.begin_turn(now) is Err <==> state.bmca.ticks <= now.ticks && deadline_of(
            now,
            state.bmca_nanos,
        ) is None,
{
}

/// With an interval that is not zero, the best master clock algorithm is not
/// due again at the instant at which it ran, so that a turn for everything
/// else follows.
pub proof fn bmca_leaves_time_for_the_rest<C>(state: RunnerView<C>, now: Instant)
    requires
        state.bmca_nanos > 0,
        state.begin_turn(now) matches Ok((_, action)) && action is RunBmca,
    ensures
        state.begin_turn(now) matches Ok((after, _)) && after.bmca.ticks > now.ticks
            && after.answer(Event::ActionsDone, now) == Ok::<
            (RunnerView<C>, Action<C>),
            RunError,
        >(after.look_up_from(0, now)),
{
}

/// A timer is served, and the network is asked for packets, only when no sent
/// packet waits for its timestamp in the slots still to be asked for.
pub proof fn timestamps_come_before_timers<C>(state: RunnerView<C>, slot: int, now: Instant)
    requires
        0 <= slot,
    ensures
        !(state.look_up_from(slot, now).1 is LookUpTx) <==> forall|i: int|
            slot <= i < state.slots.len() ==> (#[trigger] state.slots[i]) is None,
        state.look_up_from(slot, now).1 is ReceiveEvent ==> state.timers.first_due(now) is None,
{
    first_waiting_is_first(state.slots, slot);
}

/// Packets that are too short, and event packets that are passed over, never
/// reach the port.
pub proof fn useless_packets_do_not_reach_the_port<C>(
    state: RunnerView<C>,
    packet: &[u8],
    meta: PacketMeta,
)
    ensures
        message_type(packet@) is None ==> state.answer_event_socket(
            Reception::Packet { packet, meta },
        ) == state.observe() && state.answer_general_socket(Reception::Packet { packet, meta })
            == state.observe(),
        (message_type(packet@) matches Some(kind) && is_passed_over(kind))
            ==> state.answer_event_socket(Reception::Packet { packet, meta }) == state.observe(),
{
}

/// An event packet reaches the port only with its receive timestamp.
pub proof fn event_packets_are_timestamped<C>(
    state: RunnerView<C>,
    event: Event,
    now: Instant,
)
    requires
        state.wf(),
        state.answer(event, now) matches Ok((_, action)) && action is HandleEventReceive,
    ensures
        event matches Event::RxTimestamp { stored: Some(timestamp) } && (state.answer(
            event,
            now,
        ) matches Ok((_, Action::HandleEventReceive { time })) && time == time_at_nanos(
            timestamp_nanos(timestamp) as u64,
        )),
{
}

/// An event moves the deadline of the best master clock algorithm only to run
/// it, stops a timer only to serve it, moves the report only to sleep, and
/// hands out no packet identifier. It puts no packet into a slot.
pub proof fn steps_change_only_what_they_serve<C>(
    state: RunnerView<C>,
    event: Event,
    now: Instant,
)
    requires
        state.wf(),
    ensures
        state.answer(event, now) matches Ok((after, action)) ==> {
            &&& after.bmca_nanos == state.bmca_nanos
            &&& after.next_id == state.next_id
            &&& after.timeout == state.timeout
            &&& !(action is RunBmca) ==> after.bmca == state.bmca
            &&& !(action is Sleep) ==> after.servo_log == state.servo_log
            &&& match action {
                Action::HandleTimer { timer } => after.timers == state.timers.with_deadline(
                    timer,
                    None,
                ),
                _ => after.timers == state.timers,
            }
            &&& after.slots.len() == state.slots.len()
            &&& forall|i: int|
                0 <= i < state.slots.len() ==> (#[trigger] after.slots[i]) is None || after.slots[i]
                    == state.slots[i]
        },
{
}

/// The service sleeps until the earliest of its deadlines: that of the best
/// master clock algorithm, of the next report, of each timer, and of each
/// packet that waits for its timestamp.
pub proof fn sleep_ends_at_the_earliest_deadline<C>(state: RunnerView<C>)
    ensures
        state.wake_up().ticks <= state.bmca.ticks,
        state.wake_up().ticks <= state.servo_log.next_log.ticks,
        forall|timer: StatimeTimer|
            (#[trigger] state.timers.deadline(timer) matches Some(at) ==> state.wake_up().ticks
                <= at.ticks),
        forall|i: int|
            0 <= i < state.slots.len() ==> (slot_deadline(
                #[trigger] state.slots[i],
                state.timeout,
            ) matches Some(at) ==> state.wake_up().ticks <= at.ticks),
        ({
            ||| state.wake_up() == state.bmca
            ||| state.wake_up() == state.servo_log.next_log
            ||| exists|timer: StatimeTimer| #[trigger]
                state.timers.deadline(timer) == Some(state.wake_up())
            ||| exists|i: int|
                0 <= i < state.slots.len() && slot_deadline(
                    #[trigger] state.slots[i],
                    state.timeout,
                ) == Some(state.wake_up())
        }),
{
    earliest_is_least(state.timers);
    first_deadline_is_least(state.slots, state.timeout);
}

/// Sleeping misses nothing and is never in vain: when the time to wake up has
/// come, and not before, something is due.
pub proof fn something_is_due_on_waking_up<C>(state: RunnerView<C>, now: Instant)
    requires
        deadlines_in_range(state.slots, state.timeout),
    ensures
        state.wake_up().ticks <= now.ticks <==> {
            ||| state.bmca.ticks <= now.ticks
            ||| state.servo_log.due(now)
            ||| state.timers.first_due(now) is Some
            ||| exists|i: int|
                0 <= i < state.slots.len() && ((#[trigger] state.slots[i]) matches Some(pending)
                    && has_expired(pending.started, state.timeout, now))
        },
{
    some_timer_is_due_at_the_earliest_deadline(state.timers, now);
    some_packet_expires_at_the_first_deadline(state.slots, state.timeout, now);
}

/// A packet that was sent comes back to the port with the context it was sent
/// with and with the timestamp that the store holds for it, at whatever time
/// the store is asked, and leaves its slot as it found it.
pub proof fn contexts_come_back_with_their_timestamps<C>(
    state: RunnerView<C>,
    pending: PendingTx<C>,
    timestamp: PtpTimestamp,
    now: Instant,
)
    requires
        state.wf(),
        first_free(state.slots, 0) is Some,
    ensures
        ({
            let slot = first_free(state.slots, 0)->0;
            let asking = state.with_sent(pending).in_phase(Phase::TxLookup { slot: slot as usize });
            &&& asking.wf()
            &&& asking.slots[slot] == Some(pending)
            &&& asking.answer(Event::TxTimestamp { stored: Some(timestamp) }, now) == Ok::<
                (RunnerView<C>, Action<C>),
                RunError,
            >(
                (
                    state.in_phase(Phase::Acting { sleeps: true }),
                    Action::HandleSendTimestamp {
                        context: pending.context,
                        time: time_at_nanos(timestamp_nanos(timestamp) as u64),
                    },
                ),
            )
        }),
{
    pushed_context_comes_back(state.slots, pending, state.timeout, timestamp, now);
    first_free_is_first(state.slots, 0);
    let slot = first_free(state.slots, 0)->0;
    let asking = state.with_sent(pending).in_phase(Phase::TxLookup { slot: slot as usize });
    assert(asking.without_packet(slot).in_phase(Phase::Acting { sleeps: true }) =~= state.in_phase(
        Phase::Acting { sleeps: true },
    ));
}

/// An action of the port that sets a timer sets that timer to its duration from
/// now, leaves the other timers alone and changes nothing else.
pub proof fn each_reset_sets_its_timer<C>(
    state: RunnerView<C>,
    action: PortAction<C>,
    other: StatimeTimer,
    now: Instant,
)
    requires
        timer_set_by(action) is Some,
        state.taken_up(action, now) is Some,
    ensures
        ({
            let (timer, duration) = timer_set_by(action)->0;
            let after = state.taken_up(action, now)->0;
            &&& after.timers.deadline(timer) == deadline_of(now, duration_nanos(duration) as int)
            &&& other != timer ==> after.timers.deadline(other) == state.timers.deadline(other)
            &&& after == (RunnerView { timers: after.timers, ..state })
        }),
{
}

/// An event packet goes out with an identifier other than 0, and the next one
/// with another. A general packet goes out with the identifier 0, and uses up
/// none.
pub proof fn event_packets_are_told_apart<C>(
    state: RunnerView<C>,
    action: PortAction<C>,
    outgoing: Outgoing<C>,
    now: Instant,
)
    requires
        state.wf(),
        is_sent_for(outgoing, action, state.next_id),
    ensures
        state.taken_up(action, now) matches Some(after) ==> after.wf(),
        outgoing matches Outgoing::Event { metadata, .. } ==> metadata.meta.id != 0
            && metadata.meta.id == state.next_id && (state.taken_up(action, now) matches Some(after)
            && after.next_id != metadata.meta.id),
        outgoing matches Outgoing::General { metadata, .. } ==> metadata.meta.id == 0
            && state.taken_up(action, now) == Some(state),
{
}

/// A packet is given up only because it has waited for the whole time-out and
/// the store has no timestamp for it. Its slot is free then, and the other
/// slots are as they were.
pub proof fn only_expired_packets_are_given_up<C>(
    state: RunnerView<C>,
    event: Event,
    now: Instant,
)
    requires
        state.wf(),
        state.answer(event, now) matches Ok((_, action)) && action is GiveUpTx,
    ensures
        event == (Event::TxTimestamp { stored: None }),
        ({
            let slot = state.phase->TxLookup_slot as int;
            let pending = state.slots[slot]->0;
            &&& state.phase is TxLookup
            &&& has_expired(pending.started, state.timeout, now)
            &&& state.answer(event, now) matches Ok((after, Action::GiveUpTx { meta }))
            &&& meta == pending.meta
            &&& after.slots == state.slots.update(slot, None)
        }),
{
}

/// What the timestamp store and the clock say when the service asks for the
/// packet in a slot.
pub struct Reply {
    /// What the store holds for the packet.
    pub stored: Option<PtpTimestamp>,
    /// What the clock reads once the store has answered.
    pub asked: Instant,
    /// What the clock reads once the loss of the packet was noted, if the
    /// packet is given up.
    pub noted: Instant,
}

/// What the timestamp store and the clock say for each slot.
pub type Replies = spec_fn(int) -> Reply;

/// What a step leads to once a loss was noted at `noted`, if it is one.
pub open spec fn after_loss<C>(step: Step<C>, noted: Instant) -> Step<C> {
    match step {
        Ok((state, Action::GiveUpTx { meta })) => state.answer(Event::TxGivenUp, noted),
        _ => step,
    }
}

/// What a step leads to once the store has answered at most `lookups`
/// questions and the losses were noted: the first action that is no question
/// for a sent packet.
pub open spec fn after_lookups<C>(step: Step<C>, replies: Replies, lookups: nat) -> Step<C>
    decreases lookups,
{
    match step {
        Ok((state, Action::LookUpTx { meta })) if lookups > 0 => {
            let reply = replies(state.phase->TxLookup_slot as int);
            let answered = state.answer(Event::TxTimestamp { stored: reply.stored }, reply.asked);
            after_lookups(after_loss(answered, reply.noted), replies, (lookups - 1) as nat)
        },
        _ => step,
    }
}

/// The first slot from `from` on with a packet whose timestamp is in the store.
pub open spec fn first_stamped<C>(
    slots: Seq<Option<PendingTx<C>>>,
    from: int,
    replies: Replies,
) -> Option<int>
    decreases slots.len() - from,
{
    if from >= slots.len() {
        None
    } else if slots[from] is Some && replies(from).stored is Some {
        Some(from)
    } else {
        first_stamped(slots, from + 1, replies)
    }
}

/// Whether a slot holds a packet that had expired when the store had answered.
pub open spec fn is_lost<C>(
    slot: Option<PendingTx<C>>,
    timeout: TickDuration,
    reply: Reply,
) -> bool {
    slot matches Some(pending) && has_expired(pending.started, timeout, reply.asked)
}

/// The slots without the packets from `from` up to `end` that had expired when
/// the store had answered.
pub open spec fn swept<C>(
    slots: Seq<Option<PendingTx<C>>>,
    timeout: TickDuration,
    from: int,
    end: int,
    replies: Replies,
) -> Seq<Option<PendingTx<C>>> {
    Seq::new(
        slots.len(),
        |i: int|
            if from <= i < end && is_lost(slots[i], timeout, replies(i)) {
                None
            } else {
                slots[i]
            },
    )
}

/// What the clock read last once every packet from `from` on was asked for, if
/// it read `now` before.
pub open spec fn last_reading<C>(
    slots: Seq<Option<PendingTx<C>>>,
    timeout: TickDuration,
    from: int,
    now: Instant,
    replies: Replies,
) -> Instant
    decreases slots.len() - from,
{
    if from >= slots.len() {
        now
    } else {
        let read = if is_lost(slots[from], timeout, replies(from)) {
            replies(from).noted
        } else if slots[from] is Some {
            replies(from).asked
        } else {
            now
        };
        last_reading(slots, timeout, from + 1, read, replies)
    }
}

/// What comes of asking the store for the sent packets from `from` on: the
/// first packet with a timestamp goes to the port, and the packets before it
/// that had expired are given up. Where no packet has a timestamp, every
/// expired one is given up, and the timers and the network have their turn.
pub open spec fn polled<C>(
    state: RunnerView<C>,
    from: int,
    now: Instant,
    replies: Replies,
) -> (RunnerView<C>, Action<C>) {
    match first_stamped(state.slots, from, replies) {
        Some(k) => (
            RunnerView {
                slots: swept(state.slots, state.timeout, from, k, replies).update(k, None),
                phase: Phase::Acting { sleeps: true },
                ..state
            },
            Action::HandleSendTimestamp {
                context: state.slots[k]->0.context,
                time: time_at_nanos(timestamp_nanos(replies(k).stored->0) as u64),
            },
        ),
        None => (RunnerView {
            slots: swept(state.slots, state.timeout, from, state.slots.len() as int, replies),
            ..state
        }).serve_timers(last_reading(state.slots, state.timeout, from, now, replies)),
    }
}

/// The service asks for the sent packets one slot after the other, and what
/// comes of it is what [`polled`] says. The clock may not read earlier than
/// the instants at which the packets were sent.
pub proof fn lookups_poll_every_packet<C>(
    state: RunnerView<C>,
    from: int,
    now: Instant,
    replies: Replies,
    lookups: nat,
)
    requires
        state.slots.len() == TX_PENDING,
        0 <= from,
        from + lookups >= TX_PENDING,
        forall|i: int|
            from <= i < state.slots.len() ==> ((#[trigger] state.slots[i]) matches Some(pending)
                ==> pending.started.ticks <= replies(i).asked.ticks),
    ensures
        after_lookups::<C>(Ok(state.look_up_from(from, now)), replies, lookups) == Ok::<
            (RunnerView<C>, Action<C>),
            RunError,
        >(polled(state, from, now, replies)),
    decreases TX_PENDING - from,
{
    let slots = state.slots;
    let timeout = state.timeout;
    first_stamped_is_in_range(slots, from + 1, replies);
    let end = match first_stamped(slots, from, replies) {
        Some(k) => k,
        None => slots.len() as int,
    };
    if from >= TX_PENDING {
        assert(swept(slots, timeout, from, end, replies) =~= slots);
    } else {
        match slots[from] {
            None => {
                lookups_poll_every_packet(state, from + 1, now, replies, lookups);
                assert(swept(slots, timeout, from, end, replies) =~= swept(
                    slots,
                    timeout,
                    from + 1,
                    end,
                    replies,
                ));
            },
            Some(pending) => {
                let asking = state.in_phase(Phase::TxLookup { slot: from as usize });
                let reply = replies(from);
                let answered = asking.answer(
                    Event::TxTimestamp { stored: reply.stored },
                    reply.asked,
                );
                match reply.stored {
                    Some(timestamp) => {
                        assert(swept(slots, timeout, from, from, replies) =~= slots);
                        assert(after_lookups::<C>(answered, replies, (lookups - 1) as nat)
                            == answered);
                    },
                    None => {
                        let (rest, read) = if is_lost(slots[from], timeout, reply) {
                            (
                                asking.without_packet(from).in_phase(
                                    Phase::GivingUp { slot: from as usize },
                                ),
                                reply.noted,
                            )
                        } else {
                            (asking, reply.asked)
                        };
                        lookups_poll_every_packet(
                            rest,
                            from + 1,
                            read,
                            replies,
                            (lookups - 1) as nat,
                        );
                        later_slots_decide(slots, rest.slots, timeout, from + 1, read, replies);
                        assert(swept(slots, timeout, from, end, replies) =~= swept(
                            rest.slots,
                            timeout,
                            from + 1,
                            end,
                            replies,
                        ));
                    },
                }
            },
        }
    }
}

/// The first stamped slot is one of the slots that were looked at.
proof fn first_stamped_is_in_range<C>(
    slots: Seq<Option<PendingTx<C>>>,
    from: int,
    replies: Replies,
)
    ensures
        first_stamped(slots, from, replies) matches Some(k) ==> from <= k < slots.len(),
    decreases slots.len() - from,
{
    if from < slots.len() {
        first_stamped_is_in_range(slots, from + 1, replies);
    }
}

/// Slots before `from` do not matter to what comes of the slots from `from` on.
proof fn later_slots_decide<C>(
    one: Seq<Option<PendingTx<C>>>,
    other: Seq<Option<PendingTx<C>>>,
    timeout: TickDuration,
    from: int,
    now: Instant,
    replies: Replies,
)
    requires
        0 <= from,
        one.len() == other.len(),
        forall|i: int| from <= i < one.len() ==> #[trigger] one[i] == #[trigger] other[i],
    ensures
        first_stamped(one, from, replies) == first_stamped(other, from, replies),
        last_reading(one, timeout, from, now, replies) == last_reading(
            other,
            timeout,
            from,
            now,
            replies,
        ),
    decreases one.len() - from,
{
    if from < one.len() {
        let read = if is_lost(one[from], timeout, replies(from)) {
            replies(from).noted
        } else if one[from] is Some {
            replies(from).asked
        } else {
            now
        };
        later_slots_decide(one, other, timeout, from + 1, read, replies);
    }
}

} // verus!
