//! What holds of the service over many actions of its port, and over many
//! events.

use vstd::prelude::*;

use crate::laws::{answers, awaited_answers_lead_on, awaits, clock_allows};
use crate::laws::{states_stay_well_formed, steps_await_their_answer};
use crate::laws::steps_change_only_what_they_serve;
use crate::packet::{nth_id, successor_id, PacketMeta};
use crate::pending::{first_free_is_first, push_keeps_every_packet, PendingTx};
use crate::runner::{timer_set_by, Action, Event, PortAction, RunnerView};
use crate::ticks::{deadline_of, duration_nanos, instant_after, Instant};
use crate::timers::{timers_are_independent, StatimeTimer};

verus! {

/// An action of the port that was carried out.
pub struct Handled<'a, C> {
    /// The action.
    pub action: PortAction<'a, C>,
    /// When it was taken up.
    pub at: Instant,
    /// When the packet was sent, if the action sends one and that succeeded.
    pub sent: Option<Instant>,
}

/// The state once an action was carried out: it was taken up, and an event
/// packet that was sent waits for its timestamp. There is none where the action
/// sets a timer to an instant that cannot be represented.
pub open spec fn after_action<C>(
    state: RunnerView<C>,
    handled: Handled<C>,
) -> Option<RunnerView<C>> {
    match state.taken_up(handled.action, handled.at) {
        Some(after) => match (handled.action, handled.sent) {
            (PortAction::SendEvent { context, .. }, Some(started)) => Some(
                after.with_sent(
                    PendingTx { context, meta: PacketMeta { id: state.next_id }, started },
                ),
            ),
            _ => Some(after),
        },
        None => None,
    }
}

/// The state once actions were carried out one after the other.
pub open spec fn after_actions<C>(
    state: RunnerView<C>,
    actions: Seq<Handled<C>>,
) -> Option<RunnerView<C>>
    decreases actions.len(),
{
    if actions.len() == 0 {
        Some(state)
    } else {
        match after_action(state, actions[0]) {
            Some(next) => after_actions(next, actions.skip(1)),
            None => None,
        }
    }
}

/// Whether an action sets a timer.
pub open spec fn sets<C>(handled: Handled<C>, timer: StatimeTimer) -> bool {
    timer_set_by(handled.action) matches Some((set, _)) && set == timer
}

/// How many of the actions send an event packet.
pub open spec fn event_packets<C>(actions: Seq<Handled<C>>) -> nat
    decreases actions.len(),
{
    if actions.len() == 0 {
        0
    } else if actions[0].action is SendEvent {
        1 + event_packets(actions.skip(1))
    } else {
        event_packets(actions.skip(1))
    }
}

/// Actions are carried out in order, each once: carrying out one list after
/// another is carrying out the two as one list.
pub proof fn actions_are_handled_in_order<C>(
    state: RunnerView<C>,
    first: Seq<Handled<C>>,
    second: Seq<Handled<C>>,
)
    ensures
        after_actions(state, first + second) == match after_actions(state, first) {
            Some(between) => after_actions(between, second),
            None => None,
        },
    decreases first.len(),
{
    if first.len() == 0 {
        assert(first + second =~= second);
    } else {
        assert((first + second).skip(1) =~= first.skip(1) + second);
        if let Some(next) = after_action(state, first[0]) {
            actions_are_handled_in_order(next, first.skip(1), second);
        }
    }
}

/// A failed send skips nothing. An event packet that was not sent takes its
/// identifier and leaves no other trace; a general packet leaves none, sent or
/// not. The actions after it are carried out as ever.
pub proof fn failed_sends_skip_nothing<C>(
    state: RunnerView<C>,
    before: Seq<Handled<C>>,
    failed: Handled<C>,
    after: Seq<Handled<C>>,
)
    requires
        failed.action is SendEvent && failed.sent is None || failed.action is SendGeneral,
    ensures
        after_actions(state, before + seq![failed] + after) == match after_actions(state, before) {
            Some(between) => after_actions(
                if failed.action is SendEvent {
                    RunnerView { next_id: successor_id(between.next_id), ..between }
                } else {
                    between
                },
                after,
            ),
            None => None,
        },
{
    actions_are_handled_in_order(state, before, seq![failed] + after);
    assert(before + seq![failed] + after =~= before + (seq![failed] + after));
    assert((seq![failed] + after).skip(1) =~= after);
}

/// A timer that no action sets keeps its deadline.
pub proof fn other_timers_keep_their_deadline<C>(
    state: RunnerView<C>,
    actions: Seq<Handled<C>>,
    timer: StatimeTimer,
)
    requires
        forall|i: int| 0 <= i < actions.len() ==> !sets(#[trigger] actions[i], timer),
    ensures
        after_actions(state, actions) matches Some(after) ==> after.timers.deadline(timer)
            == state.timers.deadline(timer),
    decreases actions.len(),
{
    if actions.len() > 0 {
        assert(!sets(actions[0], timer));
        if let Some(next) = after_action(state, actions[0]) {
            if let Some((set, duration)) = timer_set_by(actions[0].action) {
                let deadline = deadline_of(actions[0].at, duration_nanos(duration) as int);
                timers_are_independent(state.timers, set, timer, deadline);
            }
            assert forall|i: int| 0 <= i < actions.skip(1).len() implies !sets(
                #[trigger] actions.skip(1)[i],
                timer,
            ) by {
                assert(actions.skip(1)[i] == actions[i + 1]);
            }
            other_timers_keep_their_deadline(next, actions.skip(1), timer);
        }
    }
}

/// Of several actions that set a timer, the last one wins.
pub proof fn the_last_reset_wins<C>(
    state: RunnerView<C>,
    actions: Seq<Handled<C>>,
    last: int,
    timer: StatimeTimer,
)
    requires
        0 <= last < actions.len(),
        sets(actions[last], timer),
        forall|i: int| last < i < actions.len() ==> !sets(#[trigger] actions[i], timer),
    ensures
        after_actions(state, actions) matches Some(after) ==> after.timers.deadline(timer)
            == deadline_of(
            actions[last].at,
            duration_nanos((timer_set_by(actions[last].action)->0).1) as int,
        ),
{
    let before = actions.take(last);
    let rest = actions.skip(last);
    let later = actions.skip(last + 1);
    assert(before + rest =~= actions);
    assert(rest.skip(1) =~= later);
    actions_are_handled_in_order(state, before, rest);
    if let Some(between) = after_actions(state, before) {
        if let Some(next) = after_action(between, rest[0]) {
            assert forall|i: int| 0 <= i < later.len() implies !sets(
                #[trigger] later[i],
                timer,
            ) by {
                assert(later[i] == actions[last + 1 + i]);
            }
            other_timers_keep_their_deadline(next, later, timer);
        }
    }
}

/// Counting on from the next identifier is counting one further.
proof fn nth_id_shifts(id: u32, n: nat)
    ensures
        nth_id(successor_id(id), n) == nth_id(id, n + 1),
    decreases n,
{
    reveal_with_fuel(nth_id, 2);
    if n > 0 {
        nth_id_shifts(id, (n - 1) as nat);
    }
}

/// Every event packet takes one identifier, sent or not, and nothing else does.
pub proof fn each_event_packet_takes_one_identifier<C>(
    state: RunnerView<C>,
    actions: Seq<Handled<C>>,
)
    ensures
        after_actions(state, actions) matches Some(after) ==> after.next_id == nth_id(
            state.next_id,
            event_packets(actions),
        ),
    decreases actions.len(),
{
    if actions.len() > 0 {
        if let Some(next) = after_action(state, actions[0]) {
            each_event_packet_takes_one_identifier(next, actions.skip(1));
            nth_id_shifts(state.next_id, event_packets(actions.skip(1)));
        }
    }
}

/// Carrying out actions of the port leaves alone what the service waits for,
/// the best master clock algorithm and the report. No packet that waits for its
/// timestamp is displaced, and the packets that join were sent by the actions.
pub proof fn actions_leave_the_turn_alone<C>(state: RunnerView<C>, actions: Seq<Handled<C>>)
    requires
        state.wf(),
    ensures
        after_actions(state, actions) matches Some(after) ==> {
            &&& after.wf()
            &&& after.phase == state.phase
            &&& after.bmca_nanos == state.bmca_nanos
            &&& after.bmca == state.bmca
            &&& after.servo_log == state.servo_log
            &&& after.timeout == state.timeout
            &&& forall|i: int|
                0 <= i < state.slots.len() && (#[trigger] state.slots[i]) is Some ==> after.slots[i]
                    == state.slots[i]
            &&& forall|i: int|
                0 <= i < after.slots.len() && (#[trigger] after.slots[i]) is Some ==> after.slots[i]
                    == state.slots[i] || exists|k: int|
                    0 <= k < actions.len() && (#[trigger] actions[k]).sent == Some(
                        after.slots[i]->0.started,
                    )
        },
    decreases actions.len(),
{
    if actions.len() > 0 {
        if let Some(next) = after_action(state, actions[0]) {
            first_free_is_first(state.slots, 0);
            if let (PortAction::SendEvent { context, .. }, Some(started)) = (
                actions[0].action,
                actions[0].sent,
            ) {
                let pending = PendingTx {
                    context,
                    meta: PacketMeta { id: state.next_id },
                    started,
                };
                push_keeps_every_packet(state.slots, pending);
            }
            actions_leave_the_turn_alone(next, actions.skip(1));
            if let Some(after) = after_actions(state, actions) {
                assert forall|i: int|
                    0 <= i < after.slots.len() && (#[trigger] after.slots[i]) is Some
                        && after.slots[i] != state.slots[i] implies exists|k: int|
                    0 <= k < actions.len() && (#[trigger] actions[k]).sent == Some(
                        after.slots[i]->0.started,
                    ) by {
                    if after.slots[i] == next.slots[i] {
                        assert(actions[0].sent == Some(after.slots[i]->0.started));
                    } else {
                        let rest = actions.skip(1);
                        let k = choose|k: int|
                            0 <= k < rest.len() && (#[trigger] rest[k]).sent == Some(
                                after.slots[i]->0.started,
                            );
                        assert(actions[k + 1] == rest[k]);
                    }
                }
            }
        }
    }
}

/// One round of the service: an event, and the actions of the port that were
/// carried out because of it.
pub struct Round<'a, C> {
    /// What happened.
    pub event: Event<'a>,
    /// When it happened.
    pub now: Instant,
    /// What the port asked for then.
    pub actions: Seq<Handled<'a, C>>,
}

/// The state after a round and the action that the round ended with, if the
/// service goes on.
pub open spec fn after_round<C>(state: RunnerView<C>, round: Round<C>) -> Option<
    (RunnerView<C>, Action<C>),
> {
    match state.answer(round.event, round.now) {
        Ok((answered, action)) => match after_actions(answered, round.actions) {
            Some(after) => Some((after, action)),
            None => None,
        },
        Err(_) => None,
    }
}

/// Whether the service goes on through all rounds.
pub open spec fn goes_on<C>(state: RunnerView<C>, rounds: Seq<Round<C>>) -> bool
    decreases rounds.len(),
{
    rounds.len() == 0 || (after_round(state, rounds[0]) matches Some((after, _)) && goes_on(
        after,
        rounds.skip(1),
    ))
}

/// Whether the event of each round is the answer to the action before it, as
/// far as the service goes on. The first one answers `action`.
pub open spec fn in_keeping<C>(
    state: RunnerView<C>,
    action: Action<C>,
    rounds: Seq<Round<C>>,
) -> bool
    decreases rounds.len(),
{
    rounds.len() == 0 || answers(action, rounds[0].event) && (after_round(
        state,
        rounds[0],
    ) matches Some((after, next)) ==> in_keeping(after, next, rounds.skip(1)))
}

/// Whether the clock never reads earlier than a packet was sent, and reads no
/// later than `limit`.
pub open spec fn clock_runs_on<C>(
    state: RunnerView<C>,
    rounds: Seq<Round<C>>,
    limit: Instant,
) -> bool {
    &&& forall|j: int| 0 <= j < rounds.len() ==> (#[trigger] rounds[j]).now.ticks <= limit.ticks
    &&& forall|i: int, j: int|
        0 <= i < state.slots.len() && 0 <= j < rounds.len() && (#[trigger] state.slots[i]) is Some
            ==> state.slots[i]->0.started.ticks <= (#[trigger] rounds[j]).now.ticks
    &&& forall|k: int, i: int, j: int|
        #![trigger rounds[k].actions[i], rounds[j]]
        0 <= k < j < rounds.len() && 0 <= i < rounds[k].actions.len()
            && rounds[k].actions[i].sent is Some ==> rounds[k].actions[i].sent->0.ticks
            <= rounds[j].now.ticks
}

/// Whether every timer is set to an instant that can be represented.
pub open spec fn resets_in_range<C>(actions: Seq<Handled<C>>) -> bool {
    forall|i: int|
        0 <= i < actions.len() ==> (timer_set_by((#[trigger] actions[i]).action) matches Some(
            (_, duration),
        ) ==> deadline_of(actions[i].at, duration_nanos(duration) as int) is Some)
}

/// Actions are carried out to the end if every timer is set to an instant that
/// can be represented.
pub proof fn actions_are_carried_out<C>(state: RunnerView<C>, actions: Seq<Handled<C>>)
    requires
        resets_in_range(actions),
    ensures
        after_actions(state, actions) is Some,
    decreases actions.len(),
{
    if actions.len() > 0 {
        let rest = actions.skip(1);
        assert forall|i: int| 0 <= i < rest.len() implies (timer_set_by(
            (#[trigger] rest[i]).action,
        ) matches Some((_, duration)) ==> deadline_of(
            rest[i].at,
            duration_nanos(duration) as int,
        ) is Some) by {
            assert(rest[i] == actions[i + 1]);
        }
        assert(timer_set_by(actions[0].action) matches Some((_, duration)) ==> deadline_of(
            actions[0].at,
            duration_nanos(duration) as int,
        ) is Some);
        if let Some(next) = after_action(state, actions[0]) {
            actions_are_carried_out(next, rest);
        }
    }
}

/// The service runs for as long as the clock does. Whatever the sockets, the
/// timestamp store and the port answer, and whichever packets are lost, it goes
/// on through any number of rounds, provided that the clock does not go back
/// and that no deadline leaves the range of instants.
pub proof fn the_service_goes_on<C>(
    state: RunnerView<C>,
    action: Action<C>,
    rounds: Seq<Round<C>>,
    limit: Instant,
)
    requires
        state.wf(),
        awaits(state.phase, action),
        in_keeping(state, action, rounds),
        clock_runs_on(state, rounds, limit),
        forall|j: int| 0 <= j < rounds.len() ==> resets_in_range((#[trigger] rounds[j]).actions),
        deadline_of(limit, state.bmca_nanos) is Some,
        instant_after(limit, state.servo_log.period) is Some,
        instant_after(limit, state.timeout) is Some,
    ensures
        goes_on(state, rounds),
    decreases rounds.len(),
{
    if rounds.len() > 0 {
        let round = rounds[0];
        let rest = rounds.skip(1);
        assert(clock_allows(state, round.now));
        awaited_answers_lead_on(state, action, round.event, round.now);
        if let Ok((answered, next)) = state.answer(round.event, round.now) {
            states_stay_well_formed(
                state,
                round.event,
                round.now,
                0,
                round.now,
                state.timeout,
                state.servo_log,
            );
            steps_await_their_answer(state, round.event, round.now);
            steps_change_only_what_they_serve(state, round.event, round.now);
            actions_are_carried_out(answered, round.actions);
            actions_leave_the_turn_alone(answered, round.actions);
            if let Some(after) = after_actions(answered, round.actions) {
                assert(after.servo_log.period == state.servo_log.period);
                assert forall|i: int, j: int|
                    0 <= i < after.slots.len() && 0 <= j < rest.len()
                        && (#[trigger] after.slots[i]) is Some implies after.slots[i]->0.started.ticks
                    <= (#[trigger] rest[j]).now.ticks by {
                    assert(rest[j] == rounds[j + 1]);
                    if after.slots[i] == answered.slots[i] {
                        assert(state.slots[i] == answered.slots[i]);
                    } else {
                        let k = choose|k: int|
                            0 <= k < round.actions.len() && (#[trigger] round.actions[k]).sent
                                == Some(after.slots[i]->0.started);
                        assert(rounds[0].actions[k].sent is Some);
                    }
                }
                assert forall|k: int, i: int, j: int|
                    #![trigger rest[k].actions[i], rest[j]]
                    0 <= k < j < rest.len() && 0 <= i < rest[k].actions.len()
                        && rest[k].actions[i].sent is Some implies rest[k].actions[i].sent->0.ticks
                    <= rest[j].now.ticks by {
                    assert(rest[k] == rounds[k + 1] && rest[j] == rounds[j + 1]);
                    assert(rounds[k + 1].actions[i] == rest[k].actions[i]);
                }
                assert forall|j: int| 0 <= j < rest.len() implies (#[trigger] rest[j]).now.ticks
                    <= limit.ticks && resets_in_range(rest[j].actions) by {
                    assert(rest[j] == rounds[j + 1]);
                }
                the_service_goes_on(after, next, rest, limit);
            }
        }
    }
}

} // verus!
