//! What the functions of the library give back, stated of their calls: of the
//! arguments, the result, and the value before and after.

use vstd::prelude::*;

use rand_xorshift::XorShiftRng;
use statime::time::{Duration, Time};

use crate::behaviour::{is_addressed, packets_go_where_the_port_asked, passed, reports_nanos};
use crate::behaviour::{reports_on, services_start_empty, steps_give_what_they_say};
use crate::clock::{frequency_addend, nanos_from, saturating_i64, step_nanos, time_from};
use crate::clock::AddendChange;
use crate::config::{clock_identity_from_mac, AcceptableMasters, ClockIdentity, Config};
use crate::config::{DelayMechanism, InstanceConfig, PortConfig, PtpMinorVersion, TimeSource};
use crate::endpoint::{multicast_endpoint, IpEndpoint};
use crate::log::{servo_report, state_change, state_name, FilterEstimate, PortState, ServoLog};
use crate::log::{states_go_by_their_names, ServoReport};
use crate::packet::{ptp_message_type, rx_event_type, PacketIdGenerator, PacketMeta};
use crate::packet::PtpTimestamp;
use crate::pending::{first_deadline_is_started_plus_timeout, first_free_is_first};
use crate::pending::{first_waiting_is_first, PendingTx, PendingTxQueue, Settled};
use crate::pending::{packets_wait_for_the_whole_timeout, with_pushed};
use crate::pending::deadlines_are_in_range_up_to_the_last_instant;
use crate::pending::waiting_packets_are_named_in_place;
use crate::runner::{Action, Event, Outgoing, Phase, PortAction, RunError, Runner};
use crate::runner::{follows, initial, is_sent_for, RunnerView};
use crate::statime_types::{arbitrary_timescale, interval_of_log_2, rng_of_seed, span_of_nanos};
use crate::statime_types::{time_at_nanos, whole_nanos};
use crate::ticks::{deadline_after, deadline_after_nanos, deadline_from_now, duration_nanos};
use crate::ticks::{deadline_of, earlier, instant_after, is_reading, Instant};
use crate::ticks::{TickDuration, TimeError};
use crate::timers::{StatimeTimer, Timers};

verus! {

/// The addend for a correction is the nominal one moved by the change, or the
/// end of the range from 1 to the largest number that the change would cross.
/// Without a correction it is the nominal one.
pub proof fn addends_are_moved_by_the_change(
    nominal: u32,
    change: Option<AddendChange>,
    addend: u32,
)
    requires
        call_ensures(frequency_addend, (nominal, change), addend),
    ensures
        change is None ==> addend == nominal,
        change is Some && change->0.faster && nominal + change->0.delta <= u32::MAX ==> addend
            - nominal == change->0.delta,
        change is Some && change->0.faster && nominal + change->0.delta > u32::MAX ==> addend
            == u32::MAX,
        change is Some && !change->0.faster && change->0.delta < nominal ==> nominal - addend
            == change->0.delta,
        change is Some && !change->0.faster && change->0.delta >= nominal ==> addend == 1,
{
}

/// A clock is stepped by the whole nanoseconds of the offset, or by the nearest
/// number that fits.
pub proof fn clocks_are_stepped_by_the_offset(offset: Duration, nanos: i64)
    requires
        call_ensures(step_nanos, (offset,), nanos),
    ensures
        reports_nanos(nanos, whole_nanos(offset)),
{
}

/// A wide number stays what it is if it fits, and becomes the nearest number
/// that does if it does not.
pub proof fn wide_numbers_become_the_nearest_that_fits(value: i128, result: i64)
    requires
        call_ensures(saturating_i64, (value,), result),
    ensures
        i64::MIN <= value <= i64::MAX ==> result == value,
        value > i64::MAX ==> result == i64::MAX,
        value < i64::MIN ==> result == i64::MIN,
{
}

/// A timestamp stands for its nanoseconds and a thousand million for each of its
/// seconds.
pub proof fn timestamps_stand_for_their_nanoseconds(
    timestamp: PtpTimestamp,
    nanos: u64,
    time: Time,
)
    requires
        call_ensures(nanos_from, (timestamp,), nanos),
        call_ensures(time_from, (timestamp,), time),
    ensures
        nanos == 1_000_000_000 * timestamp.seconds + timestamp.nanos,
        time == time_at_nanos(nanos),
{
}

/// The message type of a packet of at least 34 bytes is the rest of its first
/// byte after division by 16. The receive timestamp is wanted unless that is 1,
/// 2 or 3. A shorter packet has no type.
pub proof fn packets_are_told_by_their_first_byte(
    packet: &[u8],
    kind: Option<u8>,
    wanted: Option<u8>,
)
    requires
        call_ensures(ptp_message_type, (packet,), kind),
        call_ensures(rx_event_type, (packet,), wanted),
    ensures
        kind is Some <==> packet@.len() >= 34,
        kind is Some ==> kind->0 == packet@[0] % 16,
        wanted is Some <==> kind is Some && kind->0 != 1 && kind->0 != 2 && kind->0 != 3,
        wanted is Some ==> wanted == kind,
{
}

/// The first identifier is 1. Each is the one before it plus one, and 1 again
/// after the largest number.
pub proof fn identifiers_are_counted(
    fresh: PacketIdGenerator,
    generator: &mut PacketIdGenerator,
    meta: PacketMeta,
)
    requires
        call_ensures(PacketIdGenerator::new, (), fresh),
        call_ensures(PacketIdGenerator::next, (generator,), meta),
    ensures
        fresh@ == 1,
        meta.id == old(generator)@,
        meta.id != 0,
        meta.id < u32::MAX ==> final(generator)@ - meta.id == 1,
        meta.id == u32::MAX ==> final(generator)@ == 1,
{
}

/// A sum of ticks is there exactly when it fits.
pub proof fn ticks_are_added(at: Instant, duration: TickDuration, sum: Option<Instant>)
    requires
        call_ensures(Instant::checked_add, (at, duration), sum),
    ensures
        sum is Some <==> at.ticks + duration.ticks <= u64::MAX,
        sum is Some ==> sum->0.ticks == at.ticks + duration.ticks,
{
}

/// The span between two instants is the difference of their ticks.
pub proof fn ticks_are_subtracted(at: Instant, earlier: Instant, span: TickDuration)
    requires
        call_ensures(Instant::duration_since, (at, earlier), span),
    ensures
        span.ticks == at.ticks - earlier.ticks,
{
}

/// A microsecond is one tick: nanoseconds are rounded up to whole ticks, a
/// millisecond has a thousand, and a second a million.
pub proof fn ticks_are_microseconds(
    number: u64,
    nanos: TickDuration,
    millis: TickDuration,
    secs: TickDuration,
)
    requires
        call_ensures(TickDuration::from_nanos, (number,), nanos),
        call_ensures(TickDuration::from_millis, (number,), millis),
        call_ensures(TickDuration::from_secs, (number,), secs),
    ensures
        1000 * nanos.ticks - 1000 < number <= 1000 * nanos.ticks,
        millis.ticks == 1000 * number,
        secs.ticks == 1_000_000 * number,
{
}

/// The earlier of two instants is one of them, neither is before it, and it is
/// there as soon as one of them is.
pub proof fn the_earlier_of_two(
    one: Option<Instant>,
    other: Option<Instant>,
    least: Option<Instant>,
)
    requires
        call_ensures(earlier, (one, other), least),
    ensures
        least is None <==> one is None && other is None,
        least == one || least == other,
        one is Some ==> least->0.ticks <= one->0.ticks,
        other is Some ==> least->0.ticks <= other->0.ticks,
{
}

/// A deadline lies the least whole number of ticks away that covers its
/// nanoseconds, and is there exactly when that instant, and the nanoseconds with
/// one tick more, fit.
pub proof fn deadlines_lie_just_far_enough(
    now: Instant,
    nanos: u128,
    ticks: int,
    deadline: Option<Instant>,
)
    requires
        call_ensures(deadline_after_nanos, (now, nanos), deadline),
        1000 * ticks - 1000 < nanos <= 1000 * ticks,
    ensures
        deadline is Some <==> nanos + 1000 <= u64::MAX && now.ticks + ticks <= u64::MAX,
        deadline is Some ==> deadline->0.ticks == now.ticks + ticks,
{
}

/// The deadline of a duration is that of its nanoseconds.
pub proof fn deadlines_of_durations(
    now: Instant,
    duration: core::time::Duration,
    ticks: int,
    deadline: Option<Instant>,
)
    requires
        call_ensures(deadline_after, (now, duration), deadline),
        1000 * ticks - 1000 < duration_nanos(duration) <= 1000 * ticks,
    ensures
        deadline is Some <==> duration_nanos(duration) + 1000 <= u64::MAX && now.ticks + ticks
            <= u64::MAX,
        deadline is Some ==> deadline->0.ticks == now.ticks + ticks,
{
}

/// Packets go to the given port of 224.0.0.107, if they stay on the link, and of
/// 224.0.1.129, if they do not.
pub proof fn endpoints_are_those_of_the_groups(
    port: u16,
    link_local: bool,
    endpoint: IpEndpoint,
)
    requires
        call_ensures(multicast_endpoint, (port, link_local), endpoint),
    ensures
        endpoint.port == port,
        link_local ==> endpoint.addr@ == seq![224u8, 0u8, 0u8, 107u8],
        !link_local ==> endpoint.addr@ == seq![224u8, 0u8, 1u8, 129u8],
{
}

/// The identity of a clock is its address with `ff fe` in the middle.
pub proof fn identities_are_those_of_the_address(mac: [u8; 6], identity: ClockIdentity)
    requires
        call_ensures(clock_identity_from_mac, (mac,), identity),
    ensures
        identity.0@ == seq![
            mac@[0],
            mac@[1],
            mac@[2],
            0xffu8,
            0xfeu8,
            mac@[3],
            mac@[4],
            mac@[5],
        ],
{
}

/// The usual configuration holds the address and the seed that it is made from,
/// and is otherwise always the same: domain 0, both priorities 128, slave only,
/// one message per second, three missed announces, no asymmetry, version 2.0,
/// the clock's own oscillator, 100 milliseconds for a transmit timestamp and 10
/// seconds between reports.
pub proof fn usual_configurations_differ_in_address_and_seed(
    mac: [u8; 6],
    seed: u64,
    config: Config,
)
    requires
        call_ensures(Config::new, (mac, seed), config),
    ensures
        config.mac_address == mac,
        config.rng_seed == seed,
        config.domain_number == 0,
        config.priority_1 == 128,
        config.priority_2 == 128,
        config.slave_only,
        config.delay_request_interval == interval_of_log_2(0),
        config.announce_interval == interval_of_log_2(0),
        config.sync_interval == interval_of_log_2(0),
        config.announce_receipt_timeout == 3,
        config.delay_asymmetry == span_of_nanos(0),
        config.minor_ptp_version == PtpMinorVersion::Zero,
        config.time_properties == arbitrary_timescale(
            false,
            false,
            TimeSource::InternalOscillator,
        ),
        config.tx_timestamp_timeout.ticks == 100_000,
        config.log_period.ticks == 10_000_000,
{
}

/// The protocol engine is given what the configuration says, with the identity
/// of the address, the default profile and no path trace. Its port measures the
/// delay from end to end, follows any master, may become one unless the clock is
/// slave only, and draws from the generator of the seed.
pub proof fn the_engine_is_given_the_configuration(
    config: &Config,
    instance: InstanceConfig,
    port: PortConfig,
    rng: XorShiftRng,
)
    requires
        call_ensures(Config::instance_config, (config,), instance),
        call_ensures(Config::port_config, (config,), port),
        call_ensures(Config::port_rng, (config,), rng),
    ensures
        forall|i: int| 0 <= i < 3 ==> #[trigger] instance.clock_identity.0@[i]
            == config.mac_address@[i],
        instance.clock_identity.0@.len() == 8,
        instance.clock_identity.0@[3] == 0xff,
        instance.clock_identity.0@[4] == 0xfe,
        forall|i: int| 5 <= i < 8 ==> #[trigger] instance.clock_identity.0@[i]
            == config.mac_address@[i - 2],
        instance.priority_1 == config.priority_1,
        instance.priority_2 == config.priority_2,
        instance.domain_number == config.domain_number,
        instance.sdo_id == 0,
        instance.slave_only == config.slave_only,
        !instance.path_trace,
        port.acceptable_master_list == AcceptableMasters::Any,
        port.delay_mechanism == (DelayMechanism::E2E { interval: config.delay_request_interval }),
        port.announce_interval == config.announce_interval,
        port.announce_receipt_timeout == config.announce_receipt_timeout,
        port.sync_interval == config.sync_interval,
        !port.master_only,
        port.delay_asymmetry == config.delay_asymmetry,
        port.minor_ptp_version == config.minor_ptp_version,
        rng == rng_of_seed(config.rng_seed),
{
}

/// Setting a timer sets the one of its name and no other.
pub proof fn timers_are_set_one_at_a_time(
    timers: &mut Timers,
    timer: StatimeTimer,
    at: Instant,
)
    requires
        call_ensures(Timers::set, (timers, timer, at), ()),
    ensures
        *final(timers) == match timer {
            StatimeTimer::Announce => Timers { announce: Some(at), ..*old(timers) },
            StatimeTimer::Sync => Timers { sync: Some(at), ..*old(timers) },
            StatimeTimer::DelayRequest => Timers { delay_request: Some(at), ..*old(timers) },
            StatimeTimer::AnnounceReceipt => Timers { announce_receipt: Some(at), ..*old(timers) },
            StatimeTimer::FilterUpdate => Timers { filter_update: Some(at), ..*old(timers) },
        },
{
}

/// Whether serving timers takes them from one state to another: the first of
/// the five whose deadline has passed at `now` is stopped, and the others are
/// left alone.
pub open spec fn is_served(
    before: Timers,
    now: Instant,
    served: Option<StatimeTimer>,
    after: Timers,
) -> bool {
    if passed(before.announce, now) {
        served == Some(StatimeTimer::Announce) && after == (Timers { announce: None, ..before })
    } else if passed(before.sync, now) {
        served == Some(StatimeTimer::Sync) && after == (Timers { sync: None, ..before })
    } else if passed(before.delay_request, now) {
        served == Some(StatimeTimer::DelayRequest) && after == (Timers {
            delay_request: None,
            ..before
        })
    } else if passed(before.announce_receipt, now) {
        served == Some(StatimeTimer::AnnounceReceipt) && after == (Timers {
            announce_receipt: None,
            ..before
        })
    } else if passed(before.filter_update, now) {
        served == Some(StatimeTimer::FilterUpdate) && after == (Timers {
            filter_update: None,
            ..before
        })
    } else {
        served is None && after == before
    }
}

/// The first of the five timers whose deadline has passed is served and
/// stopped.
pub proof fn passed_timers_are_taken(
    timers: &mut Timers,
    now: Instant,
    served: Option<StatimeTimer>,
)
    requires
        call_ensures(Timers::take_due_at, (timers, now), served),
    ensures
        is_served(*old(timers), now, served, *final(timers)),
{
}

/// Whatever the clock reads, the timer that is served is the first of the five
/// whose deadline has passed then.
pub proof fn passed_timers_are_taken_by_the_clock(
    timers: &mut Timers,
    served: Option<StatimeTimer>,
)
    requires
        call_ensures(Timers::take_due, (timers,), served),
    ensures
        exists|now: Instant|
            is_reading(now) && #[trigger] is_served(*old(timers), now, served, *final(timers)),
{
    let now = choose|now: Instant|
        is_reading(now) && served == old(timers).first_due(now) && *final(timers) == #[trigger] old(
            timers,
        ).after_service(now);
    assert(is_served(*old(timers), now, served, *final(timers)));
}

/// The next deadline is the least of the five, and there is none exactly when no
/// timer runs.
pub proof fn the_next_of_five_deadlines(timers: &Timers, next: Option<Instant>)
    requires
        call_ensures(Timers::next_deadline, (timers,), next),
    ensures
        next is None <==> timers.announce is None && timers.sync is None && timers.delay_request
            is None && timers.announce_receipt is None && timers.filter_update is None,
        next is Some ==> next == timers.announce || next == timers.sync || next
            == timers.delay_request || next == timers.announce_receipt || next
            == timers.filter_update,
        timers.announce is Some ==> next->0.ticks <= timers.announce->0.ticks,
        timers.sync is Some ==> next->0.ticks <= timers.sync->0.ticks,
        timers.delay_request is Some ==> next->0.ticks <= timers.delay_request->0.ticks,
        timers.announce_receipt is Some ==> next->0.ticks <= timers.announce_receipt->0.ticks,
        timers.filter_update is Some ==> next->0.ticks <= timers.filter_update->0.ticks,
{
}

/// A queue starts with four free slots and the given time-out.
pub proof fn queues_start_empty<C>(timeout: TickDuration, queue: PendingTxQueue<C>)
    requires
        call_ensures(PendingTxQueue::<C>::new, (timeout,), queue),
    ensures
        queue.timeout == timeout,
        queue.slots@.len() == 4,
        forall|i: int| 0 <= i < 4 ==> (#[trigger] queue.slots@[i]) is None,
{
}

/// Whether the slots before and after a packet was handed in are as they have to
/// be: the packet is in the first free slot, and the others are as they were;
/// without a free slot all are.
pub open spec fn is_pushed<C>(
    before: Seq<Option<PendingTx<C>>>,
    pending: PendingTx<C>,
    queued: bool,
    after: Seq<Option<PendingTx<C>>>,
) -> bool {
    &&& after.len() == before.len()
    &&& queued <==> exists|i: int| 0 <= i < before.len() && (#[trigger] before[i]) is None
    &&& forall|i: int|
        0 <= i < before.len() ==> #[trigger] after[i] == if before[i] is None && (forall|j: int|
            0 <= j < i ==> (#[trigger] before[j]) is Some) {
            Some(pending)
        } else {
            before[i]
        }
}

/// A packet is put into the first free slot of a queue, with its context, its
/// metadata and the instant it was sent at.
pub proof fn packets_are_queued<C>(
    queue: &mut PendingTxQueue<C>,
    context: C,
    meta: PacketMeta,
    started: Instant,
    queued: bool,
)
    requires
        call_ensures(PendingTxQueue::<C>::push_at, (queue, context, meta, started), queued),
    ensures
        is_pushed(
            old(queue).slots@,
            PendingTx { context, meta, started },
            queued,
            final(queue).slots@,
        ),
        final(queue).timeout == old(queue).timeout,
{
    first_free_is_first(old(queue).slots@, 0);
}

/// A packet is put into the first free slot of a queue, with its context, its
/// metadata and what the clock reads.
pub proof fn packets_are_queued_by_the_clock<C>(
    queue: &mut PendingTxQueue<C>,
    context: C,
    meta: PacketMeta,
    queued: bool,
)
    requires
        call_ensures(PendingTxQueue::<C>::push, (queue, context, meta), queued),
    ensures
        exists|started: Instant|
            is_reading(started) && #[trigger] is_pushed(
                old(queue).slots@,
                PendingTx { context, meta, started },
                queued,
                final(queue).slots@,
            ),
        final(queue).timeout == old(queue).timeout,
{
    first_free_is_first(old(queue).slots@, 0);
    let started = choose|started: Instant|
        is_reading(started) && final(queue)@ == #[trigger] with_pushed(
            old(queue)@,
            PendingTx { context, meta, started },
        );
    assert(is_pushed(
        old(queue).slots@,
        PendingTx { context, meta, started },
        queued,
        final(queue).slots@,
    ));
}

/// The packet that is found is in the first slot from `from` on that holds one,
/// and none is found exactly when those slots are free.
pub proof fn waiting_packets_are_found<C>(
    queue: &PendingTxQueue<C>,
    from: usize,
    found: Option<(usize, PacketMeta)>,
)
    requires
        call_ensures(PendingTxQueue::<C>::next_waiting, (queue, from), found),
    ensures
        found is None ==> forall|i: int|
            from <= i < queue.slots@.len() ==> (#[trigger] queue.slots@[i]) is None,
        found matches Some((slot, meta)) ==> from <= slot < 4 && queue.slots@[slot as int] is Some
            && queue.slots@[slot as int]->0.meta == meta && (forall|i: int|
            from <= i < slot ==> (#[trigger] queue.slots@[i]) is None),
{
    first_waiting_is_first(queue.slots@, from as int);
}

/// A packet that the store was asked for leaves with the timestamp, if there is
/// one. Without one it is given up exactly when it has waited at least as many
/// ticks as the time-out has. Only then is its slot freed, and the others stay.
pub proof fn asked_packets_are_settled<C>(
    queue: &mut PendingTxQueue<C>,
    slot: usize,
    stored: Option<PtpTimestamp>,
    now: Instant,
    settled: Result<Settled<C>, TimeError>,
)
    requires
        slot < 4,
        old(queue).slots@[slot as int] is Some,
        call_ensures(PendingTxQueue::<C>::settle_at, (queue, slot, stored, now), settled),
    ensures
        ({
            let pending = old(queue).slots@[slot as int]->0;
            let waited = now.ticks - pending.started.ticks;
            let timeout = old(queue).timeout.ticks;
            let leaves = stored is Some || waited >= 0 && waited >= timeout;
            &&& stored is Some ==> settled == Ok::<Settled<C>, TimeError>(
                Settled::Stamped { context: pending.context, timestamp: stored->0 },
            )
            &&& stored is None && waited < 0 ==> settled == Err::<Settled<C>, TimeError>(
                TimeError::WentBackwards,
            )
            &&& stored is None && 0 <= waited < timeout ==> settled == Ok::<Settled<C>, TimeError>(
                Settled::Waiting,
            )
            &&& stored is None && waited >= 0 && waited >= timeout ==> settled == Ok::<
                Settled<C>,
                TimeError,
            >(Settled::Expired { meta: pending.meta })
            &&& leaves ==> final(queue).slots@ == old(queue).slots@.update(slot as int, None)
            &&& !leaves ==> final(queue).slots@ == old(queue).slots@
            &&& final(queue).timeout == old(queue).timeout
        }),
{
    packets_wait_for_the_whole_timeout(
        old(queue).slots@[slot as int]->0,
        old(queue).timeout,
        stored,
        now,
    );
}

/// The waiting packets of a queue, and of the service, are named at the places
/// of their slots.
pub proof fn waiting_packets_are_named<C>(
    queue: &PendingTxQueue<C>,
    metas: [Option<PacketMeta>; 4],
    slot: int,
)
    requires
        call_ensures(PendingTxQueue::<C>::waiting, (queue,), metas),
        0 <= slot < 4,
    ensures
        metas@[slot] is Some <==> queue.slots@[slot] is Some,
        metas@[slot] is Some ==> metas@[slot]->0 == queue.slots@[slot]->0.meta,
{
    waiting_packets_are_named_in_place(queue.slots@, slot);
}

/// The deadlines of the waiting packets fit exactly when each of them, the
/// instant of sending and the time-out together, does.
pub proof fn deadlines_fit_one_by_one<C>(queue: &PendingTxQueue<C>, fit: bool)
    requires
        call_ensures(PendingTxQueue::<C>::deadlines_fit, (queue,), fit),
    ensures
        fit <==> forall|i: int|
            0 <= i < queue.slots@.len() && (#[trigger] queue.slots@[i]) is Some
                ==> queue.slots@[i]->0.started.ticks + queue.timeout.ticks <= u64::MAX,
{
    deadlines_are_in_range_up_to_the_last_instant(queue.slots@, queue.timeout);
}

/// The next time-out is the least of the instants at which a packet has waited
/// for the whole time-out, and there is none exactly when no packet waits.
pub proof fn the_next_timeout_is_the_least<C>(queue: &PendingTxQueue<C>, next: Option<Instant>)
    requires
        forall|i: int|
            0 <= i < queue.slots@.len() && (#[trigger] queue.slots@[i]) is Some
                ==> queue.slots@[i]->0.started.ticks + queue.timeout.ticks <= u64::MAX,
        call_ensures(PendingTxQueue::<C>::next_timeout_deadline, (queue,), next),
    ensures
        next is None <==> forall|i: int|
            0 <= i < queue.slots@.len() ==> (#[trigger] queue.slots@[i]) is None,
        next is Some ==> exists|i: int|
            0 <= i < queue.slots@.len() && (#[trigger] queue.slots@[i]) is Some
                && queue.slots@[i]->0.started.ticks + queue.timeout.ticks == next->0.ticks,
        forall|i: int|
            0 <= i < queue.slots@.len() && (#[trigger] queue.slots@[i]) is Some ==> next->0.ticks
                <= queue.slots@[i]->0.started.ticks + queue.timeout.ticks,
{
    first_deadline_is_started_plus_timeout(queue.slots@, queue.timeout);
}

/// Each state is called by its name.
pub proof fn states_are_called_by_their_names(state: PortState, name: &'static str)
    requires
        call_ensures(state_name, (state,), name),
    ensures
        state is Initializing <==> name@ == "initializing"@,
        state is Faulty <==> name@ == "faulty"@,
        state is Disabled <==> name@ == "disabled"@,
        state is Listening <==> name@ == "listening"@,
        state is PreMaster <==> name@ == "pre_master"@,
        state is Master <==> name@ == "master"@,
        state is Passive <==> name@ == "passive"@,
        state is Uncalibrated <==> name@ == "uncalibrated"@,
        state is Slave <==> name@ == "slave"@,
{
    states_go_by_their_names(state);
}

/// A change of state is told exactly when there is one, by the names that the
/// two states are called by.
pub proof fn changes_of_state_are_told(
    before: PortState,
    after: PortState,
    from: &'static str,
    to: &'static str,
    names: Option<(&'static str, &'static str)>,
)
    requires
        call_ensures(state_change, (before, after), names),
        call_ensures(state_name, (before,), from),
        call_ensures(state_name, (after,), to),
    ensures
        names is Some <==> before != after,
        names is Some ==> (names->0).0@ == from@ && (names->0).1@ == to@,
{
}

/// A report holds the state and the nanoseconds that it is made from, or the
/// nearest numbers that fit.
pub proof fn reports_hold_what_they_are_made_from(
    state: PortState,
    estimate: Option<(i128, i128)>,
    report: ServoReport,
)
    requires
        call_ensures(servo_report, (state, estimate), report),
    ensures
        report.state == state,
        report.estimate is Some <==> estimate is Some,
        estimate is Some ==> reports_nanos(report.estimate->0.offset_ns, (estimate->0).0)
            && reports_nanos(report.estimate->0.mean_delay_ns, (estimate->0).1),
{
}

/// A log's first report is due one period after the log is made, and there is no
/// log exactly when that instant does not fit.
pub proof fn logs_start_one_period_ahead(
    period: TickDuration,
    now: Instant,
    log: Option<ServoLog>,
)
    requires
        call_ensures(ServoLog::new_at, (period, now), log),
    ensures
        log is Some <==> now.ticks + period.ticks <= u64::MAX,
        log is Some ==> log->0.period == period && log->0.next_log.ticks == now.ticks
            + period.ticks,
{
}

/// The deadline of a log is the instant of its next report.
pub proof fn logs_are_due_at_their_next_report(log: &ServoLog, deadline: Instant)
    requires
        call_ensures(ServoLog::next_deadline, (log,), deadline),
    ensures
        deadline == log.next_log,
{
}

/// Whether asking a log at `now` gives what it has to: nothing before the next
/// report is due, and then the report, with the next one due one period after
/// `now`.
pub open spec fn is_asked(
    before: ServoLog,
    state: PortState,
    estimate: Option<FilterEstimate>,
    now: Instant,
    report: Result<Option<ServoReport>, TimeError>,
    after: ServoLog,
) -> bool {
    if now.ticks < before.next_log.ticks {
        report == Ok::<Option<ServoReport>, TimeError>(None) && after == before
    } else if now.ticks + before.period.ticks > u64::MAX {
        report == Err::<Option<ServoReport>, TimeError>(TimeError::Overflow) && after == before
    } else {
        &&& report matches Ok(Some(made)) && reports_on(made, state, estimate)
        &&& after.period == before.period
        &&& after.next_log.ticks == now.ticks + before.period.ticks
    }
}

/// A log reports when it is due, and not before.
pub proof fn logs_report_when_due(
    log: &mut ServoLog,
    state: PortState,
    estimate: Option<FilterEstimate>,
    now: Instant,
    report: Result<Option<ServoReport>, TimeError>,
)
    requires
        call_ensures(ServoLog::log_if_due_at, (log, state, estimate, now), report),
    ensures
        is_asked(*old(log), state, estimate, now, report, *final(log)),
{
}

/// Whatever the clock reads, a log reports when it is due then, and not before.
pub proof fn logs_report_by_the_clock(
    log: &mut ServoLog,
    state: PortState,
    estimate: Option<FilterEstimate>,
    report: Result<Option<ServoReport>, TimeError>,
)
    requires
        call_ensures(ServoLog::log_if_due, (log, state, estimate), report),
    ensures
        exists|now: Instant|
            is_reading(now) && #[trigger] is_asked(
                *old(log),
                state,
                estimate,
                now,
                report,
                *final(log),
            ),
{
    let now = choose|now: Instant|
        is_reading(now) && report == old(log).reported(state, estimate, now) && *final(log) == #[trigger] old(
            log,
        ).after_asking(now);
    assert(is_asked(*old(log), state, estimate, now, report, *final(log)));
}

/// A service starts with its next run of the best master clock algorithm and
/// its first report as far ahead as asked for, with the time-out of its
/// configuration, and with nothing else to do. There is none exactly when one of
/// the two instants does not fit.
pub proof fn services_start_with_two_deadlines<C>(
    config: &Config,
    interval: core::time::Duration,
    bmca_from: Instant,
    log_from: Instant,
    ticks: int,
    runner: Option<Runner<C>>,
)
    requires
        call_ensures(Runner::<C>::new_at, (config, interval, bmca_from, log_from), runner),
        1000 * ticks - 1000 < duration_nanos(interval) <= 1000 * ticks,
    ensures
        runner is Some <==> duration_nanos(interval) + 1000 <= u64::MAX && bmca_from.ticks + ticks
            <= u64::MAX && log_from.ticks + config.log_period.ticks <= u64::MAX,
        runner is Some ==> ({
            let state = runner->0@;
            &&& state.bmca_nanos == duration_nanos(interval)
            &&& state.bmca.ticks == bmca_from.ticks + ticks
            &&& state.servo_log.next_log.ticks == log_from.ticks + config.log_period.ticks
            &&& state.servo_log.period == config.log_period
            &&& state.timeout == config.tx_timestamp_timeout
            &&& state.next_id == 1
            &&& state.slots.len() == 4
            &&& forall|i: int| 0 <= i < 4 ==> (#[trigger] state.slots[i]) is None
            &&& state.timers.announce is None
            &&& state.timers.sync is None
            &&& state.timers.delay_request is None
            &&& state.timers.announce_receipt is None
            &&& state.timers.filter_update is None
            &&& state.phase == (Phase::Acting { sleeps: false })
        }),
{
    if let Some(made) = runner {
        services_start_empty::<C>(
            made@.bmca_nanos,
            made@.bmca,
            made@.timeout,
            made@.servo_log,
        );
    }
}

/// The service answers an event with just the action, and goes over into just
/// the state, that its state and the event call for. Where they call for none it
/// gives the reason and stays as it was.
pub proof fn events_are_answered<C>(
    runner: &mut Runner<C>,
    event: Event,
    now: Instant,
    action: Result<Action<C>, RunError>,
)
    requires
        call_ensures(Runner::<C>::run_at, (runner, event, now), action),
    ensures
        old(runner)@.answer(event, now) is Ok <==> action is Ok,
        action is Ok ==> old(runner)@.answer(event, now)->Ok_0 == (final(runner)@, action->Ok_0),
        action is Err ==> old(runner)@.answer(event, now)->Err_0 == action->Err_0 && final(runner)@
            == old(runner)@,
{
    steps_give_what_they_say(
        old(runner)@,
        old(runner)@.answer(event, now),
        final(runner)@,
        action,
    );
}

/// Whatever the clock reads, the service answers an event as it does at an
/// instant with that reading.
pub proof fn events_are_answered_by_the_clock<C>(
    runner: &mut Runner<C>,
    event: Event,
    action: Result<Action<C>, RunError>,
)
    requires
        call_ensures(Runner::<C>::run, (runner, event), action),
    ensures
        exists|now: Instant|
            is_reading(now) && (match #[trigger] old(runner)@.answer(event, now) {
                Ok((after, next)) => action == Ok::<Action<C>, RunError>(next) && final(runner)@
                    == after,
                Err(error) => action == Err::<Action<C>, RunError>(error) && final(runner)@
                    == old(runner)@,
            }),
{
    let now = choose|now: Instant|
        is_reading(now) && follows(
            old(runner)@,
            #[trigger] old(runner)@.answer(event, now),
            final(runner)@,
            action,
        );
    let step = old(runner)@.answer(event, now);
    steps_give_what_they_say(old(runner)@, step, final(runner)@, action);
    assert(match old(runner)@.answer(event, now) {
        Ok((after, next)) => action == Ok::<Action<C>, RunError>(next) && final(runner)@ == after,
        Err(error) => action == Err::<Action<C>, RunError>(error) && final(runner)@ == old(
            runner,
        )@,
    });
}

/// The packets that the service waits for are named at the places of their
/// slots.
pub proof fn awaited_packets_are_named<C>(
    runner: &Runner<C>,
    metas: [Option<PacketMeta>; 4],
    slot: int,
)
    requires
        runner@.slots.len() == 4,
        call_ensures(Runner::<C>::awaited, (runner,), metas),
        0 <= slot < 4,
    ensures
        metas@[slot] is Some <==> runner@.slots[slot] is Some,
        metas@[slot] is Some ==> metas@[slot]->0 == runner@.slots[slot]->0.meta,
{
    waiting_packets_are_named_in_place(runner@.slots, slot);
}

/// An event packet that the port hands out goes to port 319, and a general one to
/// port 320, of 224.0.0.107 if it stays on the link and of 224.0.1.129 if it does
/// not, with the bytes and the context that the port gave. The event packet has
/// the next identifier, and the general one the identifier 0.
pub proof fn handed_out_packets_are_sent<'a, C>(
    runner: &mut Runner<C>,
    action: PortAction<'a, C>,
    now: Instant,
    outgoing: Result<Outgoing<'a, C>, TimeError>,
)
    requires
        call_ensures(Runner::<C>::handle_action_at, (runner, action, now), outgoing),
    ensures
        action matches PortAction::SendEvent { context, data, link_local } ==> {
            &&& outgoing matches Ok(Outgoing::Event { context: back, data: sent, metadata })
            &&& back == context
            &&& sent@ == data@
            &&& metadata.meta.id == old(runner)@.next_id
            &&& is_addressed(metadata, link_local, 319)
            &&& final(runner)@ == (RunnerView {
                next_id: final(runner)@.next_id,
                ..old(runner)@
            })
            &&& metadata.meta.id < u32::MAX ==> final(runner)@.next_id == metadata.meta.id + 1
            &&& metadata.meta.id == u32::MAX ==> final(runner)@.next_id == 1
        },
        action matches PortAction::SendGeneral { data, link_local } ==> {
            &&& outgoing matches Ok(Outgoing::General { data: sent, metadata })
            &&& sent@ == data@
            &&& metadata.meta.id == 0
            &&& is_addressed(metadata, link_local, 320)
            &&& final(runner)@ == old(runner)@
        },
        action is ForwardTLV ==> (outgoing matches Ok(sent) && sent is Nothing) && final(runner)@
            == old(runner)@,
{
    if let Ok(sent) = outgoing {
        if action is SendEvent || action is SendGeneral {
            packets_go_where_the_port_asked(sent, action, old(runner)@.next_id);
        }
    }
}

/// The timers once the one that an action names was set to `at`, and the time
/// that the action gives for it.
pub open spec fn named_timer<C>(
    action: PortAction<C>,
    timers: Timers,
    at: Option<Instant>,
) -> Option<(Timers, core::time::Duration)> {
    match action {
        PortAction::ResetAnnounceTimer { duration } => Some(
            (Timers { announce: at, ..timers }, duration),
        ),
        PortAction::ResetSyncTimer { duration } => Some((Timers { sync: at, ..timers }, duration)),
        PortAction::ResetDelayRequestTimer { duration } => Some(
            (Timers { delay_request: at, ..timers }, duration),
        ),
        PortAction::ResetAnnounceReceiptTimer { duration } => Some(
            (Timers { announce_receipt: at, ..timers }, duration),
        ),
        PortAction::ResetFilterUpdateTimer { duration } => Some(
            (Timers { filter_update: at, ..timers }, duration),
        ),
        _ => None,
    }
}

/// A reset sets the timer of its name, and no other, to the least whole number
/// of ticks from now that covers the duration. It is refused, and changes
/// nothing, exactly when that instant does not fit.
pub proof fn resets_are_carried_out<'a, C>(
    runner: &mut Runner<C>,
    action: PortAction<'a, C>,
    now: Instant,
    ticks: int,
    outgoing: Result<Outgoing<'a, C>, TimeError>,
)
    requires
        call_ensures(Runner::<C>::handle_action_at, (runner, action, now), outgoing),
        ({
            let named = named_timer(action, old(runner)@.timers, None);
            named is Some && 1000 * ticks - 1000 < duration_nanos((named->0).1) <= 1000 * ticks
        }),
    ensures
        ({
            let at = Some(Instant { ticks: (now.ticks + ticks) as u64 });
            let (timers, duration) = named_timer(action, old(runner)@.timers, at)->0;
            if duration_nanos(duration) + 1000 <= u64::MAX && now.ticks + ticks <= u64::MAX {
                (outgoing matches Ok(sent) && sent is Nothing) && final(runner)@ == (RunnerView {
                    timers,
                    ..old(runner)@
                })
            } else {
                outgoing == Err::<Outgoing<'a, C>, TimeError>(TimeError::Overflow) && final(runner)@
                    == old(runner)@
            }
        }),
{
}

/// Whatever the clock reads, a packet that the port hands out is sent as at any
/// other time.
pub proof fn handed_out_packets_are_sent_by_the_clock<'a, C>(
    runner: &mut Runner<C>,
    action: PortAction<'a, C>,
    outgoing: Result<Outgoing<'a, C>, TimeError>,
)
    requires
        call_ensures(Runner::<C>::handle_action, (runner, action), outgoing),
    ensures
        action matches PortAction::SendEvent { context, data, link_local } ==> {
            &&& outgoing matches Ok(Outgoing::Event { context: back, data: sent, metadata })
            &&& back == context
            &&& sent@ == data@
            &&& metadata.meta.id == old(runner)@.next_id
            &&& is_addressed(metadata, link_local, 319)
        },
        action matches PortAction::SendGeneral { data, link_local } ==> {
            &&& outgoing matches Ok(Outgoing::General { data: sent, metadata })
            &&& sent@ == data@
            &&& metadata.meta.id == 0
            &&& is_addressed(metadata, link_local, 320)
            &&& final(runner)@ == old(runner)@
        },
        action is ForwardTLV ==> (outgoing matches Ok(sent) && sent is Nothing) && final(runner)@
            == old(runner)@,
{
    if let Ok(sent) = outgoing {
        if action is SendEvent || action is SendGeneral {
            packets_go_where_the_port_asked(sent, action, old(runner)@.next_id);
        }
    }
}

/// A packet that was sent waits in the first free slot with its context, its
/// metadata and the instant it was sent at, and nothing else changes.
pub proof fn sent_packets_wait<C>(
    runner: &mut Runner<C>,
    context: C,
    meta: PacketMeta,
    started: Instant,
    queued: bool,
)
    requires
        call_ensures(Runner::<C>::event_sent_at, (runner, context, meta, started), queued),
    ensures
        is_pushed(
            old(runner)@.slots,
            PendingTx { context, meta, started },
            queued,
            final(runner)@.slots,
        ),
        final(runner)@ == (RunnerView { slots: final(runner)@.slots, ..old(runner)@ }),
{
    first_free_is_first(old(runner)@.slots, 0);
}

/// A packet that was sent waits in the first free slot with its context, its
/// metadata and what the clock reads, and nothing else changes.
pub proof fn sent_packets_wait_by_the_clock<C>(
    runner: &mut Runner<C>,
    context: C,
    meta: PacketMeta,
    queued: bool,
)
    requires
        call_ensures(Runner::<C>::event_sent, (runner, context, meta), queued),
    ensures
        exists|started: Instant|
            is_reading(started) && #[trigger] is_pushed(
                old(runner)@.slots,
                PendingTx { context, meta, started },
                queued,
                final(runner)@.slots,
            ),
        final(runner)@ == (RunnerView { slots: final(runner)@.slots, ..old(runner)@ }),
{
    first_free_is_first(old(runner)@.slots, 0);
    let started = choose|started: Instant|
        is_reading(started) && final(runner)@ == #[trigger] old(runner)@.with_sent(PendingTx { context, meta, started });
    assert(is_pushed(
        old(runner)@.slots,
        PendingTx { context, meta, started },
        queued,
        final(runner)@.slots,
    ));
}

/// Whether a deadline lies `nanos` nanoseconds after `now`, rounded up to whole
/// ticks, or is not there because that instant does not fit.
pub open spec fn lies_after(now: Instant, nanos: int, deadline: Option<Instant>) -> bool {
    let ticks = (nanos + 999) / 1000;
    if nanos + 1000 <= u64::MAX && now.ticks + ticks <= u64::MAX {
        deadline is Some && deadline->0.ticks == now.ticks + ticks
    } else {
        deadline is None
    }
}

/// Whatever the clock reads, a deadline lies its duration after that.
pub proof fn deadlines_lie_after_the_clock(
    duration: core::time::Duration,
    deadline: Option<Instant>,
)
    requires
        call_ensures(deadline_from_now, (duration,), deadline),
    ensures
        exists|now: Instant|
            is_reading(now) && #[trigger] lies_after(
                now,
                duration_nanos(duration) as int,
                deadline,
            ),
{
    let now = choose|now: Instant|
        is_reading(now) && deadline == #[trigger] deadline_of(now, duration_nanos(duration) as int);
    assert(lies_after(now, duration_nanos(duration) as int, deadline));
}

/// Whether a log starts one period after `now`, or is not there because that
/// instant does not fit.
pub open spec fn starts_after(now: Instant, period: TickDuration, log: Option<ServoLog>) -> bool {
    if now.ticks + period.ticks <= u64::MAX {
        log is Some && log->0.period == period && log->0.next_log.ticks == now.ticks + period.ticks
    } else {
        log is None
    }
}

/// Whatever the clock reads, a log's first report is due one period after that.
pub proof fn logs_start_after_the_clock(period: TickDuration, log: Option<ServoLog>)
    requires
        call_ensures(ServoLog::new, (period,), log),
    ensures
        exists|now: Instant| is_reading(now) && #[trigger] starts_after(now, period, log),
{
    let now = choose|now: Instant|
        is_reading(now) && (match #[trigger] instant_after(now, period) {
            Some(next_log) => log == Some(ServoLog { next_log, period }),
            None => log is None,
        });
    assert(starts_after(now, period, log));
}

/// Whether a service has its first two deadlines one interval after one instant
/// and one period after another, or is not there because they do not fit.
pub open spec fn starts_between<C>(
    config: &Config,
    nanos: int,
    bmca_from: Instant,
    log_from: Instant,
    runner: Option<Runner<C>>,
) -> bool {
    match runner {
        Some(made) => {
            &&& lies_after(bmca_from, nanos, Some(made@.bmca))
            &&& starts_after(log_from, config.log_period, Some(made@.servo_log))
            &&& made@.bmca_nanos == nanos
            &&& made@.timeout == config.tx_timestamp_timeout
            &&& made@.next_id == 1
            &&& made@.slots.len() == 4
            &&& forall|i: int| 0 <= i < 4 ==> (#[trigger] made@.slots[i]) is None
            &&& made@.timers == (Timers {
                announce: None,
                sync: None,
                delay_request: None,
                announce_receipt: None,
                filter_update: None,
            })
            &&& made@.phase == (Phase::Acting { sleeps: false })
        },
        None => lies_after(bmca_from, nanos, None) || starts_after(
            log_from,
            config.log_period,
            None,
        ),
    }
}

/// Whatever the clock reads, a service starts with its first two deadlines after
/// that, and with nothing else to do.
pub proof fn services_start_after_the_clock<C>(
    config: &Config,
    interval: core::time::Duration,
    runner: Option<Runner<C>>,
)
    requires
        call_ensures(Runner::<C>::new, (config, interval), runner),
    ensures
        exists|bmca_from: Instant, log_from: Instant|
            is_reading(bmca_from) && is_reading(log_from) && #[trigger] starts_between(
                config,
                duration_nanos(interval) as int,
                bmca_from,
                log_from,
                runner,
            ),
{
    let nanos = duration_nanos(interval) as int;
    let (bmca_from, log_from) = choose|bmca_from: Instant, log_from: Instant|
        is_reading(bmca_from) && is_reading(log_from) && (match (
            #[trigger] deadline_of(bmca_from, nanos),
            #[trigger] instant_after(log_from, config.log_period),
        ) {
            (Some(bmca), Some(next_log)) => runner matches Some(runner) && runner@ == initial::<C>(
                nanos,
                bmca,
                config.tx_timestamp_timeout,
                ServoLog { next_log, period: config.log_period },
            ),
            _ => runner is None,
        });
    assert(starts_between(config, nanos, bmca_from, log_from, runner));
}

/// Whether a reset was carried out at `now`: the timer that it names lies its
/// duration after that, and nothing else has changed; or it was refused and
/// nothing has, because that instant does not fit.
pub open spec fn is_reset_at<C>(
    before: RunnerView<C>,
    action: PortAction<C>,
    now: Instant,
    outgoing: Result<Outgoing<C>, TimeError>,
    after: RunnerView<C>,
) -> bool {
    match outgoing {
        Ok(sent) => {
            &&& sent is Nothing
            &&& exists|at: Instant|
                lies_after(
                    now,
                    duration_nanos((named_timer(action, before.timers, Some(at))->0).1) as int,
                    Some(at),
                ) && after == (RunnerView {
                    timers: (#[trigger] named_timer(action, before.timers, Some(at))->0).0,
                    ..before
                })
        },
        Err(error) => {
            &&& error == TimeError::Overflow
            &&& after == before
            &&& lies_after(
                now,
                duration_nanos((named_timer(action, before.timers, None)->0).1) as int,
                None,
            )
        },
    }
}

/// Whatever the clock reads, a reset sets the timer that it names to its
/// duration after that.
pub proof fn resets_are_carried_out_by_the_clock<'a, C>(
    runner: &mut Runner<C>,
    action: PortAction<'a, C>,
    outgoing: Result<Outgoing<'a, C>, TimeError>,
)
    requires
        call_ensures(Runner::<C>::handle_action, (runner, action), outgoing),
        named_timer(action, old(runner)@.timers, None) is Some,
    ensures
        exists|now: Instant|
            is_reading(now) && #[trigger] is_reset_at(
                old(runner)@,
                action,
                now,
                outgoing,
                final(runner)@,
            ),
{
    let before = old(runner)@;
    let now = choose|now: Instant|
        is_reading(now) && (match #[trigger] before.taken_up(action, now) {
            Some(state) => final(runner)@ == state && (outgoing matches Ok(outgoing)
                && is_sent_for(outgoing, action, before.next_id)),
            None => final(runner)@ == before && outgoing == Err::<Outgoing<'a, C>, TimeError>(
                TimeError::Overflow,
            ),
        });
    let duration = (named_timer(action, before.timers, None)->0).1;
    if let Some(at) = deadline_of(now, duration_nanos(duration) as int) {
        let (timers, _) = named_timer(action, before.timers, Some(at))->0;
        assert(before.taken_up(action, now) == Some(RunnerView { timers, ..before }));
    }
    assert(is_reset_at(before, action, now, outgoing, final(runner)@));
}

/// The functions of the library take every argument of their type, but for a
/// slot without a packet, a sum or difference of ticks that does not fit, and a
/// service in a state that no service gets into.
pub proof fn every_argument_is_taken<C>(
    runner: &mut Runner<C>,
    queue: &mut PendingTxQueue<C>,
    slot: usize,
    stored: Option<PtpTimestamp>,
    context: C,
    meta: PacketMeta,
    event: Event,
    action: PortAction<C>,
    now: Instant,
    nominal: u32,
    change: Option<AddendChange>,
)
    ensures
        call_requires(frequency_addend, (nominal, change)),
        call_requires(PendingTxQueue::<C>::push_at, (queue, context, meta, now)),
        slot < 4 && old(queue).slots@[slot as int] is Some ==> call_requires(
            PendingTxQueue::<C>::settle_at,
            (queue, slot, stored, now),
        ),
        old(runner)@.wf() ==> call_requires(Runner::<C>::run_at, (runner, event, now)),
        old(runner)@.wf() ==> call_requires(Runner::<C>::run, (runner, event)),
        old(runner)@.wf() ==> call_requires(Runner::<C>::handle_action_at, (runner, action, now)),
        old(runner)@.wf() ==> call_requires(Runner::<C>::handle_action, (runner, action)),
        old(runner)@.wf() ==> call_requires(
            Runner::<C>::event_sent_at,
            (runner, context, meta, now),
        ),
        old(runner)@.wf() ==> call_requires(Runner::<C>::event_sent, (runner, context, meta)),
{
}

} // verus!
