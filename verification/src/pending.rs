//! Event packets that were sent and whose transmit timestamp is still to come.

use vstd::prelude::*;

use crate::packet::{PacketMeta, PtpTimestamp};
use crate::ticks::{earlier, read_clock, Instant, TickDuration, TimeError};
use crate::ticks::{earlier_of, instant_after, is_due, is_reading};

verus! {

/// How many packets can wait for their timestamp at once.
pub const TX_PENDING: usize = 4;

/// A packet that waits for its transmit timestamp. The context is what the
/// port wants back together with the timestamp.
pub struct PendingTx<C> {
    /// What the port handed out with the packet.
    pub context: C,
    /// The packet's metadata.
    pub meta: PacketMeta,
    /// When the packet was handed to the network.
    pub started: Instant,
}

/// The packets that wait for their transmit timestamp, in a fixed number of
/// slots.
pub struct PendingTxQueue<C> {
    /// The slots, of which each holds one packet or none.
    pub slots: [Option<PendingTx<C>>; TX_PENDING],
    /// How long a packet waits before it is given up.
    pub timeout: TickDuration,
}

/// What became of a slot once the timestamp store was asked for its packet.
pub enum Settled<C> {
    /// The timestamp is there. The slot is free.
    Stamped {
        /// What the port handed out with the packet.
        context: C,
        /// The packet's transmit timestamp.
        timestamp: PtpTimestamp,
    },
    /// The packet waited too long. The slot is free.
    Expired {
        /// The metadata of the packet that was given up.
        meta: PacketMeta,
    },
    /// The packet goes on waiting.
    Waiting,
}

/// Whether a packet that started waiting at `started` has waited `timeout` at
/// `now`.
pub open spec fn has_expired(started: Instant, timeout: TickDuration, now: Instant) -> bool {
    started.ticks + timeout.ticks <= now.ticks
}

impl<C> View for PendingTxQueue<C> {
    type V = Seq<Option<PendingTx<C>>>;

    /// The slots in order.
    open spec fn view(&self) -> Seq<Option<PendingTx<C>>> {
        self.slots@
    }
}

/// The first slot from `from` on that is free.
pub open spec fn first_free<C>(slots: Seq<Option<PendingTx<C>>>, from: int) -> Option<int>
    decreases slots.len() - from,
{
    if from >= slots.len() {
        None
    } else if slots[from] is None {
        Some(from)
    } else {
        first_free(slots, from + 1)
    }
}

/// The first slot from `from` on that holds a packet.
pub open spec fn first_waiting<C>(slots: Seq<Option<PendingTx<C>>>, from: int) -> Option<int>
    decreases slots.len() - from,
{
    if from >= slots.len() {
        None
    } else if slots[from] is Some {
        Some(from)
    } else {
        first_waiting(slots, from + 1)
    }
}

/// The slots once a packet was put into the first free one, if there is any.
pub open spec fn with_pushed<C>(
    slots: Seq<Option<PendingTx<C>>>,
    pending: PendingTx<C>,
) -> Seq<Option<PendingTx<C>>> {
    match first_free(slots, 0) {
        Some(i) => slots.update(i, Some(pending)),
        None => slots,
    }
}

/// What becomes of a waiting packet once the timestamp store was asked for it.
pub open spec fn settlement<C>(
    pending: PendingTx<C>,
    timeout: TickDuration,
    stored: Option<PtpTimestamp>,
    now: Instant,
) -> Result<Settled<C>, TimeError> {
    match stored {
        Some(timestamp) => Ok(Settled::Stamped { context: pending.context, timestamp }),
        None => if now.ticks < pending.started.ticks {
            Err(TimeError::WentBackwards)
        } else if has_expired(pending.started, timeout, now) {
            Ok(Settled::Expired { meta: pending.meta })
        } else {
            Ok(Settled::Waiting)
        },
    }
}

/// Whether a settlement frees the packet's slot.
pub open spec fn frees_slot<C>(settled: Result<Settled<C>, TimeError>) -> bool {
    settled matches Ok(outcome) && !(outcome is Waiting)
}

/// The metadata of the packet in a slot, if there is one.
pub open spec fn slot_meta<C>(slot: Option<PendingTx<C>>) -> Option<PacketMeta> {
    match slot {
        Some(pending) => Some(pending.meta),
        None => None,
    }
}

/// The metadata of the packets in the slots, slot by slot.
pub open spec fn waiting_metas<C>(slots: Seq<Option<PendingTx<C>>>) -> Seq<Option<PacketMeta>> {
    Seq::new(slots.len(), |i: int| slot_meta(slots[i]))
}

/// When the packet in a slot is given up, if there is a packet and the
/// instant can be represented.
pub open spec fn slot_deadline<C>(slot: Option<PendingTx<C>>, timeout: TickDuration) -> Option<
    Instant,
> {
    match slot {
        Some(pending) => instant_after(pending.started, timeout),
        None => None,
    }
}

/// Whether the deadline of every waiting packet can be represented.
pub open spec fn deadlines_in_range<C>(
    slots: Seq<Option<PendingTx<C>>>,
    timeout: TickDuration,
) -> bool {
    forall|i: int|
        0 <= i < slots.len() && (#[trigger] slots[i]) is Some ==> slot_deadline(
            slots[i],
            timeout,
        ) is Some
}

/// The first deadline among the waiting packets.
pub open spec fn first_deadline<C>(
    slots: Seq<Option<PendingTx<C>>>,
    timeout: TickDuration,
) -> Option<Instant>
    decreases slots.len(),
{
    if slots.len() == 0 {
        None
    } else {
        earlier_of(
            first_deadline(slots.drop_last(), timeout),
            slot_deadline(slots.last(), timeout),
        )
    }
}

impl<C> PendingTxQueue<C> {
    /// An empty queue.
    pub fn new(timeout: TickDuration) -> (queue: PendingTxQueue<C>)
        ensures
            queue.timeout == timeout,
            queue@ == Seq::new(TX_PENDING as nat, |i: int| None::<PendingTx<C>>),
    {
        PendingTxQueue { slots: [None, None, None, None], timeout }
    }

    /// Puts a packet that was sent at `started` into the first free slot.
    /// Where there is none the packet is dropped, and the result is `false`.
    pub fn push_at(&mut self, context: C, meta: PacketMeta, started: Instant) -> (queued: bool)
        ensures
            queued == first_free(old(self)@, 0) is Some,
            final(self)@ == with_pushed(old(self)@, PendingTx { context, meta, started }),
            final(self).timeout == old(self).timeout,
    {
        let mut i: usize = 0;
        while i < TX_PENDING
            invariant
                i <= TX_PENDING,
                first_free(self@, 0) == first_free(self@, i as int),
                *self == *old(self),
            decreases TX_PENDING - i,
        {
            if self.slots[i].is_none() {
                self.slots[i] = Some(PendingTx { context, meta, started });
                return true;
            }
            i += 1;
        }
        false
    }

    /// Puts a packet that is being sent now into the first free slot. Where
    /// there is none the packet is dropped, and the result is `false`.
    pub fn push(&mut self, context: C, meta: PacketMeta) -> (queued: bool)
        ensures
            queued == first_free(old(self)@, 0) is Some,
            exists|started: Instant|
                is_reading(started) && final(self)@ == #[trigger] with_pushed(
                    old(self)@,
                    PendingTx { context, meta, started },
                ),
            final(self).timeout == old(self).timeout,
    {
        self.push_at(context, meta, read_clock())
    }

    /// The first slot from `from` on that holds a packet, and the packet's
    /// metadata.
    pub fn next_waiting(&self, from: usize) -> (found: Option<(usize, PacketMeta)>)
        ensures
            match first_waiting(self@, from as int) {
                Some(i) => found matches Some((slot, meta)) && slot == i && i < TX_PENDING
                    && self@[i]->0.meta == meta && self@[i] is Some,
                None => found is None,
            },
    {
        let mut slot: usize = from;
        while slot < TX_PENDING
            invariant
                from <= slot,
                first_waiting(self@, from as int) == first_waiting(self@, slot as int),
            decreases TX_PENDING - slot,
        {
            if let Some(pending) = &self.slots[slot] {
                return Some((slot, pending.meta));
            }
            slot += 1;
        }
        None
    }

    /// Settles the slot whose packet the timestamp store was asked for: the
    /// packet leaves with its timestamp, or because it waited too long, or it
    /// stays.
    pub fn settle_at(
        &mut self,
        slot: usize,
        stored: Option<PtpTimestamp>,
        now: Instant,
    ) -> (settled: Result<Settled<C>, TimeError>)
        requires
            slot < TX_PENDING,
            old(self)@[slot as int] is Some,
        ensures
            settled == settlement(old(self)@[slot as int]->0, old(self).timeout, stored, now),
            final(self)@ == if frees_slot(settled) {
                old(self)@.update(slot as int, None)
            } else {
                old(self)@
            },
            final(self).timeout == old(self).timeout,
    {
        let (meta, started) = match &self.slots[slot] {
            Some(pending) => (pending.meta, pending.started),
            None => {
                return Ok(Settled::Waiting);
            },
        };
        if let Some(timestamp) = stored {
            if let Some(pending) = self.slots[slot].take() {
                return Ok(Settled::Stamped { context: pending.context, timestamp });
            }
        }
        if now.ticks < started.ticks {
            Err(TimeError::WentBackwards)
        } else if now.duration_since(started).ticks >= self.timeout.ticks {
            self.slots[slot] = None;
            Ok(Settled::Expired { meta })
        } else {
            Ok(Settled::Waiting)
        }
    }

    /// The metadata of the waiting packets, slot by slot: the packets that the
    /// timestamp store is asked for while the service sleeps.
    pub fn waiting(&self) -> (metas: [Option<PacketMeta>; TX_PENDING])
        ensures
            metas@ == waiting_metas(self@),
    {
        let mut metas: [Option<PacketMeta>; TX_PENDING] = [None, None, None, None];
        let mut i: usize = 0;
        while i < TX_PENDING
            invariant
                i <= TX_PENDING,
                forall|j: int| 0 <= j < i ==> #[trigger] metas@[j] == slot_meta(self@[j]),
                forall|j: int| i <= j < TX_PENDING ==> (#[trigger] metas@[j]) is None,
            decreases TX_PENDING - i,
        {
            if let Some(pending) = &self.slots[i] {
                metas[i] = Some(pending.meta);
            }
            i += 1;
        }
        metas
    }

    /// Whether the deadline of every waiting packet can be represented.
    pub fn deadlines_fit(&self) -> (fit: bool)
        ensures
            fit == deadlines_in_range(self@, self.timeout),
    {
        let mut i: usize = 0;
        while i < TX_PENDING
            invariant
                i <= TX_PENDING,
                forall|j: int|
                    0 <= j < i && (#[trigger] self@[j]) is Some ==> slot_deadline(
                        self@[j],
                        self.timeout,
                    ) is Some,
            decreases TX_PENDING - i,
        {
            if let Some(pending) = &self.slots[i] {
                if pending.started.checked_add(self.timeout).is_none() {
                    assert(self@[i as int] is Some);
                    return false;
                }
            }
            i += 1;
        }
        true
    }

    /// The first deadline among the waiting packets.
    pub fn next_timeout_deadline(&self) -> (next: Option<Instant>)
        requires
            deadlines_in_range(self@, self.timeout),
        ensures
            next == first_deadline(self@, self.timeout),
    {
        let mut next: Option<Instant> = None;
        let mut i: usize = 0;
        while i < TX_PENDING
            invariant
                i <= TX_PENDING,
                next == first_deadline(self@.take(i as int), self.timeout),
            decreases TX_PENDING - i,
        {
            assert(self@.take(i + 1).drop_last() == self@.take(i as int));
            if let Some(pending) = &self.slots[i] {
                next = earlier(next, pending.started.checked_add(self.timeout));
            }
            i += 1;
        }
        assert(self@.take(TX_PENDING as int) == self@);
        next
    }
}

/// The first free slot is free, and no slot before it is.
pub proof fn first_free_is_first<C>(slots: Seq<Option<PendingTx<C>>>, from: int)
    requires
        0 <= from,
    ensures
        match first_free(slots, from) {
            Some(i) => from <= i < slots.len() && slots[i] is None && forall|j: int|
                from <= j < i ==> (#[trigger] slots[j]) is Some,
            None => forall|j: int| from <= j < slots.len() ==> (#[trigger] slots[j]) is Some,
        },
    decreases slots.len() - from,
{
    if from < slots.len() && slots[from] is Some {
        first_free_is_first(slots, from + 1);
    }
}

/// The first waiting slot holds a packet, and no slot before it does.
pub proof fn first_waiting_is_first<C>(slots: Seq<Option<PendingTx<C>>>, from: int)
    requires
        0 <= from,
    ensures
        match first_waiting(slots, from) {
            Some(i) => from <= i < slots.len() && slots[i] is Some && forall|j: int|
                from <= j < i ==> (#[trigger] slots[j]) is None,
            None => forall|j: int| from <= j < slots.len() ==> (#[trigger] slots[j]) is None,
        },
    decreases slots.len() - from,
{
    if from < slots.len() && slots[from] is None {
        first_waiting_is_first(slots, from + 1);
    }
}

/// A packet is refused exactly when every slot is taken. A packet that is
/// accepted displaces none.
pub proof fn push_keeps_every_packet<C>(slots: Seq<Option<PendingTx<C>>>, pending: PendingTx<C>)
    ensures
        first_free(slots, 0) is None <==> forall|i: int|
            0 <= i < slots.len() ==> (#[trigger] slots[i]) is Some,
        forall|i: int|
            0 <= i < slots.len() && (#[trigger] slots[i]) is Some ==> with_pushed(slots, pending)[i]
                == slots[i],
        first_free(slots, 0) is Some ==> exists|i: int|
            0 <= i < slots.len() && (#[trigger] with_pushed(slots, pending)[i]) == Some(pending),
{
    first_free_is_first(slots, 0);
    if let Some(i) = first_free(slots, 0) {
        assert(with_pushed(slots, pending)[i] == Some(pending));
    }
}

/// A packet that was accepted leaves with the context it came with once its
/// timestamp is there, whatever the time, and leaves the queue as it was.
pub proof fn pushed_context_comes_back<C>(
    slots: Seq<Option<PendingTx<C>>>,
    pending: PendingTx<C>,
    timeout: TickDuration,
    timestamp: PtpTimestamp,
    now: Instant,
)
    requires
        first_free(slots, 0) is Some,
    ensures
        ({
            let slot = first_free(slots, 0)->0;
            let pushed = with_pushed(slots, pending);
            &&& pushed[slot] == Some(pending)
            &&& settlement(pushed[slot]->0, timeout, Some(timestamp), now) == Ok::<
                Settled<C>,
                TimeError,
            >(Settled::Stamped { context: pending.context, timestamp })
            &&& pushed.update(slot, None) == slots
        }),
{
    first_free_is_first(slots, 0);
    let slot = first_free(slots, 0)->0;
    assert(with_pushed(slots, pending).update(slot, None) =~= slots);
}

/// The first deadline is the least of the packets' deadlines.
pub proof fn first_deadline_is_least<C>(slots: Seq<Option<PendingTx<C>>>, timeout: TickDuration)
    ensures
        match first_deadline(slots, timeout) {
            Some(at) => (exists|i: int|
                0 <= i < slots.len() && slot_deadline(#[trigger] slots[i], timeout) == Some(at))
                && (forall|i: int|
                0 <= i < slots.len() ==> (slot_deadline(#[trigger] slots[i], timeout) matches Some(
                    other,
                ) ==> at.ticks <= other.ticks)),
            None => forall|i: int|
                0 <= i < slots.len() ==> slot_deadline(#[trigger] slots[i], timeout) is None,
        },
    decreases slots.len(),
{
    if slots.len() > 0 {
        let before = slots.drop_last();
        first_deadline_is_least(before, timeout);
        assert forall|i: int| 0 <= i < before.len() implies before[i] == #[trigger] slots[i] by {}
        let last = slots.len() - 1;
        assert(slots[last] == slots.last());
        if let Some(at) = first_deadline(before, timeout) {
            let i = choose|i: int|
                0 <= i < before.len() && slot_deadline(#[trigger] before[i], timeout) == Some(at);
            assert(slots[i] == before[i]);
        }
    }
}

/// Sleeping until the first deadline misses no expiry and is never in vain:
/// some packet has expired at `now` exactly when the first deadline has passed.
pub proof fn some_packet_expires_at_the_first_deadline<C>(
    slots: Seq<Option<PendingTx<C>>>,
    timeout: TickDuration,
    now: Instant,
)
    requires
        deadlines_in_range(slots, timeout),
    ensures
        is_due(first_deadline(slots, timeout), now) <==> exists|i: int|
            0 <= i < slots.len() && ((#[trigger] slots[i]) matches Some(pending) && has_expired(
                pending.started,
                timeout,
                now,
            )),
{
    first_deadline_is_least(slots, timeout);
    if is_due(first_deadline(slots, timeout), now) {
        let at = first_deadline(slots, timeout)->0;
        let i = choose|i: int|
            0 <= i < slots.len() && slot_deadline(#[trigger] slots[i], timeout) == Some(at);
        assert(slots[i] matches Some(pending) && has_expired(pending.started, timeout, now));
    }
}

/// A packet for which the store has a timestamp leaves with it, and with its
/// own context. One for which it has none is given up exactly when it has waited
/// at least as many ticks as the time-out has, and goes on waiting before that.
/// A clock that reads earlier than the packet was sent is an error. Only a
/// packet that leaves or is given up frees its slot.
pub proof fn packets_wait_for_the_whole_timeout<C>(
    pending: PendingTx<C>,
    timeout: TickDuration,
    stored: Option<PtpTimestamp>,
    now: Instant,
)
    ensures
        ({
            let waited = now.ticks - pending.started.ticks;
            let settled = settlement(pending, timeout, stored, now);
            &&& stored is Some ==> settled == Ok::<Settled<C>, TimeError>(
                Settled::Stamped { context: pending.context, timestamp: stored->0 },
            ) && frees_slot(settled)
            &&& stored is None && waited < 0 ==> settled == Err::<Settled<C>, TimeError>(
                TimeError::WentBackwards,
            ) && !frees_slot(settled)
            &&& stored is None && 0 <= waited < timeout.ticks ==> settled == Ok::<
                Settled<C>,
                TimeError,
            >(Settled::Waiting) && !frees_slot(settled)
            &&& stored is None && 0 <= waited && timeout.ticks <= waited ==> settled == Ok::<
                Settled<C>,
                TimeError,
            >(Settled::Expired { meta: pending.meta }) && frees_slot(settled)
        }),
{
}

/// A packet has expired once it has waited as many ticks as the time-out has,
/// and is given up at just that instant, where it can be represented.
pub proof fn packets_expire_at_started_plus_timeout<C>(
    pending: PendingTx<C>,
    timeout: TickDuration,
    now: Instant,
)
    ensures
        has_expired(pending.started, timeout, now) <==> now.ticks - pending.started.ticks
            >= timeout.ticks,
        slot_deadline(Some(pending), timeout) is Some <==> pending.started.ticks + timeout.ticks
            <= u64::MAX,
        slot_deadline(Some(pending), timeout) is Some ==> slot_deadline(
            Some(pending),
            timeout,
        )->0.ticks == pending.started.ticks + timeout.ticks,
        slot_deadline(None::<PendingTx<C>>, timeout) is None,
{
}

/// The deadlines are in range exactly when no packet's time-out ends beyond the
/// last instant.
pub proof fn deadlines_are_in_range_up_to_the_last_instant<C>(
    slots: Seq<Option<PendingTx<C>>>,
    timeout: TickDuration,
)
    ensures
        deadlines_in_range(slots, timeout) <==> forall|i: int|
            0 <= i < slots.len() && (#[trigger] slots[i]) is Some ==> slots[i]->0.started.ticks
                + timeout.ticks <= u64::MAX,
{
}

/// The first deadline is the instant at which some packet has waited for the
/// whole time-out, and no packet has done so before. There is none where no
/// packet waits with a deadline that can be represented.
pub proof fn first_deadline_is_started_plus_timeout<C>(
    slots: Seq<Option<PendingTx<C>>>,
    timeout: TickDuration,
)
    ensures
        ({
            let first = first_deadline(slots, timeout);
            &&& first is Some ==> exists|i: int|
                0 <= i < slots.len() && (#[trigger] slots[i]) is Some && slots[i]->0.started.ticks
                    + timeout.ticks == first->0.ticks
            &&& forall|i: int|
                0 <= i < slots.len() && (#[trigger] slots[i]) is Some && slots[i]->0.started.ticks
                    + timeout.ticks <= u64::MAX ==> first is Some && first->0.ticks
                    <= slots[i]->0.started.ticks + timeout.ticks
        }),
{
    first_deadline_is_least(slots, timeout);
    if let Some(at) = first_deadline(slots, timeout) {
        let i = choose|i: int|
            0 <= i < slots.len() && slot_deadline(#[trigger] slots[i], timeout) == Some(at);
        assert(slots[i] is Some);
    }
}

/// Pushing puts the packet, as it is, into the first free slot and changes no
/// other. Where every slot is taken it changes none.
pub proof fn push_changes_one_slot<C>(
    slots: Seq<Option<PendingTx<C>>>,
    pending: PendingTx<C>,
    slot: int,
)
    requires
        0 <= slot <= slots.len(),
        forall|i: int| 0 <= i < slot ==> (#[trigger] slots[i]) is Some,
        slot < slots.len() ==> slots[slot] is None,
    ensures
        with_pushed(slots, pending).len() == slots.len(),
        forall|i: int|
            0 <= i < slots.len() && i != slot ==> #[trigger] with_pushed(slots, pending)[i]
                == slots[i],
        slot < slots.len() ==> with_pushed(slots, pending)[slot] == Some(pending),
        first_free(slots, 0) is Some <==> slot < slots.len(),
{
    first_free_is_first(slots, 0);
}

/// The waiting packets are named slot by slot: the metadata of a packet stands
/// at the place of its slot, and nothing stands at the place of a free one.
pub proof fn waiting_packets_are_named_in_place<C>(slots: Seq<Option<PendingTx<C>>>, slot: int)
    requires
        0 <= slot < slots.len(),
    ensures
        waiting_metas(slots).len() == slots.len(),
        waiting_metas(slots)[slot] is Some <==> slots[slot] is Some,
        slots[slot] is Some ==> waiting_metas(slots)[slot]->0 == slots[slot]->0.meta,
{
}

} // verus!
