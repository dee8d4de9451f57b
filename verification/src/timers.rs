//! The five timers that a port asks for.

use vstd::prelude::*;

use crate::ticks::{earlier, earlier_of, is_due, is_reading, read_clock, Instant};

verus! {

/// The timers of a port, in the order in which they are served.
#[derive(Clone, Copy, Debug, PartialEq, Eq, Structural)]
pub enum StatimeTimer {
    /// Time to send an announce message.
    Announce,
    /// Time to send a sync message.
    Sync,
    /// Time to send a delay request.
    DelayRequest,
    /// No announce message arrived for too long.
    AnnounceReceipt,
    /// Time to update the filter.
    FilterUpdate,
}

/// The deadlines of the timers that are running.
#[derive(Clone, Copy, Debug, PartialEq, Eq, Structural)]
pub struct Timers {
    /// When the announce timer goes off.
    pub announce: Option<Instant>,
    /// When the sync timer goes off.
    pub sync: Option<Instant>,
    /// When the delay request timer goes off.
    pub delay_request: Option<Instant>,
    /// When the announce receipt timer goes off.
    pub announce_receipt: Option<Instant>,
    /// When the filter update timer goes off.
    pub filter_update: Option<Instant>,
}

/// The place of a timer in the order of service.
pub open spec fn rank(timer: StatimeTimer) -> int {
    match timer {
        StatimeTimer::Announce => 0,
        StatimeTimer::Sync => 1,
        StatimeTimer::DelayRequest => 2,
        StatimeTimer::AnnounceReceipt => 3,
        StatimeTimer::FilterUpdate => 4,
    }
}

impl Timers {
    /// No timer is running.
    pub open spec fn stopped() -> Timers {
        Timers {
            announce: None,
            sync: None,
            delay_request: None,
            announce_receipt: None,
            filter_update: None,
        }
    }

    /// The deadline of a timer, if it is running.
    pub open spec fn deadline(self, timer: StatimeTimer) -> Option<Instant> {
        match timer {
            StatimeTimer::Announce => self.announce,
            StatimeTimer::Sync => self.sync,
            StatimeTimer::DelayRequest => self.delay_request,
            StatimeTimer::AnnounceReceipt => self.announce_receipt,
            StatimeTimer::FilterUpdate => self.filter_update,
        }
    }

    /// The timers with the deadline of one of them replaced.
    pub open spec fn with_deadline(self, timer: StatimeTimer, deadline: Option<Instant>) -> Timers {
        match timer {
            StatimeTimer::Announce => Timers { announce: deadline, ..self },
            StatimeTimer::Sync => Timers { sync: deadline, ..self },
            StatimeTimer::DelayRequest => Timers { delay_request: deadline, ..self },
            StatimeTimer::AnnounceReceipt => Timers { announce_receipt: deadline, ..self },
            StatimeTimer::FilterUpdate => Timers { filter_update: deadline, ..self },
        }
    }

    /// The first timer, in the order of service, whose deadline has passed.
    pub open spec fn first_due(self, now: Instant) -> Option<StatimeTimer> {
        if is_due(self.announce, now) {
            Some(StatimeTimer::Announce)
        } else if is_due(self.sync, now) {
            Some(StatimeTimer::Sync)
        } else if is_due(self.delay_request, now) {
            Some(StatimeTimer::DelayRequest)
        } else if is_due(self.announce_receipt, now) {
            Some(StatimeTimer::AnnounceReceipt)
        } else if is_due(self.filter_update, now) {
            Some(StatimeTimer::FilterUpdate)
        } else {
            None
        }
    }

    /// The timers once the first due one was stopped.
    pub open spec fn after_service(self, now: Instant) -> Timers {
        match self.first_due(now) {
            Some(timer) => self.with_deadline(timer, None),
            None => self,
        }
    }

    /// The earliest of the deadlines.
    pub open spec fn earliest(self) -> Option<Instant> {
        earlier_of(
            earlier_of(
                earlier_of(earlier_of(self.announce, self.sync), self.delay_request),
                self.announce_receipt,
            ),
            self.filter_update,
        )
    }

    /// Starts a timer, or moves its deadline.
    pub fn set(&mut self, timer: StatimeTimer, deadline: Instant)
        ensures
            *final(self) == old(self).with_deadline(timer, Some(deadline)),
    {
        match timer {
            StatimeTimer::Announce => self.announce = Some(deadline),
            StatimeTimer::Sync => self.sync = Some(deadline),
            StatimeTimer::DelayRequest => self.delay_request = Some(deadline),
            StatimeTimer::AnnounceReceipt => self.announce_receipt = Some(deadline),
            StatimeTimer::FilterUpdate => self.filter_update = Some(deadline),
        }
    }

    /// Stops and returns the first timer, in the order of service, whose
    /// deadline has passed at `now`.
    pub fn take_due_at(&mut self, now: Instant) -> (timer: Option<StatimeTimer>)
        ensures
            timer == old(self).first_due(now),
            *final(self) == old(self).after_service(now),
    {
        if take_if_due(&mut self.announce, now) {
            Some(StatimeTimer::Announce)
        } else if take_if_due(&mut self.sync, now) {
            Some(StatimeTimer::Sync)
        } else if take_if_due(&mut self.delay_request, now) {
            Some(StatimeTimer::DelayRequest)
        } else if take_if_due(&mut self.announce_receipt, now) {
            Some(StatimeTimer::AnnounceReceipt)
        } else if take_if_due(&mut self.filter_update, now) {
            Some(StatimeTimer::FilterUpdate)
        } else {
            None
        }
    }

    /// Stops and returns the first timer, in the order of service, whose
    /// deadline has passed.
    pub fn take_due(&mut self) -> (timer: Option<StatimeTimer>)
        ensures
            exists|now: Instant|
                is_reading(now) && timer == old(self).first_due(now) && *final(self)
                    == #[trigger] old(self).after_service(now),
    {
        self.take_due_at(read_clock())
    }

    /// The earliest of the deadlines.
    pub fn next_deadline(&self) -> (next: Option<Instant>)
        ensures
            next == self.earliest(),
    {
        earlier(
            earlier(
                earlier(earlier(self.announce, self.sync), self.delay_request),
                self.announce_receipt,
            ),
            self.filter_update,
        )
    }
}

impl Default for Timers {
    /// No timer is running.
    fn default() -> (timers: Timers)
        ensures
            timers == Timers::stopped(),
    {
        Timers {
            announce: None,
            sync: None,
            delay_request: None,
            announce_receipt: None,
            filter_update: None,
        }
    }
}

/// Clears a deadline if it has passed at `now`, and says whether it had.
fn take_if_due(deadline: &mut Option<Instant>, now: Instant) -> (taken: bool)
    ensures
        taken == is_due(*old(deadline), now),
        *final(deadline) == if taken {
            None
        } else {
            *old(deadline)
        },
{
    if let Some(at) = *deadline {
        if now.ticks >= at.ticks {
            *deadline = None;
            return true;
        }
    }
    false
}

/// The timer that is served has passed its deadline, and no timer before it in
/// the order of service has. Where none is served, none has.
pub proof fn service_follows_the_order(timers: Timers, now: Instant)
    ensures
        match timers.first_due(now) {
            Some(timer) => is_due(timers.deadline(timer), now) && forall|other: StatimeTimer|
                rank(other) < rank(timer) ==> !is_due(#[trigger] timers.deadline(other), now),
            None => forall|other: StatimeTimer| !is_due(#[trigger] timers.deadline(other), now),
        },
{
}

/// Setting a timer, or stopping it, leaves the four others alone.
pub proof fn timers_are_independent(
    timers: Timers,
    timer: StatimeTimer,
    other: StatimeTimer,
    deadline: Option<Instant>,
)
    ensures
        timers.with_deadline(timer, deadline).deadline(other) == if other == timer {
            deadline
        } else {
            timers.deadline(other)
        },
{
}

/// The earliest deadline belongs to some timer, and no running timer goes off
/// before it.
pub proof fn earliest_is_least(timers: Timers)
    ensures
        match timers.earliest() {
            Some(at) => (exists|timer: StatimeTimer| #[trigger]
                timers.deadline(timer) == Some(at)) && (forall|timer: StatimeTimer|
                (#[trigger] timers.deadline(timer) matches Some(other) ==> at.ticks
                    <= other.ticks)),
            None => forall|timer: StatimeTimer| (#[trigger] timers.deadline(timer)) is None,
        },
{
    assert(timers.deadline(StatimeTimer::Announce) == timers.announce);
    assert(timers.deadline(StatimeTimer::Sync) == timers.sync);
    assert(timers.deadline(StatimeTimer::DelayRequest) == timers.delay_request);
    assert(timers.deadline(StatimeTimer::AnnounceReceipt) == timers.announce_receipt);
    assert(timers.deadline(StatimeTimer::FilterUpdate) == timers.filter_update);
}

/// Sleeping until the earliest deadline misses no timer and is never in vain:
/// a timer is served at `now` exactly when the earliest deadline has passed.
pub proof fn some_timer_is_due_at_the_earliest_deadline(timers: Timers, now: Instant)
    ensures
        timers.first_due(now) is Some <==> is_due(timers.earliest(), now),
{
}

/// A timer that was served does not go off again until it is set again.
pub proof fn a_timer_goes_off_once(timers: Timers, now: Instant, later: Instant)
    requires
        timers.first_due(now) is Some,
    ensures
        timers.after_service(now).first_due(later) != timers.first_due(now),
{
}

/// The timer that is served is the first of announce, sync, delay request,
/// announce receipt and filter update whose deadline the clock has reached. It
/// is stopped, and the others keep their deadlines. Where the clock has reached
/// none, nothing changes.
pub proof fn reached_timers_are_served_in_turn(timers: Timers, now: Instant)
    ensures
        ({
            let announce = timers.announce is Some && timers.announce->0.ticks <= now.ticks;
            let sync = timers.sync is Some && timers.sync->0.ticks <= now.ticks;
            let delay_request = timers.delay_request is Some && timers.delay_request->0.ticks
                <= now.ticks;
            let receipt = timers.announce_receipt is Some && timers.announce_receipt->0.ticks
                <= now.ticks;
            let filter_update = timers.filter_update is Some && timers.filter_update->0.ticks
                <= now.ticks;
            let served = timers.first_due(now);
            let after = timers.after_service(now);
            &&& announce ==> served == Some(StatimeTimer::Announce) && after == (Timers {
                announce: None,
                ..timers
            })
            &&& !announce && sync ==> served == Some(StatimeTimer::Sync) && after == (Timers {
                sync: None,
                ..timers
            })
            &&& !announce && !sync && delay_request ==> served == Some(StatimeTimer::DelayRequest)
                && after == (Timers { delay_request: None, ..timers })
            &&& !announce && !sync && !delay_request && receipt ==> served == Some(
                StatimeTimer::AnnounceReceipt,
            ) && after == (Timers { announce_receipt: None, ..timers })
            &&& !announce && !sync && !delay_request && !receipt && filter_update ==> served
                == Some(StatimeTimer::FilterUpdate) && after == (Timers {
                filter_update: None,
                ..timers
            })
            &&& !announce && !sync && !delay_request && !receipt && !filter_update ==> served
                is None && after == timers
        }),
{
}

/// Each timer has its own deadline, and setting it changes that one alone.
pub proof fn each_timer_has_its_own_deadline(timers: Timers, at: Option<Instant>)
    ensures
        timers.with_deadline(StatimeTimer::Announce, at) == (Timers { announce: at, ..timers }),
        timers.with_deadline(StatimeTimer::Sync, at) == (Timers { sync: at, ..timers }),
        timers.with_deadline(StatimeTimer::DelayRequest, at) == (Timers {
            delay_request: at,
            ..timers
        }),
        timers.with_deadline(StatimeTimer::AnnounceReceipt, at) == (Timers {
            announce_receipt: at,
            ..timers
        }),
        timers.with_deadline(StatimeTimer::FilterUpdate, at) == (Timers {
            filter_update: at,
            ..timers
        }),
{
}

/// The earliest deadline is that of one of the five timers, and none of the
/// five has an earlier one. It is there as soon as one timer runs, and no timer
/// runs at first.
pub proof fn the_earliest_of_five_deadlines(timers: Timers)
    ensures
        ({
            let next = timers.earliest();
            &&& next is None ==> timers == Timers::stopped()
            &&& next is Some ==> next == timers.announce || next == timers.sync || next
                == timers.delay_request || next == timers.announce_receipt || next
                == timers.filter_update
            &&& timers.announce is Some ==> next->0.ticks <= timers.announce->0.ticks
            &&& timers.sync is Some ==> next->0.ticks <= timers.sync->0.ticks
            &&& timers.delay_request is Some ==> next->0.ticks <= timers.delay_request->0.ticks
            &&& timers.announce_receipt is Some ==> next->0.ticks
                <= timers.announce_receipt->0.ticks
            &&& timers.filter_update is Some ==> next->0.ticks <= timers.filter_update->0.ticks
        }),
        Timers::stopped() == (Timers {
            announce: None,
            sync: None,
            delay_request: None,
            announce_receipt: None,
            filter_update: None,
        }),
{
}

} // verus!
