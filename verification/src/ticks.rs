//! The time base of the service: instants and spans counted in ticks of one
//! microsecond, as `embassy-time` counts them at its `tick-hz-1_000_000` rate.

use vstd::prelude::*;

verus! {

/// A point in time: the number of ticks since the system started.
#[derive(Clone, Copy, Debug, PartialEq, Eq, Structural)]
pub struct Instant {
    /// Ticks since the system started.
    pub ticks: u64,
}

/// A span of time, as a number of ticks.
#[derive(Clone, Copy, Debug, PartialEq, Eq, Structural)]
pub struct TickDuration {
    /// Length of the span in ticks.
    pub ticks: u64,
}

/// Why a step that depends on the time could not be taken.
#[derive(Clone, Copy, Debug, PartialEq, Eq, Structural)]
pub enum TimeError {
    /// A deadline lies beyond the last representable instant.
    Overflow,
    /// The clock reads earlier than an instant that was taken from it.
    WentBackwards,
}

/// The instant `duration` after `at`, where one can be represented.
pub open spec fn instant_after(at: Instant, duration: TickDuration) -> Option<Instant> {
    if at.ticks + duration.ticks <= u64::MAX {
        Some(Instant { ticks: (at.ticks + duration.ticks) as u64 })
    } else {
        None
    }
}

/// The number of microsecond ticks that cover `nanos` nanoseconds, rounded up.
pub open spec fn ticks_covering(nanos: int) -> int {
    (nanos + 999) / 1000
}

/// The deadline `nanos` nanoseconds after `now`: a whole number of ticks, at
/// least as far away as asked for. There is none where the nanoseconds or the
/// ticks leave the range of `u64`.
pub open spec fn deadline_of(now: Instant, nanos: int) -> Option<Instant> {
    if nanos + 1000 <= u64::MAX {
        instant_after(now, TickDuration { ticks: ticks_covering(nanos) as u64 })
    } else {
        None
    }
}

/// The earlier of two instants that need not be there.
pub open spec fn earlier_of(one: Option<Instant>, other: Option<Instant>) -> Option<Instant> {
    match (one, other) {
        (Some(a), Some(b)) => Some(if b.ticks < a.ticks { b } else { a }),
        (Some(a), None) => Some(a),
        (None, b) => b,
    }
}

/// Whether a deadline is set and has passed at `now`.
pub open spec fn is_due(deadline: Option<Instant>, now: Instant) -> bool {
    deadline matches Some(at) && at.ticks <= now.ticks
}

impl Instant {
    /// Adds a span, where the sum can be represented.
    pub fn checked_add(self, duration: TickDuration) -> (sum: Option<Instant>)
        ensures
            sum == instant_after(self, duration),
    {
        match self.ticks.checked_add(duration.ticks) {
            Some(ticks) => Some(Instant { ticks }),
            None => None,
        }
    }

    /// The span from `earlier` to this instant.
    pub fn duration_since(self, earlier: Instant) -> (span: TickDuration)
        requires
            earlier.ticks <= self.ticks,
        ensures
            earlier.ticks + span.ticks == self.ticks,
    {
        TickDuration { ticks: self.ticks - earlier.ticks }
    }
}

impl TickDuration {
    /// The span that covers `nanos` nanoseconds.
    pub fn from_nanos(nanos: u64) -> (duration: TickDuration)
        requires
            nanos + 1000 <= u64::MAX,
        ensures
            duration.ticks == ticks_covering(nanos as int),
    {
        TickDuration { ticks: ticks_from_nanos(nanos) }
    }

    /// The span of `millis` milliseconds.
    pub fn from_millis(millis: u64) -> (duration: TickDuration)
        requires
            millis * 1000 < u64::MAX,
        ensures
            duration.ticks == millis * 1000,
    {
        TickDuration { ticks: ticks_from_millis(millis) }
    }

    /// The span of `secs` seconds.
    pub fn from_secs(secs: u64) -> (duration: TickDuration)
        requires
            secs * 1_000_000 <= u64::MAX,
        ensures
            duration.ticks == secs * 1_000_000,
    {
        TickDuration { ticks: ticks_from_secs(secs) }
    }
}

/// The earlier of two instants that need not be there.
pub fn earlier(one: Option<Instant>, other: Option<Instant>) -> (least: Option<Instant>)
    ensures
        least == earlier_of(one, other),
{
    match (one, other) {
        (Some(a), Some(b)) => if b.ticks < a.ticks {
            Some(b)
        } else {
            Some(a)
        },
        (Some(a), None) => Some(a),
        (None, b) => b,
    }
}

/// Reads the clock through `embassy_time::Instant::now`, and takes the tick
/// count of what it returns. Nothing is claimed of the reading.
#[verifier::external_body]
fn now() -> (now: Instant)
{
    Instant { ticks: embassy_time::Instant::now().as_ticks() }
}

/// Whether an instant is one that the clock gave when it was read.
pub closed spec fn is_reading(at: Instant) -> bool {
    call_ensures(now, (), at)
}

/// Reads the clock. The reading function is called as a value, for which the
/// call itself is known, and not just what is claimed of its result.
pub(crate) fn read_clock() -> (at: Instant)
    ensures
        is_reading(at),
{
    let clock = now;
    clock()
}

/// The tick count of `embassy_time::Duration::from_nanos`: at one tick per
/// microsecond it is a thousandth of the argument, rounded up. The function
/// adds 1000 on the way to rounding, and overflows where that sum does.
#[verifier::external_body]
fn ticks_from_nanos(nanos: u64) -> (ticks: u64)
    requires
        nanos + 1000 <= u64::MAX,
    ensures
        ticks == ticks_covering(nanos as int),
{
    embassy_time::Duration::from_nanos(nanos).as_ticks()
}

/// The tick count of `embassy_time::Duration::from_millis`: a thousand ticks
/// per millisecond, where the product and the one that is added to it for
/// rounding fit.
#[verifier::external_body]
fn ticks_from_millis(millis: u64) -> (ticks: u64)
    requires
        millis * 1000 < u64::MAX,
    ensures
        ticks == millis * 1000,
{
    embassy_time::Duration::from_millis(millis).as_ticks()
}

/// The tick count of `embassy_time::Duration::from_secs`: a million ticks per
/// second, where the product fits.
#[verifier::external_body]
fn ticks_from_secs(secs: u64) -> (ticks: u64)
    requires
        secs * 1_000_000 <= u64::MAX,
    ensures
        ticks == secs * 1_000_000,
{
    embassy_time::Duration::from_secs(secs).as_ticks()
}

/// The whole nanoseconds of a standard duration, as
/// `core::time::Duration::as_nanos` counts them.
pub uninterp spec fn duration_nanos(duration: core::time::Duration) -> u128;

/// `core::time::Duration::as_nanos` depends on the duration alone.
pub assume_specification[ core::time::Duration::as_nanos ](
    duration: &core::time::Duration,
) -> (nanos: u128)
    ensures
        nanos == duration_nanos(*duration),
;

/// The deadline `nanos` nanoseconds after `now`.
pub fn deadline_after_nanos(now: Instant, nanos: u128) -> (deadline: Option<Instant>)
    ensures
        deadline == deadline_of(now, nanos as int),
{
    if nanos <= (u64::MAX - 1000) as u128 {
        now.checked_add(TickDuration::from_nanos(nanos as u64))
    } else {
        None
    }
}

/// The deadline `duration` after `now`.
pub fn deadline_after(now: Instant, duration: core::time::Duration) -> (deadline: Option<Instant>)
    ensures
        deadline == deadline_of(now, duration_nanos(duration) as int),
{
    deadline_after_nanos(now, duration.as_nanos())
}

/// The deadline `duration` after the present.
pub fn deadline_from_now(duration: core::time::Duration) -> (deadline: Option<Instant>)
    ensures
        exists|now: Instant|
            is_reading(now) && deadline == #[trigger] deadline_of(
                now,
                duration_nanos(duration) as int,
            ),
{
    deadline_after(read_clock(), duration)
}

/// A deadline is never nearer than asked for, and less than one tick further.
pub proof fn deadline_covers_its_duration(now: Instant, nanos: int)
    requires
        0 <= nanos,
        deadline_of(now, nanos) is Some,
    ensures
        nanos <= 1000 * (deadline_of(now, nanos)->0.ticks - now.ticks) < nanos + 1000,
{
}

/// A longer duration never ends earlier.
pub proof fn deadlines_are_monotone(now: Instant, shorter: int, longer: int)
    requires
        0 <= shorter <= longer,
        deadline_of(now, longer) is Some,
    ensures
        deadline_of(now, shorter) is Some,
        deadline_of(now, shorter)->0.ticks <= deadline_of(now, longer)->0.ticks,
{
}

/// Adding a span counts its ticks on. There is no sum exactly where it leaves
/// the range of `u64`.
pub proof fn spans_are_counted_on(at: Instant, duration: TickDuration)
    ensures
        instant_after(at, duration) is Some <==> at.ticks + duration.ticks <= u64::MAX,
        instant_after(at, duration) is Some ==> instant_after(at, duration)->0.ticks - at.ticks
            == duration.ticks,
{
}

/// A deadline lies the least whole number of ticks away that covers its
/// nanoseconds. There is none exactly where the nanoseconds, with the tick that
/// they are rounded by, or the ticks leave the range of `u64`.
pub proof fn deadlines_lie_the_least_number_of_ticks_away(now: Instant, nanos: int, ticks: int)
    requires
        0 <= nanos,
        1000 * ticks - 1000 < nanos <= 1000 * ticks,
    ensures
        deadline_of(now, nanos) is Some <==> nanos + 1000 <= u64::MAX && now.ticks + ticks
            <= u64::MAX,
        deadline_of(now, nanos) is Some ==> deadline_of(now, nanos)->0.ticks == now.ticks + ticks,
{
}

/// The earlier of two instants is one of them, and neither is before it. It is
/// there as soon as one of them is.
pub proof fn the_earlier_instant_is_least(one: Option<Instant>, other: Option<Instant>)
    ensures
        ({
            let least = earlier_of(one, other);
            &&& least is None <==> one is None && other is None
            &&& least == one || least == other
            &&& one is Some ==> least->0.ticks <= one->0.ticks
            &&& other is Some ==> least->0.ticks <= other->0.ticks
        }),
{
}

/// A deadline has passed once the clock has reached it, and stays so. One that
/// is not set never passes.
pub proof fn deadlines_pass_when_they_are_reached(deadline: Option<Instant>, now: Instant)
    ensures
        is_due(deadline, now) <==> deadline is Some && deadline->0.ticks <= now.ticks,
{
}

} // verus!
