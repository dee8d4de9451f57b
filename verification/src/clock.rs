//! What a hardware clock is told to do, and how its timestamps become moments
//! on the PTP timescale.

use vstd::prelude::*;

use statime::time::{Duration, Time};

use crate::packet::PtpTimestamp;
use crate::statime_types::{time_at_nanos, whole_nanos};

verus! {

/// A value clamped to the range of `i64`.
pub open spec fn clamped(value: int) -> int {
    if value < i64::MIN {
        i64::MIN as int
    } else if value > i64::MAX {
        i64::MAX as int
    } else {
        value
    }
}

/// The nanoseconds that a hardware timestamp counts.
pub open spec fn timestamp_nanos(timestamp: PtpTimestamp) -> int {
    timestamp.seconds * 1_000_000_000 + timestamp.nanos
}

/// A correction of a clock's frequency, as a change of its addend.
#[derive(Clone, Copy, Debug, PartialEq, Eq, Structural)]
pub struct AddendChange {
    /// Whether the clock is to run faster.
    pub faster: bool,
    /// By how much the addend differs from its nominal value.
    pub delta: u32,
}

/// The addend that a change of the nominal one amounts to, in the range of the
/// register. A slower clock never stops: its addend stays at least 1.
pub open spec fn changed_addend(nominal: int, change: AddendChange) -> int {
    if change.faster {
        if nominal + change.delta > u32::MAX {
            u32::MAX as int
        } else {
            nominal + change.delta
        }
    } else {
        if nominal - change.delta < 1 {
            1
        } else {
            nominal - change.delta
        }
    }
}

/// A change as one number, negative where the clock is to run slower.
pub open spec fn signed_change(change: AddendChange) -> int {
    if change.faster {
        change.delta as int
    } else {
        -(change.delta as int)
    }
}

/// The addend for a correction, or the nominal one where there is none.
pub open spec fn addend_for(nominal: int, change: Option<AddendChange>) -> int {
    match change {
        Some(change) => changed_addend(nominal, change),
        None => nominal,
    }
}

/// The addend in the register once the corrections were made one after the
/// other, if it was `addend` before.
pub open spec fn register_after(
    nominal: int,
    addend: int,
    corrections: Seq<Option<AddendChange>>,
) -> int
    decreases corrections.len(),
{
    if corrections.len() == 0 {
        addend
    } else {
        register_after(nominal, addend_for(nominal, corrections[0]), corrections.skip(1))
    }
}

/// Clamps a wide count to the range of `i64`.
pub fn saturating_i64(value: i128) -> (result: i64)
    ensures
        result == clamped(value as int),
{
    if value < i64::MIN as i128 {
        i64::MIN
    } else if value > i64::MAX as i128 {
        i64::MAX
    } else {
        value as i64
    }
}

/// The nanoseconds that a hardware timestamp counts.
pub fn nanos_from(timestamp: PtpTimestamp) -> (nanos: u64)
    ensures
        nanos == timestamp_nanos(timestamp),
{
    timestamp.seconds as u64 * 1_000_000_000 + timestamp.nanos as u64
}

/// The moment that a hardware timestamp stands for.
pub fn time_from(timestamp: PtpTimestamp) -> (time: Time)
    ensures
        time == time_at_nanos(timestamp_nanos(timestamp) as u64),
{
    Time::from_nanos(nanos_from(timestamp))
}

/// By how many nanoseconds a hardware clock is moved to step it by `offset`.
pub fn step_nanos(offset: Duration) -> (nanos: i64)
    ensures
        nanos == clamped(whole_nanos(offset) as int),
{
    saturating_i64(offset.nanos_rounded())
}

/// The addend that a hardware clock is given. A correction counts from the
/// nominal addend, whatever the clock runs with. Where no correction can be
/// computed, the addend is the nominal one.
pub fn frequency_addend(nominal: u32, change: Option<AddendChange>) -> (addend: u32)
    ensures
        addend == addend_for(nominal as int, change),
{
    match change {
        Some(change) => {
            if change.faster {
                nominal.saturating_add(change.delta)
            } else {
                let addend: u32 = nominal.saturating_sub(change.delta);
                if addend < 1 {
                    1
                } else {
                    addend
                }
            }
        },
        None => nominal,
    }
}

/// The nanoseconds of a timestamp always fit the timescale's 64 bits.
pub proof fn timestamps_fit(timestamp: PtpTimestamp)
    ensures
        0 <= timestamp_nanos(timestamp) <= u64::MAX,
{
}

/// Timestamps whose nanoseconds stay below one second keep their order, and
/// different ones stand for different counts.
pub proof fn timestamps_keep_their_order(one: PtpTimestamp, other: PtpTimestamp)
    requires
        one.nanos < 1_000_000_000,
        other.nanos < 1_000_000_000,
    ensures
        timestamp_nanos(one) < timestamp_nanos(other) <==> one.seconds < other.seconds || (
        one.seconds == other.seconds && one.nanos < other.nanos),
        timestamp_nanos(one) == timestamp_nanos(other) <==> one == other,
{
}

/// Clamping keeps the order of values, and keeps every value that fits.
pub proof fn clamping_keeps_the_order(one: int, other: int)
    requires
        one <= other,
    ensures
        i64::MIN <= clamped(one) <= clamped(other) <= i64::MAX,
        clamped(clamped(one)) == clamped(one),
        i64::MIN <= one <= i64::MAX ==> clamped(one) == one,
{
}

/// A correction never leaves the register's range, never stops the clock, and
/// never turns it the wrong way.
pub proof fn corrections_stay_in_range(nominal: int, change: AddendChange)
    requires
        1 <= nominal <= u32::MAX,
    ensures
        1 <= changed_addend(nominal, change) <= u32::MAX,
        change.faster ==> nominal <= changed_addend(nominal, change),
        !change.faster ==> changed_addend(nominal, change) <= nominal,
        change.delta == 0 ==> changed_addend(nominal, change) == nominal,
{
}

/// A larger change never gives a smaller addend, and a change of nothing gives
/// the nominal one, whichever its direction.
pub proof fn larger_changes_give_no_smaller_addend(
    nominal: int,
    smaller: AddendChange,
    larger: AddendChange,
)
    requires
        1 <= nominal <= u32::MAX,
        signed_change(smaller) <= signed_change(larger),
    ensures
        changed_addend(nominal, smaller) <= changed_addend(nominal, larger),
        signed_change(larger) == 0 ==> changed_addend(nominal, larger) == nominal,
{
}

/// Corrections do not accumulate: the last one alone decides the addend,
/// whatever the register held and whatever came before.
pub proof fn the_last_correction_decides(
    nominal: int,
    addend: int,
    earlier: Seq<Option<AddendChange>>,
    last: Option<AddendChange>,
)
    ensures
        register_after(nominal, addend, earlier.push(last)) == addend_for(nominal, last),
    decreases earlier.len(),
{
    reveal_with_fuel(register_after, 2);
    if earlier.len() == 0 {
        assert(earlier.push(last).skip(1) =~= earlier);
    } else {
        let next = addend_for(nominal, earlier[0]);
        assert(earlier.push(last).skip(1) =~= earlier.skip(1).push(last));
        the_last_correction_decides(nominal, next, earlier.skip(1), last);
    }
}

/// A second more is a thousand million nanoseconds more, and a nanosecond more
/// is one more. The timestamp 0 counts none.
pub proof fn timestamps_count_seconds_and_nanoseconds(one: PtpTimestamp, other: PtpTimestamp)
    ensures
        timestamp_nanos(one) - timestamp_nanos(other) == 1_000_000_000 * (one.seconds
            - other.seconds) + (one.nanos - other.nanos),
        one.seconds == 0 && one.nanos == 0 ==> timestamp_nanos(one) == 0,
{
}

/// A value outside the range of `i64` becomes the nearest one in it, and every
/// other value stays as it is.
pub proof fn clamping_gives_the_nearest_value(value: int)
    ensures
        value > i64::MAX ==> clamped(value) == i64::MAX,
        value < i64::MIN ==> clamped(value) == i64::MIN,
        i64::MIN <= value <= i64::MAX ==> clamped(value) == value,
{
}

/// A correction moves the addend by just the change that was asked for, up or
/// down, as long as the sum stays between 1 and the largest number. Beyond that
/// it gives the nearest of the two. Without a correction the addend is the
/// nominal one.
pub proof fn corrections_move_the_addend_by_the_change(nominal: int, change: AddendChange)
    requires
        1 <= nominal <= u32::MAX,
    ensures
        change.faster && nominal + change.delta <= u32::MAX ==> changed_addend(nominal, change)
            - nominal == change.delta,
        change.faster && nominal + change.delta > u32::MAX ==> changed_addend(nominal, change)
            == u32::MAX,
        !change.faster && change.delta < nominal ==> nominal - changed_addend(nominal, change)
            == change.delta,
        !change.faster && change.delta >= nominal ==> changed_addend(nominal, change) == 1,
        addend_for(nominal, Some(change)) == changed_addend(nominal, change),
        addend_for(nominal, None) == nominal,
{
}

/// Of two changes neither of which meets an end of the range, the larger gives
/// an addend that is larger by the difference.
pub proof fn larger_changes_give_larger_addends(
    nominal: int,
    smaller: AddendChange,
    larger: AddendChange,
)
    requires
        1 <= nominal <= u32::MAX,
        smaller.faster ==> nominal + smaller.delta <= u32::MAX,
        !smaller.faster ==> smaller.delta < nominal,
        larger.faster ==> nominal + larger.delta <= u32::MAX,
        !larger.faster ==> larger.delta < nominal,
    ensures
        changed_addend(nominal, larger) - changed_addend(nominal, smaller) == (if larger.faster {
            larger.delta as int
        } else {
            -(larger.delta as int)
        }) - (if smaller.faster {
            smaller.delta as int
        } else {
            -(smaller.delta as int)
        }),
{
}

} // verus!
