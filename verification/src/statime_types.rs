//! The values of `statime` and `rand_xorshift` that the library carries
//! through, and what it asks of those crates.

use vstd::prelude::*;

use rand_core::SeedableRng;
use rand_xorshift::XorShiftRng;
use statime::config::{TimePropertiesDS, TimeSource as Source};
use statime::time::{Duration, Interval, Time};

use crate::config::TimeSource;

verus! {

/// `statime::time::Time`, a moment on the PTP timescale.
#[verifier::external_type_specification]
#[verifier::external_body]
pub struct ExTime(Time);

/// `statime::time::Duration`, a span of time that may be negative.
#[verifier::external_type_specification]
#[verifier::external_body]
pub struct ExDuration(Duration);

/// `statime::time::Interval`, the pace of a message as a power of two seconds.
#[verifier::external_type_specification]
#[verifier::external_body]
pub struct ExInterval(Interval);

/// `statime::config::TimePropertiesDS`, the properties of a timescale.
#[verifier::external_type_specification]
#[verifier::external_body]
pub struct ExTimePropertiesDS(TimePropertiesDS);

/// `rand_xorshift::XorShiftRng`, a random number generator.
#[verifier::external_type_specification]
#[verifier::external_body]
pub struct ExXorShiftRng(XorShiftRng);

/// The moment that lies `nanos` nanoseconds after the start of the timescale.
pub uninterp spec fn time_at_nanos(nanos: u64) -> Time;

/// `statime::time::Time::from_nanos` depends on the nanoseconds alone.
pub assume_specification[ Time::from_nanos ](nanos: u64) -> (time: Time)
    ensures
        time == time_at_nanos(nanos),
;

/// The span of `nanos` nanoseconds.
pub uninterp spec fn span_of_nanos(nanos: i64) -> Duration;

/// `statime::time::Duration::from_nanos` depends on the nanoseconds alone, and
/// the span it gives has just as many whole nanoseconds.
pub assume_specification[ Duration::from_nanos ](nanos: i64) -> (span: Duration)
    ensures
        span == span_of_nanos(nanos),
        whole_nanos(span) == nanos,
;

/// The whole nanoseconds of a span, without what it holds below one nanosecond.
pub uninterp spec fn whole_nanos(span: Duration) -> i128;

/// `statime::time::Duration::nanos_rounded` depends on the span alone.
pub assume_specification[ Duration::nanos_rounded ](span: &Duration) -> (nanos: i128)
    ensures
        nanos == whole_nanos(*span),
;

/// The pace of one message in two to the power of `log_2` seconds.
pub uninterp spec fn interval_of_log_2(log_2: i8) -> Interval;

/// `statime::time::Interval::from_log_2` depends on the exponent alone.
pub assume_specification[ Interval::from_log_2 ](log_2: i8) -> (interval: Interval)
    ensures
        interval == interval_of_log_2(log_2),
;

/// The properties of a timescale that is unrelated to UTC.
pub uninterp spec fn arbitrary_timescale(
    time_traceable: bool,
    frequency_traceable: bool,
    time_source: TimeSource,
) -> TimePropertiesDS;

/// `statime::config::TimePropertiesDS::new_arbitrary_time` depends on its three
/// arguments alone.
#[verifier::external_body]
pub(crate) fn arbitrary_time_properties(
    time_traceable: bool,
    frequency_traceable: bool,
    time_source: TimeSource,
) -> (properties: TimePropertiesDS)
    ensures
        properties == arbitrary_timescale(time_traceable, frequency_traceable, time_source),
{
    let source = match time_source {
        TimeSource::AtomicClock => Source::AtomicClock,
        TimeSource::Gnss => Source::Gnss,
        TimeSource::TerrestrialRadio => Source::TerrestrialRadio,
        TimeSource::SerialTimeCode => Source::SerialTimeCode,
        TimeSource::Ptp => Source::Ptp,
        TimeSource::Ntp => Source::Ntp,
        TimeSource::HandSet => Source::HandSet,
        TimeSource::Other => Source::Other,
        TimeSource::InternalOscillator => Source::InternalOscillator,
        TimeSource::ProfileSpecific(code) => Source::ProfileSpecific(code),
        TimeSource::Reserved => Source::Reserved,
        TimeSource::Unknown(code) => Source::Unknown(code),
    };
    TimePropertiesDS::new_arbitrary_time(time_traceable, frequency_traceable, source)
}

/// The generator that a seed gives.
pub uninterp spec fn rng_of_seed(seed: u64) -> XorShiftRng;

/// `rand_core::SeedableRng::seed_from_u64` makes a `XorShiftRng` that depends
/// on the seed alone.
#[verifier::external_body]
pub(crate) fn seeded_rng(seed: u64) -> (rng: XorShiftRng)
    ensures
        rng == rng_of_seed(seed),
{
    XorShiftRng::seed_from_u64(seed)
}

} // verus!
