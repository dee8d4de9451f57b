//! What the service reports about itself: the state of its port, and now and
//! then how well its clock follows the master.

use vstd::prelude::*;

use statime::time::Duration;

use crate::clock::{clamped, saturating_i64};
use crate::statime_types::whole_nanos;
use crate::ticks::{instant_after, is_reading, read_clock, Instant, TickDuration, TimeError};

verus! {

/// State of a port.
#[derive(Clone, Copy, Debug, PartialEq, Eq, Structural)]
pub enum PortState {
    /// Being set up.
    Initializing,
    /// Failed.
    Faulty,
    /// Switched off.
    Disabled,
    /// Waiting for announce messages.
    Listening,
    /// About to become a master.
    PreMaster,
    /// Giving the time.
    Master,
    /// Neither giving nor taking the time.
    Passive,
    /// Following a master that it has not settled on yet.
    Uncalibrated,
    /// Following a master.
    Slave,
}

/// What the filter makes of the measurements.
#[derive(Clone, Copy, Debug, PartialEq, Eq)]
pub struct FilterEstimate {
    /// Offset from the master.
    pub offset_from_master: Duration,
    /// Mean delay to the master.
    pub mean_delay: Duration,
}

/// The filter's estimate in whole nanoseconds, clamped to the range of `i64`.
#[derive(Clone, Copy, Debug, PartialEq, Eq, Structural)]
pub struct ServoEstimate {
    /// Offset from the master in nanoseconds.
    pub offset_ns: i64,
    /// Mean delay to the master in nanoseconds.
    pub mean_delay_ns: i64,
}

/// One report on how the clock follows the master.
#[derive(Clone, Copy, Debug, PartialEq, Eq, Structural)]
pub struct ServoReport {
    /// State of the port.
    pub state: PortState,
    /// The estimate, if the filter has one.
    pub estimate: Option<ServoEstimate>,
}

/// Decides when to report on how the clock follows the master.
#[derive(Clone, Copy, Debug, PartialEq, Eq, Structural)]
pub struct ServoLog {
    /// When the next report is due.
    pub next_log: Instant,
    /// Time between two reports.
    pub period: TickDuration,
}

/// The name of a state.
pub open spec fn name_of(state: PortState) -> Seq<char> {
    match state {
        PortState::Initializing => "initializing"@,
        PortState::Faulty => "faulty"@,
        PortState::Disabled => "disabled"@,
        PortState::Listening => "listening"@,
        PortState::PreMaster => "pre_master"@,
        PortState::Master => "master"@,
        PortState::Passive => "passive"@,
        PortState::Uncalibrated => "uncalibrated"@,
        PortState::Slave => "slave"@,
    }
}

/// The report on a state and on an estimate, the latter given as whole
/// nanoseconds of the offset and of the delay.
pub open spec fn report_on(state: PortState, estimate: Option<(int, int)>) -> ServoReport {
    ServoReport {
        state,
        estimate: match estimate {
            Some((offset, mean_delay)) => Some(
                ServoEstimate {
                    offset_ns: clamped(offset) as i64,
                    mean_delay_ns: clamped(mean_delay) as i64,
                },
            ),
            None => None,
        },
    }
}

/// The whole nanoseconds of an estimate.
pub open spec fn estimate_nanos(estimate: Option<FilterEstimate>) -> Option<(int, int)> {
    match estimate {
        Some(estimate) => Some(
            (
                whole_nanos(estimate.offset_from_master) as int,
                whole_nanos(estimate.mean_delay) as int,
            ),
        ),
        None => None,
    }
}

/// The name of a state.
pub fn state_name(state: PortState) -> (name: &'static str)
    ensures
        name@ == name_of(state),
{
    match state {
        PortState::Initializing => "initializing",
        PortState::Faulty => "faulty",
        PortState::Disabled => "disabled",
        PortState::Listening => "listening",
        PortState::PreMaster => "pre_master",
        PortState::Master => "master",
        PortState::Passive => "passive",
        PortState::Uncalibrated => "uncalibrated",
        PortState::Slave => "slave",
    }
}

/// The names of a port's state before and after, if the state changed.
pub fn state_change(before: PortState, after: PortState) -> (names: Option<
    (&'static str, &'static str),
>)
    ensures
        match names {
            Some((from, to)) => before != after && from@ == name_of(before) && to@ == name_of(after),
            None => before == after,
        },
{
    if before != after {
        Some((state_name(before), state_name(after)))
    } else {
        None
    }
}

/// The report on a state and on an estimate, the latter given as whole
/// nanoseconds of the offset and of the delay.
pub fn servo_report(state: PortState, estimate: Option<(i128, i128)>) -> (report: ServoReport)
    ensures
        report == report_on(
            state,
            match estimate {
                Some((offset, mean_delay)) => Some((offset as int, mean_delay as int)),
                None => None,
            },
        ),
{
    ServoReport {
        state,
        estimate: match estimate {
            Some((offset, mean_delay)) => Some(
                ServoEstimate {
                    offset_ns: saturating_i64(offset),
                    mean_delay_ns: saturating_i64(mean_delay),
                },
            ),
            None => None,
        },
    }
}

impl ServoLog {
    /// Whether a report is due.
    pub open spec fn due(self, now: Instant) -> bool {
        self.next_log.ticks <= now.ticks
    }

    /// The log once it was asked at `now`: a report that was due is due again
    /// one period later. Without a representable instant one period later the
    /// log stays as it was.
    pub open spec fn after_asking(self, now: Instant) -> ServoLog {
        match instant_after(now, self.period) {
            Some(next_log) if self.due(now) => ServoLog { next_log, ..self },
            _ => self,
        }
    }

    /// What there is to report at `now`.
    pub open spec fn reported(
        self,
        state: PortState,
        estimate: Option<FilterEstimate>,
        now: Instant,
    ) -> Result<Option<ServoReport>, TimeError> {
        if !self.due(now) {
            Ok(None)
        } else if instant_after(now, self.period) is None {
            Err(TimeError::Overflow)
        } else {
            Ok(Some(report_on(state, estimate_nanos(estimate))))
        }
    }

    /// A log whose first report is due one period after `now`. There is none if
    /// that instant cannot be represented.
    pub fn new_at(period: TickDuration, now: Instant) -> (log: Option<ServoLog>)
        ensures
            match instant_after(now, period) {
                Some(next_log) => log == Some(ServoLog { next_log, period }),
                None => log is None,
            },
    {
        match now.checked_add(period) {
            Some(next_log) => Some(ServoLog { next_log, period }),
            None => None,
        }
    }

    /// A log whose first report is due one period from now. There is none if
    /// that instant cannot be represented.
    pub fn new(period: TickDuration) -> (log: Option<ServoLog>)
        ensures
            exists|now: Instant|
                is_reading(now) && (match #[trigger] instant_after(now, period) {
                    Some(next_log) => log == Some(ServoLog { next_log, period }),
                    None => log is None,
                }),
    {
        ServoLog::new_at(period, read_clock())
    }

    /// When the next report is due.
    pub fn next_deadline(&self) -> (deadline: Instant)
        ensures
            deadline == self.next_log,
    {
        self.next_log
    }

    /// The report to log at `now`, if one is due.
    pub fn log_if_due_at(
        &mut self,
        state: PortState,
        estimate: Option<FilterEstimate>,
        now: Instant,
    ) -> (report: Result<Option<ServoReport>, TimeError>)
        ensures
            report == old(self).reported(state, estimate, now),
            *final(self) == old(self).after_asking(now),
    {
        if now.ticks < self.next_log.ticks {
            return Ok(None);
        }
        match now.checked_add(self.period) {
            Some(next_log) => self.next_log = next_log,
            None => {
                return Err(TimeError::Overflow);
            },
        }
        let nanos = match estimate {
            Some(estimate) => Some(
                (
                    estimate.offset_from_master.nanos_rounded(),
                    estimate.mean_delay.nanos_rounded(),
                ),
            ),
            None => None,
        };
        Ok(Some(servo_report(state, nanos)))
    }

    /// The report to log now, if one is due.
    pub fn log_if_due(&mut self, state: PortState, estimate: Option<FilterEstimate>) -> (report:
        Result<Option<ServoReport>, TimeError>)
        ensures
            exists|now: Instant|
                is_reading(now) && report == old(self).reported(state, estimate, now)
                    && *final(self) == #[trigger] old(self).after_asking(now),
    {
        self.log_if_due_at(state, estimate, read_clock())
    }
}

/// No two states share a name.
pub proof fn state_names_are_distinct(one: PortState, other: PortState)
    requires
        name_of(one) == name_of(other),
    ensures
        one == other,
{
    reveal_strlit("initializing");
    reveal_strlit("faulty");
    reveal_strlit("disabled");
    reveal_strlit("listening");
    reveal_strlit("pre_master");
    reveal_strlit("master");
    reveal_strlit("passive");
    reveal_strlit("uncalibrated");
    reveal_strlit("slave");
    assert("initializing"@.len() == 12 && "uncalibrated"@.len() == 12);
    assert("faulty"@.len() == 6 && "master"@.len() == 6);
    assert("disabled"@.len() == 8);
    assert("listening"@.len() == 9);
    assert("pre_master"@.len() == 10);
    assert("passive"@.len() == 7);
    assert("slave"@.len() == 5);
    assert("initializing"@[0] == 'i' && "uncalibrated"@[0] == 'u');
    assert("faulty"@[0] == 'f' && "master"@[0] == 'm');
}

/// Two reports are at least one period apart.
pub proof fn reports_are_one_period_apart(log: ServoLog, first: Instant, second: Instant)
    requires
        log.due(first),
        instant_after(first, log.period) is Some,
        log.after_asking(first).due(second),
    ensures
        first.ticks + log.period.ticks <= second.ticks,
        log.after_asking(first).period == log.period,
{
}

/// A report is due exactly when the clock has reached the log's instant, and is
/// then made, unless the next one would lie beyond the last instant, which is
/// an error. The next one is due one period after the clock's reading. A log
/// that has nothing to report stays as it was.
pub proof fn reports_are_made_when_due(
    log: ServoLog,
    state: PortState,
    estimate: Option<FilterEstimate>,
    now: Instant,
)
    ensures
        ({
            let reached = log.next_log.ticks <= now.ticks;
            let fits = now.ticks + log.period.ticks <= u64::MAX;
            let report = log.reported(state, estimate, now);
            let after = log.after_asking(now);
            &&& after.period == log.period
            &&& reached && fits ==> (report matches Ok(made) && made is Some)
                && after.next_log.ticks - now.ticks == log.period.ticks
            &&& reached && !fits ==> report == Err::<Option<ServoReport>, TimeError>(
                TimeError::Overflow,
            ) && after == log
            &&& !reached ==> report == Ok::<Option<ServoReport>, TimeError>(None) && after == log
        }),
{
}

/// A report names the state of the port. It holds an estimate exactly when the
/// filter has one: the offset and the delay in whole nanoseconds, each replaced
/// by the nearest number that fits if it does not.
pub proof fn reports_say_what_was_measured(
    log: ServoLog,
    state: PortState,
    estimate: Option<FilterEstimate>,
    now: Instant,
)
    ensures
        log.reported(state, estimate, now) matches Ok(Some(report)) ==> {
            let offset = whole_nanos(estimate->0.offset_from_master);
            let delay = whole_nanos(estimate->0.mean_delay);
            &&& report.state == state
            &&& report.estimate is Some <==> estimate is Some
            &&& estimate is Some && i64::MIN <= offset <= i64::MAX
                ==> report.estimate->0.offset_ns == offset
            &&& estimate is Some && offset > i64::MAX ==> report.estimate->0.offset_ns == i64::MAX
            &&& estimate is Some && offset < i64::MIN ==> report.estimate->0.offset_ns == i64::MIN
            &&& estimate is Some && i64::MIN <= delay <= i64::MAX
                ==> report.estimate->0.mean_delay_ns == delay
            &&& estimate is Some && delay > i64::MAX
                ==> report.estimate->0.mean_delay_ns == i64::MAX
            &&& estimate is Some && delay < i64::MIN
                ==> report.estimate->0.mean_delay_ns == i64::MIN
        },
{
}

/// A report on given nanoseconds holds them, each replaced by the nearest number
/// that fits if it does not.
pub proof fn reports_hold_the_given_nanoseconds(state: PortState, offset: int, delay: int)
    ensures
        report_on(state, None) == (ServoReport { state, estimate: None }),
        ({
            let report = report_on(state, Some((offset, delay)));
            &&& report.state == state
            &&& report.estimate is Some
            &&& i64::MIN <= offset <= i64::MAX ==> report.estimate->0.offset_ns == offset
            &&& offset > i64::MAX ==> report.estimate->0.offset_ns == i64::MAX
            &&& offset < i64::MIN ==> report.estimate->0.offset_ns == i64::MIN
            &&& i64::MIN <= delay <= i64::MAX ==> report.estimate->0.mean_delay_ns == delay
            &&& delay > i64::MAX ==> report.estimate->0.mean_delay_ns == i64::MAX
            &&& delay < i64::MIN ==> report.estimate->0.mean_delay_ns == i64::MIN
        }),
{
}

/// Each state goes by its own name, in lower case.
pub proof fn states_go_by_their_names(state: PortState)
    ensures
        state is Initializing <==> name_of(state) == "initializing"@,
        state is Faulty <==> name_of(state) == "faulty"@,
        state is Disabled <==> name_of(state) == "disabled"@,
        state is Listening <==> name_of(state) == "listening"@,
        state is PreMaster <==> name_of(state) == "pre_master"@,
        state is Master <==> name_of(state) == "master"@,
        state is Passive <==> name_of(state) == "passive"@,
        state is Uncalibrated <==> name_of(state) == "uncalibrated"@,
        state is Slave <==> name_of(state) == "slave"@,
{
    assert forall|other: PortState| name_of(state) == #[trigger] name_of(other) implies state
        == other by {
        state_names_are_distinct(state, other);
    }
    assert(name_of(PortState::Initializing) == "initializing"@);
    assert(name_of(PortState::Faulty) == "faulty"@);
    assert(name_of(PortState::Disabled) == "disabled"@);
    assert(name_of(PortState::Listening) == "listening"@);
    assert(name_of(PortState::PreMaster) == "pre_master"@);
    assert(name_of(PortState::Master) == "master"@);
    assert(name_of(PortState::Passive) == "passive"@);
    assert(name_of(PortState::Uncalibrated) == "uncalibrated"@);
    assert(name_of(PortState::Slave) == "slave"@);
}

} // verus!
