use embassy_time::MockDriver;
use statime::time::Duration;
use statime_embassy_net::log::{
    servo_report, state_change, state_name, FilterEstimate, PortState, ServoEstimate, ServoLog,
    ServoReport,
};
use statime_embassy_net::ticks::{Instant, TickDuration, TimeError};

const NAMES: [(PortState, &str); 9] = [
    (PortState::Initializing, "initializing"),
    (PortState::Faulty, "faulty"),
    (PortState::Disabled, "disabled"),
    (PortState::Listening, "listening"),
    (PortState::PreMaster, "pre_master"),
    (PortState::Master, "master"),
    (PortState::Passive, "passive"),
    (PortState::Uncalibrated, "uncalibrated"),
    (PortState::Slave, "slave"),
];

fn at(ticks: u64) -> Instant {
    Instant { ticks }
}

fn every(ticks: u64) -> TickDuration {
    TickDuration { ticks }
}

#[test]
fn states_have_names() {
    for (state, name) in NAMES {
        assert_eq!(state_name(state), name);
    }
}

#[test]
fn only_changes_of_state_are_named() {
    for (before, from) in NAMES {
        for (after, to) in NAMES {
            let expected = if before == after { None } else { Some((from, to)) };
            assert_eq!(state_change(before, after), expected);
        }
    }
}

#[test]
fn reports_clamp_the_estimate() {
    assert_eq!(
        servo_report(PortState::Slave, Some((i128::MAX, -3))),
        ServoReport {
            state: PortState::Slave,
            estimate: Some(ServoEstimate {
                offset_ns: i64::MAX,
                mean_delay_ns: -3
            })
        }
    );
    assert_eq!(servo_report(PortState::Faulty, None).estimate, None);
}

#[test]
fn a_report_is_due_once_per_period() {
    let mut log = ServoLog::new_at(every(100), at(50)).unwrap();
    assert_eq!(log.next_deadline(), at(150));
    assert_eq!(log.log_if_due_at(PortState::Slave, None, at(149)), Ok(None));
    let estimate = FilterEstimate {
        offset_from_master: Duration::from_nanos(-12),
        mean_delay: Duration::from_micros(3),
    };
    assert_eq!(
        log.log_if_due_at(PortState::Slave, Some(estimate), at(170)),
        Ok(Some(ServoReport {
            state: PortState::Slave,
            estimate: Some(ServoEstimate {
                offset_ns: -12,
                mean_delay_ns: 3_000
            })
        }))
    );
    assert_eq!(log.next_deadline(), at(270));
    assert_eq!(log.log_if_due_at(PortState::Slave, None, at(269)), Ok(None));
    assert_eq!(
        log.log_if_due_at(PortState::Master, None, at(270)),
        Ok(Some(ServoReport {
            state: PortState::Master,
            estimate: None
        }))
    );
}

#[test]
fn a_log_without_a_next_report_is_refused() {
    assert_eq!(ServoLog::new_at(every(2), at(u64::MAX - 1)), None);
    let mut log = ServoLog::new_at(every(10), at(0)).unwrap();
    assert_eq!(
        log.log_if_due_at(PortState::Slave, None, at(u64::MAX - 9)),
        Err(TimeError::Overflow)
    );
    assert_eq!(log.next_deadline(), at(10));
}

#[test]
fn the_log_reads_the_driver_clock() {
    let driver = MockDriver::get();
    driver.advance(embassy_time::Duration::from_ticks(5));
    let mut log = ServoLog::new(every(10)).unwrap();
    assert_eq!(log.next_deadline(), at(15));
    assert_eq!(log.log_if_due(PortState::Slave, None), Ok(None));
    driver.advance(embassy_time::Duration::from_ticks(12));
    assert!(log.log_if_due(PortState::Slave, None).unwrap().is_some());
    assert_eq!(log.next_deadline(), at(27));
}
