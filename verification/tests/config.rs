use rand_core::RngCore;
use statime::config::{LeapIndicator, SdoId, TimeSource};
use statime::time::{Duration, Interval};
use statime_embassy_net::config::{
    clock_identity_from_mac, AcceptableMasters, ClockIdentity, Config, DelayMechanism,
    PtpMinorVersion,
};

const MAC: [u8; 6] = [0x02, 0x11, 0x22, 0x33, 0x44, 0x55];

#[test]
fn the_usual_configuration_is_slave_only() {
    let config = Config::new(MAC, 9);
    assert_eq!(config.mac_address, MAC);
    assert_eq!(config.rng_seed, 9);
    assert_eq!(config.domain_number, 0);
    assert_eq!(config.priority_1, 128);
    assert_eq!(config.priority_2, 128);
    assert!(config.slave_only);
    assert_eq!(config.delay_request_interval, Interval::from_log_2(0));
    assert_eq!(config.announce_interval, Interval::ONE_SECOND);
    assert_eq!(config.sync_interval.as_log_2(), 0);
    assert_eq!(config.announce_receipt_timeout, 3);
    assert_eq!(config.delay_asymmetry, Duration::ZERO);
    assert_eq!(config.minor_ptp_version, PtpMinorVersion::Zero);
    assert_eq!(config.tx_timestamp_timeout.ticks, 100_000);
    assert_eq!(config.log_period.ticks, 10_000_000);
}

#[test]
fn the_usual_timescale_is_arbitrary() {
    let properties = Config::new(MAC, 0).time_properties;
    assert_eq!(properties.time_source, TimeSource::InternalOscillator);
    assert_eq!(properties.leap_indicator, LeapIndicator::NoLeap);
    assert_eq!(properties.current_utc_offset, None);
    assert!(!properties.ptp_timescale);
    assert!(!properties.time_traceable);
    assert!(!properties.frequency_traceable);
}

#[test]
fn the_clock_identity_is_the_eui_64() {
    assert_eq!(
        clock_identity_from_mac(MAC),
        ClockIdentity([0x02, 0x11, 0x22, 0xff, 0xfe, 0x33, 0x44, 0x55])
    );
}

#[test]
fn different_addresses_give_different_identities() {
    for i in 0..6 {
        let mut other = MAC;
        other[i] ^= 1;
        assert_ne!(clock_identity_from_mac(MAC), clock_identity_from_mac(other));
    }
}

#[test]
fn the_instance_takes_over_the_configuration() {
    let mut config = Config::new(MAC, 0);
    config.priority_1 = 1;
    config.priority_2 = 2;
    config.domain_number = 3;
    config.slave_only = false;
    let instance = config.instance_config();
    assert_eq!(instance.clock_identity, clock_identity_from_mac(MAC));
    assert_eq!(instance.priority_1, 1);
    assert_eq!(instance.priority_2, 2);
    assert_eq!(instance.domain_number, 3);
    assert!(!instance.slave_only);
    assert!(!instance.path_trace);
    assert_eq!(SdoId::try_from(instance.sdo_id), Ok(SdoId::default()));
}

#[test]
fn the_port_measures_from_end_to_end() {
    let mut config = Config::new(MAC, 0);
    config.delay_request_interval = Interval::from_log_2(-1);
    config.announce_interval = Interval::from_log_2(1);
    config.sync_interval = Interval::from_log_2(2);
    config.announce_receipt_timeout = 7;
    config.delay_asymmetry = Duration::from_nanos(12);
    config.minor_ptp_version = PtpMinorVersion::One;
    let port = config.port_config();
    assert_eq!(
        port.delay_mechanism,
        DelayMechanism::E2E {
            interval: Interval::from_log_2(-1)
        }
    );
    assert_eq!(port.acceptable_master_list, AcceptableMasters::Any);
    assert_eq!(port.announce_interval, Interval::from_log_2(1));
    assert_eq!(port.sync_interval, Interval::from_log_2(2));
    assert_eq!(port.announce_receipt_timeout, 7);
    assert!(!port.master_only);
    assert_eq!(port.delay_asymmetry, Duration::from_nanos(12));
    assert_eq!(port.minor_ptp_version, PtpMinorVersion::One);
}

#[test]
fn the_generator_depends_on_the_seed() {
    let mut one = Config::new(MAC, 1).port_rng();
    let mut same = Config::new([0; 6], 1).port_rng();
    let mut other = Config::new(MAC, 2).port_rng();
    let first = one.next_u64();
    assert_eq!(first, same.next_u64());
    assert_ne!(first, other.next_u64());
}
