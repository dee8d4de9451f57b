//! Configuration of the service, and what the protocol engine is given of it.

use vstd::prelude::*;

use rand_xorshift::XorShiftRng;
use statime::config::TimePropertiesDS;
use statime::time::{Duration, Interval};

use crate::statime_types::{arbitrary_time_properties, seeded_rng};
use crate::statime_types::{arbitrary_timescale, interval_of_log_2, rng_of_seed, span_of_nanos};
use crate::ticks::TickDuration;

verus! {

/// How long a hardware transmit timestamp is waited for, in milliseconds.
pub const TX_TIMESTAMP_TIMEOUT_MILLIS: u64 = 100;

/// How often the state of the servo is logged, in seconds.
pub const LOG_PERIOD_SECS: u64 = 10;

/// What a clock takes its time from.
#[derive(Clone, Copy, Debug, PartialEq, Eq, Structural)]
pub enum TimeSource {
    /// An atomic clock.
    AtomicClock,
    /// A satellite navigation system.
    Gnss,
    /// A radio transmitter on the ground.
    TerrestrialRadio,
    /// A serial time code.
    SerialTimeCode,
    /// The Precision Time Protocol.
    Ptp,
    /// The Network Time Protocol.
    Ntp,
    /// Set by hand.
    HandSet,
    /// Another source.
    Other,
    /// The clock's own oscillator.
    InternalOscillator,
    /// A source that a profile defines.
    ProfileSpecific(u8),
    /// Reserved for later use.
    Reserved,
    /// A source with a code that has no meaning.
    Unknown(u8),
}

/// Minor version of the protocol.
#[derive(Clone, Copy, Debug, PartialEq, Eq, Structural)]
pub enum PtpMinorVersion {
    /// Version 2.0.
    Zero,
    /// Version 2.1.
    One,
}

/// Identity of a clock in the network.
#[derive(Clone, Copy, Debug, PartialEq, Eq)]
pub struct ClockIdentity(pub [u8; 8]);

/// How the delay to the master is measured.
#[derive(Clone, Copy, Debug, PartialEq, Eq)]
pub enum DelayMechanism {
    /// From end to end, with a request to the master every `interval`.
    E2E {
        /// Pace of the requests.
        interval: Interval,
    },
    /// Link by link, with a request to the neighbour every `interval`.
    P2P {
        /// Pace of the requests.
        interval: Interval,
    },
}

/// Which masters the clock follows.
#[derive(Clone, Copy, Debug, PartialEq, Eq, Structural)]
pub enum AcceptableMasters {
    /// Every master.
    Any,
}

/// Configuration of the service.
#[derive(Clone, Copy, Debug, PartialEq, Eq)]
pub struct Config {
    /// Ethernet MAC address used to derive the PTP clock identity.
    pub mac_address: [u8; 6],
    /// Seed for the port's random number generator.
    pub rng_seed: u64,
    /// PTP domain number accepted and transmitted by this ordinary clock.
    pub domain_number: u8,
    /// Best master clock algorithm priority1 value.
    pub priority_1: u8,
    /// Best master clock algorithm priority2 value.
    pub priority_2: u8,
    /// Keep this clock out of master state.
    pub slave_only: bool,
    /// Logarithmic E2E delay request interval.
    pub delay_request_interval: Interval,
    /// Logarithmic announce interval.
    pub announce_interval: Interval,
    /// Logarithmic sync interval.
    pub sync_interval: Interval,
    /// Number of missed announces before announce receipt timeout.
    pub announce_receipt_timeout: u8,
    /// Static path delay asymmetry correction.
    pub delay_asymmetry: Duration,
    /// PTP v2 minor version used by the port.
    pub minor_ptp_version: PtpMinorVersion,
    /// Time properties advertised by this clock when it becomes master.
    pub time_properties: TimePropertiesDS,
    /// Maximum time to wait for a hardware transmit timestamp.
    pub tx_timestamp_timeout: TickDuration,
    /// Period for compact servo status logging.
    pub log_period: TickDuration,
}

/// What the clock as a whole is configured with.
#[derive(Clone, Copy, Debug, PartialEq, Eq)]
pub struct InstanceConfig {
    /// Identity of the clock.
    pub clock_identity: ClockIdentity,
    /// Best master clock algorithm priority1 value.
    pub priority_1: u8,
    /// Best master clock algorithm priority2 value.
    pub priority_2: u8,
    /// Domain number.
    pub domain_number: u8,
    /// Identifier of the organisation that defines the profile in use, of which
    /// 0 is the default profile's.
    pub sdo_id: u16,
    /// Keep the clock out of master state.
    pub slave_only: bool,
    /// Whether announce messages trace their path.
    pub path_trace: bool,
}

/// What the clock's one port is configured with.
#[derive(Clone, Copy, Debug, PartialEq, Eq)]
pub struct PortConfig {
    /// Which masters the port follows.
    pub acceptable_master_list: AcceptableMasters,
    /// How the delay to the master is measured.
    pub delay_mechanism: DelayMechanism,
    /// Pace of announce messages.
    pub announce_interval: Interval,
    /// Number of missed announces before announce receipt timeout.
    pub announce_receipt_timeout: u8,
    /// Pace of sync messages.
    pub sync_interval: Interval,
    /// Keep the port out of slave state.
    pub master_only: bool,
    /// Static path delay asymmetry correction.
    pub delay_asymmetry: Duration,
    /// Minor version of the protocol.
    pub minor_ptp_version: PtpMinorVersion,
}

/// The EUI-64 expansion of a MAC address: the address with the bytes `ff fe`
/// put into its middle.
pub open spec fn eui_64(mac: Seq<u8>) -> Seq<u8> {
    mac.take(3) + seq![0xffu8, 0xfeu8] + mac.skip(3)
}

/// The clock identity that belongs to a MAC address.
pub fn clock_identity_from_mac(mac: [u8; 6]) -> (identity: ClockIdentity)
    ensures
        identity.0@ == eui_64(mac@),
{
    let identity = ClockIdentity([mac[0], mac[1], mac[2], 0xff, 0xfe, mac[3], mac[4], mac[5]]);
    assert(identity.0@ =~= eui_64(mac@));
    identity
}

impl Config {
    /// The usual configuration of a clock that follows the masters of its
    /// network and becomes none itself.
    pub fn new(mac_address: [u8; 6], rng_seed: u64) -> (config: Config)
        ensures
            config.mac_address == mac_address,
            config.rng_seed == rng_seed,
            config.domain_number == 0,
            config.priority_1 == 128,
            config.priority_2 == 128,
            config.slave_only,
            config.delay_request_interval == interval_of_log_2(0),
            config.announce_interval == interval_of_log_2(0),
            config.sync_interval == interval_of_log_2(0),
            config.announce_receipt_timeout == 3,
            config.delay_asymmetry == span_of_nanos(0),
            config.minor_ptp_version == PtpMinorVersion::Zero,
            config.time_properties == arbitrary_timescale(
                false,
                false,
                TimeSource::InternalOscillator,
            ),
            config.tx_timestamp_timeout.ticks == 100_000,
            config.log_period.ticks == 10_000_000,
    {
        Config {
            mac_address,
            rng_seed,
            domain_number: 0,
            priority_1: 128,
            priority_2: 128,
            slave_only: true,
            delay_request_interval: Interval::from_log_2(0),
            announce_interval: Interval::from_log_2(0),
            sync_interval: Interval::from_log_2(0),
            announce_receipt_timeout: 3,
            delay_asymmetry: Duration::from_nanos(0),
            minor_ptp_version: PtpMinorVersion::Zero,
            time_properties: arbitrary_time_properties(
                false,
                false,
                TimeSource::InternalOscillator,
            ),
            tx_timestamp_timeout: TickDuration::from_millis(TX_TIMESTAMP_TIMEOUT_MILLIS),
            log_period: TickDuration::from_secs(LOG_PERIOD_SECS),
        }
    }

    /// What the clock as a whole is configured with.
    pub fn instance_config(&self) -> (instance: InstanceConfig)
        ensures
            instance.clock_identity.0@ == eui_64(self.mac_address@),
            instance.priority_1 == self.priority_1,
            instance.priority_2 == self.priority_2,
            instance.domain_number == self.domain_number,
            instance.sdo_id == 0,
            instance.slave_only == self.slave_only,
            !instance.path_trace,
    {
        InstanceConfig {
            clock_identity: clock_identity_from_mac(self.mac_address),
            priority_1: self.priority_1,
            priority_2: self.priority_2,
            domain_number: self.domain_number,
            sdo_id: 0,
            slave_only: self.slave_only,
            path_trace: false,
        }
    }

    /// What the clock's one port is configured with. It measures the delay
    /// from end to end, whatever the rest of the configuration says.
    pub fn port_config(&self) -> (port: PortConfig)
        ensures
            port == (PortConfig {
                acceptable_master_list: AcceptableMasters::Any,
                delay_mechanism: DelayMechanism::E2E { interval: self.delay_request_interval },
                announce_interval: self.announce_interval,
                announce_receipt_timeout: self.announce_receipt_timeout,
                sync_interval: self.sync_interval,
                master_only: false,
                delay_asymmetry: self.delay_asymmetry,
                minor_ptp_version: self.minor_ptp_version,
            }),
    {
        PortConfig {
            acceptable_master_list: AcceptableMasters::Any,
            delay_mechanism: DelayMechanism::E2E { interval: self.delay_request_interval },
            announce_interval: self.announce_interval,
            announce_receipt_timeout: self.announce_receipt_timeout,
            sync_interval: self.sync_interval,
            master_only: false,
            delay_asymmetry: self.delay_asymmetry,
            minor_ptp_version: self.minor_ptp_version,
        }
    }

    /// The port's random number generator.
    pub fn port_rng(&self) -> (rng: XorShiftRng)
        ensures
            rng == rng_of_seed(self.rng_seed),
    {
        seeded_rng(self.rng_seed)
    }
}

/// Clocks with different MAC addresses have different identities.
pub proof fn identities_are_distinct(one: Seq<u8>, other: Seq<u8>)
    requires
        one.len() == 6,
        other.len() == 6,
        eui_64(one) == eui_64(other),
    ensures
        one == other,
{
    assert forall|i: int| 0 <= i < 6 implies one[i] == other[i] by {
        let at: int = if i < 3 {
            i
        } else {
            i + 2
        };
        assert(eui_64(one)[at] == one[i]);
        assert(eui_64(other)[at] == other[i]);
    }
    assert(one =~= other);
}

/// The identity holds the address, three bytes at its beginning and three at
/// its end, and `ff fe` between them.
pub proof fn identities_hold_the_address(mac: Seq<u8>)
    requires
        mac.len() == 6,
    ensures
        eui_64(mac).len() == 8,
        forall|i: int| 0 <= i < 3 ==> #[trigger] eui_64(mac)[i] == mac[i],
        eui_64(mac)[3] == 0xff,
        eui_64(mac)[4] == 0xfe,
        forall|i: int| 5 <= i < 8 ==> #[trigger] eui_64(mac)[i] == mac[i - 2],
{
}

} // verus!
