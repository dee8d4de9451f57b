//! PTP ordinary-clock service for `statime` on timestamp-capable `embassy-net`
//! Ethernet drivers: the decisions of a single-port UDP/IPv4 clock that uses
//! end-to-end delay measurement and follows the masters of its network.
//!
//! The centre is [`runner::Runner`], which is told what happened and says what
//! is to be done next. Around it stand the parts that it is made of: the time
//! base, the port's timers, the packets that wait for their transmit timestamp,
//! the servo log, and the values that the protocol engine is configured with.
//!
//! What holds of it is stated in four places: [`behaviour`] says how every event
//! is answered, [`results`] what the calls give back, and [`laws`] and
//! [`histories`] what follows over a few steps and over any number of them.

pub mod behaviour;
pub mod clock;
pub mod config;
pub mod endpoint;
pub mod histories;
pub mod laws;
pub mod log;
pub mod packet;
pub mod pending;
pub mod results;
pub mod runner;
pub mod statime_types;
pub mod ticks;
pub mod timers;
