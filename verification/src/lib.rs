//! Measurement-and-delivery engine for a battery-powered soil-moisture
//! sensor node.
//!
//! The node measures soil moisture (as a pulse count from an oscillator
//! probe), a capacitor voltage and a temperature once per timing cycle,
//! packs the three readings into a fixed 14-byte telemetry record, and
//! hands the record from interrupt context to a radio-publishing task
//! through a single-slot, non-blocking channel.
//!
//! The modules mirror the parts of the engine:
//! - [`measurement`]: the telemetry record and its byte-exact wire form;
//! - [`node_id`]: the per-device identifier and its hexadecimal text form;
//! - [`timing`]: the cycle timing configuration and the phase state machine;
//! - [`periph`]: the sampling core: power gating, temperature caching,
//!   sequence numbering and record assembly;
//! - [`channel`]: the single-slot producer-never-waits telemetry channel;
//! - [`radio`]: the advertise/connect/notify session state machine of the
//!   radio publisher.

pub mod channel;
pub mod measurement;
pub mod node_id;
pub mod periph;
pub mod radio;
pub mod timing;
