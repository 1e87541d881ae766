//! Joystick-to-actuator translation for a small robot arm.
//!
//! The crate covers the numeric pipeline that turns raw analog joystick
//! samples into proportional actuator motion: calibration and dead-zone
//! mapping of raw samples ([`gamepad`]), derivation of discrete motion
//! commands with speed-controlling delays ([`command`]), duty-cycle and
//! angle conversion for pulse-width-modulated servos ([`servo`]), and the
//! rate-gated control loop that ties them together ([`armbot`]).
//!
//! Peripheral initialization, analog reads and duty-register writes are
//! collaborators outside this crate: callers feed raw integer samples and a
//! clock in, and mirror the computed duty values out to the hardware.

use vstd::prelude::*;

pub mod armbot;
pub mod command;
pub mod gamepad;
pub mod remap;
pub mod servo;

verus! {

/// Failure conditions surfaced by the pipeline.
///
/// Bound-reached during stepping is not an error: it is reported as a
/// boolean "did not move" result by [`servo::Servo::step`].
#[derive(Debug, Clone, Copy, PartialEq, Eq, Structural)]
pub enum Error {
    /// A configuration was rejected at construction (empty or inverted
    /// pulse-width range, zero frequency, and the like).
    InvalidConfig,
    /// An input value fell outside its declared range.
    InvalidInput,
    /// A hardware collaborator (analog input, duty register) failed.
    Hardware,
}

} // verus!
