//! LED effects for PWM-driven outputs.
//!
//! Computes deterministic duty-cycle sequences that drive a PWM channel to
//! produce a smooth breathing fade and a grouped heartbeat flash pattern,
//! using integer arithmetic only and busy-wait timing.

pub mod arith;
pub mod effect;
pub mod pin;
pub mod schedule;
pub mod timing;

pub use effect::LEDEffect;
pub use pin::PwmPin;
pub use pin::RecordingPin;
pub use timing::Delay;
pub use timing::RecordingDelay;

use vstd::prelude::*;

verus! {

/// Error kind returned by the effect engine.
#[derive(Debug)]
pub enum Error {
    /// PWM-related error.
    Pwm,
    /// Supplied calibration or algorithm parameters cannot produce a valid
    /// sequence.
    InvalidParameter,
}

} // verus!
