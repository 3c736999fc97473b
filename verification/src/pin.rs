//! The PWM output capability that the effect engine drives.

use vstd::prelude::*;

verus! {

/// Capability interface for a PWM output channel.
///
/// The effect engine needs exactly four operations: enable the output, write
/// a duty value, and read the current and maximum duty values. A concrete
/// timer peripheral satisfies this interface on real hardware; a recording
/// implementation satisfies it in tests.
///
/// Three ghost views describe a channel for specification purposes: the duty
/// value it currently holds, the full history of duty values written to it
/// (oldest first), and whether the output has been enabled.
pub trait PwmPin: Sized {
    /// Duty value the channel currently holds.
    ///
    /// This and the three views below carry useless defaults; an
    /// implementation whose callers reason about the channel overrides
    /// them. The defaults exist so that unverified firmware code can
    /// implement the trait by providing the executable methods alone.
    open spec fn duty(&self) -> u32 {
        0
    }

    /// Every duty value ever written to the channel, oldest first.
    open spec fn writes(&self) -> Seq<u32> {
        Seq::empty()
    }

    /// Whether the output has been enabled.
    open spec fn enabled(&self) -> bool {
        false
    }

    /// Largest duty value the channel supports.
    open spec fn max_duty(&self) -> u32 {
        0
    }

    /// Enable the PWM output. Writes no duty value.
    fn enable(&mut self)
        ensures
            final(self).enabled(),
            final(self).duty() == old(self).duty(),
            final(self).writes() == old(self).writes(),
            final(self).max_duty() == old(self).max_duty(),
    ;

    /// Write a new duty value to the channel.
    fn set_duty(&mut self, duty: u32)
        ensures
            final(self).duty() == duty,
            final(self).writes() == old(self).writes().push(duty),
            final(self).enabled() == old(self).enabled(),
            final(self).max_duty() == old(self).max_duty(),
    ;

    /// Read the duty value the channel currently holds.
    fn get_duty(&self) -> (r: u32)
        ensures
            r == self.duty(),
    ;

    /// Read the largest duty value the channel supports.
    fn get_max_duty(&self) -> (r: u32)
        ensures
            r == self.max_duty(),
    ;
}

/// A PWM channel that records every operation instead of driving hardware.
///
/// Stands in for a timer peripheral in tests: it keeps the current duty, the
/// whole sequence of written duty values, and the enabled flag as ordinary
/// data that a test can inspect.
pub struct RecordingPin {
    current: u32,
    log: Vec<u32>,
    on: bool,
    top: u32,
}

impl RecordingPin {
    /// A fresh channel: duty 0, nothing written, output disabled.
    pub fn new(max_duty: u32) -> (r: Self)
        ensures
            r.duty() == 0,
            r.writes() == Seq::<u32>::empty(),
            !r.enabled(),
            r.max_duty() == max_duty,
    {
        RecordingPin { current: 0, log: Vec::new(), on: false, top: max_duty }
    }

    /// The recorded duty writes, oldest first.
    pub fn written(&self) -> (r: &Vec<u32>)
        ensures
            r@ == self.writes(),
    {
        &self.log
    }

    /// Whether the output has been enabled.
    pub fn is_enabled(&self) -> (r: bool)
        ensures
            r == self.enabled(),
    {
        self.on
    }
}

impl PwmPin for RecordingPin {
    closed spec fn duty(&self) -> u32 {
        self.current
    }

    closed spec fn writes(&self) -> Seq<u32> {
        self.log@
    }

    closed spec fn enabled(&self) -> bool {
        self.on
    }

    closed spec fn max_duty(&self) -> u32 {
        self.top
    }

    fn enable(&mut self) {
        self.on = true;
    }

    fn set_duty(&mut self, duty: u32) {
        self.current = duty;
        self.log.push(duty);
    }

    fn get_duty(&self) -> u32 {
        self.current
    }

    fn get_max_duty(&self) -> u32 {
        self.top
    }
}

} // verus!
