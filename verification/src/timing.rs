//! Busy-wait timing capability.
//!
//! The effect engine never owns a hardware timer; it asks a timing capability
//! to block the calling context for a number of milliseconds. Firmware
//! supplies an implementation that spins for a calibrated number of CPU
//! cycles; tests use [`RecordingDelay`], which logs the requested delays
//! instead of waiting.

use vstd::prelude::*;

verus! {

/// Capability interface for blocking delays.
///
/// The ghost view is the sequence of delay lengths, in milliseconds, that
/// have been requested so far, oldest first.
pub trait Delay: Sized {
    /// Every delay requested so far, in milliseconds, oldest first.
    ///
    /// The default view is useless (always empty); an implementation whose
    /// callers reason about delays overrides it. The default exists so that
    /// unverified firmware code can implement the trait by providing the
    /// executable method alone.
    open spec fn delays(&self) -> Seq<u32> {
        Seq::empty()
    }

    /// Block the calling context for `ms` milliseconds.
    fn delay_ms(&mut self, ms: u32)
        ensures
            final(self).delays() == old(self).delays().push(ms),
    ;
}

/// A timing capability that records instead of waiting.
///
/// Stands in for the busy-wait primitive in tests: every requested delay is
/// appended to an ordinary vector that a test can inspect, and no time is
/// spent.
pub struct RecordingDelay {
    log: Vec<u32>,
}

impl RecordingDelay {
    /// A fresh recorder with no delays logged.
    pub fn new() -> (r: Self)
        ensures
            r.delays() == Seq::<u32>::empty(),
    {
        RecordingDelay { log: Vec::new() }
    }

    /// The recorded delay lengths in milliseconds, oldest first.
    pub fn logged(&self) -> (r: &Vec<u32>)
        ensures
            r@ == self.delays(),
    {
        &self.log
    }
}

impl Delay for RecordingDelay {
    closed spec fn delays(&self) -> Seq<u32> {
        self.log@
    }

    fn delay_ms(&mut self, ms: u32) {
        self.log.push(ms);
    }
}

} // verus!
