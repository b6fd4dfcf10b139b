//! The runtime settings that the capture loop starts from.

use crate::error::LoopError;
use crate::event_loop::{EventLoop, LoopState, RecoveryTiming};
use vstd::prelude::*;

verus! {

/// The settings shared between the capture loop and the rest of the program.
pub struct Kanata {
    /// Whether hardware repeats are forwarded.
    pub allow_hardware_repeat: bool,
    /// Names of the devices to capture.
    pub include_names: Vec<String>,
    /// Names of the devices to leave alone.
    pub exclude_names: Vec<String>,
}

/// What the capture loop takes from the settings when it is entered: they are
/// read once, and later changes to them do not reach a running loop.
pub struct LoopEntry {
    /// The loop, waiting for the devices to be opened.
    pub event_loop: EventLoop,
    /// The device names to open with.
    pub include_names: Vec<String>,
    /// The device names to pass over when opening.
    pub exclude_names: Vec<String>,
}

impl Kanata {
    /// Enters the capture loop: takes the repeat setting and the device names
    /// as they are now, and returns them with a loop that waits for the
    /// devices to be opened and recovers with the default timing.
    pub fn event_loop(&self) -> (entry: LoopEntry)
        ensures
            entry.event_loop == (EventLoop {
                allow_hardware_repeat: self.allow_hardware_repeat,
                timing: RecoveryTiming { poll_interval_ms: 500, settle_delay_ms: 1000 },
                state: LoopState::Opening,
            }),
            entry.include_names@ == self.include_names@,
            entry.exclude_names@ == self.exclude_names@,
    {
        let include_names = self.include_names.clone();
        let exclude_names = self.exclude_names.clone();
        assert(include_names@ =~= self.include_names@);
        assert(exclude_names@ =~= self.exclude_names@);
        LoopEntry {
            event_loop: EventLoop::new(self.allow_hardware_repeat, RecoveryTiming::default()),
            include_names,
            exclude_names,
        }
    }

    /// Releases a shift that is held without a physical key behind it. This
    /// capture path never produces one, so there is nothing to release: the
    /// call succeeds and changes nothing.
    pub fn check_release_non_physical_shift(&mut self) -> (done: Result<(), LoopError>)
        ensures
            done is Ok,
            *final(self) == *old(self),
    {
        Ok(())
    }
}

} // verus!
