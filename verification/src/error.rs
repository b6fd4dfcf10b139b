//! Why the capture loop gave up.

use vstd::prelude::*;

verus! {

/// A fatal condition: the loop has ended and will not capture again.
///
/// Conditions that the loop can recover from (the output sink going away, the
/// read pipe closing after a release) never become a `LoopError`.
#[derive(Clone, Copy, Debug, PartialEq, Eq, Hash, Structural)]
pub enum LoopError {
    /// The input devices could not be opened when the loop started.
    OpenFailed,
    /// Reading a device failed for a reason other than end of stream.
    ReadFailed,
    /// Writing to the output sink failed for a reason other than a lost
    /// connection.
    WriteFailed,
    /// The downstream stage did not take an event: its channel was full.
    ChannelFull,
    /// The downstream stage did not take an event: its channel was closed.
    ChannelClosed,
    /// The output sink came back, but the devices could not be seized again.
    RegrabFailed,
}

impl LoopError {
    /// The text that tells the user what went wrong.
    pub open spec fn description(self) -> Seq<char> {
        match self {
            LoopError::OpenFailed => "failed to open keyboard device(s)"@,
            LoopError::ReadFailed => "failed read"@,
            LoopError::WriteFailed => "failed write"@,
            LoopError::ChannelFull => "sending on a full channel"@,
            LoopError::ChannelClosed => "sending on a closed channel"@,
            LoopError::RegrabFailed =>
                "failed to re-grab keyboard devices after DriverKit recovery"@,
        }
    }

    /// The text that tells the user what went wrong.
    pub fn describe(&self) -> (text: &'static str)
        ensures
            text@ == self.description(),
    {
        match self {
            LoopError::OpenFailed => "failed to open keyboard device(s)",
            LoopError::ReadFailed => "failed read",
            LoopError::WriteFailed => "failed write",
            LoopError::ChannelFull => "sending on a full channel",
            LoopError::ChannelClosed => "sending on a closed channel",
            LoopError::RegrabFailed =>
                "failed to re-grab keyboard devices after DriverKit recovery",
        }
    }
}

} // verus!
