//! The capture loop as a state machine.
//!
//! The loop never performs an operation itself. In every state it waits for the
//! outcome of exactly one [`Request`]; [`EventLoop::step`] takes that outcome
//! and moves to the next state. The caller's part is to carry out the pending
//! request and to report what happened.
//!
//! While the output sink is reachable the loop captures: probe, read, route,
//! forward. When the sink goes away it releases the devices, so that the
//! keyboard keeps working unmapped, polls until the sink is back, lets it
//! settle, and seizes the devices again.

use crate::capture::{
    classify_read_failure, classify_send_failure, classify_write_failure, pressed_after_route,
    read_signal, route, routed, send_error, write_signal, FailureKind, Route, SendFailure, Signal,
};
use crate::error::LoopError;
use crate::event::{KeyCode, KeyEvent, RawEvent};
use crate::key_set::{MappedKeys, PressedKeys};
use vstd::prelude::*;

verus! {

/// The four phases of the recovery cycle.
#[derive(Clone, Copy, Debug, PartialEq, Eq, Hash, Structural)]
pub enum RecoveryPhase {
    /// Devices are seized and events are being captured.
    Capturing,
    /// The output sink is away; the devices are being handed back.
    Releasing,
    /// The devices are free; the loop polls for the output sink.
    Waiting,
    /// The output sink is back; the devices are being seized again.
    Regrabbing,
}

/// How long the loop sleeps while it waits for the output sink.
#[derive(Clone, Copy, Debug, PartialEq, Eq, Hash, Structural)]
pub struct RecoveryTiming {
    /// Pause before each liveness probe, in milliseconds.
    pub poll_interval_ms: u64,
    /// Pause between the first positive probe and the regrab, in milliseconds.
    /// The sink announces itself in a burst; seizing devices in the middle of
    /// it races with device enumeration.
    pub settle_delay_ms: u64,
}

/// What one read delivered: the raw event, and the key event the device layer
/// made of it, if it recognized one.
#[derive(Clone, Copy, Debug, PartialEq, Eq, Hash)]
pub struct Captured {
    pub raw: RawEvent,
    pub key: Option<KeyEvent>,
}

/// What the caller has to do next.
#[derive(Clone, Copy, Debug, PartialEq, Eq, Hash, Structural)]
pub enum Request {
    /// Open and seize the input devices.
    Open,
    /// Ask the output sink whether it is ready.
    Probe,
    /// Read one event from the devices, blocking until there is one.
    Read,
    /// Run the process-exit check on this event.
    CheckExit(KeyEvent),
    /// Write this raw event to the output sink.
    Write(RawEvent),
    /// Offer this event to the remapping stage, without blocking.
    Send(KeyEvent),
    /// Release the devices, keeping the connection to the output sink.
    Release,
    /// Sleep this long.
    Sleep { millis: u64 },
    /// Seize the devices again, over the connection that is already there.
    Regrab,
    /// Stop: the loop has ended with this error.
    Stop(LoopError),
}

/// What came of the request that was pending.
#[derive(Clone, Copy, Debug, PartialEq, Eq, Hash)]
pub enum Outcome {
    /// The devices were opened, or could not be.
    Opened(bool),
    /// The output sink is ready, or is not.
    Probed(bool),
    /// A read returned.
    Read(Result<Captured, FailureKind>),
    /// The process-exit check has run.
    ExitChecked,
    /// A write to the output sink returned.
    Written(Result<(), FailureKind>),
    /// The remapping stage took the event, or did not.
    Sent(Result<(), SendFailure>),
    /// The devices were released.
    Released,
    /// The sleep is over.
    Slept,
    /// The devices were seized again, or could not be.
    Regrabbed(bool),
}

/// Where the loop stands: which outcome it waits for, and what it has to
/// remember meanwhile.
#[derive(Clone, Copy, Debug, PartialEq, Eq, Hash, Structural)]
pub enum LoopState {
    /// Waiting for the devices to be opened.
    Opening,
    /// Capturing; waiting for the liveness probe that precedes each read.
    Probing,
    /// Capturing; waiting for an event.
    Reading,
    /// Capturing; waiting for the process-exit check on a recognized event.
    Checking { raw: RawEvent, key: KeyEvent },
    /// Capturing; waiting for a raw event to be written to the output sink.
    Writing { raw: RawEvent },
    /// Capturing; waiting for the remapping stage to take an event.
    Sending { event: KeyEvent },
    /// Waiting for the devices to be released.
    Releasing,
    /// Waiting for the output sink; sleeping before the next probe.
    Pausing,
    /// Waiting for the output sink; waiting for a probe.
    Polling,
    /// The output sink is back; letting it settle.
    Settling,
    /// Waiting for the devices to be seized again.
    Regrabbing,
    /// Ended.
    Stopped { error: LoopError },
}

/// The capture loop: its two settings and its state.
#[derive(Clone, Copy, Debug, PartialEq, Eq, Hash, Structural)]
pub struct EventLoop {
    /// Whether hardware repeats are forwarded.
    pub allow_hardware_repeat: bool,
    pub timing: RecoveryTiming,
    pub state: LoopState,
}

/// The state a failure leads to.
pub open spec fn state_after(signal: Signal) -> LoopState {
    match signal {
        Signal::Recover => LoopState::Releasing,
        Signal::Fatal(error) => LoopState::Stopped { error },
    }
}

/// The state in which a route is carried out.
pub open spec fn state_for(route: Route) -> LoopState {
    match route {
        Route::Dropped => LoopState::Probing,
        Route::Passthrough(raw) => LoopState::Writing { raw },
        Route::Downstream(event) => LoopState::Sending { event },
    }
}

impl Default for RecoveryTiming {
    /// Half a second between probes, one second to settle.
    fn default() -> (timing: RecoveryTiming)
        ensures
            timing == (RecoveryTiming { poll_interval_ms: 500, settle_delay_ms: 1000 }),
    {
        RecoveryTiming { poll_interval_ms: 500, settle_delay_ms: 1000 }
    }
}

impl LoopState {
    /// The phase of the recovery cycle that this state belongs to; none before
    /// the devices are open and none once the loop has ended.
    pub open spec fn spec_phase(self) -> Option<RecoveryPhase> {
        match self {
            LoopState::Opening | LoopState::Stopped { .. } => None,
            LoopState::Probing
            | LoopState::Reading
            | LoopState::Checking { .. }
            | LoopState::Writing { .. }
            | LoopState::Sending { .. } => Some(RecoveryPhase::Capturing),
            LoopState::Releasing => Some(RecoveryPhase::Releasing),
            LoopState::Pausing | LoopState::Polling | LoopState::Settling => Some(
                RecoveryPhase::Waiting,
            ),
            LoopState::Regrabbing => Some(RecoveryPhase::Regrabbing),
        }
    }

    /// Whether `outcome` is the one this state waits for.
    pub open spec fn awaits(self, outcome: Outcome) -> bool {
        match self {
            LoopState::Opening => outcome is Opened,
            LoopState::Probing | LoopState::Polling => outcome is Probed,
            LoopState::Reading => outcome is Read,
            LoopState::Checking { .. } => outcome is ExitChecked,
            LoopState::Writing { .. } => outcome is Written,
            LoopState::Sending { .. } => outcome is Sent,
            LoopState::Releasing => outcome is Released,
            LoopState::Pausing | LoopState::Settling => outcome is Slept,
            LoopState::Regrabbing => outcome is Regrabbed,
            LoopState::Stopped { .. } => false,
        }
    }

    /// The phase of the recovery cycle that this state belongs to.
    #[verifier::when_used_as_spec(spec_phase)]
    pub fn phase(self) -> (phase: Option<RecoveryPhase>)
        ensures
            phase == self.spec_phase(),
    {
        match self {
            LoopState::Opening | LoopState::Stopped { .. } => None,
            LoopState::Probing
            | LoopState::Reading
            | LoopState::Checking { .. }
            | LoopState::Writing { .. }
            | LoopState::Sending { .. } => Some(RecoveryPhase::Capturing),
            LoopState::Releasing => Some(RecoveryPhase::Releasing),
            LoopState::Pausing | LoopState::Polling | LoopState::Settling => Some(
                RecoveryPhase::Waiting,
            ),
            LoopState::Regrabbing => Some(RecoveryPhase::Regrabbing),
        }
    }
}

impl EventLoop {
    /// The request that is pending in this state.
    pub open spec fn spec_request(&self) -> Request {
        match self.state {
            LoopState::Opening => Request::Open,
            LoopState::Probing | LoopState::Polling => Request::Probe,
            LoopState::Reading => Request::Read,
            LoopState::Checking { raw, key } => Request::CheckExit(key),
            LoopState::Writing { raw } => Request::Write(raw),
            LoopState::Sending { event } => Request::Send(event),
            LoopState::Releasing => Request::Release,
            LoopState::Pausing => Request::Sleep { millis: self.timing.poll_interval_ms },
            LoopState::Settling => Request::Sleep { millis: self.timing.settle_delay_ms },
            LoopState::Regrabbing => Request::Regrab,
            LoopState::Stopped { error } => Request::Stop(error),
        }
    }

    /// The state that `outcome` leads to, when `mapped` are the mapped keys and
    /// `pressed` the keys held. An outcome that the state does not wait for
    /// leaves it as it is.
    pub open spec fn next_state(
        self,
        outcome: Outcome,
        mapped: Set<KeyCode>,
        pressed: Set<KeyCode>,
    ) -> LoopState {
        match (self.state, outcome) {
            (LoopState::Opening, Outcome::Opened(opened)) => if opened {
                LoopState::Probing
            } else {
                LoopState::Stopped { error: LoopError::OpenFailed }
            },
            (LoopState::Probing, Outcome::Probed(ready)) => if ready {
                LoopState::Reading
            } else {
                LoopState::Releasing
            },
            (LoopState::Reading, Outcome::Read(Ok(captured))) => match captured.key {
                Some(key) => LoopState::Checking { raw: captured.raw, key },
                None => LoopState::Writing { raw: captured.raw },
            },
            (LoopState::Reading, Outcome::Read(Err(kind))) => state_after(read_signal(kind)),
            (LoopState::Checking { raw, key }, Outcome::ExitChecked) => state_for(
                routed(self.allow_hardware_repeat, mapped, pressed, raw, key),
            ),
            (LoopState::Writing { raw }, Outcome::Written(Ok(_))) => LoopState::Probing,
            (LoopState::Writing { raw }, Outcome::Written(Err(kind))) => state_after(
                write_signal(kind),
            ),
            (LoopState::Sending { event }, Outcome::Sent(Ok(_))) => LoopState::Probing,
            (LoopState::Sending { event }, Outcome::Sent(Err(failure))) => LoopState::Stopped {
                error: send_error(failure),
            },
            (LoopState::Releasing, Outcome::Released) => LoopState::Pausing,
            (LoopState::Pausing, Outcome::Slept) => LoopState::Polling,
            (LoopState::Polling, Outcome::Probed(ready)) => if ready {
                LoopState::Settling
            } else {
                LoopState::Pausing
            },
            (LoopState::Settling, Outcome::Slept) => LoopState::Regrabbing,
            (LoopState::Regrabbing, Outcome::Regrabbed(seized)) => if seized {
                LoopState::Probing
            } else {
                LoopState::Stopped { error: LoopError::RegrabFailed }
            },
            _ => self.state,
        }
    }

    /// The keys held after `outcome`: they change only when a recognized event
    /// is routed.
    pub open spec fn next_pressed(
        self,
        outcome: Outcome,
        mapped: Set<KeyCode>,
        pressed: Set<KeyCode>,
    ) -> Set<KeyCode> {
        match (self.state, outcome) {
            (LoopState::Checking { raw, key }, Outcome::ExitChecked) => pressed_after_route(
                self.allow_hardware_repeat,
                mapped,
                pressed,
                key,
            ),
            _ => pressed,
        }
    }

    /// The loop after `outcome`: same settings, next state.
    pub open spec fn next(
        self,
        outcome: Outcome,
        mapped: Set<KeyCode>,
        pressed: Set<KeyCode>,
    ) -> EventLoop {
        EventLoop { state: self.next_state(outcome, mapped, pressed), ..self }
    }

    /// A loop that has not opened its devices yet.
    pub fn new(allow_hardware_repeat: bool, timing: RecoveryTiming) -> (machine: EventLoop)
        ensures
            machine == (EventLoop { allow_hardware_repeat, timing, state: LoopState::Opening }),
    {
        EventLoop { allow_hardware_repeat, timing, state: LoopState::Opening }
    }

    /// The request that is pending.
    #[verifier::when_used_as_spec(spec_request)]
    pub fn request(&self) -> (request: Request)
        ensures
            request == self.spec_request(),
    {
        match self.state {
            LoopState::Opening => Request::Open,
            LoopState::Probing | LoopState::Polling => Request::Probe,
            LoopState::Reading => Request::Read,
            LoopState::Checking { raw: _, key } => Request::CheckExit(key),
            LoopState::Writing { raw } => Request::Write(raw),
            LoopState::Sending { event } => Request::Send(event),
            LoopState::Releasing => Request::Release,
            LoopState::Pausing => Request::Sleep { millis: self.timing.poll_interval_ms },
            LoopState::Settling => Request::Sleep { millis: self.timing.settle_delay_ms },
            LoopState::Regrabbing => Request::Regrab,
            LoopState::Stopped { error } => Request::Stop(error),
        }
    }

    /// Takes the outcome of the pending request and returns the next request.
    ///
    /// `mapped` is read, and `pressed` changed, only when the outcome is that
    /// the process-exit check has run on a recognized event: that is the
    /// moment the event is routed.
    pub fn step(
        &mut self,
        outcome: Outcome,
        mapped: &MappedKeys,
        pressed: &mut PressedKeys,
    ) -> (request: Request)
        ensures
            *final(self) == old(self).next(outcome, mapped@, old(pressed)@),
            final(pressed)@ == old(self).next_pressed(outcome, mapped@, old(pressed)@),
            request == final(self).spec_request(),
    {
        let next = match (self.state, outcome) {
            (LoopState::Opening, Outcome::Opened(opened)) => if opened {
                LoopState::Probing
            } else {
                LoopState::Stopped { error: LoopError::OpenFailed }
            },
            (LoopState::Probing, Outcome::Probed(ready)) => if ready {
                LoopState::Reading
            } else {
                LoopState::Releasing
            },
            (LoopState::Reading, Outcome::Read(Ok(captured))) => match captured.key {
                Some(key) => LoopState::Checking { raw: captured.raw, key },
                None => LoopState::Writing { raw: captured.raw },
            },
            (LoopState::Reading, Outcome::Read(Err(kind))) => after(classify_read_failure(kind)),
            (LoopState::Checking { raw, key }, Outcome::ExitChecked) => {
                match route(self.allow_hardware_repeat, mapped, pressed, raw, key) {
                    Route::Dropped => LoopState::Probing,
                    Route::Passthrough(raw) => LoopState::Writing { raw },
                    Route::Downstream(event) => LoopState::Sending { event },
                }
            },
            (LoopState::Writing { raw: _ }, Outcome::Written(Ok(_))) => LoopState::Probing,
            (LoopState::Writing { raw: _ }, Outcome::Written(Err(kind))) => after(
                classify_write_failure(kind),
            ),
            (LoopState::Sending { event: _ }, Outcome::Sent(Ok(_))) => LoopState::Probing,
            (LoopState::Sending { event: _ }, Outcome::Sent(Err(failure))) => LoopState::Stopped {
                error: classify_send_failure(failure),
            },
            (LoopState::Releasing, Outcome::Released) => LoopState::Pausing,
            (LoopState::Pausing, Outcome::Slept) => LoopState::Polling,
            (LoopState::Polling, Outcome::Probed(ready)) => if ready {
                LoopState::Settling
            } else {
                LoopState::Pausing
            },
            (LoopState::Settling, Outcome::Slept) => LoopState::Regrabbing,
            (LoopState::Regrabbing, Outcome::Regrabbed(seized)) => if seized {
                LoopState::Probing
            } else {
                LoopState::Stopped { error: LoopError::RegrabFailed }
            },
            (state, _) => state,
        };
        self.state = next;
        self.request()
    }
}

/// The loop ends only on one of six outcomes, and each has its own error: the
/// devices could not be opened; a read failed otherwise than by end of stream;
/// a write failed otherwise than by a lost connection; the remapping stage did
/// not take an event, its channel being full, or closed; the devices could not
/// be seized again.
pub proof fn law_what_ends_the_loop(
    machine: EventLoop,
    outcome: Outcome,
    mapped: Set<KeyCode>,
    pressed: Set<KeyCode>,
    error: LoopError,
)
    requires
        !(machine.state is Stopped),
    ensures
        machine.next_state(outcome, mapped, pressed) == (LoopState::Stopped { error }) <==> (match error {
            LoopError::OpenFailed => machine.state is Opening && outcome == Outcome::Opened(false),
            LoopError::ReadFailed => machine.state is Reading && (outcome matches Outcome::Read(
                Err(kind),
            ) && !(kind is UnexpectedEof)),
            LoopError::WriteFailed => machine.state is Writing && (outcome matches Outcome::Written(
                Err(kind),
            ) && !(kind is NotConnected)),
            LoopError::ChannelFull => machine.state is Sending && outcome == Outcome::Sent(
                Err(SendFailure::Full),
            ),
            LoopError::ChannelClosed => machine.state is Sending && outcome == Outcome::Sent(
                Err(SendFailure::Closed),
            ),
            LoopError::RegrabFailed => machine.state is Regrabbing && outcome == Outcome::Regrabbed(
                false,
            ),
        }),
{
}

/// A capturing loop turns to release the devices on exactly three outcomes:
/// the probe before a read finds the output sink not ready; a read ends by end
/// of stream; a write fails by a lost connection.
pub proof fn law_what_begins_a_recovery(
    machine: EventLoop,
    outcome: Outcome,
    mapped: Set<KeyCode>,
    pressed: Set<KeyCode>,
)
    requires
        machine.state.phase() == Some(RecoveryPhase::Capturing),
    ensures
        machine.next_state(outcome, mapped, pressed) is Releasing <==> ({
            ||| machine.state is Probing && outcome == Outcome::Probed(false)
            ||| machine.state is Reading && outcome == Outcome::Read(
                Err(FailureKind::UnexpectedEof),
            )
            ||| machine.state is Writing && outcome == Outcome::Written(
                Err(FailureKind::NotConnected),
            )
        }),
{
}

/// The phases follow each other in one cycle: capturing, releasing, waiting,
/// regrabbing, and capturing again. A step stays in its phase or moves to the
/// next one. Only a capturing or a regrabbing loop can end: releasing cannot
/// fail, and waiting goes on for as long as the output sink is away.
pub proof fn law_phases_follow_the_cycle(
    machine: EventLoop,
    outcome: Outcome,
    mapped: Set<KeyCode>,
    pressed: Set<KeyCode>,
)
    ensures
        ({
            let next = machine.next_state(outcome, mapped, pressed);
            match machine.state.phase() {
                Some(RecoveryPhase::Capturing) => {
                    ||| next.phase() == Some(RecoveryPhase::Capturing)
                    ||| next.phase() == Some(RecoveryPhase::Releasing)
                    ||| next is Stopped
                },
                Some(RecoveryPhase::Releasing) => {
                    ||| next.phase() == Some(RecoveryPhase::Releasing)
                    ||| next.phase() == Some(RecoveryPhase::Waiting)
                },
                Some(RecoveryPhase::Waiting) => {
                    ||| next.phase() == Some(RecoveryPhase::Waiting)
                    ||| next.phase() == Some(RecoveryPhase::Regrabbing)
                },
                Some(RecoveryPhase::Regrabbing) => {
                    ||| next.phase() == Some(RecoveryPhase::Regrabbing)
                    ||| next.phase() == Some(RecoveryPhase::Capturing)
                    ||| next is Stopped
                },
                None => {
                    ||| next == machine.state
                    ||| machine.state is Opening && next.phase() == Some(RecoveryPhase::Capturing)
                    ||| machine.state is Opening && next is Stopped
                },
            }
        }),
{
}

/// An outcome that the loop does not wait for changes neither the loop nor the
/// held keys.
pub proof fn law_unawaited_outcome_is_ignored(
    machine: EventLoop,
    outcome: Outcome,
    mapped: Set<KeyCode>,
    pressed: Set<KeyCode>,
)
    requires
        !machine.state.awaits(outcome),
    ensures
        machine.next(outcome, mapped, pressed) == machine,
        machine.next_pressed(outcome, mapped, pressed) == pressed,
{
}

/// The devices and the remapping stage are touched only while the loop is
/// capturing: in every other phase it asks for no read, no exit check, no
/// write and no send.
pub proof fn law_events_move_only_while_capturing(machine: EventLoop)
    requires
        machine.state.phase() != Some(RecoveryPhase::Capturing),
    ensures
        !(machine.request() is Read),
        !(machine.request() is CheckExit),
        !(machine.request() is Write),
        !(machine.request() is Send),
{
}

/// The state a failure leads to.
fn after(signal: Signal) -> (state: LoopState)
    ensures
        state == state_after(signal),
{
    match signal {
        Signal::Recover => LoopState::Releasing,
        Signal::Fatal(error) => LoopState::Stopped { error },
    }
}

} // verus!
