//! What the capture loop does with one event, and with one failure.

use crate::error::LoopError;
use crate::event::{KeyCode, KeyEvent, KeyValue, RawEvent};
use crate::key_set::{MappedKeys, PressedKeys};
use crate::tracker::{pressed_after, resolve, resolved};
use vstd::prelude::*;

verus! {

/// Where a captured key event goes.
#[derive(Clone, Copy, Debug, PartialEq, Eq, Hash, Structural)]
pub enum Route {
    /// Nowhere: a hardware repeat while repeats are not forwarded.
    Dropped,
    /// To the output sink, as the raw event that was captured.
    Passthrough(RawEvent),
    /// To the remapping stage, as the event the key-state tracker made of it.
    Downstream(KeyEvent),
}

/// Why a read or a write failed, as far as the loop cares.
#[derive(Clone, Copy, Debug, PartialEq, Eq, Hash, Structural)]
pub enum FailureKind {
    /// The stream ended.
    UnexpectedEof,
    /// The other side is not connected.
    NotConnected,
    /// Anything else.
    Other,
}

/// Why the downstream stage did not take an event.
#[derive(Clone, Copy, Debug, PartialEq, Eq, Hash, Structural)]
pub enum SendFailure {
    /// Its channel is full.
    Full,
    /// Its channel is closed.
    Closed,
}

/// What a failure means for the loop.
#[derive(Clone, Copy, Debug, PartialEq, Eq, Hash, Structural)]
pub enum Signal {
    /// The output sink is away: release the devices and wait for it.
    Recover,
    /// The loop cannot go on.
    Fatal(LoopError),
}

/// Whether a key event is a hardware repeat that must not be forwarded.
pub open spec fn suppressed(allow_hardware_repeat: bool, key: KeyEvent) -> bool {
    key.value is Repeat && !allow_hardware_repeat
}

/// Where `key`, captured as `raw`, goes.
///
/// A suppressed repeat is dropped before anything else is looked at. A key
/// that is not mapped leaves as the raw event it came as. A mapped key passes
/// the key-state tracker and goes downstream.
pub open spec fn routed(
    allow_hardware_repeat: bool,
    mapped: Set<KeyCode>,
    pressed: Set<KeyCode>,
    raw: RawEvent,
    key: KeyEvent,
) -> Route {
    if suppressed(allow_hardware_repeat, key) {
        Route::Dropped
    } else if !mapped.contains(key.code) {
        Route::Passthrough(raw)
    } else {
        Route::Downstream(resolved(pressed, key))
    }
}

/// The keys held once `key` has been routed: only an event that goes
/// downstream passes the tracker.
pub open spec fn pressed_after_route(
    allow_hardware_repeat: bool,
    mapped: Set<KeyCode>,
    pressed: Set<KeyCode>,
    key: KeyEvent,
) -> Set<KeyCode> {
    if !suppressed(allow_hardware_repeat, key) && mapped.contains(key.code) {
        pressed_after(pressed, key)
    } else {
        pressed
    }
}

/// What a failed read means: end of stream is the sign that the devices were
/// released; any other failure is fatal.
pub open spec fn read_signal(kind: FailureKind) -> Signal {
    if kind is UnexpectedEof {
        Signal::Recover
    } else {
        Signal::Fatal(LoopError::ReadFailed)
    }
}

/// What a failed write means: a lost connection is the sign that the output
/// sink is away; any other failure is fatal.
pub open spec fn write_signal(kind: FailureKind) -> Signal {
    if kind is NotConnected {
        Signal::Recover
    } else {
        Signal::Fatal(LoopError::WriteFailed)
    }
}

/// The error that a refused downstream send ends the loop with.
pub open spec fn send_error(failure: SendFailure) -> LoopError {
    match failure {
        SendFailure::Full => LoopError::ChannelFull,
        SendFailure::Closed => LoopError::ChannelClosed,
    }
}

/// Decides where `key`, captured as `raw`, goes, and updates the held keys if
/// it goes downstream.
pub fn route(
    allow_hardware_repeat: bool,
    mapped: &MappedKeys,
    pressed: &mut PressedKeys,
    raw: RawEvent,
    key: KeyEvent,
) -> (route: Route)
    ensures
        route == routed(allow_hardware_repeat, mapped@, old(pressed)@, raw, key),
        final(pressed)@ == pressed_after_route(allow_hardware_repeat, mapped@, old(pressed)@, key),
{
    let repeat = match key.value {
        KeyValue::Repeat => true,
        _ => false,
    };
    if repeat && !allow_hardware_repeat {
        Route::Dropped
    } else if !mapped.contains(key.code) {
        Route::Passthrough(raw)
    } else {
        Route::Downstream(resolve(pressed, key))
    }
}

/// Classifies a failed read.
pub fn classify_read_failure(kind: FailureKind) -> (signal: Signal)
    ensures
        signal == read_signal(kind),
{
    match kind {
        FailureKind::UnexpectedEof => Signal::Recover,
        _ => Signal::Fatal(LoopError::ReadFailed),
    }
}

/// Classifies a failed write.
pub fn classify_write_failure(kind: FailureKind) -> (signal: Signal)
    ensures
        signal == write_signal(kind),
{
    match kind {
        FailureKind::NotConnected => Signal::Recover,
        _ => Signal::Fatal(LoopError::WriteFailed),
    }
}

/// Names the error for a refused downstream send.
pub fn classify_send_failure(failure: SendFailure) -> (error: LoopError)
    ensures
        error == send_error(failure),
{
    match failure {
        SendFailure::Full => LoopError::ChannelFull,
        SendFailure::Closed => LoopError::ChannelClosed,
    }
}

/// A key that is not mapped leaves as the raw event it was captured as, does
/// not go downstream and leaves the held keys alone, unless it is a suppressed
/// repeat, which is dropped first.
pub proof fn law_unmapped_passes_through(
    allow_hardware_repeat: bool,
    mapped: Set<KeyCode>,
    pressed: Set<KeyCode>,
    raw: RawEvent,
    key: KeyEvent,
)
    requires
        !mapped.contains(key.code),
        !suppressed(allow_hardware_repeat, key),
    ensures
        routed(allow_hardware_repeat, mapped, pressed, raw, key) == Route::Passthrough(raw),
        pressed_after_route(allow_hardware_repeat, mapped, pressed, key) == pressed,
{
}

/// A hardware repeat goes nowhere while repeats are not forwarded, mapped or
/// not, and leaves the held keys alone.
pub proof fn law_suppressed_repeat_is_dropped(
    mapped: Set<KeyCode>,
    pressed: Set<KeyCode>,
    raw: RawEvent,
    key: KeyEvent,
)
    requires
        key.value is Repeat,
    ensures
        routed(false, mapped, pressed, raw, key) == Route::Dropped,
        pressed_after_route(false, mapped, pressed, key) == pressed,
{
}

} // verus!
