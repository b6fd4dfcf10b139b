//! The values that travel through the capture loop.

use vstd::prelude::*;

verus! {

/// A key as the remapping stage names it.
#[derive(Clone, Copy, Debug, PartialEq, Eq, Hash, Structural)]
pub struct KeyCode(pub u16);

/// What happened to a key.
#[derive(Clone, Copy, Debug, PartialEq, Eq, Hash, Structural)]
pub enum KeyValue {
    Release,
    Press,
    Repeat,
}

/// A normalized key event: the unit the remapping stage consumes.
#[derive(Clone, Copy, Debug, PartialEq, Eq, Hash, Structural)]
pub struct KeyEvent {
    pub code: KeyCode,
    pub value: KeyValue,
}

/// An input event as the device layer delivered it.
///
/// The capture loop never looks inside: it either forwards the event to the
/// output sink exactly as it came, or works on the [`KeyEvent`] that the
/// device layer derived from it.
#[derive(Clone, Copy, Debug, PartialEq, Eq, Hash, Structural)]
pub struct RawEvent {
    pub device: u64,
    pub page: u32,
    pub code: u32,
    pub value: u64,
}

impl KeyEvent {
    /// Builds the event for `code` with the given `value`.
    pub fn new(code: KeyCode, value: KeyValue) -> (event: KeyEvent)
        ensures
            event == (KeyEvent { code, value }),
    {
        KeyEvent { code, value }
    }
}

} // verus!
