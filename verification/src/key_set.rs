//! Sets of key codes: the keys that are mapped, and the keys that are held.

use crate::event::KeyCode;
use std::collections::HashSet;
use vstd::prelude::*;

verus! {

broadcast use vstd::std_specs::hash::group_hash_axioms;

/// A finite set of key codes.
///
/// Its view is the mathematical set of the codes it holds.
pub struct KeySet {
    codes: HashSet<u16>,
}

/// The keys that the active configuration remaps. The capture loop only reads it.
pub type MappedKeys = KeySet;

/// The keys currently held down. Only the key-state tracker changes it.
pub type PressedKeys = KeySet;

impl View for KeySet {
    type V = Set<KeyCode>;

    closed spec fn view(&self) -> Set<KeyCode> {
        Set::new(|code: KeyCode| self.codes@.contains(code.0))
    }
}

impl KeySet {
    /// The empty set.
    pub fn new() -> (set: KeySet)
        ensures
            set@ == Set::<KeyCode>::empty(),
    {
        let set = KeySet { codes: HashSet::new() };
        assert(set@ =~= Set::<KeyCode>::empty());
        set
    }

    /// Whether `code` is in the set.
    pub fn contains(&self, code: KeyCode) -> (found: bool)
        ensures
            found == self@.contains(code),
    {
        self.codes.contains(&code.0)
    }

    /// Adds `code`; returns whether it was absent before.
    pub fn insert(&mut self, code: KeyCode) -> (added: bool)
        ensures
            final(self)@ == old(self)@.insert(code),
            added == !old(self)@.contains(code),
    {
        let added = self.codes.insert(code.0);
        assert(self@ =~= old(self)@.insert(code));
        added
    }

    /// Takes `code` out; returns whether it was present before. Removing an
    /// absent code changes nothing.
    pub fn remove(&mut self, code: KeyCode) -> (removed: bool)
        ensures
            final(self)@ == old(self)@.remove(code),
            removed == old(self)@.contains(code),
    {
        let removed = self.codes.remove(&code.0);
        assert(self@ =~= old(self)@.remove(code));
        removed
    }
}

} // verus!
