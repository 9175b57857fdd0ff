//! A typed model of the per-extension data slot.
//!
//! The bindings layer gives every extension one single-cell store, written
//! with `set` and read back with a type hint. The store itself is
//! type-erased, and reading it at a type other than the one last written
//! is a contract violation with undefined effect; the extension must
//! guarantee type monomorphism itself. This module is how this plugin
//! does so: a slot of a fixed element type `T`, so that every write and
//! every read go through the same type by construction, and the
//! round-trip behaviour is stated and proved.

use vstd::prelude::*;

verus! {

/// The slot state after a write of `v`: the old contents are replaced.
pub open spec fn slot_write<T>(state: Option<T>, v: T) -> Option<T> {
    Some(v)
}

/// What a read observes of slot state `state`.
pub open spec fn slot_read<T>(state: Option<T>) -> Option<T> {
    state
}

/// The per-extension data slot, monomorphic in its element type.
///
/// Its view is its contents: `None` while the slot has never been
/// written, `Some(v)` once `v` is stored.
pub struct DataSlot<T> {
    value: Option<T>,
}

impl<T> View for DataSlot<T> {
    type V = Option<T>;

    closed spec fn view(&self) -> Option<T> {
        self.value
    }
}

impl<T> DataSlot<T> {
    /// A slot as it is at plugin load: empty.
    pub fn new() -> (slot: Self)
        ensures
            slot@ is None,
    {
        DataSlot { value: None }
    }

    /// Stores `v`, replacing whatever the slot held.
    pub fn set(&mut self, v: T)
        ensures
            final(self)@ == slot_write(old(self)@, v),
    {
        self.value = Some(v);
    }

    /// Reads the slot without consuming it: a reference to the stored
    /// value, or `None` while the slot has never been written.
    pub fn get(&self) -> (r: Option<&T>)
        ensures
            r is Some <==> slot_read(self@) is Some,
            r is Some ==> r->0 == slot_read(self@)->0,
    {
        self.value.as_ref()
    }
}

/// Data-slot round trip: a read after a write of `v` observes exactly
/// `v`, whatever the slot held before. A write at a different type cannot
/// intervene, because a slot carries one element type.
pub proof fn lemma_slot_round_trip<T>(state: Option<T>, v: T)
    ensures
        slot_read(slot_write(state, v)) == Some(v),
{
}

} // verus!
