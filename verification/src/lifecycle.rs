//! Who owns the running backend.
//!
//! The handle of the backend process lives in one slot for as long as the
//! application runs. Tearing down takes the handle out of the slot, so that
//! the process is terminated by whoever emptied the slot, and by nobody else.

use vstd::prelude::*;

verus! {

/// The single place that holds the handle of the backend process.
///
/// `H` is whatever the caller needs to terminate and await the process.
pub struct BackendSlot<H> {
    pub handle: Option<H>,
}

impl<H> BackendSlot<H> {
    /// The slot and the handle to terminate after a teardown of `self`:
    /// the slot is empty, the handle is the one that the slot held.
    pub open spec fn torn_down(self) -> (BackendSlot<H>, Option<H>) {
        (BackendSlot { handle: None }, self.handle)
    }

    /// A slot without a backend.
    pub fn empty() -> (slot: BackendSlot<H>)
        ensures
            slot.handle is None,
    {
        BackendSlot { handle: None }
    }

    /// A slot that owns the backend behind `handle`.
    pub fn holding(handle: H) -> (slot: BackendSlot<H>)
        ensures
            slot.handle == Some(handle),
    {
        BackendSlot { handle: Some(handle) }
    }

    /// Whether the slot owns a backend.
    pub fn is_occupied(&self) -> (occupied: bool)
        ensures
            occupied == self.handle is Some,
    {
        self.handle.is_some()
    }

    /// Tears the slot down: empties it and hands out the handle it held, for
    /// the caller to terminate and await the process.
    ///
    /// On an empty slot this does nothing and hands out nothing.
    pub fn teardown(&mut self) -> (handle: Option<H>)
        ensures
            (*final(self), handle) == old(self).torn_down(),
    {
        self.handle.take()
    }
}

/// Teardown hands a handle out at most once: whatever the slot held, a
/// second teardown finds the slot empty, hands out nothing and leaves the
/// slot as it was.
pub proof fn lemma_teardown_once<H>(slot: BackendSlot<H>)
    ensures
        slot.torn_down().0.torn_down().1 is None,
        slot.torn_down().0.torn_down().0 == slot.torn_down().0,
        slot.torn_down().1 == slot.handle,
{
}

} // verus!
