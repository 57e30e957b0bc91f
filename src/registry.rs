//! The single slot that names the active session.
//!
//! The host keeps one registry behind a lock; every operation here is a short,
//! I/O-free step taken while that lock is held. The last spawn wins the slot.

use vstd::prelude::*;

verus! {

/// Holds the process id of the most recently spawned session, if it is still
/// tracked.
pub struct ProcessRegistry {
    slot: Option<u32>,
}

impl View for ProcessRegistry {
    type V = Option<u32>;

    closed spec fn view(&self) -> Option<u32> {
        self.slot
    }
}

impl ProcessRegistry {
    /// An empty registry.
    pub fn new() -> (r: ProcessRegistry)
        ensures
            r@ == None::<u32>,
    {
        ProcessRegistry { slot: None }
    }

    /// Records `id` as the active session, replacing whatever was there.
    pub fn set(&mut self, id: u32)
        ensures
            final(self)@ == Some(id),
    {
        self.slot = Some(id);
    }

    /// Reads and clears the slot in one step.
    pub fn take(&mut self) -> (r: Option<u32>)
        ensures
            r == old(self)@,
            final(self)@ == None::<u32>,
    {
        let r = self.slot;
        self.slot = None;
        r
    }

    /// Empties the slot.
    pub fn clear(&mut self)
        ensures
            final(self)@ == None::<u32>,
    {
        self.slot = None;
    }

    /// The id of the active session, if any.
    pub fn current(&self) -> (r: Option<u32>)
        ensures
            r == self@,
    {
        self.slot
    }
}

} // verus!
