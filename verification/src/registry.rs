//! The process handle registry: one optional slot for the managed process.

use vstd::prelude::*;

verus! {

/// A single slot that holds the handle of the managed process, if one is
/// alive. `P` is whatever the caller uses to terminate a process later.
///
/// The slot is handed from the party that kills the old process to the party
/// that stores the new one through `take` and `put`; exclusive access for the
/// length of one such call is all the registry asks for.
pub struct Registry<P> {
    slot: Option<P>,
}

impl<P> View for Registry<P> {
    type V = Option<P>;

    closed spec fn view(&self) -> Option<P> {
        self.slot
    }
}

impl<P> Registry<P> {
    /// An empty registry.
    pub fn new() -> (registry: Self)
        ensures
            registry@ is None,
    {
        Registry { slot: None }
    }

    /// Whether a process is stored.
    pub fn is_occupied(&self) -> (occupied: bool)
        ensures
            occupied == (self@ is Some),
    {
        self.slot.is_some()
    }

    /// Removes the occupant and returns it; the slot is empty afterwards.
    pub fn take(&mut self) -> (taken: Option<P>)
        ensures
            taken == old(self)@,
            final(self)@ is None,
    {
        self.slot.take()
    }

    /// Stores `process`. Whatever the slot held before is dropped, so the
    /// caller takes and disposes of the previous occupant first.
    pub fn put(&mut self, process: P)
        ensures
            final(self)@ == Some(process),
    {
        self.slot = Some(process);
    }
}

} // verus!
