//! Opaque identifiers correlating a tracker with its registry entry.

use vstd::prelude::*;

verus! {

/// An opaque identifier for one registration of a tracker in a registry.
///
/// A handle wraps a 64-bit counter value issued by the registry that created
/// it. Handles carry no meaning beyond identity: they are compared by value
/// equality only, and a registry never issues the same value twice.
///
/// Uniqueness is per issuing registry, not process-wide: two registries
/// count independently and issue overlapping values. A handle is therefore
/// only meaningful to the registry that issued it, and the subject and
/// tracker facades of this crate never present a handle to any other.
#[derive(Debug, Clone, Copy, PartialEq, Eq, Structural)]
pub struct TrackerHandle(u64);

impl TrackerHandle {
    /// The counter value this handle wraps.
    pub closed spec fn id(self) -> u64 {
        self.0
    }

    /// Wraps a counter value issued by a registry.
    pub(crate) fn new(id: u64) -> (handle: Self)
        ensures
            handle.id() == id,
    {
        TrackerHandle(id)
    }
}

} // verus!
