//! Threadsafe variant of [`OutputTracker`] and [`OutputSubject`].
//!
//! The registry and every tracker store sit behind reader-writer locks, so
//! `create_tracker`, `emit`, `output`, `clear` and `stop` may be called from
//! different threads at the same time without external synchronization.
//! `emit` holds the registry lock exclusively for the whole broadcast, so
//! concurrent emits are fully serialized — no interleaving within one
//! emit's broadcast is possible — while the relative order of two
//! concurrent `emit` calls is whatever order they acquire the registry.
//!
//! The locks cannot be poisoned: none of this crate's verified operations
//! can panic while holding one, so no operation of this variant ever
//! reports an [`Error`] for a lock. The one piece of unverified code that
//! runs under the registry lock is the item type's own `clone`, during
//! `emit`; if it panics, the lock is never released, and later operations
//! on the same subject spin forever instead of reporting poison.

use vstd::prelude::*;
use vstd::rwlock::{RwLock, RwLockPredicate};
use crate::inner_subject::BasicSubject;
use crate::inner_tracker::{BasicTracker, Tracker};
use crate::tracker_handle::TrackerHandle;
use std::sync::Arc;

verus! {

/// Error type for the threadsafe [`OutputTracker`] and [`OutputSubject`].
///
/// A lock could only fail by poisoning, that is, if a previous holder had
/// panicked while holding it; none of this crate's verified operations can
/// panic while holding a lock, so these errors are never produced for a
/// lock. See the module documentation for what happens if an item's own
/// `clone` panics during a broadcast.
#[derive(Debug, Clone, Copy, PartialEq, Eq)]
pub enum Error {
    /// Failed to obtain the lock for the tracker.
    LockTrackerFailed,
    /// Failed to obtain the lock for the subject.
    LockSubjectFailed,
}

/// Lock predicate for one tracker store: any contents are admissible.
struct StorePred;

impl<M> RwLockPredicate<BasicTracker<M>> for StorePred {
    open spec fn inv(self, store: BasicTracker<M>) -> bool {
        true
    }
}

/// Lock predicate for the registry: the registry invariant holds, so the
/// registered handles stay pairwise distinct whoever holds the lock.
struct SubjectPred;

impl<M> RwLockPredicate<BasicSubject<M, ThreadsafeTracker<M>>> for SubjectPred {
    open spec fn inv(self, subject: BasicSubject<M, ThreadsafeTracker<M>>) -> bool {
        subject.wf()
    }
}

/// Relies on `Arc::clone`: the returned handle shares the allocation of its
/// argument, so as a value it is equal to it.
#[verifier::external_body]
fn arc_share<T>(arc: &Arc<T>) -> (shared: Arc<T>)
    ensures
        shared == *arc,
{
    Arc::clone(arc)
}

/// A shared handle to one tracker store behind a reader-writer lock.
struct ThreadsafeTracker<M> {
    cell: Arc<RwLock<BasicTracker<M>, StorePred>>,
}

impl<M> ThreadsafeTracker<M> {
    /// Creates a new, empty store and the first handle to it.
    fn new() -> (tracker: Self) {
        ThreadsafeTracker { cell: Arc::new(RwLock::new(BasicTracker::new(), Ghost(StorePred))) }
    }

    /// Another handle to the same store.
    fn share(&self) -> (other: Self)
        ensures
            other == *self,
    {
        ThreadsafeTracker { cell: arc_share(&self.cell) }
    }

    /// Appends `data` to the shared store, after everything recorded before.
    fn record(&self, data: M) {
        let (mut store, write_handle) = self.cell.acquire_write();
        store.track(data);
        write_handle.release_write(store);
    }

    /// A copy of the items the shared store holds, in recording order.
    fn read_all(&self) -> (items: Vec<M>) where M: Clone {
        let read_handle = self.cell.acquire_read();
        let items = read_handle.borrow().snapshot();
        read_handle.release_read();
        items
    }

    /// Empties the shared store.
    fn clear_all(&self) {
        let (mut store, write_handle) = self.cell.acquire_write();
        store.clear();
        write_handle.release_write(store);
    }
}

/// A shared handle to the registry behind a reader-writer lock.
struct ThreadsafeSubject<M> {
    cell: Arc<RwLock<BasicSubject<M, ThreadsafeTracker<M>>, SubjectPred>>,
}

impl<M> ThreadsafeSubject<M> {
    /// Creates an empty registry and the first handle to it.
    fn new() -> (subject: Self) {
        ThreadsafeSubject {
            cell: Arc::new(RwLock::new(BasicSubject::new(), Ghost(SubjectPred))),
        }
    }

    /// Another handle to the same registry.
    fn share(&self) -> (other: Self)
        ensures
            other == *self,
    {
        ThreadsafeSubject { cell: arc_share(&self.cell) }
    }
}

/// Collects emitted data of any kind.
///
/// This is the threadsafe variant.
///
/// The tracked data can be read any time and as often as needed by calling
/// [`output()`][OutputTracker::output]; each call returns everything
/// collected so far, in emission order. [`clear()`][OutputTracker::clear]
/// discards what was collected so far without deregistering the tracker, and
/// [`stop()`][OutputTracker::stop] deregisters it for good: data emitted
/// after a stop no longer reaches this tracker, while the data it already
/// collected stays readable.
pub struct OutputTracker<M> {
    handle: TrackerHandle,
    inner: ThreadsafeTracker<M>,
    subject: ThreadsafeSubject<M>,
}

impl<M> OutputTracker<M> {
    fn new(
        handle: TrackerHandle,
        inner: ThreadsafeTracker<M>,
        subject: ThreadsafeSubject<M>,
    ) -> (tracker: Self) {
        OutputTracker { handle, inner, subject }
    }

    /// Stops this tracker: data emitted afterwards is no longer collected.
    ///
    /// Removes this tracker's own registration and no other. Stopping is
    /// idempotent: once the handle is no longer registered, further calls
    /// change nothing, and every call succeeds.
    pub fn stop(&self) -> (result: Result<(), Error>)
        ensures
            result is Ok,
    {
        let (mut registry, write_handle) = self.subject.cell.acquire_write();
        registry.remove_tracker(self.handle);
        write_handle.release_write(registry);
        Ok(())
    }

    /// Discards the data collected so far; data emitted afterwards is still
    /// collected if the tracker is still registered. Always succeeds.
    pub fn clear(&self) -> (result: Result<(), Error>)
        ensures
            result is Ok,
    {
        self.inner.clear_all();
        Ok(())
    }

    /// The data collected since the tracker was created or last cleared, in
    /// emission order. Always succeeds, also after [`stop()`][Self::stop].
    pub fn output(&self) -> (result: Result<Vec<M>, Error>) where M: Clone
        ensures
            result is Ok,
    {
        Ok(self.inner.read_all())
    }
}

/// Holds created [`OutputTracker`]s and emits data to all of them.
///
/// This is the threadsafe variant.
///
/// New trackers are created with
/// [`create_tracker()`][OutputSubject::create_tracker];
/// [`emit(data)`][OutputSubject::emit] hands one clone of `data` to every
/// tracker that is registered and not stopped, in registration order.
/// Cloning the subject yields another handle to the same registry.
pub struct OutputSubject<M> {
    inner: ThreadsafeSubject<M>,
}

impl<M> OutputSubject<M> {
    /// Constructs a subject with no trackers.
    #[must_use]
    pub fn new() -> (subject: Self) {
        OutputSubject { inner: ThreadsafeSubject::new() }
    }
}

impl<M> Clone for OutputSubject<M> {
    /// Another handle to the same subject: trackers created through either
    /// handle receive what is emitted through both.
    fn clone(&self) -> (other: Self)
        ensures
            other == *self,
    {
        OutputSubject { inner: self.inner.share() }
    }
}

impl<M> Default for OutputSubject<M> {
    /// Constructs a subject with no trackers, as [`new()`][Self::new] does.
    fn default() -> (subject: Self) {
        OutputSubject::new()
    }
}

impl<M: Clone> OutputSubject<M> {
    /// Creates a new [`OutputTracker`] registered with this subject, under a
    /// handle distinct from that of every tracker created before.
    ///
    /// Fails only in the unreachable case that this subject has issued all
    /// `u64::MAX` handles, so that no fresh registration is possible.
    pub fn create_tracker(&self) -> (result: Result<OutputTracker<M>, Error>)
        ensures
            result matches Err(e) ==> e is LockSubjectFailed,
    {
        let tracker = ThreadsafeTracker::new();
        let shared = tracker.share();
        let (mut registry, write_handle) = self.inner.cell.acquire_write();
        let added = registry.try_add_tracker(shared);
        write_handle.release_write(registry);
        match added {
            Some(handle) => Ok(OutputTracker::new(handle, tracker, self.inner.share())),
            None => Err(Error::LockSubjectFailed),
        }
    }

    /// Hands one clone of `data` to every registered tracker, in
    /// registration order. Always succeeds.
    ///
    /// The registry lock is held exclusively for the whole broadcast, so two
    /// concurrent emits are fully serialized: one completes before the next
    /// one reaches any tracker.
    pub fn emit(&self, data: M) -> (result: Result<(), Error>)
        ensures
            result is Ok,
    {
        let (registry, write_handle) = self.inner.cell.acquire_write();
        let count = registry.trackers().len();
        let mut index: usize = 0;
        while index < count
            invariant
                count == registry.entries().len(),
                index <= count,
            decreases count - index,
        {
            let tracker = registry.trackers().get(index);
            tracker.record(data.clone());
            index = index + 1;
        }
        write_handle.release_write(registry);
        Ok(())
    }
}

} // verus!
