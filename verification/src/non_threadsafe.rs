//! Non-threadsafe variant of [`OutputTracker`] and [`OutputSubject`].
//!
//! The registry and every tracker store sit in single-occupancy cells for
//! use within one thread. An operation takes the value out of its cell,
//! works on it in verified code, and puts it back; an access never blocks
//! and never retries. Asking for access while the value is out — reentrant
//! misuse, such as emitting from inside an item's `clone` — fails
//! immediately with a borrow [`Error`] naming the value that was busy.
//! Every access is exclusive: two overlapping reads of the same value,
//! which a runtime borrow checker would allow, conflict here as well.

use vstd::prelude::*;
use crate::inner_subject::BasicSubject;
use crate::inner_tracker::{BasicTracker, Tracker};
use crate::tracker_handle::TrackerHandle;
use core::cell::Cell;
use std::rc::Rc;

verus! {

/// Error type for the non-threadsafe [`OutputTracker`] and [`OutputSubject`].
#[derive(Debug, Clone, Copy, PartialEq, Eq)]
pub enum Error {
    /// Failed to obtain an immutable borrow of the tracker.
    BorrowTrackerFailed,
    /// Failed to obtain a mutable borrow of the tracker.
    BorrowMutTrackerFailed,
    /// Failed to obtain an immutable borrow of the subject.
    BorrowSubjectFailed,
    /// Failed to obtain a mutable borrow of the subject.
    BorrowMutSubjectFailed,
}

#[verifier::external_type_specification]
#[verifier::external_body]
#[verifier::reject_recursive_types(T)]
pub struct ExCell<T: ?Sized>(Cell<T>);

/// Relies on `Rc::clone`: the returned handle shares the allocation of its
/// argument, so as a value it is equal to it.
#[verifier::external_body]
fn rc_share<T>(rc: &Rc<T>) -> (shared: Rc<T>)
    ensures
        shared == *rc,
{
    Rc::clone(rc)
}

/// Relies on `Cell::new`: wraps a value in a fresh single-thread cell.
#[verifier::external_body]
fn cell_new<T>(value: T) -> (cell: Cell<T>) {
    Cell::new(value)
}

/// Relies on `Cell::take`: hands out whatever the cell holds, leaving the
/// default value — here `None` — in its place. What comes back depends on
/// the cell's current contents, of which nothing is known here.
#[verifier::external_body]
fn cell_take<T: Default>(cell: &Cell<T>) -> (value: T) {
    cell.take()
}

/// Relies on `Cell::set`: stores `value` in the cell, dropping what it held.
#[verifier::external_body]
fn cell_put<T>(cell: &Cell<T>, value: T) {
    cell.set(value)
}

/// A shared handle to one tracker store in a single-occupancy cell.
///
/// The cell holds `Some(store)` while the store is at rest and `None` while
/// an operation — necessarily a reentrant one, on a single thread — has the
/// store out.
#[verifier::reject_recursive_types(M)]
struct NonThreadsafeTracker<M> {
    cell: Rc<Cell<Option<BasicTracker<M>>>>,
}

impl<M> NonThreadsafeTracker<M> {
    /// Creates a new, empty store and the first handle to it.
    fn new() -> (tracker: Self) {
        NonThreadsafeTracker { cell: Rc::new(cell_new(Some(BasicTracker::new()))) }
    }

    /// Another handle to the same store.
    fn share(&self) -> (other: Self)
        ensures
            other == *self,
    {
        NonThreadsafeTracker { cell: rc_share(&self.cell) }
    }
}

/// A shared handle to the registry in a single-occupancy cell.
///
/// The cell holds `Some(registry)` while the registry is at rest and `None`
/// while an operation has it out.
#[verifier::reject_recursive_types(M)]
struct NonThreadsafeSubject<M> {
    cell: Rc<Cell<Option<BasicSubject<M, NonThreadsafeTracker<M>>>>>,
}

impl<M> NonThreadsafeSubject<M> {
    /// Creates an empty registry and the first handle to it.
    fn new() -> (subject: Self) {
        NonThreadsafeSubject { cell: Rc::new(cell_new(Some(BasicSubject::new()))) }
    }

    /// Another handle to the same registry.
    fn share(&self) -> (other: Self)
        ensures
            other == *self,
    {
        NonThreadsafeSubject { cell: rc_share(&self.cell) }
    }
}

/// Collects emitted data of any kind.
///
/// This is the non-threadsafe variant.
///
/// The tracked data can be read any time and as often as needed by calling
/// [`output()`][OutputTracker::output]; each call returns everything
/// collected so far, in emission order. [`clear()`][OutputTracker::clear]
/// discards what was collected so far without deregistering the tracker, and
/// [`stop()`][OutputTracker::stop] deregisters it for good: data emitted
/// after a stop no longer reaches this tracker, while the data it already
/// collected stays readable.
#[verifier::reject_recursive_types(M)]
pub struct OutputTracker<M> {
    handle: TrackerHandle,
    inner: NonThreadsafeTracker<M>,
    subject: NonThreadsafeSubject<M>,
}

impl<M> OutputTracker<M> {
    fn new(
        handle: TrackerHandle,
        inner: NonThreadsafeTracker<M>,
        subject: NonThreadsafeSubject<M>,
    ) -> (tracker: Self) {
        OutputTracker { handle, inner, subject }
    }

    /// Stops this tracker: data emitted afterwards is no longer collected.
    ///
    /// Removes this tracker's own registration and no other. Stopping is
    /// idempotent: once the handle is no longer registered, further calls
    /// change nothing and still succeed. Fails only with
    /// [`Error::BorrowMutSubjectFailed`], when the registry is already being
    /// accessed.
    pub fn stop(&self) -> (result: Result<(), Error>)
        ensures
            result matches Err(e) ==> e is BorrowMutSubjectFailed,
    {
        match cell_take(&self.subject.cell) {
            Some(mut registry) => {
                registry.remove_tracker(self.handle);
                cell_put(&self.subject.cell, Some(registry));
                Ok(())
            },
            None => Err(Error::BorrowMutSubjectFailed),
        }
    }

    /// Discards the data collected so far; data emitted afterwards is still
    /// collected if the tracker is still registered. Fails only with
    /// [`Error::BorrowMutTrackerFailed`], when this tracker's store is
    /// already being accessed.
    pub fn clear(&self) -> (result: Result<(), Error>)
        ensures
            result matches Err(e) ==> e is BorrowMutTrackerFailed,
    {
        match cell_take(&self.inner.cell) {
            Some(mut store) => {
                store.clear();
                cell_put(&self.inner.cell, Some(store));
                Ok(())
            },
            None => Err(Error::BorrowMutTrackerFailed),
        }
    }

    /// The data collected since the tracker was created or last cleared, in
    /// emission order; it stays readable after [`stop()`][Self::stop]. Fails
    /// only with [`Error::BorrowTrackerFailed`], when this tracker's store
    /// is already being accessed.
    pub fn output(&self) -> (result: Result<Vec<M>, Error>) where M: Clone
        ensures
            result matches Err(e) ==> e is BorrowTrackerFailed,
    {
        match cell_take(&self.inner.cell) {
            Some(store) => {
                let items = store.snapshot();
                cell_put(&self.inner.cell, Some(store));
                Ok(items)
            },
            None => Err(Error::BorrowTrackerFailed),
        }
    }
}

/// Holds created [`OutputTracker`]s and emits data to all of them.
///
/// This is the non-threadsafe variant.
///
/// New trackers are created with
/// [`create_tracker()`][OutputSubject::create_tracker];
/// [`emit(data)`][OutputSubject::emit] hands one clone of `data` to every
/// tracker that is registered and not stopped, in registration order.
/// Cloning the subject yields another handle to the same registry.
#[verifier::reject_recursive_types(M)]
pub struct OutputSubject<M> {
    inner: NonThreadsafeSubject<M>,
}

impl<M> OutputSubject<M> {
    /// Constructs a subject with no trackers.
    #[must_use]
    pub fn new() -> (subject: Self) {
        OutputSubject { inner: NonThreadsafeSubject::new() }
    }
}

impl<M> Clone for OutputSubject<M> {
    /// Another handle to the same subject: trackers created through either
    /// handle receive what is emitted through both.
    fn clone(&self) -> (other: Self)
        ensures
            other == *self,
    {
        OutputSubject { inner: self.inner.share() }
    }
}

impl<M> Default for OutputSubject<M> {
    /// Constructs a subject with no trackers, as [`new()`][Self::new] does.
    fn default() -> (subject: Self) {
        OutputSubject::new()
    }
}

impl<M: Clone> OutputSubject<M> {
    /// Creates a new [`OutputTracker`] registered with this subject, under a
    /// handle distinct from that of every tracker this subject's registry
    /// issued before.
    ///
    /// Fails only with [`Error::BorrowMutSubjectFailed`]: when the registry
    /// is already being accessed, or in the unreachable case that this
    /// subject has issued all `u64::MAX` handles, so that no fresh
    /// registration is possible.
    pub fn create_tracker(&self) -> (result: Result<OutputTracker<M>, Error>)
        ensures
            result matches Err(e) ==> e is BorrowMutSubjectFailed,
    {
        let tracker = NonThreadsafeTracker::new();
        match cell_take(&self.inner.cell) {
            Some(mut registry) => {
                let added = registry.try_add_tracker(tracker.share());
                cell_put(&self.inner.cell, Some(registry));
                match added {
                    Some(handle) => Ok(OutputTracker::new(handle, tracker, self.inner.share())),
                    None => Err(Error::BorrowMutSubjectFailed),
                }
            },
            None => Err(Error::BorrowMutSubjectFailed),
        }
    }

    /// Hands one clone of `data` to every registered tracker, in
    /// registration order. The registry stays out of its cell for the whole
    /// broadcast, so a reentrant `create_tracker`, `stop` or `emit` from
    /// inside an item's `clone` fails rather than observing a half-finished
    /// broadcast.
    ///
    /// Fails fast: if one tracker's store cannot be accessed, the trackers
    /// after it in registration order do not receive `data`. Fails only with
    /// [`Error::BorrowSubjectFailed`], when the registry is already being
    /// accessed, or [`Error::BorrowMutTrackerFailed`], when a tracker's
    /// store is already being accessed.
    pub fn emit(&self, data: M) -> (result: Result<(), Error>)
        ensures
            result matches Err(e) ==> e is BorrowSubjectFailed || e is BorrowMutTrackerFailed,
    {
        let registry = match cell_take(&self.inner.cell) {
            Some(registry) => registry,
            None => {
                return Err(Error::BorrowSubjectFailed);
            },
        };
        let count = registry.trackers().len();
        let mut index: usize = 0;
        while index < count
            invariant
                count == registry.entries().len(),
                index <= count,
            decreases count - index,
        {
            let item = data.clone();
            let tracker = registry.trackers().get(index);
            match cell_take(&tracker.cell) {
                Some(mut store) => {
                    store.track(item);
                    cell_put(&tracker.cell, Some(store));
                },
                None => {
                    cell_put(&self.inner.cell, Some(registry));
                    return Err(Error::BorrowMutTrackerFailed);
                },
            }
            index = index + 1;
        }
        cell_put(&self.inner.cell, Some(registry));
        Ok(())
    }
}

} // verus!
