//! The registry: an insertion-ordered collection of (handle, tracker)
//! registrations with broadcast over every registered tracker.

use vstd::prelude::*;
use crate::inner_tracker::{clones_are_exact, Tracker};
use crate::tracker_handle::TrackerHandle;
use core::marker::PhantomData;

verus! {

/// No two registrations carry the same handle value.
pub open spec fn distinct_handles<T>(entries: Seq<(TrackerHandle, T)>) -> bool {
    forall|i: int, j: int|
        0 <= i < j < entries.len() ==> (#[trigger] entries[i]).0.id() != (
        #[trigger] entries[j]).0.id()
}

/// Every registered handle value lies strictly below `bound`.
pub open spec fn handles_below<T>(entries: Seq<(TrackerHandle, T)>, bound: u64) -> bool {
    forall|i: int| 0 <= i < entries.len() ==> (#[trigger] entries[i]).0.id() < bound
}

/// Some registration carries `handle`.
pub open spec fn contains_handle<T>(
    entries: Seq<(TrackerHandle, T)>,
    handle: TrackerHandle,
) -> bool {
    exists|i: int| 0 <= i < entries.len() && (#[trigger] entries[i]).0 == handle
}

/// The registration sequence with the first entry carrying `handle` taken
/// out; a sequence without such an entry is left as it is.
pub open spec fn remove_first<T>(
    entries: Seq<(TrackerHandle, T)>,
    handle: TrackerHandle,
) -> Seq<(TrackerHandle, T)>
    decreases entries.len(),
{
    if entries.len() == 0 {
        entries
    } else if entries[0].0 == handle {
        entries.drop_first()
    } else {
        seq![entries[0]] + remove_first(entries.drop_first(), handle)
    }
}

/// Holds when `after` is `before` extended by one clone of `item`.
pub open spec fn log_extended_by_clone_of<M: Clone>(
    before: Seq<M>,
    after: Seq<M>,
    item: M,
) -> bool {
    exists|c: M| #[trigger] cloned::<M>(item, c) && after == before.push(c)
}

/// The logs held by a registration sequence, in registration order.
pub open spec fn entry_logs<M, T: Tracker<M>>(entries: Seq<(TrackerHandle, T)>) -> Seq<Seq<M>> {
    entries.map_values(|entry: (TrackerHandle, T)| entry.1.model())
}

/// Every log extended by one broadcast item.
pub open spec fn logs_after_emit<M>(logs: Seq<Seq<M>>, item: M) -> Seq<Seq<M>> {
    logs.map_values(|log: Seq<M>| log.push(item))
}

/// Every log extended by a whole sequence of broadcast items, oldest first.
pub open spec fn logs_after_emits<M>(logs: Seq<Seq<M>>, items: Seq<M>) -> Seq<Seq<M>>
    decreases items.len(),
{
    if items.len() == 0 {
        logs
    } else {
        logs_after_emits(logs_after_emit(logs, items[0]), items.drop_first())
    }
}

/// An insertion-ordered collection of (handle, tracker) pairs.
///
/// At most one pair carries any given handle; handles are issued from a
/// counter owned by the registry, so a handle is never issued twice by the
/// same registry. Broadcasting visits the pairs in registration order.
#[derive(Debug)]
pub struct BasicSubject<M, T> {
    _data: PhantomData<M>,
    next_handle_id: u64,
    trackers: Vec<(TrackerHandle, T)>,
}

/// A read-only, position-addressed view of the registrations of a
/// [`BasicSubject`], in registration order.
pub struct Trackers<'a, T> {
    inner: &'a Vec<(TrackerHandle, T)>,
}

impl<'a, T> Trackers<'a, T> {
    /// The registrations this view ranges over.
    pub closed spec fn entries(&self) -> Seq<(TrackerHandle, T)> {
        self.inner@
    }

    fn new(trackers: &'a Vec<(TrackerHandle, T)>) -> (view: Self)
        ensures
            view.entries() == trackers@,
    {
        Trackers { inner: trackers }
    }

    /// How many trackers are registered.
    pub fn len(&self) -> (n: usize)
        ensures
            n == self.entries().len(),
    {
        self.inner.len()
    }

    /// The tracker of the `index`-th registration.
    pub fn get(&self, index: usize) -> (tracker: &'a T)
        requires
            index < self.entries().len(),
        ensures
            *tracker == self.entries()[index as int].1,
    {
        &self.inner[index].1
    }
}

impl<M, T> BasicSubject<M, T> {
    /// The registered (handle, tracker) pairs, in registration order.
    pub closed spec fn entries(&self) -> Seq<(TrackerHandle, T)> {
        self.trackers@
    }

    /// The counter value the next registration will receive as its handle.
    pub closed spec fn next_id(&self) -> u64 {
        self.next_handle_id
    }

    /// The registry's invariant: registered handles are pairwise distinct,
    /// and all of them were issued below the counter's current value.
    pub open spec fn wf(&self) -> bool {
        distinct_handles(self.entries()) && handles_below(self.entries(), self.next_id())
    }

    /// Whether the handle counter can still issue a fresh value.
    pub open spec fn can_issue(&self) -> bool {
        self.next_id() < u64::MAX
    }

    /// Creates a registry with no registrations.
    pub fn new() -> (subject: Self)
        ensures
            subject.entries() == Seq::<(TrackerHandle, T)>::empty(),
            subject.next_id() == 0,
            subject.wf(),
    {
        BasicSubject { _data: PhantomData, next_handle_id: 0, trackers: Vec::new() }
    }

    /// Whether the handle counter can still issue a fresh value.
    pub fn has_capacity(&self) -> (result: bool)
        ensures
            result == self.can_issue(),
    {
        self.next_handle_id < u64::MAX
    }

    /// A read-only view of the current registrations.
    pub fn trackers(&self) -> (view: Trackers<'_, T>)
        ensures
            view.entries() == self.entries(),
    {
        Trackers::new(&self.trackers)
    }

    /// Issues a fresh handle, appends (handle, tracker) after every existing
    /// registration, and returns the handle.
    ///
    /// The fresh handle differs from every handle registered so far, so the
    /// registry keeps at most one pair per handle.
    pub fn add_tracker(&mut self, tracker: T) -> (handle: TrackerHandle)
        requires
            old(self).can_issue(),
        ensures
            handle.id() == old(self).next_id(),
            final(self).entries() == old(self).entries().push((handle, tracker)),
            final(self).next_id() == old(self).next_id() + 1,
            old(self).wf() ==> !contains_handle(old(self).entries(), handle),
            old(self).wf() ==> final(self).wf(),
    {
        let handle = TrackerHandle::new(self.next_handle_id);
        self.next_handle_id = self.next_handle_id + 1;
        self.trackers.push((handle, tracker));
        proof {
            if old(self).wf() {
                let prior = old(self).entries();
                let entries = self.trackers@;
                assert forall|i: int| 0 <= i < prior.len() implies (#[trigger] prior[i]).0
                    != handle by {
                    assert(prior[i].0.id() < handle.id());
                }
                assert forall|i: int, j: int| 0 <= i < j < entries.len() implies (
                #[trigger] entries[i]).0.id() != (#[trigger] entries[j]).0.id() by {
                    if j < prior.len() {
                        assert(entries[i] == prior[i] && entries[j] == prior[j]);
                    } else {
                        assert(entries[i] == prior[i] && entries[j] == (handle, tracker));
                    }
                }
                assert forall|i: int| 0 <= i < entries.len() implies (#[trigger] entries[i]).0.id()
                    < self.next_handle_id by {
                    if i < prior.len() {
                        assert(entries[i] == prior[i]);
                    }
                }
            }
        }
        handle
    }

    /// Issues a fresh handle and registers `tracker` if the handle counter
    /// is not exhausted; otherwise returns `None` and changes nothing.
    pub fn try_add_tracker(&mut self, tracker: T) -> (handle: Option<TrackerHandle>)
        ensures
            (handle is Some) == old(self).can_issue(),
            handle is None ==> *final(self) == *old(self),
            handle matches Some(h) ==> {
                &&& h.id() == old(self).next_id()
                &&& final(self).entries() == old(self).entries().push((h, tracker))
                &&& final(self).next_id() == old(self).next_id() + 1
                &&& old(self).wf() ==> !contains_handle(old(self).entries(), h)
            },
            old(self).wf() ==> final(self).wf(),
    {
        if self.has_capacity() {
            Some(self.add_tracker(tracker))
        } else {
            None
        }
    }

    /// Removes the first registration carrying `handle`; removing a handle
    /// that is not registered changes nothing and is not an error.
    ///
    /// Handles are compared by value, and two registries issue overlapping
    /// values: pass only handles this registry issued, as the facades of
    /// this crate do.
    pub fn remove_tracker(&mut self, handle: TrackerHandle)
        ensures
            final(self).entries() == remove_first(old(self).entries(), handle),
            final(self).next_id() == old(self).next_id(),
            old(self).wf() ==> final(self).wf(),
    {
        let ghost prior = self.trackers@;
        let n = self.trackers.len();
        let mut index: usize = 0;
        while index < n
            invariant
                n == prior.len(),
                index <= n,
                prior == old(self).entries(),
                self.trackers@ == prior,
                self.next_handle_id == old(self).next_id(),
                forall|i: int| 0 <= i < index ==> (#[trigger] prior[i]).0 != handle,
            decreases n - index,
        {
            if self.trackers[index].0 == handle {
                let _ = self.trackers.remove(index);
                proof {
                    lemma_remove_first_is_remove_at_first_match(prior, handle, index as int);
                    if old(self).wf() {
                        lemma_remove_preserves_registry_wf(prior, index as int, self.next_handle_id);
                    }
                }
                return;
            }
            index = index + 1;
        }
        proof {
            lemma_remove_first_absent(prior, handle);
        }
    }
}

impl<M: Clone, T: Tracker<M>> BasicSubject<M, T> {
    /// Hands one clone of `data` to every registered tracker, in
    /// registration order.
    ///
    /// Registrations themselves are untouched: the handles, their order and
    /// the handle counter all stay as they were. For item types whose clones
    /// are exact, every registered log is extended by exactly `data`.
    pub fn emit(&mut self, data: M)
        ensures
            final(self).next_id() == old(self).next_id(),
            final(self).entries().len() == old(self).entries().len(),
            forall|i: int|
                0 <= i < old(self).entries().len() ==> (#[trigger] final(self).entries()[i]).0
                    == old(self).entries()[i].0,
            forall|i: int|
                0 <= i < old(self).entries().len() ==> log_extended_by_clone_of(
                    old(self).entries()[i].1.model(),
                    (#[trigger] final(self).entries()[i]).1.model(),
                    data,
                ),
            clones_are_exact::<M>() ==> entry_logs(final(self).entries()) == logs_after_emit(
                entry_logs(old(self).entries()),
                data,
            ),
            old(self).wf() ==> final(self).wf(),
    {
        let ghost prior = self.trackers@;
        let n = self.trackers.len();
        let mut index: usize = 0;
        while index < n
            invariant
                n == prior.len(),
                index <= n,
                prior == old(self).entries(),
                self.trackers@.len() == n,
                self.next_handle_id == old(self).next_id(),
                forall|i: int| index <= i < n ==> #[trigger] self.trackers@[i] == prior[i],
                forall|i: int|
                    0 <= i < index ==> (#[trigger] self.trackers@[i]).0 == prior[i].0,
                forall|i: int|
                    0 <= i < index ==> log_extended_by_clone_of(
                        prior[i].1.model(),
                        (#[trigger] self.trackers@[i]).1.model(),
                        data,
                    ),
            decreases n - index,
        {
            let item = data.clone();
            proof {
                assert(cloned::<M>(data, item));
            }
            let entry = &mut self.trackers[index];
            entry.1.track(item);
            proof {
                assert(log_extended_by_clone_of(
                    prior[index as int].1.model(),
                    self.trackers@[index as int].1.model(),
                    data,
                ));
            }
            index = index + 1;
        }
        proof {
            if clones_are_exact::<M>() {
                assert forall|i: int|
                    0 <= i < n implies #[trigger] entry_logs(self.trackers@)[i] == entry_logs(
                    prior,
                ).map_values(|log: Seq<M>| log.push(data))[i] by {
                    assert(log_extended_by_clone_of(
                        prior[i].1.model(),
                        self.trackers@[i].1.model(),
                        data,
                    ));
                    let c = choose|c: M|
                        #[trigger] cloned::<M>(data, c) && self.trackers@[i].1.model()
                            == prior[i].1.model().push(c);
                    assert(c == data);
                }
                assert(entry_logs(self.trackers@) =~= logs_after_emit(entry_logs(prior), data));
            }
            if old(self).wf() {
                assert forall|i: int, j: int|
                    0 <= i < j < self.trackers@.len() implies (
                #[trigger] self.trackers@[i]).0.id() != (#[trigger] self.trackers@[j]).0.id() by {
                    assert(self.trackers@[i].0 == prior[i].0);
                    assert(self.trackers@[j].0 == prior[j].0);
                }
                assert forall|i: int|
                    0 <= i < self.trackers@.len() implies (#[trigger] self.trackers@[i]).0.id()
                    < self.next_handle_id by {
                    assert(self.trackers@[i].0 == prior[i].0);
                }
            }
        }
    }
}

/// Broadcasting a sequence of items appends exactly those items, in
/// emission order, to every log that is registered throughout.
pub proof fn lemma_emits_append_in_order<M>(logs: Seq<Seq<M>>, items: Seq<M>, k: int)
    requires
        0 <= k < logs.len(),
    ensures
        logs_after_emits(logs, items).len() == logs.len(),
        logs_after_emits(logs, items)[k] == logs[k] + items,
    decreases items.len(),
{
    if items.len() == 0 {
        assert(logs[k] + items =~= logs[k]);
    } else {
        let stepped = logs_after_emit(logs, items[0]);
        lemma_emits_append_in_order(stepped, items.drop_first(), k);
        assert(stepped[k] == logs[k].push(items[0]));
        assert(logs[k].push(items[0]) + items.drop_first() =~= logs[k] + items);
    }
}

/// A tracker whose log is empty when a sequence of items is broadcast — one
/// just created, or one just cleared — reports exactly those items, in
/// emission order.
pub proof fn lemma_fresh_log_reports_emissions_in_order<M>(logs: Seq<Seq<M>>, items: Seq<M>, k: int)
    requires
        0 <= k < logs.len(),
        logs[k] == Seq::<M>::empty(),
    ensures
        logs_after_emits(logs, items)[k] == items,
{
    lemma_emits_append_in_order(logs, items, k);
    assert(Seq::<M>::empty() + items =~= items);
}

/// Two trackers whose logs agree before a broadcast agree after it as well:
/// all registered trackers observe the same items, independently.
pub proof fn lemma_trackers_observe_same_items<M>(logs: Seq<Seq<M>>, items: Seq<M>, j: int, k: int)
    requires
        0 <= j < logs.len(),
        0 <= k < logs.len(),
        logs[j] == logs[k],
    ensures
        logs_after_emits(logs, items)[j] == logs_after_emits(logs, items)[k],
{
    lemma_emits_append_in_order(logs, items, j);
    lemma_emits_append_in_order(logs, items, k);
}

/// Clearing one tracker's log leaves every other log untouched.
pub proof fn lemma_clear_one_leaves_others<M>(logs: Seq<Seq<M>>, k: int, j: int)
    requires
        0 <= k < logs.len(),
        0 <= j < logs.len(),
        j != k,
    ensures
        logs.update(k, Seq::<M>::empty())[j] == logs[j],
{
}

/// Once the registration carrying `handle` is removed from a registry whose
/// handles are distinct, that handle is registered no longer: broadcasts
/// after the removal cannot reach its store.
pub proof fn lemma_stopped_handle_not_registered<T>(
    entries: Seq<(TrackerHandle, T)>,
    handle: TrackerHandle,
)
    requires
        distinct_handles(entries),
    ensures
        !contains_handle(remove_first(entries, handle), handle),
    decreases entries.len(),
{
    if entries.len() > 0 {
        let rest = entries.drop_first();
        assert forall|i: int, j: int| 0 <= i < j < rest.len() implies (
        #[trigger] rest[i]).0.id() != (#[trigger] rest[j]).0.id() by {
            assert(rest[i] == entries[i + 1] && rest[j] == entries[j + 1]);
        }
        if entries[0].0 == handle {
            assert forall|i: int|
                0 <= i < rest.len() implies (#[trigger] rest[i]).0 != handle by {
                assert(rest[i] == entries[i + 1]);
                assert(entries[0].0.id() != entries[i + 1].0.id());
            }
        } else {
            lemma_stopped_handle_not_registered(rest, handle);
            let result = seq![entries[0]] + remove_first(rest, handle);
            assert forall|i: int|
                0 <= i < result.len() implies (#[trigger] result[i]).0 != handle by {
                if i > 0 {
                    assert(result[i] == remove_first(rest, handle)[i - 1]);
                }
            }
        }
    }
}

/// Stopping one tracker leaves every other registration in place: removing
/// the registration that carries `handle` keeps each other (handle, tracker)
/// pair, so the other trackers go on receiving broadcasts.
pub proof fn lemma_stop_leaves_other_registrations<T>(
    entries: Seq<(TrackerHandle, T)>,
    handle: TrackerHandle,
    m: int,
    j: int,
)
    requires
        distinct_handles(entries),
        0 <= m < entries.len(),
        entries[m].0 == handle,
        0 <= j < entries.len(),
        j != m,
    ensures
        exists|k: int|
            0 <= k < remove_first(entries, handle).len() && #[trigger] remove_first(
                entries,
                handle,
            )[k] == entries[j],
{
    assert forall|i: int| 0 <= i < m implies (#[trigger] entries[i]).0 != handle by {
        assert(entries[i].0.id() != entries[m].0.id());
    }
    lemma_remove_first_is_remove_at_first_match(entries, handle, m);
    let k = if j < m {
        j
    } else {
        j - 1
    };
    assert(remove_first(entries, handle)[k] == entries[j]);
}

/// No two registrations of a well-formed registry carry the same handle:
/// however many trackers are created, their handles are pairwise distinct.
pub proof fn lemma_registered_handles_distinct<M, T>(subject: BasicSubject<M, T>, i: int, j: int)
    requires
        subject.wf(),
        0 <= i < subject.entries().len(),
        0 <= j < subject.entries().len(),
        i != j,
    ensures
        subject.entries()[i].0 != subject.entries()[j].0,
{
    let entries = subject.entries();
    if i < j {
        assert(entries[i].0.id() != entries[j].0.id());
    } else {
        assert(entries[j].0.id() != entries[i].0.id());
    }
}

/// `remove_first` leaves a sequence without a matching entry unchanged.
pub proof fn lemma_remove_first_absent<T>(entries: Seq<(TrackerHandle, T)>, handle: TrackerHandle)
    requires
        !contains_handle(entries, handle),
    ensures
        remove_first(entries, handle) == entries,
    decreases entries.len(),
{
    if entries.len() > 0 {
        let rest = entries.drop_first();
        assert(entries[0].0 != handle);
        assert forall|i: int| 0 <= i < rest.len() implies (#[trigger] rest[i]).0 != handle by {
            assert(rest[i] == entries[i + 1]);
        }
        lemma_remove_first_absent(rest, handle);
        assert(seq![entries[0]] + rest =~= entries);
    }
}

/// `remove_first` removes exactly the entry at the first matching position.
pub proof fn lemma_remove_first_is_remove_at_first_match<T>(
    entries: Seq<(TrackerHandle, T)>,
    handle: TrackerHandle,
    m: int,
)
    requires
        0 <= m < entries.len(),
        entries[m].0 == handle,
        forall|i: int| 0 <= i < m ==> (#[trigger] entries[i]).0 != handle,
    ensures
        remove_first(entries, handle) == entries.remove(m),
    decreases entries.len(),
{
    if m == 0 {
        assert(entries.drop_first() =~= entries.remove(0));
    } else {
        let rest = entries.drop_first();
        assert(entries[0].0 != handle);
        assert forall|i: int| 0 <= i < m - 1 implies (#[trigger] rest[i]).0 != handle by {
            assert(rest[i] == entries[i + 1]);
        }
        assert(rest[m - 1] == entries[m]);
        lemma_remove_first_is_remove_at_first_match(rest, handle, m - 1);
        assert(seq![entries[0]] + rest.remove(m - 1) =~= entries.remove(m));
    }
}

/// Removing one registration keeps the remaining handles distinct and below
/// any bound they were below before.
pub proof fn lemma_remove_preserves_registry_wf<T>(
    entries: Seq<(TrackerHandle, T)>,
    m: int,
    bound: u64,
)
    requires
        distinct_handles(entries),
        handles_below(entries, bound),
        0 <= m < entries.len(),
    ensures
        distinct_handles(entries.remove(m)),
        handles_below(entries.remove(m), bound),
{
    let removed = entries.remove(m);
    assert forall|i: int| 0 <= i < removed.len() implies (#[trigger] removed[i]).0.id() < bound by {
        if i < m {
            assert(removed[i] == entries[i]);
        } else {
            assert(removed[i] == entries[i + 1]);
        }
    }
    assert forall|i: int, j: int| 0 <= i < j < removed.len() implies (
    #[trigger] removed[i]).0.id() != (#[trigger] removed[j]).0.id() by {
        let i0 = if i < m { i } else { i + 1 };
        let j0 = if j < m { j } else { j + 1 };
        assert(removed[i] == entries[i0]);
        assert(removed[j] == entries[j0]);
    }
}

} // verus!
