//! The tracker store: an append-only, clearable, ordered log of items.

use vstd::prelude::*;

verus! {

/// Holds when every clone of a value of `M` is indistinguishable from the
/// value it was cloned from.
///
/// `Clone` implementations are free to return anything, so a store of cloned
/// items can only be pinned down to the emitted items themselves for types
/// whose clones preserve the value. Plain data types behave this way.
pub open spec fn clones_are_exact<M: Clone>() -> bool {
    forall|a: M, b: M| cloned::<M>(a, b) ==> b == a
}

/// Anything that can record a sequence of items, one at a time.
pub trait Tracker<M>: Sized {
    /// The items recorded so far, oldest first.
    spec fn model(&self) -> Seq<M>;

    /// Records `data` after everything recorded before.
    fn track(&mut self, data: M)
        ensures
            final(self).model() == old(self).model().push(data),
    ;
}

/// An ordered, growable log of emitted items.
///
/// Operations only append, read, or clear: read order equals the order in
/// which items were appended, and clearing discards the items recorded so
/// far while leaving the store open for future appends.
#[derive(Debug)]
pub struct BasicTracker<M> {
    tracked_items: Vec<M>,
}

impl<M> View for BasicTracker<M> {
    type V = Seq<M>;

    closed spec fn view(&self) -> Seq<M> {
        self.tracked_items@
    }
}

impl<M> BasicTracker<M> {
    /// Creates an empty store.
    pub fn new() -> (store: Self)
        ensures
            store@ == Seq::<M>::empty(),
    {
        BasicTracker { tracked_items: Vec::new() }
    }

    /// The items recorded so far, in the order they were recorded.
    pub fn output(&self) -> (items: &[M])
        ensures
            items@ == self@,
    {
        self.tracked_items.as_slice()
    }

    /// A copy of the items recorded so far, in the order they were recorded.
    ///
    /// Each returned item is a clone of the stored one, so for types whose
    /// clones are exact the snapshot equals the store's contents.
    pub fn snapshot(&self) -> (items: Vec<M>)
        where M: Clone,
        ensures
            items@.len() == self@.len(),
            forall|i: int| 0 <= i < self@.len() ==> cloned::<M>(self@[i], #[trigger] items@[i]),
            clones_are_exact::<M>() ==> items@ == self@,
    {
        let items = self.tracked_items.clone();
        proof {
            if clones_are_exact::<M>() {
                assert(items@ =~= self@);
            }
        }
        items
    }

    /// Discards everything recorded so far.
    pub fn clear(&mut self)
        ensures
            final(self)@ == Seq::<M>::empty(),
    {
        self.tracked_items.clear();
    }
}

/// Reading a store is idempotent: two reads with no append or clear in
/// between see the same items, in the same order.
pub proof fn lemma_output_idempotent<M>(store: BasicTracker<M>, first: Seq<M>, second: Seq<M>)
    requires
        first == store@,
        second == store@,
    ensures
        first == second,
{
}

impl<M> Tracker<M> for BasicTracker<M> {
    open spec fn model(&self) -> Seq<M> {
        self.view()
    }

    fn track(&mut self, data: M)
        ensures
            final(self).model() == old(self).model().push(data),
    {
        self.tracked_items.push(data);
    }
}

} // verus!
