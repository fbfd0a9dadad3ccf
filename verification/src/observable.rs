use std::marker::PhantomData;
use vstd::prelude::*;

verus! {

/// A subscription: the single-owner handle to one mailbox in a subject's
/// registry. It is pulled through the subject that issued it and is given
/// back to that subject to cancel.
pub struct Observable<T> {
    slot: usize,
    marker: PhantomData<T>,
}

impl<T> Observable<T> {
    /// The handle for the mailbox in the given registry slot.
    pub(crate) fn new(slot: usize) -> (handle: Self)
        ensures
            handle.id() == slot,
    {
        Observable { slot, marker: PhantomData }
    }

    /// The key under which the issuing subject files this subscription.
    pub closed spec fn id(&self) -> int {
        self.slot as int
    }

    /// The registry slot of this subscription.
    pub(crate) fn slot(&self) -> (slot: usize)
        ensures
            slot == self.id(),
    {
        self.slot
    }
}

} // verus!
