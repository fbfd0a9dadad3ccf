use crate::controller::Mailbox;
use crate::stream_controller::StreamController;
use std::rc::Rc;
use vstd::prelude::*;

verus! {

/// A mailbox of counted handles that is not pulled itself: every reader
/// pulls a snapshot of its own.
pub struct DeferStream<T> {
    inner: StreamController<T>,
}

impl<T> View for DeferStream<T> {
    type V = Mailbox<Rc<T>>;

    closed spec fn view(&self) -> Mailbox<Rc<T>> {
        self.inner@
    }
}

impl<T> DeferStream<T> {
    pub fn new(inner: StreamController<T>) -> (stream: Self)
        ensures
            stream@ == inner@,
    {
        DeferStream { inner }
    }

    /// A snapshot to pull: it holds what is pending now, in order, and
    /// leaves this mailbox as it is.
    pub fn as_stream(&self) -> (snapshot: StreamController<T>)
        ensures
            snapshot@ == self@,
    {
        self.inner.clone()
    }
}

} // verus!
