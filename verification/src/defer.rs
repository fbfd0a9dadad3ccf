use crate::controller::Controller;
use crate::controller::Mailbox;
use crate::event::Event;
use crate::poll::Poll;
use std::rc::Rc;
use vstd::prelude::*;

verus! {

/// A mailbox of payloads that is handed around behind a counted handle
/// and pulled by whoever ends up as its only holder.
pub struct DeferStream<T> {
    inner: Controller<Event<T>>,
}

impl<T> View for DeferStream<T> {
    type V = Mailbox<Event<T>>;

    closed spec fn view(&self) -> Mailbox<Event<T>> {
        self.inner@
    }
}

impl<T> DeferStream<T> {
    pub fn new(inner: Controller<Event<T>>) -> (stream: Self)
        ensures
            stream@ == inner@,
    {
        DeferStream { inner }
    }

    /// Takes the sequence out of its handle, with `Rc::into_inner`. That
    /// gives the sequence to the last holder only, and how many holders
    /// there are is not visible in the value: so nothing is promised of
    /// when the sequence comes out, only that it is this one when it does.
    pub fn consume(this: Rc<Self>) -> (stream: Option<Self>)
        ensures
            stream matches Some(taken) ==> taken == *this,
    {
        Rc::into_inner(this)
    }

    /// One pull.
    pub fn poll_next(&mut self) -> (polled: Poll<Option<Event<T>>>)
        ensures
            polled == old(self)@.front(),
            final(self)@ == old(self)@.popped(),
    {
        self.inner.pop()
    }
}

/// The right to take a deferred sequence over, once nobody else holds it.
pub struct ConsumableStream<T> {
    inner: Rc<DeferStream<T>>,
}

impl<T> ConsumableStream<T> {
    /// The sequence that this handle stands for.
    pub closed spec fn stream(&self) -> DeferStream<T> {
        *self.inner
    }

    pub fn new(inner: Rc<DeferStream<T>>) -> (handle: Self)
        ensures
            handle.stream() == *inner,
    {
        ConsumableStream { inner }
    }

    /// Takes the sequence over if this is the last handle to it, with
    /// `Rc::into_inner`. How many handles there are is not visible in the
    /// value: so nothing is promised of when the sequence comes out, only
    /// that it is the one this handle stands for when it does.
    pub fn into_stream(self) -> (stream: Option<DeferStream<T>>)
        ensures
            stream matches Some(taken) ==> taken == self.stream(),
    {
        Rc::into_inner(self.inner)
    }
}

} // verus!
