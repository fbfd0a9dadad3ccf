use crate::controller::Mailbox;
use crate::event_lite::rc_share;
use crate::poll::Poll;
use std::collections::VecDeque;
use std::rc::Rc;
use vstd::prelude::*;

verus! {

/// A mailbox of counted handles that is pulled directly.
pub struct StreamController<T> {
    buffer: VecDeque<Rc<T>>,
    is_done: bool,
}

impl<T> View for StreamController<T> {
    type V = Mailbox<Rc<T>>;

    closed spec fn view(&self) -> Mailbox<Rc<T>> {
        Mailbox { queue: self.buffer@, completed: self.is_done }
    }
}

impl<T> StreamController<T> {
    /// An open mailbox with nothing pending.
    pub fn new() -> (mailbox: Self)
        ensures
            mailbox@ == Mailbox::<Rc<T>>::empty(false),
    {
        StreamController { buffer: VecDeque::new(), is_done: false }
    }

    /// Appends at the tail.
    pub fn push(&mut self, value: Rc<T>)
        ensures
            final(self)@ == old(self)@.pushed(value),
    {
        self.buffer.push_back(value);
    }

    /// Sets the completion flag; setting it again changes nothing.
    pub fn mark_completed(&mut self)
        ensures
            final(self)@ == old(self)@.finished(),
    {
        self.is_done = true;
    }

    /// One pull: the head if there is one, the end once the producer has
    /// finished.
    pub fn poll_next(&mut self) -> (polled: Poll<Option<Rc<T>>>)
        ensures
            polled == old(self)@.front(),
            final(self)@ == old(self)@.popped(),
    {
        match self.buffer.pop_front() {
            Some(it) => Poll::Ready(Some(it)),
            None => {
                if self.is_done {
                    Poll::Ready(None)
                } else {
                    Poll::Pending
                }
            },
        }
    }
}

impl<T> Clone for StreamController<T> {
    /// A mailbox of its own with handles to the same pending values.
    fn clone(&self) -> (copy: Self)
        ensures
            copy@ == self@,
    {
        let mut buffer: VecDeque<Rc<T>> = VecDeque::new();
        let mut i: usize = 0;
        while i < self.buffer.len()
            invariant
                i <= self.buffer@.len(),
                buffer@ == self.buffer@.subrange(0, i as int),
            decreases self.buffer@.len() - i,
        {
            let handle = rc_share(&self.buffer[i]);
            assert(self.buffer@.subrange(0, i as int).push(handle) =~= self.buffer@.subrange(
                0,
                i + 1,
            ));
            buffer.push_back(handle);
            i += 1;
        }
        assert(self.buffer@.subrange(0, i as int) =~= self.buffer@);
        StreamController { buffer, is_done: self.is_done }
    }
}

} // verus!
