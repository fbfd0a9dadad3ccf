use crate::poll::Poll;
use std::collections::VecDeque;
use vstd::prelude::*;

verus! {

/// What a mailbox holds, as plain mathematics: the pending items, oldest
/// first, and whether the producer has finished.
pub struct Mailbox<T> {
    pub queue: Seq<T>,
    pub completed: bool,
}

impl<T> Mailbox<T> {
    /// A mailbox with nothing pending.
    pub open spec fn empty(completed: bool) -> Self {
        Mailbox { queue: Seq::empty(), completed }
    }

    /// The mailbox after one more item was appended at the tail.
    pub open spec fn pushed(self, value: T) -> Self {
        Mailbox { queue: self.queue.push(value), completed: self.completed }
    }

    /// The mailbox after the producer finished.
    pub open spec fn finished(self) -> Self {
        Mailbox { queue: self.queue, completed: true }
    }

    /// What one pull answers.
    pub open spec fn front(self) -> Poll<Option<T>> {
        if self.queue.len() > 0 {
            Poll::Ready(Some(self.queue[0]))
        } else if self.completed {
            Poll::Ready(None)
        } else {
            Poll::Pending
        }
    }

    /// The mailbox after one pull: the head is gone, if there was one.
    pub open spec fn popped(self) -> Self {
        if self.queue.len() > 0 {
            Mailbox { queue: self.queue.drop_first(), completed: self.completed }
        } else {
            self
        }
    }

    /// Bounds on how many items are still to come: exactly the pending ones
    /// once the producer has finished, at least those before.
    pub open spec fn hint(self) -> (usize, Option<usize>) {
        (
            self.queue.len() as usize,
            if self.completed {
                Some(self.queue.len() as usize)
            } else {
                None
            },
        )
    }
}

/// Per-subscriber FIFO queue of pending items with a completion flag.
pub struct Controller<T> {
    buffer: VecDeque<T>,
    is_done: bool,
}

impl<T> View for Controller<T> {
    type V = Mailbox<T>;

    closed spec fn view(&self) -> Mailbox<T> {
        Mailbox { queue: self.buffer@, completed: self.is_done }
    }
}

impl<T> Controller<T> {
    /// An open mailbox with nothing pending.
    pub fn new() -> (mailbox: Self)
        ensures
            mailbox@ == Mailbox::<T>::empty(false),
    {
        Controller { buffer: VecDeque::new(), is_done: false }
    }

    /// An empty mailbox whose completion flag is set as given.
    pub fn with_completed(completed: bool) -> (mailbox: Self)
        ensures
            mailbox@ == Mailbox::<T>::empty(completed),
    {
        Controller { buffer: VecDeque::new(), is_done: completed }
    }

    /// Number of pending items.
    pub fn len(&self) -> (n: usize)
        ensures
            n == self@.queue.len(),
    {
        self.buffer.len()
    }

    /// Whether the producer has finished.
    pub fn is_done(&self) -> (done: bool)
        ensures
            done == self@.completed,
    {
        self.is_done
    }

    /// Appends at the tail.
    pub fn push(&mut self, value: T)
        ensures
            final(self)@ == old(self)@.pushed(value),
    {
        self.buffer.push_back(value);
    }

    /// Sets the completion flag; setting it again changes nothing.
    pub fn mark_completed(&mut self)
        ensures
            final(self)@ == old(self)@.finished(),
    {
        self.is_done = true;
    }

    /// Takes the head if there is one; otherwise reports the end once the
    /// producer has finished, and asks the caller to come back before that.
    pub fn pop(&mut self) -> (polled: Poll<Option<T>>)
        ensures
            polled == old(self)@.front(),
            final(self)@ == old(self)@.popped(),
    {
        match self.buffer.pop_front() {
            Some(it) => Poll::Ready(Some(it)),
            None => {
                if self.is_done {
                    Poll::Ready(None)
                } else {
                    Poll::Pending
                }
            },
        }
    }

    /// Bounds on the number of items still to come.
    pub fn size_hint(&self) -> (hint: (usize, Option<usize>))
        ensures
            hint == self@.hint(),
    {
        let lower_bound: usize = self.buffer.len();
        let upper_bound = if self.is_done {
            Some(lower_bound)
        } else {
            None
        };
        (lower_bound, upper_bound)
    }
}

} // verus!
