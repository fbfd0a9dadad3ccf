use crate::poll::Signal;
use crate::poll::Step;
use crate::stream_ext::buffer::shows;
use crate::stream_ext::buffer::Buffer;
use crate::stream_ext::buffer::BufferState;
use vstd::prelude::*;

verus! {

/// Gathers upstream items into windows exactly as [`Buffer`] gathers them
/// into lists; the caller turns each list it is handed into a sequence of
/// its own.
pub struct Window<T> {
    inner: Buffer<T>,
}

impl<T> View for Window<T> {
    type V = BufferState<T>;

    closed spec fn view(&self) -> BufferState<T> {
        self.inner@
    }
}

impl<T> Window<T> {
    pub fn new() -> (operator: Self)
        ensures
            operator@ == BufferState::<T>::initial(),
    {
        Window { inner: Buffer::new() }
    }

    /// Whether the upstream has ended.
    pub fn is_terminated(&self) -> (done: bool)
        ensures
            done == self@.done,
    {
        self.inner.is_terminated()
    }

    /// Whether an interval is running.
    pub fn is_armed(&self) -> (armed: bool)
        ensures
            armed == self@.armed,
    {
        self.inner.is_armed()
    }

    /// The count that the interval for the next item is made with.
    pub fn next_count(&self) -> (count: usize)
        ensures
            count == if self@.next_count() <= usize::MAX {
                self@.next_count()
            } else {
                usize::MAX as nat
            },
    {
        self.inner.next_count()
    }

    /// One round: the interval elapsed, or the upstream answered. A step
    /// that yields carries the items of one window, in order.
    pub fn poll_next(&mut self, signal: Signal<T, bool>) -> (step: Step<Vec<T>>)
        ensures
            final(self)@ == old(self)@.after(signal),
            shows(step, old(self)@.emits(signal)),
    {
        self.inner.poll_next(signal)
    }

    /// Bounds on the number of windows still to come.
    pub fn size_hint(&self, upstream: (usize, Option<usize>)) -> (hint: (usize, Option<usize>))
        ensures
            hint == (
                if upstream.0 > 0 {
                    1usize
                } else {
                    0usize
                },
                upstream.1,
            ),
    {
        self.inner.size_hint(upstream)
    }
}

} // verus!
