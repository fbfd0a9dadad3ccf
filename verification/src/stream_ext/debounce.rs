use crate::poll::fused;
use crate::poll::Fuse;
use crate::poll::Poll;
use crate::poll::Signal;
use crate::poll::Step;
use vstd::prelude::*;

verus! {

/// The debouncing operator as plain mathematics.
pub struct DebounceState<T> {
    /// The upstream has ended.
    pub done: bool,
    /// An interval is running.
    pub armed: bool,
    /// The latest item, held back until the interval elapses.
    pub candidate: Option<T>,
}

impl<T> DebounceState<T> {
    /// The state before anything was polled.
    pub open spec fn initial() -> Self {
        DebounceState { done: false, armed: false, candidate: None }
    }

    /// The state after one round: an item replaces the candidate and
    /// restarts the interval; an elapsed interval or the end of the upstream
    /// releases the candidate.
    pub open spec fn after(self, signal: Signal<T, ()>) -> Self {
        match signal {
            Signal::Interval(_) => if self.armed {
                DebounceState { armed: false, candidate: None, ..self }
            } else {
                self
            },
            Signal::Upstream(polled) => match fused(self.done, polled) {
                Poll::Ready(Some(item)) => DebounceState {
                    armed: true,
                    candidate: Some(item),
                    ..self
                },
                Poll::Ready(None) => DebounceState { done: true, candidate: None, ..self },
                Poll::Pending => self,
            },
        }
    }

    /// What one round hands out.
    pub open spec fn emits(self, signal: Signal<T, ()>) -> Step<T> {
        match signal {
            Signal::Interval(_) => if self.armed {
                self.release()
            } else {
                Step::Wait
            },
            Signal::Upstream(polled) => match fused(self.done, polled) {
                Poll::Ready(Some(_)) => Step::Retry,
                Poll::Ready(None) => self.release(),
                Poll::Pending => Step::Wait,
            },
        }
    }

    /// Handing out the candidate, or the end when there is none.
    pub open spec fn release(self) -> Step<T> {
        match self.candidate {
            Some(item) => Step::Yield(item),
            None => Step::End,
        }
    }
}

/// Holds back the latest upstream item until an interval has passed
/// without a newer one; the last candidate is flushed when the upstream
/// ends.
pub struct Debounce<T> {
    stream: Fuse,
    armed: bool,
    candidate_event: Option<T>,
}

impl<T> View for Debounce<T> {
    type V = DebounceState<T>;

    closed spec fn view(&self) -> DebounceState<T> {
        DebounceState { done: self.stream@, armed: self.armed, candidate: self.candidate_event }
    }
}

impl<T> Debounce<T> {
    pub fn new() -> (operator: Self)
        ensures
            operator@ == DebounceState::<T>::initial(),
    {
        Debounce { stream: Fuse::new(), armed: false, candidate_event: None }
    }

    /// Whether the upstream has ended.
    pub fn is_terminated(&self) -> (done: bool)
        ensures
            done == self@.done,
    {
        self.stream.is_terminated()
    }

    /// Whether an interval is running.
    pub fn is_armed(&self) -> (armed: bool)
        ensures
            armed == self@.armed,
    {
        self.armed
    }

    /// One round: the interval elapsed, or the upstream answered.
    pub fn poll_next(&mut self, signal: Signal<T, ()>) -> (step: Step<T>)
        ensures
            final(self)@ == old(self)@.after(signal),
            step == old(self)@.emits(signal),
    {
        match signal {
            Signal::Interval(_) => {
                if self.armed {
                    self.armed = false;
                    self.take()
                } else {
                    Step::Wait
                }
            },
            Signal::Upstream(polled) => match self.stream.poll_next(polled) {
                Poll::Ready(Some(item)) => {
                    self.armed = true;
                    self.candidate_event = Some(item);
                    Step::Retry
                },
                Poll::Ready(None) => self.take(),
                Poll::Pending => Step::Wait,
            },
        }
    }

    /// Hands out the candidate.
    fn take(&mut self) -> (step: Step<T>)
        ensures
            step == old(self)@.release(),
            final(self)@ == (DebounceState { candidate: None, ..old(self)@ }),
    {
        match self.candidate_event.take() {
            Some(item) => Step::Yield(item),
            None => Step::End,
        }
    }

    /// Bounds on the number of items still to come, from the bounds on the
    /// upstream: the last item is certain to come through, any other may be
    /// overtaken.
    pub fn size_hint(&self, upstream: (usize, Option<usize>)) -> (hint: (usize, Option<usize>))
        ensures
            hint == (
                if upstream.0 > 0 {
                    1usize
                } else {
                    0usize
                },
                upstream.1,
            ),
    {
        let lower: usize = if upstream.0 > 0 {
            1
        } else {
            0
        };
        (lower, upstream.1)
    }
}

} // verus!
