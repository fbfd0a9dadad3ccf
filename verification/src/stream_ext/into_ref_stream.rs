use crate::event::Event;
use crate::poll::Poll;
use crate::poll::Step;
use vstd::prelude::*;

verus! {

/// What one round hands out: the upstream's answer, with an item wrapped
/// in a shared payload.
pub open spec fn wrapped<T>(polled: Poll<Option<T>>) -> Step<Event<T>> {
    match polled {
        Poll::Ready(Some(item)) => Step::Yield(Event::spec_new(item)),
        Poll::Ready(None) => Step::End,
        Poll::Pending => Step::Wait,
    }
}

/// Turns a sequence of values into a sequence of shared payloads. The
/// operator keeps nothing between rounds, so there is only one of it.
pub struct IntoRefStream {}

impl IntoRefStream {
    pub fn new() -> (operator: Self) {
        IntoRefStream {  }
    }

    /// One round, with what the upstream answered.
    pub fn poll_next<T>(&mut self, polled: Poll<Option<T>>) -> (step: Step<Event<T>>)
        ensures
            step == wrapped(polled),
    {
        match polled {
            Poll::Ready(Some(item)) => Step::Yield(Event::new(item)),
            Poll::Ready(None) => Step::End,
            Poll::Pending => Step::Wait,
        }
    }

    /// Bounds on the number of items still to come: those of the upstream.
    pub fn size_hint(&self, upstream: (usize, Option<usize>)) -> (hint: (usize, Option<usize>))
        ensures
            hint == upstream,
    {
        upstream
    }
}

} // verus!
