use crate::poll::fused;
use crate::poll::fused_done;
use crate::poll::Fuse;
use crate::poll::Poll;
use crate::poll::Step;
use vstd::prelude::*;

verus! {

/// Hands the upstream through unchanged and tells the caller when to run
/// its end-of-sequence callback.
pub struct InspectDone {
    stream: Fuse,
}

impl View for InspectDone {
    type V = bool;

    /// Whether the upstream has ended.
    closed spec fn view(&self) -> bool {
        self.stream@
    }
}

impl InspectDone {
    pub fn new() -> (operator: Self)
        ensures
            !operator@,
    {
        InspectDone { stream: Fuse::new() }
    }

    /// Whether the upstream has ended.
    pub fn is_terminated(&self) -> (done: bool)
        ensures
            done == self@,
    {
        self.stream.is_terminated()
    }

    /// One round, with what the upstream answered. The flag says whether
    /// the callback is to run: in every round that reports the end.
    pub fn poll_next<T>(&mut self, polled: Poll<Option<T>>) -> (outcome: (Step<T>, bool))
        ensures
            final(self)@ == fused_done(old(self)@, polled),
            outcome.0 == Step::of(fused(old(self)@, polled)),
            outcome.1 == fused_done(old(self)@, polled),
    {
        let seen = self.stream.poll_next(polled);
        let notify = match &seen {
            Poll::Ready(None) => true,
            _ => false,
        };
        (Step::from_poll(seen), notify)
    }

    /// Bounds on the number of items still to come: those of the upstream.
    pub fn size_hint(&self, upstream: (usize, Option<usize>)) -> (hint: (usize, Option<usize>))
        ensures
            hint == upstream,
    {
        upstream
    }
}

} // verus!
