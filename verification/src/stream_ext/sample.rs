use crate::poll::fused;
use crate::poll::fused_done;
use crate::poll::Fuse;
use crate::poll::Poll;
use crate::poll::Step;
use vstd::prelude::*;

verus! {

/// The sampling operator as plain mathematics.
pub struct SampleState<T> {
    /// The upstream has ended.
    pub done: bool,
    /// The sampler has ended.
    pub sampler_done: bool,
    /// The latest upstream item that no tick has taken yet.
    pub latest: Option<T>,
}

impl<T> SampleState<T> {
    /// The state before anything was polled.
    pub open spec fn initial() -> Self {
        SampleState { done: false, sampler_done: false, latest: None }
    }

    /// The latest item once the upstream's answer is taken in.
    pub open spec fn taken_in(self, stream: Poll<Option<T>>) -> Option<T> {
        match fused(self.done, stream) {
            Poll::Ready(Some(item)) => Some(item),
            _ => self.latest,
        }
    }

    /// The state after one round: a tick, or the sampler's end, takes the
    /// latest item away.
    pub open spec fn after(self, stream: Poll<Option<T>>, sampler: Poll<Option<()>>) -> Self {
        SampleState {
            done: fused_done(self.done, stream),
            sampler_done: fused_done(self.sampler_done, sampler),
            latest: match fused(self.sampler_done, sampler) {
                Poll::Ready(_) => None,
                Poll::Pending => self.taken_in(stream),
            },
        }
    }

    /// What one round hands out: on a tick the latest item, if a new one
    /// arrived since the last tick; at the sampler's end whatever is left.
    pub open spec fn emits(self, stream: Poll<Option<T>>, sampler: Poll<Option<()>>) -> Step<T> {
        match fused(self.sampler_done, sampler) {
            Poll::Ready(Some(_)) => match self.taken_in(stream) {
                Some(item) => Step::Yield(item),
                None => Step::Retry,
            },
            Poll::Ready(None) => match self.taken_in(stream) {
                Some(item) => Step::Yield(item),
                None => Step::End,
            },
            Poll::Pending => if fused(self.done, stream) is Ready && fused(
                self.done,
                stream,
            )->Ready_0 is Some {
                Step::Retry
            } else {
                Step::Wait
            },
        }
    }
}

/// Hands out the latest upstream item each time a second sequence, the
/// sampler, ticks.
pub struct Sample<T> {
    stream: Fuse,
    sampler: Fuse,
    latest_event: Option<T>,
}

impl<T> View for Sample<T> {
    type V = SampleState<T>;

    closed spec fn view(&self) -> SampleState<T> {
        SampleState { done: self.stream@, sampler_done: self.sampler@, latest: self.latest_event }
    }
}

impl<T> Sample<T> {
    pub fn new() -> (operator: Self)
        ensures
            operator@ == SampleState::<T>::initial(),
    {
        Sample { stream: Fuse::new(), sampler: Fuse::new(), latest_event: None }
    }

    /// Whether the upstream or the sampler has ended.
    pub fn is_terminated(&self) -> (done: bool)
        ensures
            done == (self@.done || self@.sampler_done),
    {
        self.stream.is_terminated() || self.sampler.is_terminated()
    }

    /// One round, with what the upstream and the sampler answered.
    pub fn poll_next(&mut self, stream: Poll<Option<T>>, sampler: Poll<Option<()>>) -> (step: Step<
        T,
    >)
        ensures
            final(self)@ == old(self)@.after(stream, sampler),
            step == old(self)@.emits(stream, sampler),
    {
        let mut arrived = false;
        if let Poll::Ready(Some(event)) = self.stream.poll_next(stream) {
            self.latest_event = Some(event);
            arrived = true;
        }
        match self.sampler.poll_next(sampler) {
            Poll::Ready(Some(_)) => match self.latest_event.take() {
                Some(item) => Step::Yield(item),
                None => Step::Retry,
            },
            Poll::Ready(None) => match self.latest_event.take() {
                Some(item) => Step::Yield(item),
                None => Step::End,
            },
            Poll::Pending => if arrived {
                Step::Retry
            } else {
                Step::Wait
            },
        }
    }

    /// Bounds on the number of items still to come, from the bounds on the
    /// upstream and on the sampler.
    pub fn size_hint(
        &self,
        stream: (usize, Option<usize>),
        sampler: (usize, Option<usize>),
    ) -> (hint: (usize, Option<usize>))
        ensures
            hint.0 == if stream.0 <= sampler.0 {
                stream.0
            } else {
                sampler.0
            },
            hint.1 == match (stream.1, sampler.1) {
                (Some(a), Some(b)) => Some(
                    if a >= b {
                        a
                    } else {
                        b
                    },
                ),
                (Some(a), None) => Some(a),
                (None, other) => other,
            },
    {
        let lower: usize = if stream.0 <= sampler.0 {
            stream.0
        } else {
            sampler.0
        };
        let upper = match (stream.1, sampler.1) {
            (Some(a), Some(b)) => Some(
                if a >= b {
                    a
                } else {
                    b
                },
            ),
            (Some(a), None) => Some(a),
            (None, other) => other,
        };
        (lower, upper)
    }
}

} // verus!
