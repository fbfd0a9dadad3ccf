use crate::poll::fused;
use crate::poll::fused_done;
use crate::poll::Fuse;
use crate::poll::Poll;
use crate::poll::Step;
use vstd::prelude::*;

verus! {

/// An item with the reading of a monotonic clock at which it came
/// through, and the time since the item before it. Readings and spans are
/// counted in the clock's own unit.
#[derive(Debug, Clone, PartialEq, Eq)]
pub struct Timed<T> {
    pub event: T,
    pub timestamp: u64,
    pub interval: Option<u64>,
}

/// The span from an earlier reading to a later one; none if the later one
/// lies before the earlier.
pub open spec fn span(later: u64, earlier: u64) -> u64 {
    if later >= earlier {
        (later - earlier) as u64
    } else {
        0
    }
}

/// The timing operator as plain mathematics.
pub struct TimingState {
    /// The upstream has ended.
    pub done: bool,
    /// The reading at which the last item came through.
    pub last_time: Option<u64>,
}

impl TimingState {
    /// The state before anything was polled.
    pub open spec fn initial() -> Self {
        TimingState { done: false, last_time: None }
    }

    /// The state after one round: an item leaves its reading behind.
    pub open spec fn after<T>(self, polled: Poll<Option<T>>, now: u64) -> Self {
        TimingState {
            done: fused_done(self.done, polled),
            last_time: match fused(self.done, polled) {
                Poll::Ready(Some(_)) => Some(now),
                _ => self.last_time,
            },
        }
    }

    /// What one round hands out: the item with the reading and with the
    /// span since the item before it, if there was one.
    pub open spec fn emits<T>(self, polled: Poll<Option<T>>, now: u64) -> Step<Timed<T>> {
        match fused(self.done, polled) {
            Poll::Ready(Some(event)) => Step::Yield(
                Timed {
                    event,
                    timestamp: now,
                    interval: match self.last_time {
                        Some(last) => Some(span(now, last)),
                        None => None,
                    },
                },
            ),
            Poll::Ready(None) => Step::End,
            Poll::Pending => Step::Wait,
        }
    }
}

/// Stamps every item with the time at which it came through. The caller
/// reads the clock and hands the reading in.
pub struct Timing {
    stream: Fuse,
    last_time: Option<u64>,
}

impl View for Timing {
    type V = TimingState;

    closed spec fn view(&self) -> TimingState {
        TimingState { done: self.stream@, last_time: self.last_time }
    }
}

impl Timing {
    pub fn new() -> (operator: Self)
        ensures
            operator@ == TimingState::initial(),
    {
        Timing { stream: Fuse::new(), last_time: None }
    }

    /// Whether the upstream has ended.
    pub fn is_terminated(&self) -> (done: bool)
        ensures
            done == self@.done,
    {
        self.stream.is_terminated()
    }

    /// One round, with what the upstream answered and the clock's reading.
    pub fn poll_next<T>(&mut self, polled: Poll<Option<T>>, now: u64) -> (step: Step<Timed<T>>)
        ensures
            final(self)@ == old(self)@.after(polled, now),
            step == old(self)@.emits(polled, now),
    {
        match self.stream.poll_next(polled) {
            Poll::Ready(Some(event)) => {
                let interval = match self.last_time {
                    Some(last) => Some(
                        if now >= last {
                            now - last
                        } else {
                            0
                        },
                    ),
                    None => None,
                };
                self.last_time = Some(now);
                Step::Yield(Timed { event, timestamp: now, interval })
            },
            Poll::Ready(None) => Step::End,
            Poll::Pending => Step::Wait,
        }
    }

    /// Bounds on the number of items still to come: those of the upstream.
    pub fn size_hint(&self, upstream: (usize, Option<usize>)) -> (hint: (usize, Option<usize>))
        ensures
            hint == upstream,
    {
        upstream
    }
}

} // verus!
