use crate::poll::fused;
use crate::poll::fused_done;
use crate::poll::Fuse;
use crate::poll::Signal;
use crate::poll::Step;
use vstd::prelude::*;

verus! {

/// The delaying operator as plain mathematics.
pub struct DelayState {
    /// The upstream has ended.
    pub done: bool,
    /// The one interval is running.
    pub armed: bool,
    /// The interval was started.
    pub did_delay: bool,
}

impl DelayState {
    /// The state before anything was polled.
    pub open spec fn initial() -> Self {
        DelayState { done: false, armed: false, did_delay: false }
    }

    /// Whether the upstream is to be polled in this state: only once the
    /// interval has come and gone.
    pub open spec fn forwards(self) -> bool {
        self.did_delay && !self.armed
    }

    /// The state after one round. The first round starts the interval,
    /// whatever it is told; while the interval runs only its elapsing
    /// counts.
    pub open spec fn after<T>(self, signal: Signal<T, ()>) -> Self {
        if !self.did_delay {
            DelayState { armed: true, did_delay: true, ..self }
        } else if self.armed {
            match signal {
                Signal::Interval(_) => DelayState { armed: false, ..self },
                Signal::Upstream(_) => self,
            }
        } else {
            match signal {
                Signal::Interval(_) => self,
                Signal::Upstream(polled) => DelayState {
                    done: fused_done(self.done, polled),
                    ..self
                },
            }
        }
    }

    /// What one round hands out: nothing until the interval has elapsed,
    /// the upstream's own answers after that.
    pub open spec fn emits<T>(self, signal: Signal<T, ()>) -> Step<T> {
        if !self.forwards() {
            Step::Retry
        } else {
            match signal {
                Signal::Interval(_) => Step::Wait,
                Signal::Upstream(polled) => Step::of(fused(self.done, polled)),
            }
        }
    }
}

/// Holds the upstream back for one interval and hands its items through
/// unchanged after that.
pub struct Delay {
    stream: Fuse,
    armed: bool,
    did_delay: bool,
}

impl View for Delay {
    type V = DelayState;

    closed spec fn view(&self) -> DelayState {
        DelayState { done: self.stream@, armed: self.armed, did_delay: self.did_delay }
    }
}

impl Delay {
    pub fn new() -> (operator: Self)
        ensures
            operator@ == DelayState::initial(),
    {
        Delay { stream: Fuse::new(), armed: false, did_delay: false }
    }

    /// Whether the upstream has ended.
    pub fn is_terminated(&self) -> (done: bool)
        ensures
            done == self@.done,
    {
        self.stream.is_terminated()
    }

    /// Whether the interval is running.
    pub fn is_armed(&self) -> (armed: bool)
        ensures
            armed == self@.armed,
    {
        self.armed
    }

    /// Whether the upstream is to be polled for the next round. An answer
    /// of the upstream that is handed in before that is dropped.
    pub fn wants_upstream(&self) -> (wanted: bool)
        ensures
            wanted == self@.forwards(),
    {
        self.did_delay && !self.armed
    }

    /// One round: the interval elapsed, or the upstream answered.
    pub fn poll_next<T>(&mut self, signal: Signal<T, ()>) -> (step: Step<T>)
        ensures
            final(self)@ == old(self)@.after(signal),
            step == old(self)@.emits(signal),
    {
        if !self.did_delay {
            self.did_delay = true;
            self.armed = true;
            return Step::Retry;
        }
        match signal {
            Signal::Interval(_) => {
                if self.armed {
                    self.armed = false;
                    Step::Retry
                } else {
                    Step::Wait
                }
            },
            Signal::Upstream(polled) => {
                if self.armed {
                    Step::Retry
                } else {
                    Step::from_poll(self.stream.poll_next(polled))
                }
            },
        }
    }

    /// Bounds on the number of items still to come, from the bounds on the
    /// upstream.
    pub fn size_hint(&self, upstream: (usize, Option<usize>)) -> (hint: (usize, Option<usize>))
        ensures
            hint == (
                if upstream.0 > 0 {
                    1usize
                } else {
                    0usize
                },
                upstream.1,
            ),
    {
        let lower: usize = if upstream.0 > 0 {
            1
        } else {
            0
        };
        (lower, upstream.1)
    }
}

} // verus!
