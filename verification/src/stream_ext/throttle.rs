use crate::poll::fused;
use crate::poll::Fuse;
use crate::poll::Poll;
use crate::poll::Signal;
use crate::poll::Step;
use vstd::prelude::*;

verus! {

/// Which items of a throttling window come through.
#[derive(Debug, Clone, Copy, PartialEq, Eq)]
pub enum ThrottleConfig {
    /// The item that opens the window.
    Leading,
    /// The last item that arrived while the window was open.
    Trailing,
    /// Both.
    All,
}

impl ThrottleConfig {
    /// Whether the item that opens a window is handed out at once.
    pub open spec fn leading(self) -> bool {
        self is Leading || self is All
    }

    /// Whether the last item of a window is handed out when it closes.
    pub open spec fn trailing(self) -> bool {
        self is Trailing || self is All
    }

    pub fn emits_leading(&self) -> (yes: bool)
        ensures
            yes == self.leading(),
    {
        match self {
            ThrottleConfig::Leading => true,
            ThrottleConfig::All => true,
            ThrottleConfig::Trailing => false,
        }
    }

    pub fn emits_trailing(&self) -> (yes: bool)
        ensures
            yes == self.trailing(),
    {
        match self {
            ThrottleConfig::Trailing => true,
            ThrottleConfig::All => true,
            ThrottleConfig::Leading => false,
        }
    }
}

/// The throttling operator as plain mathematics.
pub struct ThrottleState<T> {
    pub config: ThrottleConfig,
    /// The upstream has ended.
    pub done: bool,
    /// A window is open.
    pub armed: bool,
    /// The last item that arrived while a window was open.
    pub trailing: Option<T>,
}

impl<T> ThrottleState<T> {
    /// The state before anything was polled.
    pub open spec fn initial(config: ThrottleConfig) -> Self {
        ThrottleState { config, done: false, armed: false, trailing: None }
    }

    /// Whether closing the window hands out the held item.
    pub open spec fn releases(self) -> bool {
        self.armed && self.config.trailing() && self.trailing is Some
    }

    /// The state after one round. While a window is open an item only
    /// replaces the held one; otherwise it opens a window.
    pub open spec fn after(self, signal: Signal<T, ()>) -> Self {
        match signal {
            Signal::Interval(_) => if !self.armed {
                self
            } else if self.releases() {
                ThrottleState { armed: false, trailing: None, ..self }
            } else {
                ThrottleState { armed: false, ..self }
            },
            Signal::Upstream(polled) => match fused(self.done, polled) {
                Poll::Ready(Some(item)) => if self.armed {
                    ThrottleState { trailing: Some(item), ..self }
                } else {
                    ThrottleState { armed: true, ..self }
                },
                Poll::Ready(None) => ThrottleState { done: true, ..self },
                Poll::Pending => self,
            },
        }
    }

    /// What one round hands out. After a window closed without handing
    /// anything out the upstream is to be polled in the same turn.
    pub open spec fn emits(self, signal: Signal<T, ()>) -> Step<T> {
        match signal {
            Signal::Interval(_) => if !self.armed {
                Step::Wait
            } else if self.releases() {
                Step::Yield(self.trailing->0)
            } else {
                Step::Retry
            },
            Signal::Upstream(polled) => match fused(self.done, polled) {
                Poll::Ready(Some(item)) => if !self.armed && self.config.leading() {
                    Step::Yield(item)
                } else {
                    Step::Retry
                },
                Poll::Ready(None) => Step::End,
                Poll::Pending => Step::Wait,
            },
        }
    }
}

/// Lets at most the first and the last item of each window through. An
/// item that arrives while no window is open opens one.
pub struct Throttle<T> {
    config: ThrottleConfig,
    stream: Fuse,
    armed: bool,
    trailing: Option<T>,
}

impl<T> View for Throttle<T> {
    type V = ThrottleState<T>;

    closed spec fn view(&self) -> ThrottleState<T> {
        ThrottleState {
            config: self.config,
            done: self.stream@,
            armed: self.armed,
            trailing: self.trailing,
        }
    }
}

impl<T> Throttle<T> {
    pub fn new(config: ThrottleConfig) -> (operator: Self)
        ensures
            operator@ == ThrottleState::<T>::initial(config),
    {
        Throttle { config, stream: Fuse::new(), armed: false, trailing: None }
    }

    /// Whether the upstream has ended.
    pub fn is_terminated(&self) -> (done: bool)
        ensures
            done == self@.done,
    {
        self.stream.is_terminated()
    }

    /// Whether a window is open.
    pub fn is_armed(&self) -> (armed: bool)
        ensures
            armed == self@.armed,
    {
        self.armed
    }

    /// One round: the window's interval elapsed, or the upstream answered.
    pub fn poll_next(&mut self, signal: Signal<T, ()>) -> (step: Step<T>)
        ensures
            final(self)@ == old(self)@.after(signal),
            step == old(self)@.emits(signal),
    {
        match signal {
            Signal::Interval(_) => {
                if !self.armed {
                    return Step::Wait;
                }
                self.armed = false;
                if self.config.emits_trailing() {
                    if let Some(trailing) = self.trailing.take() {
                        return Step::Yield(trailing);
                    }
                }
                Step::Retry
            },
            Signal::Upstream(polled) => match self.stream.poll_next(polled) {
                Poll::Ready(Some(item)) => {
                    if self.armed {
                        self.trailing = Some(item);
                    } else {
                        self.armed = true;
                        if self.config.emits_leading() {
                            return Step::Yield(item);
                        }
                    }
                    Step::Retry
                },
                Poll::Ready(None) => Step::End,
                Poll::Pending => Step::Wait,
            },
        }
    }

    /// Bounds on the number of items still to come, from the bounds on the
    /// upstream.
    pub fn size_hint(&self, upstream: (usize, Option<usize>)) -> (hint: (usize, Option<usize>))
        ensures
            hint == (
                if upstream.0 > 0 {
                    1usize
                } else {
                    0usize
                },
                upstream.1,
            ),
    {
        let lower: usize = if upstream.0 > 0 {
            1
        } else {
            0
        };
        (lower, upstream.1)
    }
}

} // verus!
