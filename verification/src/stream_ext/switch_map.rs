use crate::poll::fused;
use crate::poll::fused_done;
use crate::poll::Fuse;
use crate::poll::Poll;
use crate::poll::Step;
use vstd::prelude::*;

verus! {

/// The switching operator as plain mathematics.
pub struct SwitchMapState {
    /// The outer sequence has ended.
    pub outer_done: bool,
    /// An inner sequence was made.
    pub has_inner: bool,
    /// The current inner sequence has ended.
    pub inner_done: bool,
}

impl SwitchMapState {
    /// The state before anything was polled.
    pub open spec fn initial() -> Self {
        SwitchMapState { outer_done: false, has_inner: false, inner_done: false }
    }

    /// The state after the outer sequence answered: an item starts a new
    /// inner sequence in place of the current one.
    pub open spec fn switched<T>(self, outer: Poll<Option<T>>) -> Self {
        match fused(self.outer_done, outer) {
            Poll::Ready(Some(_)) => SwitchMapState { has_inner: true, inner_done: false, ..self },
            Poll::Ready(None) => SwitchMapState { outer_done: true, ..self },
            Poll::Pending => self,
        }
    }

    /// The item from which the next inner sequence is to be made.
    pub open spec fn mapped<T>(self, outer: Poll<Option<T>>) -> Option<T> {
        match fused(self.outer_done, outer) {
            Poll::Ready(Some(item)) => Some(item),
            _ => None,
        }
    }

    /// Whether there is an inner sequence to poll.
    pub open spec fn polls_inner(self) -> bool {
        self.has_inner && !self.inner_done
    }

    /// The state after the current inner sequence answered.
    pub open spec fn after<U>(self, inner: Poll<Option<U>>) -> Self {
        if self.has_inner {
            SwitchMapState { inner_done: fused_done(self.inner_done, inner), ..self }
        } else {
            self
        }
    }

    /// What one round hands out: the items of the current inner sequence,
    /// and the end once both the outer and the current inner sequence have
    /// ended.
    pub open spec fn emits<U>(self, inner: Poll<Option<U>>) -> Step<U> {
        if self.has_inner {
            match fused(self.inner_done, inner) {
                Poll::Ready(Some(item)) => Step::Yield(item),
                Poll::Ready(None) => self.idle(),
                Poll::Pending => Step::Wait,
            }
        } else {
            self.idle()
        }
    }

    /// With no inner item at hand: the end if the outer sequence has
    /// ended, waiting otherwise.
    pub open spec fn idle<U>(self) -> Step<U> {
        if self.outer_done {
            Step::End
        } else {
            Step::Wait
        }
    }
}

/// Follows the inner sequence made from the latest outer item. A new
/// outer item replaces the current inner sequence, wherever that one stands.
pub struct SwitchMap {
    stream: Fuse,
    has_inner: bool,
    switch_stream: Fuse,
}

impl View for SwitchMap {
    type V = SwitchMapState;

    closed spec fn view(&self) -> SwitchMapState {
        SwitchMapState {
            outer_done: self.stream@,
            has_inner: self.has_inner,
            inner_done: self.switch_stream@,
        }
    }
}

impl SwitchMap {
    pub fn new() -> (operator: Self)
        ensures
            operator@ == SwitchMapState::initial(),
    {
        SwitchMap { stream: Fuse::new(), has_inner: false, switch_stream: Fuse::new() }
    }

    /// Whether the outer sequence has ended and the inner sequence that
    /// was made last has ended too.
    pub fn is_terminated(&self) -> (done: bool)
        ensures
            done == (self@.outer_done && self@.has_inner && self@.inner_done),
    {
        if self.stream.is_terminated() {
            self.has_inner && self.switch_stream.is_terminated()
        } else {
            false
        }
    }

    /// Whether there is an inner sequence to poll for the next round.
    pub fn wants_inner(&self) -> (wanted: bool)
        ensures
            wanted == self@.polls_inner(),
    {
        self.has_inner && !self.switch_stream.is_terminated()
    }

    /// First half of a round, with what the outer sequence answered. An
    /// item comes back out: the caller makes the next inner sequence from
    /// it and drops the current one.
    pub fn switch<T>(&mut self, outer: Poll<Option<T>>) -> (item: Option<T>)
        ensures
            final(self)@ == old(self)@.switched(outer),
            item == old(self)@.mapped(outer),
    {
        match self.stream.poll_next(outer) {
            Poll::Ready(Some(item)) => {
                self.has_inner = true;
                self.switch_stream = Fuse::new();
                Some(item)
            },
            _ => None,
        }
    }

    /// Second half of a round, with what the current inner sequence
    /// answered. Without an inner sequence the answer is not looked at.
    pub fn poll_next<U>(&mut self, inner: Poll<Option<U>>) -> (step: Step<U>)
        ensures
            final(self)@ == old(self)@.after(inner),
            step == old(self)@.emits(inner),
    {
        if self.has_inner {
            match self.switch_stream.poll_next(inner) {
                Poll::Ready(Some(item)) => Step::Yield(item),
                Poll::Ready(None) => self.idle(),
                Poll::Pending => Step::Wait,
            }
        } else {
            self.idle()
        }
    }

    fn idle<U>(&self) -> (step: Step<U>)
        ensures
            step == self@.idle::<U>(),
    {
        if self.stream.is_terminated() {
            Step::End
        } else {
            Step::Wait
        }
    }

    /// Bounds on the number of items still to come: those of the current
    /// inner sequence once the outer one has ended, and before that only
    /// the outer sequence's lower bound.
    pub fn size_hint(
        &self,
        outer: (usize, Option<usize>),
        inner: Option<(usize, Option<usize>)>,
    ) -> (hint: (usize, Option<usize>))
        ensures
            hint == if self@.outer_done {
                match inner {
                    Some(bounds) => bounds,
                    None => (0usize, None),
                }
            } else {
                (outer.0, None)
            },
    {
        if self.stream.is_terminated() {
            match inner {
                Some(bounds) => bounds,
                None => (0, None),
            }
        } else {
            (outer.0, None)
        }
    }
}

} // verus!
