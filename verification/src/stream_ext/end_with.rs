use crate::poll::fused_done;
use crate::poll::into_queue;
use crate::poll::Fuse;
use crate::poll::Poll;
use crate::poll::Step;
use crate::stream_ext::start_with::lift_hint;
use crate::stream_ext::start_with::lifted_lower;
use crate::stream_ext::start_with::lifted_upper;
use std::collections::VecDeque;
use vstd::prelude::*;

verus! {

/// The appending operator as plain mathematics.
pub struct EndWithState<T> {
    /// The upstream has ended.
    pub done: bool,
    /// The items that go out after the upstream's, as long as any are left.
    pub value: Option<Seq<T>>,
}

impl<T> EndWithState<T> {
    /// The state before anything was polled.
    pub open spec fn initial(value: Seq<T>) -> Self {
        EndWithState { done: false, value: Some(value) }
    }

    /// Whether an item of the suffix is left.
    pub open spec fn has_suffix(self) -> bool {
        self.value matches Some(items) && items.len() > 0
    }

    /// The state after one round: each round after the upstream's end
    /// takes one item off the suffix.
    pub open spec fn after(self, polled: Poll<Option<T>>) -> Self {
        EndWithState {
            done: fused_done(self.done, polled),
            value: if fused_done(self.done, polled) {
                if self.has_suffix() {
                    Some(self.value->0.drop_first())
                } else {
                    None
                }
            } else {
                self.value
            },
        }
    }

    /// What one round hands out: what the upstream answers, and after its
    /// end the suffix, in order.
    pub open spec fn emits(self, polled: Poll<Option<T>>) -> Step<T> {
        if fused_done(self.done, polled) {
            if self.has_suffix() {
                Step::Yield(self.value->0[0])
            } else {
                Step::End
            }
        } else {
            Step::of(polled)
        }
    }

    /// How many suffix items are left.
    pub open spec fn left(self) -> nat {
        match self.value {
            Some(items) => items.len(),
            None => 0,
        }
    }
}

/// Hands out a fixed list of items after the items of the upstream.
pub struct EndWith<T> {
    stream: Fuse,
    value: Option<VecDeque<T>>,
}

impl<T> View for EndWith<T> {
    type V = EndWithState<T>;

    closed spec fn view(&self) -> EndWithState<T> {
        EndWithState {
            done: self.stream@,
            value: match self.value {
                Some(items) => Some(items@),
                None => None,
            },
        }
    }
}

impl<T> EndWith<T> {
    pub fn new(value: Vec<T>) -> (operator: Self)
        ensures
            operator@ == EndWithState::<T>::initial(value@),
    {
        EndWith { stream: Fuse::new(), value: Some(into_queue(value)) }
    }

    /// Whether the upstream has ended.
    pub fn is_terminated(&self) -> (done: bool)
        ensures
            done == self@.done,
    {
        self.stream.is_terminated()
    }

    /// One round, with what the upstream answered.
    pub fn poll_next(&mut self, polled: Poll<Option<T>>) -> (step: Step<T>)
        ensures
            final(self)@ == old(self)@.after(polled),
            step == old(self)@.emits(polled),
    {
        match self.stream.poll_next(polled) {
            Poll::Ready(None) => {
                if let Some(mut items) = self.value.take() {
                    if let Some(event) = items.pop_front() {
                        assert(items@ =~= old(self)@.value->0.drop_first());
                        self.value = Some(items);
                        return Step::Yield(event);
                    }
                }
                Step::End
            },
            other => Step::from_poll(other),
        }
    }

    /// Runs a fresh operator over a finite upstream whose items are all at
    /// hand, up to its end: the upstream's items go out unchanged and in
    /// order, then the suffix.
    pub fn collect(items: Vec<T>, value: Vec<T>) -> (out: Vec<T>)
        ensures
            out@ == items@ + value@,
    {
        let ghost whole = items@ + value@;
        let mut operator = EndWith::new(value);
        let mut queue = into_queue(items);
        let mut out: Vec<T> = Vec::new();
        let mut ended = false;
        while !ended
            invariant
                ended ==> out@ == whole,
                !ended ==> out@ + queue@ + (match operator@.value {
                    Some(left) => left,
                    None => Seq::empty(),
                }) == whole,
                !ended && operator@.done ==> queue@.len() == 0,
            decreases
                    if ended {
                        0
                    } else {
                        operator@.left() + queue@.len() + 1
                    },
        {
            let ghost before = operator@;
            let ghost pending = queue@;
            let ghost so_far = out@;
            let ghost left = match before.value {
                Some(left) => left,
                None => Seq::empty(),
            };
            match operator.poll_next(Poll::Ready(queue.pop_front())) {
                Step::Yield(item) => {
                    out.push(item);
                    proof {
                        if pending.len() > 0 && !before.done {
                            assert(so_far + pending + left =~= out@ + queue@ + left);
                        } else {
                            assert(so_far + pending + left =~= out@ + queue@ + left.drop_first());
                        }
                    }
                },
                _ => {
                    ended = true;
                    assert(so_far + pending + left =~= so_far);
                },
            }
        }
        out
    }

    /// Bounds on the number of items still to come, from the bounds on the
    /// upstream.
    pub fn size_hint(&self, upstream: (usize, Option<usize>)) -> (hint: (usize, Option<usize>))
        ensures
            hint == (
                lifted_lower(upstream.0, self@.left()),
                lifted_upper(upstream.1, self@.left()),
            ),
    {
        let len: usize = match &self.value {
            Some(items) => items.len(),
            None => 0,
        };
        lift_hint(upstream, len)
    }
}

} // verus!
