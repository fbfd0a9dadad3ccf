use crate::poll::fused;
use crate::poll::fused_done;
use crate::poll::into_queue;
use crate::poll::Fuse;
use crate::poll::Poll;
use crate::poll::Step;
use std::collections::VecDeque;
use vstd::prelude::*;

verus! {

/// The sum of a bound and a count, as far as a machine integer holds it.
pub open spec fn lifted_lower(lower: usize, by: nat) -> usize {
    if lower + by <= usize::MAX {
        (lower + by) as usize
    } else {
        usize::MAX
    }
}

/// The sum of an upper bound and a count; unknown where no machine
/// integer holds it.
pub open spec fn lifted_upper(upper: Option<usize>, by: nat) -> Option<usize> {
    match upper {
        Some(upper) => if upper + by <= usize::MAX {
            Some((upper + by) as usize)
        } else {
            None
        },
        None => None,
    }
}

/// Adds a count of certain items to the bounds on a sequence.
pub fn lift_hint(upstream: (usize, Option<usize>), by: usize) -> (hint: (usize, Option<usize>))
    ensures
        hint == (lifted_lower(upstream.0, by as nat), lifted_upper(upstream.1, by as nat)),
{
    let lower: usize = if upstream.0 <= usize::MAX - by {
        upstream.0 + by
    } else {
        usize::MAX
    };
    let upper = match upstream.1 {
        Some(upper) => if upper <= usize::MAX - by {
            Some(upper + by)
        } else {
            None
        },
        None => None,
    };
    (lower, upper)
}

/// The prepending operator as plain mathematics.
pub struct StartWithState<T> {
    /// The upstream has ended.
    pub done: bool,
    /// The items that go out before the upstream's, as long as any are left.
    pub value: Option<Seq<T>>,
}

impl<T> StartWithState<T> {
    /// The state before anything was polled.
    pub open spec fn initial(value: Seq<T>) -> Self {
        StartWithState { done: false, value: Some(value) }
    }

    /// Whether an item of the prefix goes out next.
    pub open spec fn in_prefix(self) -> bool {
        self.value matches Some(items) && items.len() > 0
    }

    /// The state after one round. While the prefix lasts the upstream is
    /// not looked at.
    pub open spec fn after(self, polled: Poll<Option<T>>) -> Self {
        if self.in_prefix() {
            StartWithState { value: Some(self.value->0.drop_first()), ..self }
        } else {
            StartWithState { done: fused_done(self.done, polled), value: None }
        }
    }

    /// What one round hands out: the prefix first, in order, then what the
    /// upstream answers.
    pub open spec fn emits(self, polled: Poll<Option<T>>) -> Step<T> {
        if self.in_prefix() {
            Step::Yield(self.value->0[0])
        } else {
            Step::of(fused(self.done, polled))
        }
    }

    /// How many prefix items are left.
    pub open spec fn left(self) -> nat {
        match self.value {
            Some(items) => items.len(),
            None => 0,
        }
    }
}

/// Hands out a fixed list of items before the items of the upstream.
pub struct StartWith<T> {
    stream: Fuse,
    value: Option<VecDeque<T>>,
}

impl<T> View for StartWith<T> {
    type V = StartWithState<T>;

    closed spec fn view(&self) -> StartWithState<T> {
        StartWithState {
            done: self.stream@,
            value: match self.value {
                Some(items) => Some(items@),
                None => None,
            },
        }
    }
}

impl<T> StartWith<T> {
    pub fn new(value: Vec<T>) -> (operator: Self)
        ensures
            operator@ == StartWithState::<T>::initial(value@),
    {
        StartWith { stream: Fuse::new(), value: Some(into_queue(value)) }
    }

    /// Whether the upstream has ended.
    pub fn is_terminated(&self) -> (done: bool)
        ensures
            done == self@.done,
    {
        self.stream.is_terminated()
    }

    /// Whether the upstream is to be polled for the next round. An answer
    /// of the upstream that is handed in before that is dropped.
    pub fn wants_upstream(&self) -> (wanted: bool)
        ensures
            wanted == !self@.in_prefix(),
    {
        match &self.value {
            Some(items) => items.len() == 0,
            None => true,
        }
    }

    /// One round, with what the upstream answered.
    pub fn poll_next(&mut self, polled: Poll<Option<T>>) -> (step: Step<T>)
        ensures
            final(self)@ == old(self)@.after(polled),
            step == old(self)@.emits(polled),
    {
        if let Some(mut items) = self.value.take() {
            if let Some(event) = items.pop_front() {
                assert(items@ =~= old(self)@.value->0.drop_first());
                self.value = Some(items);
                return Step::Yield(event);
            }
        }
        Step::from_poll(self.stream.poll_next(polled))
    }

    /// Runs a fresh operator over a finite upstream whose items are all at
    /// hand, up to its end: the prefix goes out first, then the upstream's
    /// items, unchanged and in order.
    pub fn collect(value: Vec<T>, items: Vec<T>) -> (out: Vec<T>)
        ensures
            out@ == value@ + items@,
    {
        let ghost whole = value@ + items@;
        let mut operator = StartWith::new(value);
        let mut queue = into_queue(items);
        let mut out: Vec<T> = Vec::new();
        let mut ended = false;
        while !ended
            invariant
                !operator@.done || ended,
                ended ==> out@ == whole,
                !ended ==> out@ + (match operator@.value {
                    Some(left) => left,
                    None => Seq::empty(),
                }) + queue@ == whole,
            decreases
                    if ended {
                        0
                    } else {
                        operator@.left() + queue@.len() + 1
                    },
        {
            let ghost before = operator@;
            let ghost pending = queue@;
            let ghost so_far = out@;
            let polled = if operator.wants_upstream() {
                Poll::Ready(queue.pop_front())
            } else {
                Poll::Pending
            };
            match operator.poll_next(polled) {
                Step::Yield(item) => {
                    out.push(item);
                    proof {
                        if before.in_prefix() {
                            assert(so_far + before.value->0 + pending =~= out@
                                + before.value->0.drop_first() + queue@);
                        } else {
                            assert(so_far + Seq::<T>::empty() + pending =~= out@ + Seq::<
                                T,
                            >::empty() + queue@);
                            assert(before.value matches Some(left) ==> so_far + left + pending
                                =~= so_far + Seq::<T>::empty() + pending);
                        }
                    }
                },
                _ => {
                    ended = true;
                    assert(so_far + Seq::<T>::empty() + pending =~= so_far);
                    assert(before.value matches Some(left) ==> so_far + left + pending
                        =~= so_far);
                },
            }
        }
        out
    }

    /// Bounds on the number of items still to come, from the bounds on the
    /// upstream.
    pub fn size_hint(&self, upstream: (usize, Option<usize>)) -> (hint: (usize, Option<usize>))
        ensures
            hint == (
                lifted_lower(upstream.0, self@.left()),
                lifted_upper(upstream.1, self@.left()),
            ),
    {
        let len: usize = match &self.value {
            Some(items) => items.len(),
            None => 0,
        };
        lift_hint(upstream, len)
    }
}

} // verus!
