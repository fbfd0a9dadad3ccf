use crate::event_lite::rc_share;
use crate::event_lite::EventLite;
use crate::poll::fused;
use crate::poll::fused_done;
use crate::poll::Fuse;
use crate::poll::Poll;
use crate::poll::Step;
use std::rc::Rc;
use vstd::prelude::*;

verus! {

/// What a round hands back when the previous item cannot be given out as
/// an owned value because a handle to it is still held elsewhere. Both
/// items come back as shared handles; nothing is lost.
pub struct SharedOwnership<T> {
    pub previous: EventLite<T>,
    pub next: EventLite<T>,
}

/// The pairing operator as plain mathematics.
pub struct PairwiseState<T> {
    /// The upstream has ended.
    pub done: bool,
    /// The item that arrived last.
    pub previous: Option<T>,
}

impl<T> PairwiseState<T> {
    /// The state before anything was polled.
    pub open spec fn initial() -> Self {
        PairwiseState { done: false, previous: None }
    }

    /// The state after one round: an item takes the place of the previous
    /// one.
    pub open spec fn after(self, polled: Poll<Option<T>>) -> Self {
        PairwiseState {
            done: fused_done(self.done, polled),
            previous: match fused(self.done, polled) {
                Poll::Ready(Some(item)) => Some(item),
                _ => self.previous,
            },
        }
    }

    /// The pair that one round hands out: the previous item and the new
    /// one, once there are two.
    pub open spec fn emits(self, polled: Poll<Option<T>>) -> Step<(T, T)> {
        match fused(self.done, polled) {
            Poll::Ready(Some(item)) => match self.previous {
                Some(previous) => Step::Yield((previous, item)),
                None => Step::Retry,
            },
            Poll::Ready(None) => Step::End,
            Poll::Pending => Step::Wait,
        }
    }
}

impl<T> PairwiseState<T> {
    /// The pairs that go out while the given items arrive one after the
    /// other.
    pub open spec fn emitted(self, items: Seq<T>) -> Seq<(T, T)>
        decreases items.len(),
    {
        if items.len() == 0 {
            Seq::empty()
        } else {
            let polled = Poll::Ready(Some(items[0]));
            (match self.emits(polled) {
                Step::Yield(pair) => seq![pair],
                _ => Seq::empty(),
            }) + self.after(polled).emitted(items.drop_first())
        }
    }

    /// The item that stands before the one at `at` when the given items
    /// follow what was seen so far.
    pub open spec fn before(self, items: Seq<T>, at: int) -> T {
        if at == 0 {
            self.previous->0
        } else {
            items[at - 1]
        }
    }

    /// While items arrive, every item but the very first goes out once,
    /// paired with the item just before it.
    pub proof fn lemma_pairs_are_neighbours(self, items: Seq<T>)
        requires
            !self.done,
        ensures
            self.previous is Some ==> self.emitted(items) == Seq::new(
                items.len(),
                |i: int| (self.before(items, i), items[i]),
            ),
            self.previous is None && items.len() > 0 ==> self.emitted(items) == Seq::new(
                (items.len() - 1) as nat,
                |i: int| (items[i], items[i + 1]),
            ),
            self.previous is None && items.len() == 0 ==> self.emitted(items) == Seq::<
                (T, T),
            >::empty(),
        decreases items.len(),
    {
        if items.len() > 0 {
            let next = self.after(Poll::Ready(Some(items[0])));
            let rest = items.drop_first();
            next.lemma_pairs_are_neighbours(rest);
            if self.previous is Some {
                assert(self.emitted(items) =~= Seq::new(
                    items.len(),
                    |i: int| (self.before(items, i), items[i]),
                ));
            } else {
                assert(self.emitted(items) =~= Seq::new(
                    (items.len() - 1) as nat,
                    |i: int| (items[i], items[i + 1]),
                ));
            }
        } else {
            assert(self.emitted(items) =~= Seq::new(
                items.len(),
                |i: int| (self.before(items, i), items[i]),
            ));
        }
    }
}

/// Whether the outcome of a round shows the wanted step: the same pair,
/// either with the previous item owned, or, while that item is still
/// shared, with both items as handles.
pub open spec fn pairs<T>(
    outcome: Result<Step<(T, EventLite<T>)>, SharedOwnership<T>>,
    wanted: Step<(T, T)>,
) -> bool {
    match wanted {
        Step::Yield((previous, next)) => match outcome {
            Ok(Step::Yield((owned, shared))) => owned == previous && shared@ == next,
            Ok(_) => false,
            Err(held) => held.previous@ == previous && held.next@ == next,
        },
        Step::End => outcome == Ok::<Step<(T, EventLite<T>)>, SharedOwnership<T>>(Step::End),
        Step::Retry => outcome == Ok::<Step<(T, EventLite<T>)>, SharedOwnership<T>>(Step::Retry),
        Step::Wait => outcome == Ok::<Step<(T, EventLite<T>)>, SharedOwnership<T>>(Step::Wait),
    }
}

/// Hands out every item together with the one before it. The newer item
/// of a pair goes out as a shared handle, because it is kept to become the
/// older item of the next pair.
pub struct Pairwise<T> {
    stream: Fuse,
    previous: Option<Rc<T>>,
}

impl<T> View for Pairwise<T> {
    type V = PairwiseState<T>;

    closed spec fn view(&self) -> PairwiseState<T> {
        PairwiseState {
            done: self.stream@,
            previous: match self.previous {
                Some(handle) => Some(*handle),
                None => None,
            },
        }
    }
}

impl<T> Pairwise<T> {
    pub fn new() -> (operator: Self)
        ensures
            operator@ == PairwiseState::<T>::initial(),
    {
        Pairwise { stream: Fuse::new(), previous: None }
    }

    /// Whether the upstream has ended.
    pub fn is_terminated(&self) -> (done: bool)
        ensures
            done == self@.done,
    {
        self.stream.is_terminated()
    }

    /// One round, with what the upstream answered. The previous item is
    /// handed out owned when the handle given out with the pair before has
    /// been dropped by then, and as a handle otherwise.
    pub fn poll_next(&mut self, polled: Poll<Option<T>>) -> (outcome: Result<
        Step<(T, EventLite<T>)>,
        SharedOwnership<T>,
    >)
        ensures
            final(self)@ == old(self)@.after(polled),
            pairs(outcome, old(self)@.emits(polled)),
    {
        match self.stream.poll_next(polled) {
            Poll::Ready(Some(event)) => {
                let next = Rc::new(event);
                let kept = rc_share(&next);
                let previous = self.previous.take();
                self.previous = Some(kept);
                match previous {
                    Some(previous) => match Rc::try_unwrap(previous) {
                        Ok(owned) => Ok(Step::Yield((owned, EventLite::from_handle(next)))),
                        Err(held) => Err(
                            SharedOwnership {
                                previous: EventLite::from_handle(held),
                                next: EventLite::from_handle(next),
                            },
                        ),
                    },
                    None => Ok(Step::Retry),
                }
            },
            Poll::Ready(None) => Ok(Step::End),
            Poll::Pending => Ok(Step::Wait),
        }
    }

    /// Bounds on the number of pairs still to come, from the bounds on the
    /// upstream: one less than there are items.
    pub fn size_hint(&self, upstream: (usize, Option<usize>)) -> (hint: (usize, Option<usize>))
        ensures
            hint.0 == if upstream.0 > 0 {
                upstream.0 - 1
            } else {
                0
            },
            hint.1 == match upstream.1 {
                Some(upper) => Some(
                    if upper > 0 {
                        (upper - 1) as usize
                    } else {
                        0usize
                    },
                ),
                None => None,
            },
    {
        let lower: usize = if upstream.0 > 0 {
            upstream.0 - 1
        } else {
            0
        };
        let upper = match upstream.1 {
            Some(upper) => Some(
                if upper > 0 {
                    upper - 1
                } else {
                    0
                },
            ),
            None => None,
        };
        (lower, upper)
    }
}

} // verus!
