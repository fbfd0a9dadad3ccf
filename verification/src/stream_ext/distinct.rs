use crate::poll::fused;
use crate::poll::fused_done;
use crate::poll::into_queue;
use crate::poll::Fuse;
use crate::poll::Poll;
use crate::poll::Step;
use std::collections::HashSet;
use vstd::prelude::*;

verus! {

/// The operator that suppresses repeats, as plain mathematics.
pub struct DistinctState {
    /// The upstream has ended.
    pub done: bool,
    /// The hashes of all items that came through.
    pub seen: Set<u64>,
}

impl DistinctState {
    /// The state before anything was polled.
    pub open spec fn initial() -> Self {
        DistinctState { done: false, seen: Set::empty() }
    }

    /// The state after one round: the hash of an item is remembered.
    pub open spec fn after<T>(self, polled: Poll<Option<(u64, T)>>) -> Self {
        DistinctState {
            done: fused_done(self.done, polled),
            seen: match fused(self.done, polled) {
                Poll::Ready(Some((hash, _))) => self.seen.insert(hash),
                _ => self.seen,
            },
        }
    }

    /// What one round hands out: the item, unless its hash was seen at
    /// any earlier point.
    pub open spec fn emits<T>(self, polled: Poll<Option<(u64, T)>>) -> Step<T> {
        match fused(self.done, polled) {
            Poll::Ready(Some((hash, item))) => if self.seen.contains(hash) {
                Step::Retry
            } else {
                Step::Yield(item)
            },
            Poll::Ready(None) => Step::End,
            Poll::Pending => Step::Wait,
        }
    }
}

/// Whether the hash of the item at `at` occurs at no earlier place.
pub open spec fn first_seen<T>(items: Seq<(u64, T)>, at: int) -> bool {
    forall|j: int| 0 <= j < at ==> (#[trigger] items[j]).0 != items[at].0
}

/// What comes through of the first `n` items of a finite sequence: in
/// their order, the items whose hash occurs at no earlier place.
pub open spec fn distinct_among<T>(items: Seq<(u64, T)>, n: nat) -> Seq<T>
    decreases n,
{
    if n == 0 {
        Seq::empty()
    } else if first_seen(items, n - 1) {
        distinct_among(items, (n - 1) as nat).push(items[n - 1].1)
    } else {
        distinct_among(items, (n - 1) as nat)
    }
}

/// Lets an item through only the first time its hash occurs. Every item
/// comes with its hash, which the caller computes.
pub struct Distinct {
    stream: Fuse,
    seen: HashSet<u64>,
}

impl View for Distinct {
    type V = DistinctState;

    closed spec fn view(&self) -> DistinctState {
        DistinctState { done: self.stream@, seen: self.seen@ }
    }
}

impl Distinct {
    pub fn new() -> (operator: Self)
        ensures
            operator@ == DistinctState::initial(),
    {
        Distinct { stream: Fuse::new(), seen: HashSet::new() }
    }

    /// Whether the upstream has ended.
    pub fn is_terminated(&self) -> (done: bool)
        ensures
            done == self@.done,
    {
        self.stream.is_terminated()
    }

    /// One round, with what the upstream answered: an item and its hash.
    pub fn poll_next<T>(&mut self, polled: Poll<Option<(u64, T)>>) -> (step: Step<T>)
        ensures
            final(self)@ == old(self)@.after(polled),
            step == old(self)@.emits(polled),
    {
        match self.stream.poll_next(polled) {
            Poll::Ready(Some((hash, event))) => {
                let should_emit = self.seen.insert(hash);
                if should_emit {
                    Step::Yield(event)
                } else {
                    assert(self.seen@ =~= old(self).seen@.insert(hash));
                    Step::Retry
                }
            },
            Poll::Ready(None) => Step::End,
            Poll::Pending => Step::Wait,
        }
    }

    /// Runs a fresh operator over a finite sequence whose items are all at
    /// hand, up to its end.
    pub fn collect<T>(items: Vec<(u64, T)>) -> (out: Vec<T>)
        ensures
            out@ == distinct_among(items@, items@.len()),
    {
        let ghost all = items@;
        let mut operator = Distinct::new();
        let mut queue = into_queue(items);
        let mut out: Vec<T> = Vec::new();
        while queue.len() > 0
            invariant
                !operator@.done,
                queue@.len() <= all.len(),
                queue@ == all.subrange(all.len() - queue@.len(), all.len() as int),
                out@ == distinct_among(all, (all.len() - queue@.len()) as nat),
                forall|hash: u64|
                    operator@.seen.contains(hash) <==> exists|j: int|
                        0 <= j < all.len() - queue@.len() && (#[trigger] all[j]).0 == hash,
            decreases queue@.len(),
        {
            let ghost at = all.len() - queue@.len();
            let ghost seen = operator@.seen;
            if let Some(item) = queue.pop_front() {
                assert(item == all[at]);
                assert(queue@ =~= all.subrange(all.len() - queue@.len(), all.len() as int));
                assert(seen.contains(item.0) <==> !first_seen(all, at)) by {
                    if seen.contains(item.0) {
                        let j = choose|j: int| 0 <= j < at && (#[trigger] all[j]).0 == item.0;
                        assert(all[j].0 == all[at].0);
                    }
                }
                if let Step::Yield(value) = operator.poll_next(Poll::Ready(Some(item))) {
                    out.push(value);
                }
                assert forall|hash: u64|
                    operator@.seen.contains(hash) <==> exists|j: int|
                        0 <= j < at + 1 && (#[trigger] all[j]).0 == hash by {
                    if operator@.seen.contains(hash) {
                        if hash == item.0 {
                            assert(all[at].0 == hash);
                        } else {
                            assert(seen.contains(hash));
                            let j = choose|j: int| 0 <= j < at && (#[trigger] all[j]).0 == hash;
                            assert(0 <= j < at + 1 && all[j].0 == hash);
                        }
                    }
                    if exists|j: int| 0 <= j < at + 1 && (#[trigger] all[j]).0 == hash {
                        let j = choose|j: int| 0 <= j < at + 1 && (#[trigger] all[j]).0 == hash;
                        if j < at {
                            assert(seen.contains(hash));
                        }
                    }
                }
            }
        }
        out
    }

    /// Bounds on the number of items still to come, from the bounds on the
    /// upstream.
    pub fn size_hint(&self, upstream: (usize, Option<usize>)) -> (hint: (usize, Option<usize>))
        ensures
            hint == (
                if upstream.0 > 0 {
                    1usize
                } else {
                    0usize
                },
                upstream.1,
            ),
    {
        let lower: usize = if upstream.0 > 0 {
            1
        } else {
            0
        };
        (lower, upstream.1)
    }
}

} // verus!
