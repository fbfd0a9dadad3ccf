use crate::poll::fused;
use crate::poll::fused_done;
use crate::poll::into_queue;
use crate::poll::Fuse;
use crate::poll::Poll;
use crate::poll::Step;
use vstd::prelude::*;

verus! {

/// The operator that suppresses consecutive repeats, as plain mathematics.
pub struct DistinctUntilChangedState {
    /// The upstream has ended.
    pub done: bool,
    /// The hash of the item that came through last.
    pub previous: Option<u64>,
}

impl DistinctUntilChangedState {
    /// The state before anything was polled.
    pub open spec fn initial() -> Self {
        DistinctUntilChangedState { done: false, previous: None }
    }

    /// The state after one round: the hash of an item is remembered.
    pub open spec fn after<T>(self, polled: Poll<Option<(u64, T)>>) -> Self {
        DistinctUntilChangedState {
            done: fused_done(self.done, polled),
            previous: match fused(self.done, polled) {
                Poll::Ready(Some((hash, _))) => Some(hash),
                _ => self.previous,
            },
        }
    }

    /// What one round hands out: the item, unless its hash is that of the
    /// item just before it.
    pub open spec fn emits<T>(self, polled: Poll<Option<(u64, T)>>) -> Step<T> {
        match fused(self.done, polled) {
            Poll::Ready(Some((hash, item))) => if self.previous == Some(hash) {
                Step::Retry
            } else {
                Step::Yield(item)
            },
            Poll::Ready(None) => Step::End,
            Poll::Pending => Step::Wait,
        }
    }
}

/// Whether the hash of the item at `at` differs from that of the item
/// just before it, or there is none before it.
pub open spec fn changes<T>(items: Seq<(u64, T)>, at: int) -> bool {
    at == 0 || items[at - 1].0 != items[at].0
}

/// What comes through of the first `n` items of a finite sequence: in
/// their order, the items whose hash differs from that of the item just
/// before.
pub open spec fn changed_among<T>(items: Seq<(u64, T)>, n: nat) -> Seq<T>
    decreases n,
{
    if n == 0 {
        Seq::empty()
    } else if changes(items, n - 1) {
        changed_among(items, (n - 1) as nat).push(items[n - 1].1)
    } else {
        changed_among(items, (n - 1) as nat)
    }
}

/// Lets an item through unless its hash equals that of the item before
/// it. Every item comes with its hash, which the caller computes.
pub struct DistinctUntilChanged {
    stream: Fuse,
    previous: Option<u64>,
}

impl View for DistinctUntilChanged {
    type V = DistinctUntilChangedState;

    closed spec fn view(&self) -> DistinctUntilChangedState {
        DistinctUntilChangedState { done: self.stream@, previous: self.previous }
    }
}

impl DistinctUntilChanged {
    pub fn new() -> (operator: Self)
        ensures
            operator@ == DistinctUntilChangedState::initial(),
    {
        DistinctUntilChanged { stream: Fuse::new(), previous: None }
    }

    /// Whether the upstream has ended.
    pub fn is_terminated(&self) -> (done: bool)
        ensures
            done == self@.done,
    {
        self.stream.is_terminated()
    }

    /// One round, with what the upstream answered: an item and its hash.
    pub fn poll_next<T>(&mut self, polled: Poll<Option<(u64, T)>>) -> (step: Step<T>)
        ensures
            final(self)@ == old(self)@.after(polled),
            step == old(self)@.emits(polled),
    {
        match self.stream.poll_next(polled) {
            Poll::Ready(Some((hash, event))) => {
                let should_emit = match self.previous {
                    Some(it) => it != hash,
                    None => true,
                };
                if should_emit {
                    self.previous = Some(hash);
                    Step::Yield(event)
                } else {
                    Step::Retry
                }
            },
            Poll::Ready(None) => Step::End,
            Poll::Pending => Step::Wait,
        }
    }

    /// Runs a fresh operator over a finite sequence whose items are all at
    /// hand, up to its end.
    pub fn collect<T>(items: Vec<(u64, T)>) -> (out: Vec<T>)
        ensures
            out@ == changed_among(items@, items@.len()),
    {
        let ghost all = items@;
        let mut operator = DistinctUntilChanged::new();
        let mut queue = into_queue(items);
        let mut out: Vec<T> = Vec::new();
        while queue.len() > 0
            invariant
                !operator@.done,
                queue@.len() <= all.len(),
                queue@ == all.subrange(all.len() - queue@.len(), all.len() as int),
                out@ == changed_among(all, (all.len() - queue@.len()) as nat),
                operator@.previous == if all.len() - queue@.len() == 0 {
                    None
                } else {
                    Some(all[all.len() - queue@.len() - 1].0)
                },
            decreases queue@.len(),
        {
            let ghost at = all.len() - queue@.len();
            if let Some(item) = queue.pop_front() {
                assert(item == all[at]);
                assert(queue@ =~= all.subrange(all.len() - queue@.len(), all.len() as int));
                if let Step::Yield(value) = operator.poll_next(Poll::Ready(Some(item))) {
                    out.push(value);
                }
            }
        }
        out
    }

    /// Bounds on the number of items still to come, from the bounds on the
    /// upstream.
    pub fn size_hint(&self, upstream: (usize, Option<usize>)) -> (hint: (usize, Option<usize>))
        ensures
            hint == (
                if upstream.0 > 0 {
                    1usize
                } else {
                    0usize
                },
                upstream.1,
            ),
    {
        let lower: usize = if upstream.0 > 0 {
            1
        } else {
            0
        };
        (lower, upstream.1)
    }
}

} // verus!
