use std::collections::VecDeque;
use vstd::prelude::*;

verus! {

/// Outcome of one non-blocking pull on a lazy sequence: either a definitive
/// answer is available now, or the caller has to come back later.
#[derive(Debug, Clone, Copy, PartialEq, Eq)]
pub enum Poll<T> {
    Ready(T),
    Pending,
}

impl<T> Poll<T> {
    /// True when a definitive answer is available.
    pub fn is_ready(&self) -> (r: bool)
        ensures
            r == (*self is Ready),
    {
        match self {
            Poll::Ready(_) => true,
            Poll::Pending => false,
        }
    }

    /// True when the caller has to poll again later.
    pub fn is_pending(&self) -> (r: bool)
        ensures
            r == (*self is Pending),
    {
        match self {
            Poll::Ready(_) => false,
            Poll::Pending => true,
        }
    }
}

/// What an operator answers to one round of polling. Unlike a bare
/// [`Poll`], it tells apart the two ways of having nothing to hand out:
/// `Retry` means the operator made progress and is to be polled again
/// without waiting for a wake-up, `Wait` means it has to be woken.
#[derive(Debug, Clone, PartialEq, Eq)]
pub enum Step<T> {
    Yield(T),
    End,
    Retry,
    Wait,
}

impl<T> Step<T> {
    /// The answer as the consumer of the sequence sees it.
    pub open spec fn poll(self) -> Poll<Option<T>> {
        match self {
            Step::Yield(item) => Poll::Ready(Some(item)),
            Step::End => Poll::Ready(None),
            Step::Retry => Poll::Pending,
            Step::Wait => Poll::Pending,
        }
    }

    /// The step that hands a polled answer through unchanged.
    pub open spec fn of(polled: Poll<Option<T>>) -> Self {
        match polled {
            Poll::Ready(Some(item)) => Step::Yield(item),
            Poll::Ready(None) => Step::End,
            Poll::Pending => Step::Wait,
        }
    }

    /// Turns the step into the answer that the consumer sees.
    pub fn into_poll(self) -> (polled: Poll<Option<T>>)
        ensures
            polled == self.poll(),
    {
        match self {
            Step::Yield(item) => Poll::Ready(Some(item)),
            Step::End => Poll::Ready(None),
            Step::Retry => Poll::Pending,
            Step::Wait => Poll::Pending,
        }
    }

    /// Hands a polled answer through unchanged.
    pub fn from_poll(polled: Poll<Option<T>>) -> (step: Self)
        ensures
            step == Self::of(polled),
            step.poll() == polled,
    {
        match polled {
            Poll::Ready(Some(item)) => Step::Yield(item),
            Poll::Ready(None) => Step::End,
            Poll::Pending => Step::Wait,
        }
    }

    /// Whether the scheduler is to poll again without a wake-up from a
    /// source.
    pub fn wants_wake(&self) -> (wake: bool)
        ensures
            wake == (*self is Retry),
    {
        match self {
            Step::Retry => true,
            _ => false,
        }
    }
}

/// What the sources of a timed operator report in one round. The interval
/// is looked at first; the upstream is polled only while no interval has
/// just elapsed.
#[derive(Debug, Clone, PartialEq, Eq)]
pub enum Signal<T, V> {
    /// The running interval elapsed, with this verdict.
    Interval(V),
    /// No interval elapsed; this is what the upstream answered.
    Upstream(Poll<Option<T>>),
}

/// What a sequence that is never polled past its end answers: once the
/// end was seen, every later answer is the end again.
pub open spec fn fused<T>(done: bool, polled: Poll<Option<T>>) -> Poll<Option<T>> {
    if done {
        Poll::Ready(None)
    } else {
        polled
    }
}

/// Whether a fused sequence has ended after this answer.
pub open spec fn fused_done<T>(done: bool, polled: Poll<Option<T>>) -> bool {
    done || polled == Poll::Ready(None::<T>)
}

/// Remembers whether a source has ended, so that whatever it reports after
/// its end is read as the end again.
pub struct Fuse {
    done: bool,
}

impl View for Fuse {
    type V = bool;

    closed spec fn view(&self) -> bool {
        self.done
    }
}

impl Fuse {
    /// A source that has not ended.
    pub fn new() -> (fuse: Self)
        ensures
            !fuse@,
    {
        Fuse { done: false }
    }

    /// Whether the source has ended.
    pub fn is_terminated(&self) -> (done: bool)
        ensures
            done == self@,
    {
        self.done
    }

    /// Reads one answer of the source.
    pub fn poll_next<T>(&mut self, polled: Poll<Option<T>>) -> (seen: Poll<Option<T>>)
        ensures
            seen == fused(old(self)@, polled),
            final(self)@ == fused_done(old(self)@, polled),
    {
        if self.done {
            return Poll::Ready(None);
        }
        match polled {
            Poll::Ready(None) => {
                self.done = true;
                Poll::Ready(None)
            },
            other => other,
        }
    }
}

/// Lines the items of a list up as a queue, first item at the head.
pub fn into_queue<T>(items: Vec<T>) -> (queue: VecDeque<T>)
    ensures
        queue@ == items@,
{
    let mut items = items;
    let mut queue: VecDeque<T> = VecDeque::new();
    let ghost all = items@;
    while items.len() > 0
        invariant
            items@.len() <= all.len(),
            items@ == all.subrange(0, items@.len() as int),
            queue@ == all.subrange(items@.len() as int, all.len() as int),
        decreases items@.len(),
    {
        let ghost before = items@;
        match items.pop() {
            Some(item) => {
                queue.push_front(item);
                assert(items@ =~= all.subrange(0, items@.len() as int));
                assert(queue@ =~= all.subrange(items@.len() as int, all.len() as int));
            },
            None => {},
        }
    }
    assert(queue@ =~= all);
    queue
}

/// Lines the items of every list up as a queue.
pub fn into_queues<T>(inputs: Vec<Vec<T>>) -> (queues: Vec<VecDeque<T>>)
    ensures
        queues@.len() == inputs@.len(),
        forall|i: int| 0 <= i < inputs@.len() ==> (#[trigger] queues@[i])@ == inputs@[i]@,
{
    let ghost all = inputs@;
    let mut lists = into_queue(inputs);
    let mut queues: Vec<VecDeque<T>> = Vec::new();
    while lists.len() > 0
        invariant
            queues@.len() + lists@.len() == all.len(),
            lists@ == all.subrange(queues@.len() as int, all.len() as int),
            forall|i: int| 0 <= i < queues@.len() ==> (#[trigger] queues@[i])@ == all[i]@,
        decreases lists@.len(),
    {
        if let Some(list) = lists.pop_front() {
            assert(list == all[queues@.len() as int]);
            queues.push(into_queue(list));
            assert(lists@ =~= all.subrange(queues@.len() as int, all.len() as int));
        }
    }
    queues
}

} // verus!
