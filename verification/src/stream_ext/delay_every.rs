use crate::poll::fused;
use crate::poll::fused_done;
use crate::poll::into_queue;
use crate::poll::Fuse;
use crate::poll::Poll;
use crate::poll::Signal;
use crate::poll::Step;
use std::collections::VecDeque;
use vstd::prelude::*;

verus! {

/// How many waiting items may stay when one more joins a queue with the
/// given bound: one less than the bound, and none for a bound of zero.
pub open spec fn room(limit: usize) -> nat {
    if limit > 0 {
        (limit - 1) as nat
    } else {
        0
    }
}

/// The pending queue after one more item. The item always joins at the
/// tail. Where the queue is bounded and full, the oldest items leave
/// first, until one place is free or nothing waits any more. So a queue
/// bounded by zero holds the newest item alone, as one bounded by one
/// does.
pub open spec fn enqueued<T>(queue: Seq<T>, limit: Option<usize>, item: T) -> Seq<T> {
    match limit {
        Some(limit) => if queue.len() > room(limit) {
            queue.subrange(queue.len() - room(limit), queue.len() as int).push(item)
        } else {
            queue.push(item)
        },
        None => queue.push(item),
    }
}

/// The operator that delays every item, as plain mathematics.
pub struct DelayEveryState<T> {
    /// The upstream has ended.
    pub done: bool,
    /// The items that wait for their turn, oldest first.
    pub queue: Seq<T>,
    /// The item whose interval is running, if one is.
    pub delayed: Option<T>,
    /// The bound on the queue, if there is one.
    pub limit: Option<usize>,
}

impl<T> DelayEveryState<T> {
    /// The state before anything was polled.
    pub open spec fn initial(limit: Option<usize>) -> Self {
        DelayEveryState { done: false, queue: Seq::empty(), delayed: None, limit }
    }

    /// Whether an interval is running.
    pub open spec fn armed(self) -> bool {
        self.delayed is Some
    }

    /// Everything the operator holds, in the order in which it will come
    /// out: the item whose interval is running, then the waiting ones.
    pub open spec fn held(self) -> Seq<T> {
        match self.delayed {
            Some(item) => seq![item] + self.queue,
            None => self.queue,
        }
    }

    /// The queue once the upstream's answer is taken in.
    pub open spec fn taken_in(self, polled: Poll<Option<T>>) -> Seq<T> {
        match fused(self.done, polled) {
            Poll::Ready(Some(item)) => enqueued(self.queue, self.limit, item),
            _ => self.queue,
        }
    }

    /// The state after one round. The upstream's item joins the queue;
    /// when no interval runs, the oldest waiting item gets one. An elapsed
    /// interval releases its item.
    pub open spec fn after(self, signal: Signal<T, ()>) -> Self {
        match signal {
            Signal::Interval(_) => DelayEveryState { delayed: None, ..self },
            Signal::Upstream(polled) => {
                let queue = self.taken_in(polled);
                let done = fused_done(self.done, polled);
                if self.armed() || queue.len() == 0 {
                    DelayEveryState { done, queue, ..self }
                } else {
                    DelayEveryState {
                        done,
                        queue: queue.drop_first(),
                        delayed: Some(queue[0]),
                        ..self
                    }
                }
            },
        }
    }

    /// What one round hands out. An elapsed interval releases its item.
    /// A round with the upstream's answer hands nothing out: after one that
    /// leaves an interval running, that interval is to be looked at in the
    /// same turn; with nothing held, the end is reported once the upstream
    /// has ended, and until then the operator waits for the upstream.
    pub open spec fn emits(self, signal: Signal<T, ()>) -> Step<T> {
        match signal {
            Signal::Interval(_) => match self.delayed {
                Some(item) => Step::Yield(item),
                None => Step::Wait,
            },
            Signal::Upstream(polled) => if self.armed() || self.taken_in(polled).len() > 0 {
                Step::Retry
            } else if fused_done(self.done, polled) {
                Step::End
            } else {
                Step::Wait
            },
        }
    }

    /// What the upstream brings in a round.
    pub open spec fn arrived(self, signal: Signal<T, ()>) -> Seq<T> {
        match signal {
            Signal::Upstream(polled) => match fused(self.done, polled) {
                Poll::Ready(Some(item)) => seq![item],
                _ => Seq::empty(),
            },
            Signal::Interval(_) => Seq::empty(),
        }
    }

    /// What a round hands out, as a list of no or one item.
    pub open spec fn released(self, signal: Signal<T, ()>) -> Seq<T> {
        match self.emits(signal) {
            Step::Yield(item) => seq![item],
            _ => Seq::empty(),
        }
    }

    /// The end is reported only in a round with the upstream's answer,
    /// once the upstream has ended and nothing is held any more; and it is
    /// reported in every such round.
    pub proof fn lemma_ends_with_the_upstream(self, signal: Signal<T, ()>)
        ensures
            self.emits(signal) is End <==> (signal matches Signal::Upstream(polled) && fused_done(
                self.done,
                polled,
            ) && self.held().len() == 0),
            self.emits(signal) is End ==> self.after(signal).done && self.after(
                signal,
            ).held().len() == 0,
    {
        if let Signal::Upstream(polled) = signal {
            if fused_done(self.done, polled) {
                assert(self.taken_in(polled) == self.queue);
            }
        }
    }

    /// An item goes out only when its interval has elapsed, and it is the
    /// one that was held longest.
    pub proof fn lemma_releases_the_oldest(self, signal: Signal<T, ()>)
        ensures
            self.emits(signal) matches Step::Yield(item) ==> signal is Interval
                && self.held().len() > 0 && item == self.held()[0] && self.delayed == Some(item),
    {
    }

    /// Without a bound nothing is lost and nothing overtakes: in every
    /// round, what goes out followed by what is held afterwards is what
    /// was held before followed by what arrived.
    pub proof fn lemma_unbounded_keeps_everything(self, signal: Signal<T, ()>)
        requires
            self.limit is None,
        ensures
            self.released(signal) + self.after(signal).held() == self.held() + self.arrived(
                signal,
            ),
    {
        assert(self.released(signal) + self.after(signal).held() =~= self.held() + self.arrived(
            signal,
        ));
    }

    /// The state after the given rounds, one after the other.
    pub open spec fn after_all(self, signals: Seq<Signal<T, ()>>) -> Self
        decreases signals.len(),
    {
        if signals.len() == 0 {
            self
        } else {
            self.after(signals[0]).after_all(signals.drop_first())
        }
    }

    /// Everything that goes out in the given rounds, in order.
    pub open spec fn released_all(self, signals: Seq<Signal<T, ()>>) -> Seq<T>
        decreases signals.len(),
    {
        if signals.len() == 0 {
            Seq::empty()
        } else {
            self.released(signals[0]) + self.after(signals[0]).released_all(
                signals.drop_first(),
            )
        }
    }

    /// Everything that the upstream brings in the given rounds, in order.
    pub open spec fn arrived_all(self, signals: Seq<Signal<T, ()>>) -> Seq<T>
        decreases signals.len(),
    {
        if signals.len() == 0 {
            Seq::empty()
        } else {
            self.arrived(signals[0]) + self.after(signals[0]).arrived_all(signals.drop_first())
        }
    }

    /// Without a bound, over any rounds whatever: what went out, followed
    /// by what is still held, is what was held at first followed by what
    /// arrived. So every item comes out once, in the order of arrival, or
    /// is still held.
    pub proof fn lemma_unbounded_run_keeps_everything(self, signals: Seq<Signal<T, ()>>)
        requires
            self.limit is None,
        ensures
            self.released_all(signals) + self.after_all(signals).held() == self.held()
                + self.arrived_all(signals),
        decreases signals.len(),
    {
        if signals.len() == 0 {
            assert(self.released_all(signals) + self.after_all(signals).held() =~= self.held()
                + self.arrived_all(signals));
        } else {
            let next = self.after(signals[0]);
            let rest = signals.drop_first();
            self.lemma_unbounded_keeps_everything(signals[0]);
            next.lemma_unbounded_run_keeps_everything(rest);
            assert(self.released_all(signals) + self.after_all(signals).held() =~= self.released(
                signals[0],
            ) + (next.released_all(rest) + next.after_all(rest).held()));
            assert(self.released(signals[0]) + (next.held() + next.arrived_all(rest)) =~= (
            self.released(signals[0]) + next.held()) + next.arrived_all(rest));
            assert((self.held() + self.arrived(signals[0])) + next.arrived_all(rest) =~= self.held()
                + self.arrived_all(signals));
        }
    }

    /// With a bound, a round loses at most some of the oldest waiting
    /// items, and only to make room for an item that arrives: what goes out
    /// followed by what is held afterwards is what was held before, less a
    /// run of items at the head of the queue, followed by what arrived. The
    /// item whose interval is running is never among the lost ones, and
    /// the order of the others stays.
    pub proof fn lemma_bounded_drops_only_the_oldest_waiting(self, signal: Signal<T, ()>)
        ensures
            exists|evicted: int|
                0 <= evicted <= self.queue.len() && (self.arrived(signal).len() == 0 ==> evicted
                    == 0) && #[trigger] self.kept(evicted) + self.arrived(signal) == self.released(
                    signal,
                ) + self.after(signal).held(),
    {
        let evicted: int = match signal {
            Signal::Upstream(polled) => match (fused(self.done, polled), self.limit) {
                (Poll::Ready(Some(_)), Some(limit)) => if self.queue.len() > room(limit) {
                    self.queue.len() - room(limit)
                } else {
                    0
                },
                _ => 0,
            },
            Signal::Interval(_) => 0,
        };
        assert(self.kept(evicted) + self.arrived(signal) =~= self.released(signal) + self.after(
            signal,
        ).held());
    }

    /// Everything held but for the given number of the oldest waiting
    /// items.
    pub open spec fn kept(self, evicted: int) -> Seq<T> {
        match self.delayed {
            Some(item) => seq![item] + self.queue.subrange(evicted, self.queue.len() as int),
            None => self.queue.subrange(evicted, self.queue.len() as int),
        }
    }

    /// With or without a bound, an item that arrives is held after its
    /// round, behind everything older that is still held.
    pub proof fn lemma_newest_is_held(self, signal: Signal<T, ()>)
        ensures
            self.arrived(signal).len() > 0 ==> self.after(signal).held().len() > 0 && self.after(
                signal,
            ).held().last() == self.arrived(signal)[0],
    {
        if self.arrived(signal).len() > 0 {
            let polled = signal->Upstream_0;
            let item = self.arrived(signal)[0];
            let queue = self.taken_in(polled);
            assert(queue.len() > 0 && queue.last() == item);
            if !self.armed() {
                assert(self.after(signal).held() =~= queue);
            }
        }
    }
}

/// Hands every upstream item out after an interval of its own, one item
/// at a time. Items that arrive meanwhile wait in a queue, which may be
/// bounded.
pub struct DelayEvery<T> {
    stream: Fuse,
    delayed_events: VecDeque<T>,
    delayed_event: Option<T>,
    max_buffer_size: Option<usize>,
}

impl<T> View for DelayEvery<T> {
    type V = DelayEveryState<T>;

    closed spec fn view(&self) -> DelayEveryState<T> {
        DelayEveryState {
            done: self.stream@,
            queue: self.delayed_events@,
            delayed: self.delayed_event,
            limit: self.max_buffer_size,
        }
    }
}

impl<T> DelayEvery<T> {
    /// An operator whose queue of waiting items is bounded as given, or
    /// not at all.
    pub fn new(max_buffer_size: Option<usize>) -> (operator: Self)
        ensures
            operator@ == DelayEveryState::<T>::initial(max_buffer_size),
    {
        DelayEvery {
            stream: Fuse::new(),
            delayed_events: VecDeque::new(),
            delayed_event: None,
            max_buffer_size,
        }
    }

    /// Whether the upstream has ended.
    pub fn is_terminated(&self) -> (done: bool)
        ensures
            done == self@.done,
    {
        self.stream.is_terminated()
    }

    /// Whether an interval is running.
    pub fn is_armed(&self) -> (armed: bool)
        ensures
            armed == self@.armed(),
    {
        self.delayed_event.is_some()
    }

    /// The item whose interval is running.
    pub fn delayed_event(&self) -> (item: Option<&T>)
        ensures
            item == match self@.delayed {
                Some(held) => Some(&held),
                None => None,
            },
    {
        self.delayed_event.as_ref()
    }

    /// Puts an item at the tail of the queue, making room first if the
    /// queue is bounded and full.
    fn enqueue(&mut self, item: T)
        ensures
            final(self).delayed_events@ == enqueued(old(self)@.queue, old(self)@.limit, item),
            final(self).stream == old(self).stream,
            final(self).delayed_event == old(self).delayed_event,
            final(self).max_buffer_size == old(self).max_buffer_size,
    {
        if let Some(limit) = self.max_buffer_size {
            let room: usize = if limit > 0 {
                limit - 1
            } else {
                0
            };
            let ghost full = self.delayed_events@;
            assert(full.subrange(0, full.len() as int) =~= full);
            while self.delayed_events.len() > room
                invariant
                    self.delayed_events@.len() <= full.len(),
                    full.len() > room ==> self.delayed_events@.len() >= room,
                    full.len() <= room ==> self.delayed_events@.len() == full.len(),
                    self.delayed_events@ == full.subrange(
                        full.len() - self.delayed_events@.len(),
                        full.len() as int,
                    ),
                    self.stream == old(self).stream,
                    self.delayed_event == old(self).delayed_event,
                    self.max_buffer_size == old(self).max_buffer_size,
                decreases self.delayed_events@.len(),
            {
                self.delayed_events.pop_front();
                assert(self.delayed_events@ =~= full.subrange(
                    full.len() - self.delayed_events@.len(),
                    full.len() as int,
                ));
            }
        }
        self.delayed_events.push_back(item);
    }

    /// One round: the upstream answered, or the running interval elapsed.
    pub fn poll_next(&mut self, signal: Signal<T, ()>) -> (step: Step<T>)
        ensures
            final(self)@ == old(self)@.after(signal),
            step == old(self)@.emits(signal),
    {
        match signal {
            Signal::Interval(_) => match self.delayed_event.take() {
                Some(item) => Step::Yield(item),
                None => Step::Wait,
            },
            Signal::Upstream(polled) => {
                if let Poll::Ready(Some(item)) = self.stream.poll_next(polled) {
                    self.enqueue(item);
                }
                if self.delayed_event.is_some() {
                    return Step::Retry;
                }
                match self.delayed_events.pop_front() {
                    Some(item) => {
                        self.delayed_event = Some(item);
                        Step::Retry
                    },
                    None => if self.stream.is_terminated() {
                        Step::End
                    } else {
                        Step::Wait
                    },
                }
            },
        }
    }

    /// Runs a fresh operator over a finite upstream whose items are all at
    /// hand, with every interval elapsing before the next item is asked
    /// for, up to its end: every item comes out, in order, whatever the
    /// bound.
    pub fn collect(items: Vec<T>, max_buffer_size: Option<usize>) -> (out: Vec<T>)
        ensures
            out@ == items@,
    {
        let ghost all = items@;
        let mut operator = DelayEvery::new(max_buffer_size);
        let mut queue = into_queue(items);
        let mut out: Vec<T> = Vec::new();
        let mut ended = false;
        while !ended
            invariant
                ended ==> out@ == all,
                !ended ==> operator@ == DelayEveryState::<T>::initial(max_buffer_size),
                !ended ==> out@ + queue@ == all,
            decreases
                    if ended {
                        0
                    } else {
                        queue@.len() + 1
                    },
        {
            let ghost so_far = out@;
            let ghost pending = queue@;
            let step = operator.poll_next(Signal::Upstream(Poll::Ready(queue.pop_front())));
            proof {
                if pending.len() > 0 {
                    assert(enqueued(Seq::<T>::empty(), max_buffer_size, pending[0]) =~= seq![
                        pending[0],
                    ]);
                    assert(operator@.queue =~= Seq::<T>::empty());
                }
            }
            match step {
                Step::Retry => {
                    if let Step::Yield(item) = operator.poll_next(Signal::Interval(())) {
                        out.push(item);
                    }
                    assert(out@ + queue@ =~= so_far + pending);
                },
                _ => {
                    ended = true;
                    assert(so_far + pending =~= so_far);
                },
            }
        }
        out
    }

    /// Bounds on the number of items still to come, from the bounds on the
    /// upstream.
    pub fn size_hint(&self, upstream: (usize, Option<usize>)) -> (hint: (usize, Option<usize>))
        ensures
            hint == (
                if upstream.0 > 0 {
                    1usize
                } else {
                    0usize
                },
                upstream.1,
            ),
    {
        let lower: usize = if upstream.0 > 0 {
            1
        } else {
            0
        };
        (lower, upstream.1)
    }
}

} // verus!
