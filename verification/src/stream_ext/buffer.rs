use crate::poll::fused;
use crate::poll::Fuse;
use crate::poll::Poll;
use crate::poll::Signal;
use crate::poll::Step;
use vstd::prelude::*;

verus! {

/// The buffering operator as plain mathematics.
pub struct BufferState<T> {
    /// The upstream has ended.
    pub done: bool,
    /// An interval is running.
    pub armed: bool,
    /// The items gathered since the last flush, if any.
    pub buffer: Option<Seq<T>>,
}

impl<T> BufferState<T> {
    /// The state before anything was polled.
    pub open spec fn initial() -> Self {
        BufferState { done: false, armed: false, buffer: None }
    }

    /// The running count that the interval for the next item is made with:
    /// the size of the buffer once that item is in it.
    pub open spec fn next_count(self) -> nat {
        match self.buffer {
            Some(items) => items.len() + 1,
            None => 1,
        }
    }

    /// The state after one round.
    pub open spec fn after(self, signal: Signal<T, bool>) -> Self {
        match signal {
            Signal::Interval(flush) => if !self.armed {
                self
            } else if flush {
                BufferState { armed: false, buffer: None, ..self }
            } else {
                BufferState { armed: false, ..self }
            },
            Signal::Upstream(polled) => match fused(self.done, polled) {
                Poll::Ready(Some(item)) => BufferState {
                    armed: true,
                    buffer: Some(
                        match self.buffer {
                            Some(items) => items.push(item),
                            None => seq![item],
                        },
                    ),
                    ..self
                },
                Poll::Ready(None) => BufferState { done: true, buffer: None, ..self },
                Poll::Pending => self,
            },
        }
    }

    /// What one round hands out: the gathered items when the interval
    /// elapses with a flush verdict or the upstream ends, the end when there
    /// is nothing gathered at that point.
    pub open spec fn emits(self, signal: Signal<T, bool>) -> Step<Seq<T>> {
        match signal {
            Signal::Interval(flush) => if !self.armed {
                Step::Wait
            } else if flush {
                self.flush()
            } else {
                Step::Retry
            },
            Signal::Upstream(polled) => match fused(self.done, polled) {
                Poll::Ready(Some(_)) => Step::Retry,
                Poll::Ready(None) => self.flush(),
                Poll::Pending => Step::Wait,
            },
        }
    }

    /// Handing out whatever is buffered.
    pub open spec fn flush(self) -> Step<Seq<T>> {
        match self.buffer {
            Some(items) => Step::Yield(items),
            None => Step::End,
        }
    }

    /// A buffer that is held holds an item.
    pub open spec fn valid(self) -> bool {
        self.buffer matches Some(items) ==> items.len() > 0
    }

    /// The items gathered since the last flush, in order.
    pub open spec fn held(self) -> Seq<T> {
        match self.buffer {
            Some(items) => items,
            None => Seq::empty(),
        }
    }

    /// What the upstream brings in a round.
    pub open spec fn arrived(self, signal: Signal<T, bool>) -> Seq<T> {
        match signal {
            Signal::Upstream(polled) => match fused(self.done, polled) {
                Poll::Ready(Some(item)) => seq![item],
                _ => Seq::empty(),
            },
            Signal::Interval(_) => Seq::empty(),
        }
    }

    /// The items that a round hands out.
    pub open spec fn released(self, signal: Signal<T, bool>) -> Seq<T> {
        match self.emits(signal) {
            Step::Yield(items) => items,
            _ => Seq::empty(),
        }
    }

    /// In every round: a list that goes out is never empty and is all
    /// that was gathered since the list before it; and what goes out
    /// followed by what is held afterwards is what was held before followed
    /// by what arrived. So no item is lost, repeated or overtaken.
    pub proof fn lemma_round_keeps_everything(self, signal: Signal<T, bool>)
        requires
            self.valid(),
        ensures
            self.after(signal).valid(),
            self.emits(signal) matches Step::Yield(items) ==> items.len() > 0 && items
                == self.held() && self.after(signal).held().len() == 0,
            self.released(signal) + self.after(signal).held() == self.held() + self.arrived(
                signal,
            ),
            self.emits(signal) is End ==> self.held().len() == 0 && self.after(signal).held().len()
                == 0,
    {
        assert(self.released(signal) + self.after(signal).held() =~= self.held() + self.arrived(
            signal,
        ));
    }

    /// The state after the given rounds, one after the other.
    pub open spec fn after_all(self, signals: Seq<Signal<T, bool>>) -> Self
        decreases signals.len(),
    {
        if signals.len() == 0 {
            self
        } else {
            self.after(signals[0]).after_all(signals.drop_first())
        }
    }

    /// The items of all the lists that go out in the given rounds, in
    /// order.
    pub open spec fn released_all(self, signals: Seq<Signal<T, bool>>) -> Seq<T>
        decreases signals.len(),
    {
        if signals.len() == 0 {
            Seq::empty()
        } else {
            self.released(signals[0]) + self.after(signals[0]).released_all(
                signals.drop_first(),
            )
        }
    }

    /// Everything that the upstream brings in the given rounds, in order.
    pub open spec fn arrived_all(self, signals: Seq<Signal<T, bool>>) -> Seq<T>
        decreases signals.len(),
    {
        if signals.len() == 0 {
            Seq::empty()
        } else {
            self.arrived(signals[0]) + self.after(signals[0]).arrived_all(signals.drop_first())
        }
    }

    /// Over any rounds whatever: the lists that went out, laid end to end
    /// and followed by what is still held, are what was held at first
    /// followed by what arrived.
    pub proof fn lemma_run_keeps_everything(self, signals: Seq<Signal<T, bool>>)
        requires
            self.valid(),
        ensures
            self.after_all(signals).valid(),
            self.released_all(signals) + self.after_all(signals).held() == self.held()
                + self.arrived_all(signals),
        decreases signals.len(),
    {
        if signals.len() == 0 {
            assert(self.released_all(signals) + self.after_all(signals).held() =~= self.held()
                + self.arrived_all(signals));
        } else {
            let next = self.after(signals[0]);
            let rest = signals.drop_first();
            self.lemma_round_keeps_everything(signals[0]);
            next.lemma_run_keeps_everything(rest);
            assert(self.released_all(signals) + self.after_all(signals).held() =~= self.released(
                signals[0],
            ) + (next.released_all(rest) + next.after_all(rest).held()));
            assert(self.released(signals[0]) + (next.held() + next.arrived_all(rest)) =~= (
            self.released(signals[0]) + next.held()) + next.arrived_all(rest));
            assert((self.held() + self.arrived(signals[0])) + next.arrived_all(rest) =~= self.held()
                + self.arrived_all(signals));
        }
    }
}

/// Whether a step that carries a list shows the wanted step.
pub open spec fn shows<T>(step: Step<Vec<T>>, wanted: Step<Seq<T>>) -> bool {
    match wanted {
        Step::Yield(items) => step matches Step::Yield(list) && list@ == items,
        Step::End => step is End,
        Step::Retry => step is Retry,
        Step::Wait => step is Wait,
    }
}

/// Gathers upstream items into lists. Every item re-arms the interval; a
/// list is handed out when the interval elapses with a flush verdict or
/// when the upstream ends.
pub struct Buffer<T> {
    stream: Fuse,
    armed: bool,
    buffer: Option<Vec<T>>,
}

impl<T> View for Buffer<T> {
    type V = BufferState<T>;

    closed spec fn view(&self) -> BufferState<T> {
        BufferState {
            done: self.stream@,
            armed: self.armed,
            buffer: match self.buffer {
                Some(items) => Some(items@),
                None => None,
            },
        }
    }
}

impl<T> Buffer<T> {
    pub fn new() -> (operator: Self)
        ensures
            operator@ == BufferState::<T>::initial(),
    {
        Buffer { stream: Fuse::new(), armed: false, buffer: None }
    }

    /// Whether the upstream has ended.
    pub fn is_terminated(&self) -> (done: bool)
        ensures
            done == self@.done,
    {
        self.stream.is_terminated()
    }

    /// Whether an interval is running.
    pub fn is_armed(&self) -> (armed: bool)
        ensures
            armed == self@.armed,
    {
        self.armed
    }

    /// The count that the interval for the next item is made with. It
    /// stops growing at the largest machine integer.
    pub fn next_count(&self) -> (count: usize)
        ensures
            count == if self@.next_count() <= usize::MAX {
                self@.next_count()
            } else {
                usize::MAX as nat
            },
    {
        match &self.buffer {
            Some(items) => {
                let len: usize = items.len();
                if len < usize::MAX {
                    len + 1
                } else {
                    len
                }
            },
            None => 1,
        }
    }

    /// One round: the interval elapsed, or the upstream answered.
    pub fn poll_next(&mut self, signal: Signal<T, bool>) -> (step: Step<Vec<T>>)
        ensures
            final(self)@ == old(self)@.after(signal),
            shows(step, old(self)@.emits(signal)),
    {
        match signal {
            Signal::Interval(flush) => {
                if !self.armed {
                    Step::Wait
                } else {
                    self.armed = false;
                    if flush {
                        self.take()
                    } else {
                        Step::Retry
                    }
                }
            },
            Signal::Upstream(polled) => match self.stream.poll_next(polled) {
                Poll::Ready(Some(item)) => {
                    self.armed = true;
                    let mut items = match self.buffer.take() {
                        Some(items) => items,
                        None => Vec::new(),
                    };
                    items.push(item);
                    assert(Seq::<T>::empty().push(item) =~= seq![item]);
                    self.buffer = Some(items);
                    Step::Retry
                },
                Poll::Ready(None) => self.take(),
                Poll::Pending => Step::Wait,
            },
        }
    }

    /// Hands out whatever is buffered.
    fn take(&mut self) -> (step: Step<Vec<T>>)
        ensures
            shows(step, old(self)@.flush()),
            final(self)@ == (BufferState { buffer: None, ..old(self)@ }),
    {
        match self.buffer.take() {
            Some(items) => Step::Yield(items),
            None => Step::End,
        }
    }

    /// Bounds on the number of lists still to come, from the bounds on the
    /// upstream: a last list is certain if an item is, and there are never
    /// more lists than items.
    pub fn size_hint(&self, upstream: (usize, Option<usize>)) -> (hint: (usize, Option<usize>))
        ensures
            hint == (
                if upstream.0 > 0 {
                    1usize
                } else {
                    0usize
                },
                upstream.1,
            ),
    {
        let lower: usize = if upstream.0 > 0 {
            1
        } else {
            0
        };
        (lower, upstream.1)
    }
}

} // verus!
