use crate::poll::into_queue;
use crate::poll::into_queues;
use crate::poll::Poll;
use crate::poll::Step;
use crate::rx::bounds::is_least_lower;
use crate::rx::bounds::is_least_upper;
use crate::rx::bounds::least;
use crate::rx::bounds::Hint;
use vstd::prelude::*;

verus! {

/// The zipping operator as plain mathematics: for every input, whether it
/// has ended and the value it holds for the next tuple.
pub struct ZipState<T> {
    pub done: Seq<bool>,
    pub pending: Seq<Option<T>>,
}

/// Whether an input is polled: it has not ended and holds no value.
pub open spec fn polls<T>(done: bool, pending: Option<T>) -> bool {
    !done && pending is None
}

/// Whether an input has ended after the round.
pub open spec fn done_after<T>(done: bool, pending: Option<T>, polled: Poll<Option<T>>) -> bool {
    done || (pending is None && polled == Poll::Ready(None::<T>))
}

/// The value an input holds after it answered.
pub open spec fn held_after<T>(done: bool, pending: Option<T>, polled: Poll<Option<T>>) -> Option<
    T,
> {
    if polls(done, pending) {
        match polled {
            Poll::Ready(Some(item)) => Some(item),
            _ => None,
        }
    } else {
        pending
    }
}

impl<T> ZipState<T> {
    /// The state before anything was polled.
    pub open spec fn initial(arity: nat) -> Self {
        ZipState { done: Seq::new(arity, |i: int| false), pending: Seq::new(arity, |i: int| None) }
    }

    /// There is one slot per input.
    pub open spec fn wf(self) -> bool {
        self.done.len() == self.pending.len()
    }

    /// The number of inputs.
    pub open spec fn arity(self) -> nat {
        self.done.len()
    }

    /// The values held once every polled input has answered.
    pub open spec fn taken_in(self, polled: Seq<Poll<Option<T>>>) -> Seq<Option<T>> {
        Seq::new(
            self.pending.len(),
            |i: int| held_after(self.done[i], self.pending[i], polled[i]),
        )
    }

    /// Whether every input holds a value once the answers are taken in.
    pub open spec fn full(self, polled: Seq<Poll<Option<T>>>) -> bool {
        forall|i: int|
            0 <= i < self.pending.len() ==> (#[trigger] self.taken_in(polled)[i]) is Some
    }

    /// The state after one round: a full set of values leaves together.
    pub open spec fn after(self, polled: Seq<Poll<Option<T>>>) -> Self {
        ZipState {
            done: Seq::new(
                self.done.len(),
                |i: int| done_after(self.done[i], self.pending[i], polled[i]),
            ),
            pending: if self.full(polled) {
                Seq::new(self.pending.len(), |i: int| None)
            } else {
                self.taken_in(polled)
            },
        }
    }

    /// Whether any input has ended.
    pub open spec fn any_done(self) -> bool {
        exists|i: int| 0 <= i < self.done.len() && #[trigger] self.done[i]
    }

    /// What one round hands out: one value of every input, in the order
    /// of the inputs, once every input holds one; otherwise the end as soon
    /// as some input has ended, which it can only have done while holding
    /// nothing.
    pub open spec fn emits(self, polled: Seq<Poll<Option<T>>>) -> Step<Seq<T>> {
        if self.full(polled) {
            Step::Yield(Seq::new(self.pending.len(), |i: int| self.taken_in(polled)[i]->0))
        } else if self.after(polled).any_done() {
            Step::End
        } else {
            Step::Wait
        }
    }
}

/// What the inputs answer in the given round when all their items are
/// at hand: each its next item, or its end once it has run out.
pub open spec fn ready_round<T>(inputs: Seq<Seq<T>>, round: nat) -> Seq<Poll<Option<T>>> {
    Seq::new(
        inputs.len(),
        |i: int|
            if round < inputs[i].len() {
                Poll::Ready(Some(inputs[i][round as int]))
            } else {
                Poll::Ready(None)
            },
    )
}

impl<T> ZipState<T> {
    /// The state after the given number of rounds over inputs whose items
    /// are all at hand.
    pub open spec fn after_rounds(self, inputs: Seq<Seq<T>>, rounds: nat) -> Self
        decreases rounds,
    {
        if rounds == 0 {
            self
        } else {
            self.after_rounds(inputs, (rounds - 1) as nat).after(
                ready_round(inputs, (rounds - 1) as nat),
            )
        }
    }

    /// Over inputs whose items are all at hand, every round hands out the
    /// items of that round, one of each input, as long as every input has
    /// one; the first round in which some input has run out gives the end.
    pub proof fn lemma_ready_inputs(inputs: Seq<Seq<T>>, round: nat)
        requires
            inputs.len() > 0,
            forall|i: int| 0 <= i < inputs.len() ==> round <= (#[trigger] inputs[i]).len(),
        ensures
            Self::initial(inputs.len()).after_rounds(inputs, round) == Self::initial(
                inputs.len(),
            ),
            (forall|i: int| 0 <= i < inputs.len() ==> round < (#[trigger] inputs[i]).len())
                ==> Self::initial(inputs.len()).after_rounds(inputs, round).emits(
                ready_round(inputs, round),
            ) == Step::Yield(Seq::new(inputs.len(), |i: int| inputs[i][round as int])),
            (exists|i: int| 0 <= i < inputs.len() && round == (#[trigger] inputs[i]).len())
                ==> Self::initial(inputs.len()).after_rounds(inputs, round).emits(
                ready_round(inputs, round),
            ) == Step::<Seq<T>>::End,
        decreases round,
    {
        let n = inputs.len();
        let start = Self::initial(n);
        if round > 0 {
            let earlier = (round - 1) as nat;
            Self::lemma_ready_inputs(inputs, earlier);
            let polled = ready_round(inputs, earlier);
            assert(start.full(polled)) by {
                assert forall|i: int| 0 <= i < start.pending.len() implies (
                #[trigger] start.taken_in(polled)[i]) is Some by {
                    assert(round <= inputs[i].len());
                }
            }
            assert(start.after(polled).done =~= start.done) by {
                assert forall|i: int| 0 <= i < n implies start.after(polled).done[i]
                    == start.done[i] by {
                    assert(round <= inputs[i].len());
                }
            }
            assert(start.after(polled).pending =~= start.pending);
        }
        let state = start.after_rounds(inputs, round);
        assert(state == start);
        let polled = ready_round(inputs, round);
        if forall|i: int| 0 <= i < n ==> round < (#[trigger] inputs[i]).len() {
            assert(start.full(polled)) by {
                assert forall|i: int| 0 <= i < start.pending.len() implies (
                #[trigger] start.taken_in(polled)[i]) is Some by {
                    assert(round < inputs[i].len());
                }
            }
            assert(start.emits(polled)->Yield_0 =~= Seq::new(
                n,
                |i: int| inputs[i][round as int],
            )) by {
                assert forall|i: int| 0 <= i < n implies (start.taken_in(polled)[i])->0
                    == inputs[i][round as int] by {
                    assert(round < inputs[i].len());
                }
            }
        }
        if exists|i: int| 0 <= i < n && round == (#[trigger] inputs[i]).len() {
            let w = choose|i: int| 0 <= i < n && round == (#[trigger] inputs[i]).len();
            assert(start.taken_in(polled)[w] is None);
            assert(!start.full(polled));
            assert(start.after(polled).done[w]);
        }
    }
}

/// Whether a step that carries a list shows the wanted step.
pub open spec fn shows_tuple<T>(step: Step<Vec<T>>, wanted: Step<Seq<T>>) -> bool {
    match wanted {
        Step::Yield(items) => step matches Step::Yield(list) && list@ == items,
        Step::End => step is End,
        Step::Retry => step is Retry,
        Step::Wait => step is Wait,
    }
}

/// Joins any number of sequences of one item type position by position:
/// the first items of all inputs go out together, then the second ones,
/// and so on, until an input runs out.
pub struct Zip<T> {
    done: Vec<bool>,
    pending: Vec<Option<T>>,
}

impl<T> View for Zip<T> {
    type V = ZipState<T>;

    closed spec fn view(&self) -> ZipState<T> {
        ZipState { done: self.done@, pending: self.pending@ }
    }
}

impl<T> Zip<T> {
    /// An operator over `arity` inputs.
    pub fn new(arity: usize) -> (operator: Self)
        ensures
            operator@ == ZipState::<T>::initial(arity as nat),
            operator@.wf(),
    {
        let mut done: Vec<bool> = Vec::new();
        let mut pending: Vec<Option<T>> = Vec::new();
        let mut i: usize = 0;
        while i < arity
            invariant
                i <= arity,
                done@.len() == i,
                pending@.len() == i,
                forall|k: int| 0 <= k < i ==> !(#[trigger] done@[k]),
                forall|k: int| 0 <= k < i ==> (#[trigger] pending@[k]) is None,
            decreases arity - i,
        {
            done.push(false);
            pending.push(None);
            i += 1;
        }
        let operator = Zip { done, pending };
        assert(operator@.done =~= ZipState::<T>::initial(arity as nat).done);
        assert(operator@.pending =~= ZipState::<T>::initial(arity as nat).pending);
        operator
    }

    /// The number of inputs.
    pub fn arity(&self) -> (n: usize)
        ensures
            n == self@.arity(),
    {
        self.done.len()
    }

    /// Whether the input `i` is to be polled for the next round. An answer
    /// of an input that is handed in without that is dropped.
    pub fn wants(&self, i: usize) -> (wanted: bool)
        requires
            self@.wf(),
            i < self@.arity(),
        ensures
            wanted == polls(self@.done[i as int], self@.pending[i as int]),
    {
        !self.done[i] && self.pending[i].is_none()
    }

    /// Whether any input has ended.
    pub fn is_terminated(&self) -> (done: bool)
        ensures
            done == self@.any_done(),
    {
        let mut i: usize = 0;
        while i < self.done.len()
            invariant
                i <= self.done@.len(),
                forall|k: int| 0 <= k < i ==> !(#[trigger] self.done@[k]),
            decreases self.done@.len() - i,
        {
            if self.done[i] {
                assert(self@.done[i as int]);
                return true;
            }
            i += 1;
        }
        false
    }

    /// Bounds on the number of tuples still to come, from the bounds on
    /// the inputs: the least lower and the least upper bound.
    pub fn size_hint(&self, inputs: &Vec<Hint>) -> (hint: Hint)
        requires
            inputs@.len() > 0,
        ensures
            is_least_lower(inputs@, hint.0),
            is_least_upper(inputs@, hint.1),
    {
        least(inputs)
    }

    /// Runs a fresh operator over finite inputs whose items are all at
    /// hand, up to its end: one tuple for every position that all inputs
    /// reach, in order, holding the items at that position.
    pub fn collect(inputs: Vec<Vec<T>>) -> (out: Vec<Vec<T>>)
        requires
            inputs@.len() > 0,
        ensures
            forall|i: int| 0 <= i < inputs@.len() ==> out@.len() <= (#[trigger] inputs@[i])@.len(),
            exists|i: int| 0 <= i < inputs@.len() && out@.len() == (#[trigger] inputs@[i])@.len(),
            forall|k: int|
                0 <= k < out@.len() ==> (#[trigger] out@[k])@ == Seq::new(
                    inputs@.len(),
                    |i: int| inputs@[i]@[k],
                ),
    {
        let ghost lists = Seq::new(inputs@.len(), |i: int| inputs@[i]@);
        let ghost given = inputs@;
        let n = inputs.len();
        let mut operator = Zip::new(n);
        let mut queues = into_queues(inputs);
        let mut out: Vec<Vec<T>> = Vec::new();
        let mut ended = false;
        while !ended
            invariant
                n == lists.len(),
                n > 0,
                lists == Seq::new(given.len(), |i: int| given[i]@),
                queues@.len() == n,
                operator@.wf(),
                operator@.arity() == n,
                !ended ==> operator@ == ZipState::<T>::initial(n as nat),
                !ended ==> forall|i: int|
                    0 <= i < n ==> out@.len() <= (#[trigger] lists[i]).len(),
                !ended ==> forall|i: int|
                    0 <= i < n ==> (#[trigger] queues@[i])@ == lists[i].subrange(
                        out@.len() as int,
                        lists[i].len() as int,
                    ),
                ended ==> forall|i: int| 0 <= i < n ==> out@.len() <= (#[trigger] lists[i]).len(),
                ended ==> exists|i: int| 0 <= i < n && out@.len() == (#[trigger] lists[i]).len(),
                forall|k: int|
                    0 <= k < out@.len() ==> (#[trigger] out@[k])@ == Seq::new(
                        n as nat,
                        |i: int| lists[i][k],
                    ),
            decreases
                    if ended {
                        0
                    } else {
                        lists[0].len() - out@.len() + 1
                    },
        {
            let ghost round: int = out@.len() as int;
            let ghost before = queues@;
            let mut polled: Vec<Poll<Option<T>>> = Vec::new();
            let mut i: usize = 0;
            while i < n
                invariant
                    i <= n,
                    n == lists.len(),
                    queues@.len() == n,
                    polled@.len() == i,
                    round >= 0,
                    forall|j: int| 0 <= j < n ==> round <= (#[trigger] lists[j]).len(),
                    forall|j: int|
                        0 <= j < i ==> (#[trigger] polled@[j]) == ready_round(
                            lists,
                            round as nat,
                        )[j],
                    forall|j: int|
                        0 <= j < i && round < lists[j].len() ==> (#[trigger] queues@[j])@
                            == lists[j].subrange(round + 1, lists[j].len() as int),
                    forall|j: int|
                        i <= j < n ==> (#[trigger] queues@[j])@ == lists[j].subrange(
                            round,
                            lists[j].len() as int,
                        ),
                decreases n - i,
            {
                assert(round <= lists[i as int].len());
                let ghost queue = queues@[i as int]@;
                let item = queues[i].pop_front();
                proof {
                    if round < lists[i as int].len() {
                        assert(item == Some(lists[i as int][round]));
                        assert(queues@[i as int]@ =~= lists[i as int].subrange(
                            round + 1,
                            lists[i as int].len() as int,
                        ));
                    } else {
                        assert(item is None);
                    }
                }
                polled.push(Poll::Ready(item));
                i += 1;
            }
            assert(polled@ =~= ready_round(lists, round as nat));
            proof {
                ZipState::<T>::lemma_ready_inputs(lists, round as nat);
            }
            match operator.poll_next(polled) {
                Step::Yield(tuple) => {
                    proof {
                        assert(forall|j: int| 0 <= j < n ==> round < (#[trigger] lists[j]).len())
                            by {
                            if exists|j: int| 0 <= j < n && round == (#[trigger] lists[j]).len() {
                            }
                        }
                        ZipState::<T>::lemma_ready_inputs(lists, (round + 1) as nat);
                    }
                    out.push(tuple);
                },
                _ => {
                    proof {
                        assert(exists|j: int| 0 <= j < n && round == (#[trigger] lists[j]).len())
                            by {
                            if forall|j: int| 0 <= j < n ==> round < (#[trigger] lists[j]).len() {
                            }
                        }
                    }
                    ended = true;
                },
            }
        }
        proof {
            assert forall|i: int| 0 <= i < given.len() implies out@.len() <= (
            #[trigger] given[i])@.len() by {
                assert(out@.len() <= lists[i].len());
            }
            let w = choose|i: int| 0 <= i < n && out@.len() == (#[trigger] lists[i]).len();
            assert(out@.len() == given[w]@.len());
            assert forall|k: int| 0 <= k < out@.len() implies (#[trigger] out@[k])@ == Seq::new(
                given.len(),
                |i: int| given[i]@[k],
            ) by {
                assert(Seq::new(n as nat, |i: int| lists[i][k]) =~= Seq::new(
                    given.len(),
                    |i: int| given[i]@[k],
                ));
            }
        }
        out
    }

    /// Whether every input holds a value.
    fn is_full(&self) -> (full: bool)
        ensures
            full == (forall|i: int|
                0 <= i < self.pending@.len() ==> (#[trigger] self.pending@[i]) is Some),
    {
        let mut i: usize = 0;
        while i < self.pending.len()
            invariant
                i <= self.pending@.len(),
                forall|k: int| 0 <= k < i ==> (#[trigger] self.pending@[k]) is Some,
            decreases self.pending@.len() - i,
        {
            if self.pending[i].is_none() {
                return false;
            }
            i += 1;
        }
        true
    }

    /// Takes the value of every input out, given that every input holds
    /// one.
    fn take_all(&mut self) -> (values: Vec<T>)
        requires
            forall|i: int|
                0 <= i < old(self).pending@.len() ==> (#[trigger] old(self).pending@[i]) is Some,
        ensures
            final(self).done == old(self).done,
            final(self).pending@ == Seq::new(old(self).pending@.len(), |i: int| None::<T>),
            values@ == Seq::new(old(self).pending@.len(), |i: int| old(self).pending@[i]->0),
    {
        let mut values: Vec<T> = Vec::new();
        let n = self.pending.len();
        let mut i: usize = 0;
        while i < n
            invariant
                i <= n,
                n == old(self).pending@.len(),
                self.pending@.len() == n,
                self.done == old(self).done,
                values@.len() == i,
                forall|k: int| 0 <= k < i ==> (#[trigger] self.pending@[k]) is None,
                forall|k: int|
                    i <= k < n ==> (#[trigger] self.pending@[k]) == old(self).pending@[k],
                forall|k: int|
                    0 <= k < i ==> (#[trigger] values@[k]) == old(self).pending@[k]->0,
                forall|k: int| 0 <= k < n ==> (#[trigger] old(self).pending@[k]) is Some,
            decreases n - i,
        {
            assert(old(self).pending@[i as int] is Some);
            if let Some(value) = self.pending[i].take() {
                values.push(value);
            }
            i += 1;
        }
        assert(self.pending@ =~= Seq::new(old(self).pending@.len(), |i: int| None::<T>));
        assert(values@ =~= Seq::new(
            old(self).pending@.len(),
            |i: int| old(self).pending@[i]->0,
        ));
        values
    }

    /// One round, with what every input answered, in the order of the
    /// inputs.
    pub fn poll_next(&mut self, polled: Vec<Poll<Option<T>>>) -> (step: Step<Vec<T>>)
        requires
            old(self)@.wf(),
            polled@.len() == old(self)@.arity(),
        ensures
            final(self)@.wf(),
            final(self)@ == old(self)@.after(polled@),
            shows_tuple(step, old(self)@.emits(polled@)),
    {
        let ghost before = self@;
        let ghost answers = polled@;
        let n = self.done.len();
        let mut queue = into_queue(polled);
        let mut i: usize = 0;
        while i < n
            invariant
                i <= n,
                n == before.done.len(),
                before.wf(),
                answers.len() == n,
                self.done@.len() == n,
                self.pending@.len() == n,
                queue@ == answers.subrange(i as int, n as int),
                forall|k: int|
                    0 <= k < i ==> (#[trigger] self.done@[k]) == done_after(
                        before.done[k],
                        before.pending[k],
                        answers[k],
                    ),
                forall|k: int|
                    0 <= k < i ==> (#[trigger] self.pending@[k]) == held_after(
                        before.done[k],
                        before.pending[k],
                        answers[k],
                    ),
                forall|k: int| i <= k < n ==> (#[trigger] self.done@[k]) == before.done[k],
                forall|k: int| i <= k < n ==> (#[trigger] self.pending@[k]) == before.pending[k],
            decreases n - i,
        {
            if let Some(answer) = queue.pop_front() {
                assert(answer == answers[i as int]);
                assert(queue@ =~= answers.subrange(i + 1, n as int));
                if !self.done[i] && self.pending[i].is_none() {
                    match answer {
                        Poll::Ready(Some(item)) => {
                            self.pending[i] = Some(item);
                        },
                        Poll::Ready(None) => {
                            self.done[i] = true;
                        },
                        Poll::Pending => {},
                    }
                }
            }
            i += 1;
        }
        assert(self.pending@ =~= before.taken_in(answers));
        assert(self.done@ =~= before.after(answers).done);
        if self.is_full() {
            assert(before.full(answers));
            let values = self.take_all();
            assert(self@.pending =~= before.after(answers).pending);
            assert(values@ =~= before.emits(answers)->Yield_0);
            Step::Yield(values)
        } else {
            assert(!before.full(answers)) by {
                if before.full(answers) {
                    assert forall|k: int| 0 <= k < self.pending@.len() implies (
                    #[trigger] self.pending@[k]) is Some by {
                        assert(before.taken_in(answers)[k] is Some);
                    }
                }
            }
            assert(self@.pending =~= before.after(answers).pending);
            if self.is_terminated() {
                Step::End
            } else {
                Step::Wait
            }
        }
    }
}

} // verus!
