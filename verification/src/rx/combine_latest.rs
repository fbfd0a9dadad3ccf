use crate::poll::fused;
use crate::poll::fused_done;
use crate::poll::into_queue;
use crate::poll::into_queues;
use crate::poll::Fuse;
use crate::poll::Poll;
use crate::poll::Step;
use crate::rx::bounds::greatest;
use crate::rx::bounds::is_greatest_lower;
use crate::rx::bounds::is_greatest_upper;
use crate::rx::bounds::Hint;
use vstd::prelude::*;

verus! {

/// The latest value of one input after the input answered.
pub open spec fn latest_after<T>(done: bool, latest: Option<T>, polled: Poll<Option<T>>) -> Option<
    T,
> {
    match fused(done, polled) {
        Poll::Ready(Some(item)) => Some(item),
        _ => latest,
    }
}

/// Whether an input's answer brings a new value.
pub open spec fn brings_value<T>(done: bool, polled: Poll<Option<T>>) -> bool {
    fused(done, polled) matches Poll::Ready(Some(_))
}

/// The combining operator as plain mathematics: for every input, whether
/// it has ended and the value it gave last.
pub struct CombineLatestState<T> {
    pub done: Seq<bool>,
    pub latest: Seq<Option<T>>,
}

impl<T> CombineLatestState<T> {
    /// The state before anything was polled.
    pub open spec fn initial(arity: nat) -> Self {
        CombineLatestState {
            done: Seq::new(arity, |i: int| false),
            latest: Seq::new(arity, |i: int| None),
        }
    }

    /// There is one slot per input.
    pub open spec fn wf(self) -> bool {
        self.done.len() == self.latest.len()
    }

    /// The number of inputs.
    pub open spec fn arity(self) -> nat {
        self.done.len()
    }

    /// The state after one round, with what every input answered. An
    /// input that has ended is not looked at.
    pub open spec fn after(self, polled: Seq<Poll<Option<T>>>) -> Self {
        CombineLatestState {
            done: Seq::new(self.done.len(), |i: int| fused_done(self.done[i], polled[i])),
            latest: Seq::new(
                self.latest.len(),
                |i: int| latest_after(self.done[i], self.latest[i], polled[i]),
            ),
        }
    }

    /// Whether the input `i` brings a new value in this round.
    pub open spec fn updated_at(self, polled: Seq<Poll<Option<T>>>, i: int) -> bool {
        0 <= i < self.done.len() && brings_value(self.done[i], polled[i])
    }

    /// Whether any input brings a new value in this round.
    pub open spec fn updated(self, polled: Seq<Poll<Option<T>>>) -> bool {
        exists|i: int| self.updated_at(polled, i)
    }

    /// Whether every input has given a value.
    pub open spec fn complete(self) -> bool {
        forall|i: int| 0 <= i < self.latest.len() ==> (#[trigger] self.latest[i]) is Some
    }

    /// Whether every input has ended.
    pub open spec fn all_done(self) -> bool {
        forall|i: int| 0 <= i < self.done.len() ==> #[trigger] self.done[i]
    }

    /// The latest values of all inputs, in the order of the inputs.
    pub open spec fn values(self) -> Seq<T> {
        Seq::new(self.latest.len(), |i: int| self.latest[i]->0)
    }

    /// What one round hands out: the latest values of all inputs, once
    /// every input has given one and at least one gave a new one in this
    /// round, however many did; the end once every input has ended.
    pub open spec fn emits(self, polled: Seq<Poll<Option<T>>>) -> Step<Seq<T>> {
        if self.updated(polled) && self.after(polled).complete() {
            Step::Yield(self.after(polled).values())
        } else if self.after(polled).all_done() {
            Step::End
        } else {
            Step::Wait
        }
    }
}

/// What the inputs answer in the given round when all their items are
/// at hand: each its next item, or its end once it has run out.
pub open spec fn ready_round<T>(inputs: Seq<Seq<T>>, round: nat) -> Seq<Poll<Option<T>>> {
    Seq::new(
        inputs.len(),
        |i: int|
            if round < inputs[i].len() {
                Poll::Ready(Some(inputs[i][round as int]))
            } else {
                Poll::Ready(None)
            },
    )
}

/// The item of an input that is its latest in the given round: the item
/// of that round, or the input's last one if it has run out.
pub open spec fn latest_in_round<T>(input: Seq<T>, round: nat) -> T {
    if round < input.len() {
        input[round as int]
    } else {
        input[input.len() - 1]
    }
}

impl<T> CombineLatestState<T> {
    /// The state after the given number of rounds over inputs whose items
    /// are all at hand.
    pub open spec fn after_rounds(self, inputs: Seq<Seq<T>>, rounds: nat) -> Self
        decreases rounds,
    {
        if rounds == 0 {
            self
        } else {
            self.after_rounds(inputs, (rounds - 1) as nat).after(
                ready_round(inputs, (rounds - 1) as nat),
            )
        }
    }

    /// Over inputs whose items are all at hand: as long as some input
    /// still has an item, a round hands out the items of that round, with
    /// the last item of each input that has run out, if every input has an
    /// item at all, and nothing if some input has none; the first round in
    /// which no input has an item left gives the end.
    pub proof fn lemma_ready_inputs(inputs: Seq<Seq<T>>, round: nat)
        ensures
            Self::initial(inputs.len()).after_rounds(inputs, round).done == Seq::new(
                inputs.len(),
                |i: int| round > inputs[i].len(),
            ),
            Self::initial(inputs.len()).after_rounds(inputs, round).latest == Seq::new(
                inputs.len(),
                |i: int|
                    if round == 0 || inputs[i].len() == 0 {
                        None
                    } else {
                        Some(latest_in_round(inputs[i], (round - 1) as nat))
                    },
            ),
            (forall|i: int| 0 <= i < inputs.len() ==> (#[trigger] inputs[i]).len() > 0) && (exists|
                i: int,
            |
                0 <= i < inputs.len() && round < (#[trigger] inputs[i]).len()) ==> Self::initial(
                inputs.len(),
            ).after_rounds(inputs, round).emits(ready_round(inputs, round)) == Step::Yield(
                Seq::new(inputs.len(), |i: int| latest_in_round(inputs[i], round)),
            ),
            (exists|i: int| 0 <= i < inputs.len() && (#[trigger] inputs[i]).len() == 0) && (exists|
                i: int,
            |
                0 <= i < inputs.len() && round < (#[trigger] inputs[i]).len()) ==> Self::initial(
                inputs.len(),
            ).after_rounds(inputs, round).emits(ready_round(inputs, round)) == Step::<
                Seq<T>,
            >::Wait,
            (forall|i: int| 0 <= i < inputs.len() ==> round >= (#[trigger] inputs[i]).len())
                ==> Self::initial(inputs.len()).after_rounds(inputs, round).emits(
                ready_round(inputs, round),
            ) == Step::<Seq<T>>::End,
        decreases round,
    {
        let n = inputs.len();
        let state = Self::initial(n).after_rounds(inputs, round);
        if round > 0 {
            Self::lemma_ready_inputs(inputs, (round - 1) as nat);
        }
        assert(state.done =~= Seq::new(n, |i: int| round > inputs[i].len()));
        assert(state.latest =~= Seq::new(
            n,
            |i: int|
                if round == 0 || inputs[i].len() == 0 {
                    None
                } else {
                    Some(latest_in_round(inputs[i], (round - 1) as nat))
                },
        ));
        let polled = ready_round(inputs, round);
        let next = state.after(polled);
        if exists|i: int| 0 <= i < n && round < (#[trigger] inputs[i]).len() {
            let w = choose|i: int| 0 <= i < n && round < (#[trigger] inputs[i]).len();
            assert(state.updated_at(polled, w));
            if forall|i: int| 0 <= i < n ==> (#[trigger] inputs[i]).len() > 0 {
                assert forall|i: int| 0 <= i < next.latest.len() implies (
                #[trigger] next.latest[i]) is Some by {
                    assert(inputs[i].len() > 0);
                }
                assert(next.values() =~= Seq::new(n, |i: int| latest_in_round(inputs[i], round)))
                    by {
                    assert forall|i: int| 0 <= i < n implies next.values()[i] == latest_in_round(
                        inputs[i],
                        round,
                    ) by {
                        assert(inputs[i].len() > 0);
                    }
                }
            }
            if exists|i: int| 0 <= i < n && (#[trigger] inputs[i]).len() == 0 {
                let e = choose|i: int| 0 <= i < n && (#[trigger] inputs[i]).len() == 0;
                assert(next.latest[e] is None);
                assert(!next.complete());
                assert(!next.done[w]);
                assert(!next.all_done());
            }
        }
        if forall|i: int| 0 <= i < n ==> round >= (#[trigger] inputs[i]).len() {
            assert(!state.updated(polled)) by {
                if state.updated(polled) {
                    let w = choose|i: int| state.updated_at(polled, i);
                    assert(round >= inputs[w].len());
                }
            }
            assert forall|i: int| 0 <= i < next.done.len() implies #[trigger] next.done[i] by {
                assert(round >= inputs[i].len());
            }
        }
    }
}

/// Whether a step that carries clones shows the wanted step.
pub open spec fn shows_clones<T: Clone>(step: Step<Vec<T>>, wanted: Step<Seq<T>>) -> bool {
    match wanted {
        Step::Yield(items) => step matches Step::Yield(list) && list@.len() == items.len()
            && forall|i: int| 0 <= i < items.len() ==> cloned(items[i], #[trigger] list@[i]),
        Step::End => step is End,
        Step::Retry => step is Retry,
        Step::Wait => step is Wait,
    }
}

/// Combines any number of sequences of one item type: whenever an input
/// gives a new value, the latest values of all inputs go out together.
pub struct CombineLatest<T> {
    streams: Vec<Fuse>,
    latest: Vec<Option<T>>,
}

impl<T> View for CombineLatest<T> {
    type V = CombineLatestState<T>;

    closed spec fn view(&self) -> CombineLatestState<T> {
        CombineLatestState {
            done: Seq::new(self.streams@.len(), |i: int| self.streams@[i]@),
            latest: self.latest@,
        }
    }
}

impl<T: Clone> CombineLatest<T> {
    /// An operator over `arity` inputs.
    pub fn new(arity: usize) -> (operator: Self)
        ensures
            operator@ == CombineLatestState::<T>::initial(arity as nat),
            operator@.wf(),
    {
        let mut streams: Vec<Fuse> = Vec::new();
        let mut latest: Vec<Option<T>> = Vec::new();
        let mut i: usize = 0;
        while i < arity
            invariant
                i <= arity,
                streams@.len() == i,
                latest@.len() == i,
                forall|k: int| 0 <= k < i ==> !(#[trigger] streams@[k])@,
                forall|k: int| 0 <= k < i ==> (#[trigger] latest@[k]) is None,
            decreases arity - i,
        {
            streams.push(Fuse::new());
            latest.push(None);
            i += 1;
        }
        let operator = CombineLatest { streams, latest };
        assert(operator@.done =~= CombineLatestState::<T>::initial(arity as nat).done);
        assert(operator@.latest =~= CombineLatestState::<T>::initial(arity as nat).latest);
        operator
    }

    /// The number of inputs.
    pub fn arity(&self) -> (n: usize)
        ensures
            n == self@.arity(),
    {
        self.streams.len()
    }

    /// Whether every input has ended.
    pub fn is_terminated(&self) -> (done: bool)
        ensures
            done == self@.all_done(),
    {
        let mut i: usize = 0;
        while i < self.streams.len()
            invariant
                i <= self.streams@.len(),
                forall|k: int| 0 <= k < i ==> #[trigger] self@.done[k],
            decreases self.streams@.len() - i,
        {
            if !self.streams[i].is_terminated() {
                assert(!self@.done[i as int]);
                return false;
            }
            i += 1;
        }
        true
    }

    /// Bounds on the number of tuples still to come, from the bounds on
    /// the inputs: at least as many as the input with the most items is
    /// sure to give, and, once every input has ended, at most as many as the
    /// greatest upper bound says.
    pub fn size_hint(&self, inputs: &Vec<Hint>) -> (hint: Hint)
        requires
            inputs@.len() > 0,
        ensures
            is_greatest_lower(inputs@, hint.0),
            self@.all_done() ==> is_greatest_upper(inputs@, hint.1),
            !self@.all_done() ==> hint.1 is None,
    {
        let (lower, upper) = greatest(inputs);
        if self.is_terminated() {
            (lower, upper)
        } else {
            (lower, None)
        }
    }

    /// The length of the longest list.
    fn longest(inputs: &Vec<Vec<T>>) -> (len: usize)
        ensures
            forall|i: int| 0 <= i < inputs@.len() ==> (#[trigger] inputs@[i])@.len() <= len,
    {
        let mut len: usize = 0;
        let mut i: usize = 0;
        while i < inputs.len()
            invariant
                i <= inputs@.len(),
                forall|k: int| 0 <= k < i ==> (#[trigger] inputs@[k])@.len() <= len,
            decreases inputs@.len() - i,
        {
            if inputs[i].len() > len {
                len = inputs[i].len();
            }
            i += 1;
        }
        len
    }

    /// Runs a fresh operator over finite inputs whose items are all at
    /// hand, up to its end. If every input has an item, there is one tuple
    /// for every position that some input reaches, in order, holding clones
    /// of the items at that position, and of the last item of each input
    /// that is shorter. If some input has no item, or there is no input,
    /// nothing comes out.
    pub fn collect(inputs: Vec<Vec<T>>) -> (out: Vec<Vec<T>>)
        ensures
            inputs@.len() == 0 ==> out@.len() == 0,
            (exists|i: int| 0 <= i < inputs@.len() && (#[trigger] inputs@[i])@.len() == 0)
                ==> out@.len() == 0,
            (forall|i: int| 0 <= i < inputs@.len() ==> (#[trigger] inputs@[i])@.len() > 0)
                ==> forall|i: int|
                0 <= i < inputs@.len() ==> (#[trigger] inputs@[i])@.len() <= out@.len(),
            inputs@.len() > 0 && (forall|i: int|
                0 <= i < inputs@.len() ==> (#[trigger] inputs@[i])@.len() > 0) ==> exists|i: int|
                0 <= i < inputs@.len() && out@.len() == (#[trigger] inputs@[i])@.len(),
            forall|k: int|
                0 <= k < out@.len() ==> (#[trigger] out@[k])@.len() == inputs@.len(),
            forall|k: int, i: int|
                0 <= k < out@.len() && 0 <= i < inputs@.len() ==> cloned(
                    latest_in_round(inputs@[i]@, k as nat),
                    #[trigger] out@[k]@[i],
                ),
    {
        let ghost lists = Seq::new(inputs@.len(), |i: int| inputs@[i]@);
        let ghost given = inputs@;
        let ghost all_have = forall|i: int| 0 <= i < lists.len() ==> (#[trigger] lists[i]).len() > 0;
        let n = inputs.len();
        let longest = Self::longest(&inputs);
        let mut operator = CombineLatest::new(n);
        let mut queues = into_queues(inputs);
        let mut out: Vec<Vec<T>> = Vec::new();
        let mut round: usize = 0;
        let mut ended = false;
        assert(n > 0 ==> round <= lists[0].len());
        while !ended
            invariant
                n == lists.len(),
                lists == Seq::new(given.len(), |i: int| given[i]@),
                all_have == (forall|i: int| 0 <= i < n ==> (#[trigger] lists[i]).len() > 0),
                forall|i: int| 0 <= i < n ==> (#[trigger] lists[i]).len() <= longest,
                queues@.len() == n,
                operator@.wf(),
                operator@.arity() == n,
                !ended ==> operator@ == CombineLatestState::<T>::initial(n as nat).after_rounds(
                    lists,
                    round as nat,
                ),
                !ended ==> forall|i: int|
                    0 <= i < n ==> (#[trigger] queues@[i])@ == if round < lists[i].len() {
                        lists[i].subrange(round as int, lists[i].len() as int)
                    } else {
                        Seq::empty()
                    },
                ended ==> forall|i: int| 0 <= i < n ==> (#[trigger] lists[i]).len() <= round,
                n > 0 ==> exists|i: int| 0 <= i < n && round <= (#[trigger] lists[i]).len(),
                n == 0 ==> round == 0,
                all_have ==> out@.len() == round,
                !all_have ==> out@.len() == 0,
                forall|k: int| 0 <= k < out@.len() ==> (#[trigger] out@[k])@.len() == n,
                forall|k: int, i: int|
                    0 <= k < out@.len() && 0 <= i < n ==> cloned(
                        latest_in_round(lists[i], k as nat),
                        #[trigger] out@[k]@[i],
                    ),
            decreases
                    if ended {
                        0
                    } else {
                        longest - round + 1
                    },
        {
            let mut polled: Vec<Poll<Option<T>>> = Vec::new();
            let mut i: usize = 0;
            while i < n
                invariant
                    i <= n,
                    n == lists.len(),
                    queues@.len() == n,
                    polled@.len() == i,
                    forall|j: int|
                        0 <= j < i ==> (#[trigger] polled@[j]) == ready_round(
                            lists,
                            round as nat,
                        )[j],
                    forall|j: int|
                        0 <= j < i ==> (#[trigger] queues@[j])@ == if round + 1 < lists[j].len() {
                            lists[j].subrange(round + 1, lists[j].len() as int)
                        } else {
                            Seq::empty()
                        },
                    forall|j: int|
                        i <= j < n ==> (#[trigger] queues@[j])@ == if round < lists[j].len() {
                            lists[j].subrange(round as int, lists[j].len() as int)
                        } else {
                            Seq::empty()
                        },
                decreases n - i,
            {
                let item = queues[i].pop_front();
                proof {
                    if round < lists[i as int].len() {
                        assert(item == Some(lists[i as int][round as int]));
                        assert(queues@[i as int]@ =~= if round + 1 < lists[i as int].len() {
                            lists[i as int].subrange(round + 1, lists[i as int].len() as int)
                        } else {
                            Seq::empty()
                        });
                    } else {
                        assert(item is None);
                    }
                }
                polled.push(Poll::Ready(item));
                i += 1;
            }
            assert(polled@ =~= ready_round(lists, round as nat));
            proof {
                CombineLatestState::<T>::lemma_ready_inputs(lists, round as nat);
            }
            let ghost wanted = operator@.emits(polled@);
            let ghost some_left = exists|j: int| 0 <= j < n && round < (#[trigger] lists[j]).len();
            proof {
                if !some_left {
                    assert(forall|j: int| 0 <= j < n ==> round >= (#[trigger] lists[j]).len());
                    assert(wanted is End);
                } else if all_have {
                    assert(wanted is Yield);
                } else {
                    assert(wanted is Wait);
                }
            }
            match operator.poll_next(polled) {
                Step::Yield(tuple) => {
                    proof {
                        let w = choose|j: int| 0 <= j < n && round < (#[trigger] lists[j]).len();
                        assert(round + 1 <= lists[w].len());
                        assert(wanted->Yield_0.len() == n);
                        assert forall|j: int| 0 <= j < n implies cloned(
                            latest_in_round(lists[j], round as nat),
                            #[trigger] tuple@[j],
                        ) by {
                            assert(wanted->Yield_0[j] == latest_in_round(lists[j], round as nat));
                        }
                    }
                    out.push(tuple);
                    round += 1;
                },
                Step::End => {
                    ended = true;
                },
                _ => {
                    proof {
                        let w = choose|j: int| 0 <= j < n && round < (#[trigger] lists[j]).len();
                        assert(round + 1 <= lists[w].len());
                    }
                    round += 1;
                },
            }
        }
        proof {
            assert forall|k: int, i: int| 0 <= k < out@.len() && 0 <= i < given.len() implies cloned(
                latest_in_round(given[i]@, k as nat),
                #[trigger] out@[k]@[i],
            ) by {
                assert(lists[i] == given[i]@);
            }
            if exists|i: int| 0 <= i < given.len() && (#[trigger] given[i])@.len() == 0 {
                let e = choose|i: int| 0 <= i < given.len() && (#[trigger] given[i])@.len() == 0;
                assert(lists[e].len() == 0);
                assert(!all_have);
            }
            if forall|i: int| 0 <= i < given.len() ==> (#[trigger] given[i])@.len() > 0 {
                assert(all_have) by {
                    assert forall|i: int| 0 <= i < n implies (#[trigger] lists[i]).len() > 0 by {
                        assert(given[i]@.len() > 0);
                    }
                }
                assert forall|i: int| 0 <= i < given.len() implies (#[trigger] given[i])@.len()
                    <= out@.len() by {
                    assert(lists[i].len() <= round);
                }
                if n > 0 {
                    let w = choose|i: int| 0 <= i < n && round <= (#[trigger] lists[i]).len();
                    assert(lists[w].len() <= round);
                    assert(out@.len() == given[w]@.len());
                }
            }
        }
        out
    }

    /// The latest values of all inputs, cloned, if every input has given
    /// one.
    fn snapshot(&self) -> (values: Option<Vec<T>>)
        ensures
            values is Some == self@.complete(),
            values matches Some(list) ==> list@.len() == self@.latest.len() && forall|i: int|
                0 <= i < list@.len() ==> cloned(self@.latest[i]->0, #[trigger] list@[i]),
    {
        let mut values: Vec<T> = Vec::new();
        let mut i: usize = 0;
        while i < self.latest.len()
            invariant
                i <= self.latest@.len(),
                values@.len() == i,
                forall|k: int| 0 <= k < i ==> (#[trigger] self.latest@[k]) is Some,
                forall|k: int|
                    0 <= k < i ==> cloned(self.latest@[k]->0, #[trigger] values@[k]),
            decreases self.latest@.len() - i,
        {
            match &self.latest[i] {
                Some(value) => {
                    values.push(value.clone());
                },
                None => {
                    assert(!(self@.latest[i as int] is Some));
                    return None;
                },
            }
            i += 1;
        }
        Some(values)
    }

    /// One round, with what every input answered, in the order of the
    /// inputs.
    pub fn poll_next(&mut self, polled: Vec<Poll<Option<T>>>) -> (step: Step<Vec<T>>)
        requires
            old(self)@.wf(),
            polled@.len() == old(self)@.arity(),
        ensures
            final(self)@.wf(),
            final(self)@ == old(self)@.after(polled@),
            shows_clones(step, old(self)@.emits(polled@)),
    {
        let ghost before = self@;
        let ghost answers = polled@;
        let n = self.streams.len();
        let mut queue = into_queue(polled);
        let mut did_update_value = false;
        let mut i: usize = 0;
        while i < n
            invariant
                i <= n,
                n == before.done.len(),
                before.wf(),
                answers.len() == n,
                self.streams@.len() == n,
                self.latest@.len() == n,
                queue@ == answers.subrange(i as int, n as int),
                forall|k: int|
                    0 <= k < i ==> (#[trigger] self.streams@[k])@ == fused_done(
                        before.done[k],
                        answers[k],
                    ),
                forall|k: int|
                    0 <= k < i ==> (#[trigger] self.latest@[k]) == latest_after(
                        before.done[k],
                        before.latest[k],
                        answers[k],
                    ),
                forall|k: int| i <= k < n ==> (#[trigger] self.streams@[k])@ == before.done[k],
                forall|k: int| i <= k < n ==> (#[trigger] self.latest@[k]) == before.latest[k],
                did_update_value ==> before.updated(answers),
                !did_update_value ==> forall|k: int| 0 <= k < i ==> !before.updated_at(answers, k),
            decreases n - i,
        {
            let ghost rest = queue@;
            if let Some(answer) = queue.pop_front() {
                assert(answer == answers[i as int]);
                assert(queue@ =~= answers.subrange(i + 1, n as int));
                if let Poll::Ready(Some(item)) = self.streams[i].poll_next(answer) {
                    assert(before.updated_at(answers, i as int));
                    did_update_value = true;
                    self.latest[i] = Some(item);
                }
            }
            i += 1;
        }
        assert(self@.done =~= before.after(answers).done);
        assert(self@.latest =~= before.after(answers).latest);
        if did_update_value {
            if let Some(values) = self.snapshot() {
                return Step::Yield(values);
            }
        }
        if self.is_terminated() {
            Step::End
        } else {
            Step::Wait
        }
    }
}

} // verus!
