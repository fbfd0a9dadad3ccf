use crate::notification::Notification;
use crate::poll::fused;
use crate::poll::fused_done;
use crate::poll::into_queue;
use crate::poll::Fuse;
use crate::poll::Poll;
use crate::poll::Step;
use crate::stream_ext::materialize::materialized;
use vstd::prelude::*;

verus! {

/// The whole output for a finite input: the values of the notifications
/// up to the first `Complete`, or up to the end if there is none.
pub open spec fn dematerialized<T>(notes: Seq<Notification<T>>) -> Seq<T>
    decreases notes.len(),
{
    if notes.len() == 0 {
        Seq::empty()
    } else {
        match notes[0] {
            Notification::Next(item) => seq![item] + dematerialized(notes.drop_first()),
            Notification::Complete => Seq::empty(),
        }
    }
}

/// What one round hands out, given whether the upstream has ended.
pub open spec fn dematerialize_step<T>(done: bool, polled: Poll<Option<Notification<T>>>) -> Step<
    T,
> {
    match fused(done, polled) {
        Poll::Ready(Some(Notification::Next(item))) => Step::Yield(item),
        Poll::Ready(Some(Notification::Complete)) => Step::End,
        Poll::Ready(None) => Step::End,
        Poll::Pending => Step::Wait,
    }
}

/// Making the end explicit and folding it back in gives every finite
/// sequence back unchanged.
pub proof fn lemma_materialize_round_trip<T>(items: Seq<T>)
    ensures
        dematerialized(materialized(items)) == items,
    decreases items.len(),
{
    let notes = materialized(items);
    if items.len() == 0 {
        assert(dematerialized(notes) =~= items);
    } else {
        assert(notes.drop_first() =~= materialized(items.drop_first()));
        lemma_materialize_round_trip(items.drop_first());
        assert(seq![items[0]] + items.drop_first() =~= items);
    }
}

/// Folds explicit notifications back into a sequence: a `Next` gives its
/// value, a `Complete` is the end.
pub struct Dematerialize {
    stream: Fuse,
}

impl View for Dematerialize {
    type V = bool;

    /// Whether the upstream has ended.
    closed spec fn view(&self) -> bool {
        self.stream@
    }
}

impl Dematerialize {
    pub fn new() -> (operator: Self)
        ensures
            !operator@,
    {
        Dematerialize { stream: Fuse::new() }
    }

    /// Whether the upstream has ended.
    pub fn is_terminated(&self) -> (done: bool)
        ensures
            done == self@,
    {
        self.stream.is_terminated()
    }

    /// One round, with what the upstream answered.
    pub fn poll_next<T>(&mut self, polled: Poll<Option<Notification<T>>>) -> (step: Step<T>)
        ensures
            final(self)@ == fused_done(old(self)@, polled),
            step == dematerialize_step(old(self)@, polled),
    {
        match self.stream.poll_next(polled) {
            Poll::Ready(Some(event)) => match event {
                Notification::Next(event) => Step::Yield(event),
                Notification::Complete => Step::End,
            },
            Poll::Ready(None) => Step::End,
            Poll::Pending => Step::Wait,
        }
    }

    /// Runs a fresh operator over a finite sequence whose notifications
    /// are all at hand, up to the end that it reports.
    pub fn collect<T>(notes: Vec<Notification<T>>) -> (out: Vec<T>)
        ensures
            out@ == dematerialized(notes@),
    {
        let ghost all = notes@;
        let mut operator = Dematerialize::new();
        let mut queue = into_queue(notes);
        let mut out: Vec<T> = Vec::new();
        let mut ended = false;
        while !ended && queue.len() > 0
            invariant
                !operator@,
                ended ==> dematerialized(all) == out@,
                !ended ==> dematerialized(all) == out@ + dematerialized(queue@),
            decreases queue@.len(),
        {
            let ghost rest = queue@;
            let ghost so_far = out@;
            if let Some(note) = queue.pop_front() {
                assert(queue@ =~= rest.drop_first());
                match operator.poll_next(Poll::Ready(Some(note))) {
                    Step::Yield(item) => {
                        out.push(item);
                        assert(out@ + dematerialized(queue@) =~= so_far + dematerialized(rest));
                    },
                    _ => {
                        ended = true;
                        assert(so_far + dematerialized(rest) =~= so_far);
                    },
                }
            }
        }
        assert(!ended ==> out@ + dematerialized(queue@) =~= out@);
        out
    }

    /// Bounds on the number of items still to come, from the bounds on the
    /// upstream: one less than there are notifications, and never below
    /// none.
    pub fn size_hint(&self, upstream: (usize, Option<usize>)) -> (hint: (usize, Option<usize>))
        ensures
            hint.0 == if upstream.0 > 0 {
                upstream.0 - 1
            } else {
                0
            },
            hint.1 == match upstream.1 {
                Some(upper) => Some(
                    if upper > 0 {
                        (upper - 1) as usize
                    } else {
                        0usize
                    },
                ),
                None => None,
            },
    {
        let lower: usize = if upstream.0 > 0 {
            upstream.0 - 1
        } else {
            0
        };
        let upper = match upstream.1 {
            Some(upper) => Some(
                if upper > 0 {
                    upper - 1
                } else {
                    0
                },
            ),
            None => None,
        };
        (lower, upper)
    }
}

} // verus!
