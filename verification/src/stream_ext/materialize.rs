use crate::notification::Notification;
use crate::poll::into_queue;
use crate::poll::Poll;
use crate::poll::Step;
use vstd::prelude::*;

verus! {

/// The whole output for a finite input: every item as a `Next`, then one
/// `Complete`.
pub open spec fn materialized<T>(items: Seq<T>) -> Seq<Notification<T>> {
    Seq::new(
        items.len() + 1,
        |i: int|
            if i < items.len() {
                Notification::Next(items[i])
            } else {
                Notification::Complete
            },
    )
}

/// What one round hands out, given whether the end marker went out
/// already.
pub open spec fn materialize_step<T>(did_complete: bool, polled: Poll<Option<T>>) -> Step<
    Notification<T>,
> {
    match polled {
        Poll::Ready(Some(item)) => Step::Yield(Notification::Next(item)),
        Poll::Ready(None) => if did_complete {
            Step::End
        } else {
            Step::Yield(Notification::Complete)
        },
        Poll::Pending => Step::Wait,
    }
}

/// Makes the end of a sequence explicit: every item goes out as a `Next`
/// notification, and the end of the upstream as one `Complete` before the
/// end.
pub struct Materialize {
    did_complete: bool,
}

impl View for Materialize {
    type V = bool;

    /// Whether the end marker went out.
    closed spec fn view(&self) -> bool {
        self.did_complete
    }
}

impl Materialize {
    pub fn new() -> (operator: Self)
        ensures
            !operator@,
    {
        Materialize { did_complete: false }
    }

    /// Whether the end marker went out.
    pub fn is_terminated(&self) -> (done: bool)
        ensures
            done == self@,
    {
        self.did_complete
    }

    /// One round, with what the upstream answered.
    pub fn poll_next<T>(&mut self, polled: Poll<Option<T>>) -> (step: Step<Notification<T>>)
        ensures
            final(self)@ == (old(self)@ || polled == Poll::Ready(None::<T>)),
            step == materialize_step(old(self)@, polled),
    {
        match polled {
            Poll::Ready(Some(event)) => Step::Yield(Notification::Next(event)),
            Poll::Ready(None) => {
                if self.did_complete {
                    Step::End
                } else {
                    self.did_complete = true;
                    Step::Yield(Notification::Complete)
                }
            },
            Poll::Pending => Step::Wait,
        }
    }

    /// Runs a fresh operator over a finite sequence whose items are all at
    /// hand, up to its end.
    pub fn collect<T>(items: Vec<T>) -> (out: Vec<Notification<T>>)
        ensures
            out@ == materialized(items@),
    {
        let ghost all = items@;
        let mut operator = Materialize::new();
        let mut queue = into_queue(items);
        let mut out: Vec<Notification<T>> = Vec::new();
        while queue.len() > 0
            invariant
                !operator@,
                queue@.len() <= all.len(),
                queue@ == all.subrange(all.len() - queue@.len(), all.len() as int),
                out@ == materialized(all).subrange(0, all.len() - queue@.len()),
            decreases queue@.len(),
        {
            if let Some(item) = queue.pop_front() {
                if let Step::Yield(note) = operator.poll_next(Poll::Ready(Some(item))) {
                    out.push(note);
                }
            }
            assert(queue@ =~= all.subrange(all.len() - queue@.len(), all.len() as int));
            assert(out@ =~= materialized(all).subrange(0, all.len() - queue@.len()));
        }
        if let Step::Yield(note) = operator.poll_next(Poll::Ready(None::<T>)) {
            out.push(note);
        }
        assert(out@ =~= materialized(all));
        out
    }

    /// Bounds on the number of notifications still to come, from the
    /// bounds on the upstream: one more than there are items. A bound that
    /// no machine integer holds is given as the largest one, or as unknown.
    pub fn size_hint(&self, upstream: (usize, Option<usize>)) -> (hint: (usize, Option<usize>))
        ensures
            hint.0 == if upstream.0 < usize::MAX {
                upstream.0 + 1
            } else {
                usize::MAX as int
            },
            hint.1 == match upstream.1 {
                Some(upper) => if upper < usize::MAX {
                    Some((upper + 1) as usize)
                } else {
                    None
                },
                None => None,
            },
    {
        let lower: usize = if upstream.0 < usize::MAX {
            upstream.0 + 1
        } else {
            usize::MAX
        };
        let upper = match upstream.1 {
            Some(upper) => if upper < usize::MAX {
                Some(upper + 1)
            } else {
                None
            },
            None => None,
        };
        (lower, upper)
    }
}

} // verus!
