pub mod behavior_subject;
pub mod publish_subject;
pub mod registry;
pub mod replay_subject;
pub mod shareable_subject;

use crate::controller::Mailbox;
use crate::event::Event;
use crate::observable::Observable;
use crate::poll::Poll;
use vstd::prelude::*;

verus! {

/// A multicast subject as plain mathematics: whether it was closed, the
/// mailbox of every live subscription (keyed by the subscription's id), the
/// backlog kept for later subscribers, and how long that backlog may grow.
pub struct SubjectState<T> {
    pub closed: bool,
    pub mailboxes: Map<int, Mailbox<Event<T>>>,
    pub replay: Seq<Event<T>>,
    pub capacity: Option<nat>,
}

/// The backlog after one more payload: appended at the tail, then cut from
/// the front down to the capacity, if there is one.
pub open spec fn remember<T>(replay: Seq<Event<T>>, capacity: Option<nat>, event: Event<T>) -> Seq<
    Event<T>,
> {
    let grown = replay.push(event);
    match capacity {
        Some(limit) => if grown.len() > limit {
            grown.subrange(grown.len() - limit, grown.len() as int)
        } else {
            grown
        },
        None => grown,
    }
}

/// The payloads that pushing the given values makes, in order.
pub open spec fn payloads<T>(values: Seq<T>) -> Seq<Event<T>> {
    Seq::new(values.len(), |i: int| Event::spec_new(values[i]))
}

/// The most recent part of a backlog that fits the capacity, if there is
/// one.
pub open spec fn latest<T>(backlog: Seq<Event<T>>, capacity: Option<nat>) -> Seq<Event<T>> {
    match capacity {
        Some(limit) => if backlog.len() > limit {
            backlog.subrange(backlog.len() - limit, backlog.len() as int)
        } else {
            backlog
        },
        None => backlog,
    }
}

impl<T> SubjectState<T> {
    /// A subject that nobody has subscribed to yet.
    pub open spec fn initial(replay: Seq<Event<T>>, capacity: Option<nat>) -> Self {
        SubjectState { closed: false, mailboxes: Map::empty(), replay, capacity }
    }

    /// Whether `id` names a live subscription.
    pub open spec fn is_live(self, id: int) -> bool {
        self.mailboxes.dom().contains(id)
    }

    /// Every live mailbox is completed exactly when the subject is closed,
    /// and a bounded backlog stays within its bound.
    pub open spec fn valid(self) -> bool {
        &&& forall|id: int| #[trigger]
            self.mailboxes.dom().contains(id) ==> self.mailboxes[id].completed == self.closed
        &&& match self.capacity {
            Some(limit) => self.replay.len() <= limit,
            None => true,
        }
    }

    /// After a new subscription was filed under `id`: its mailbox starts
    /// with the whole backlog, in order, and is completed from the start if
    /// the subject was closed already.
    pub open spec fn subscribed(self, id: int) -> Self {
        SubjectState {
            mailboxes: self.mailboxes.insert(
                id,
                Mailbox { queue: self.replay, completed: self.closed },
            ),
            ..self
        }
    }

    /// After the subscription `id` was given up.
    pub open spec fn unsubscribed(self, id: int) -> Self {
        SubjectState { mailboxes: self.mailboxes.remove(id), ..self }
    }

    /// After a value was pushed: one payload, appended to every live mailbox
    /// and remembered in the backlog. A closed subject ignores the push.
    pub open spec fn pushed(self, value: T) -> Self {
        if self.closed {
            self
        } else {
            SubjectState {
                mailboxes: Map::new(
                    |id: int| self.mailboxes.dom().contains(id),
                    |id: int| self.mailboxes[id].pushed(Event::spec_new(value)),
                ),
                replay: remember(self.replay, self.capacity, Event::spec_new(value)),
                ..self
            }
        }
    }

    /// After the given values were pushed one after the other.
    pub open spec fn pushed_all(self, values: Seq<T>) -> Self
        decreases values.len(),
    {
        if values.len() == 0 {
            self
        } else {
            self.pushed(values[0]).pushed_all(values.drop_first())
        }
    }

    /// After the subject was closed: every live mailbox is completed.
    pub open spec fn shut(self) -> Self {
        SubjectState {
            closed: true,
            mailboxes: Map::new(
                |id: int| self.mailboxes.dom().contains(id),
                |id: int| self.mailboxes[id].finished(),
            ),
            ..self
        }
    }

    /// After one answer of an upstream was forwarded: an item is pushed, the
    /// end closes the subject, and nothing happens while the upstream has
    /// nothing to give.
    pub open spec fn forwarded(self, polled: Poll<Option<T>>) -> Self {
        match polled {
            Poll::Ready(Some(value)) => self.pushed(value),
            Poll::Ready(None) => self.shut(),
            Poll::Pending => self,
        }
    }

    /// What a pull on the subscription `id` answers. A subscription that
    /// the subject does not know has ended.
    pub open spec fn front(self, id: int) -> Poll<Option<Event<T>>> {
        if self.is_live(id) {
            self.mailboxes[id].front()
        } else {
            Poll::Ready(None)
        }
    }

    /// After a pull on the subscription `id`.
    pub open spec fn polled(self, id: int) -> Self {
        if self.is_live(id) {
            SubjectState {
                mailboxes: self.mailboxes.insert(id, self.mailboxes[id].popped()),
                ..self
            }
        } else {
            self
        }
    }

    /// Bounds on what the subscription `id` will still yield.
    pub open spec fn hint(self, id: int) -> (usize, Option<usize>) {
        if self.is_live(id) {
            self.mailboxes[id].hint()
        } else {
            (0, Some(0))
        }
    }

    /// Every step keeps a valid subject valid.
    pub proof fn lemma_steps_keep_valid(self, id: int, value: T)
        requires
            self.valid(),
        ensures
            self.subscribed(id).valid(),
            self.unsubscribed(id).valid(),
            self.pushed(value).valid(),
            self.shut().valid(),
            self.polled(id).valid(),
    {
    }

    /// Closing twice leaves the subject exactly as closing once does.
    pub proof fn lemma_close_is_idempotent(self)
        ensures
            self.shut().shut() == self.shut(),
    {
        assert(self.shut().shut().mailboxes =~= self.shut().mailboxes);
    }

    /// A push after closing changes nothing.
    pub proof fn lemma_push_after_close_is_dropped(self, value: T)
        ensures
            self.shut().pushed(value) == self.shut(),
    {
    }

    /// Giving up one subscription leaves every other one untouched, and the
    /// next push and the next close reach the others exactly as they would
    /// have without the cancellation.
    pub proof fn lemma_cancel_leaves_others(self, gone: int, kept: int, value: T)
        requires
            self.is_live(kept),
            gone != kept,
        ensures
            self.unsubscribed(gone).is_live(kept),
            self.unsubscribed(gone).mailboxes[kept] == self.mailboxes[kept],
            self.unsubscribed(gone).pushed(value).is_live(kept),
            self.unsubscribed(gone).pushed(value).mailboxes[kept] == self.pushed(
                value,
            ).mailboxes[kept],
            self.unsubscribed(gone).shut().mailboxes[kept] == self.shut().mailboxes[kept],
            self.unsubscribed(gone).pushed(value).front(kept) == self.pushed(value).front(kept),
    {
    }

    /// Pushes reach a live mailbox in the order in which they were made.
    pub proof fn lemma_pushes_arrive_in_order(self, id: int, first: T, second: T)
        requires
            self.is_live(id),
            !self.closed,
        ensures
            self.pushed(first).pushed(second).mailboxes[id].queue == self.mailboxes[id].queue.push(
                Event::spec_new(first),
            ).push(Event::spec_new(second)),
    {
    }

    /// Every live subscriber of an open subject gets what is pushed, all
    /// of it and in the order of the pushes, behind what it had pending; and
    /// the backlog is the most recent part of everything pushed so far that
    /// fits the capacity.
    pub proof fn lemma_pushes_are_delivered_and_remembered(self, values: Seq<T>)
        requires
            self.valid(),
            !self.closed,
        ensures
            self.pushed_all(values).valid(),
            !self.pushed_all(values).closed,
            self.pushed_all(values).capacity == self.capacity,
            self.pushed_all(values).mailboxes.dom() == self.mailboxes.dom(),
            forall|id: int| #[trigger]
                self.is_live(id) ==> self.pushed_all(values).mailboxes[id].queue
                    == self.mailboxes[id].queue + payloads(values),
            self.pushed_all(values).replay == latest(
                self.replay + payloads(values),
                self.capacity,
            ),
        decreases values.len(),
    {
        if values.len() == 0 {
            assert(payloads(values) =~= Seq::<Event<T>>::empty());
            assert(self.replay + payloads(values) =~= self.replay);
            assert forall|id: int| #[trigger] self.is_live(id) implies self.mailboxes[id].queue
                == self.mailboxes[id].queue + payloads(values) by {
                assert(self.mailboxes[id].queue + payloads(values) =~= self.mailboxes[id].queue);
            }
        } else {
            let next = self.pushed(values[0]);
            let rest = values.drop_first();
            self.lemma_steps_keep_valid(0, values[0]);
            next.lemma_pushes_are_delivered_and_remembered(rest);
            assert(next.mailboxes.dom() =~= self.mailboxes.dom());
            assert(payloads(values) =~= seq![Event::spec_new(values[0])] + payloads(rest));
            assert forall|id: int| #[trigger] self.is_live(id) implies self.pushed_all(
                values,
            ).mailboxes[id].queue == self.mailboxes[id].queue + payloads(values) by {
                assert(next.is_live(id));
                assert(self.mailboxes[id].queue.push(Event::spec_new(values[0])) + payloads(rest)
                    =~= self.mailboxes[id].queue + payloads(values));
            }
            assert(latest(next.replay + payloads(rest), self.capacity) =~= latest(
                self.replay + payloads(values),
                self.capacity,
            ));
        }
    }

    /// Whoever subscribes after some values were pushed starts with the
    /// most recent of them that fit the capacity, in the order of the
    /// pushes, whether or not the subject was closed in between.
    pub proof fn lemma_new_subscriber_gets_the_backlog(self, values: Seq<T>, id: int)
        requires
            self.valid(),
            !self.closed,
        ensures
            self.pushed_all(values).subscribed(id).mailboxes[id] == (Mailbox {
                queue: latest(self.replay + payloads(values), self.capacity),
                completed: false,
            }),
            self.pushed_all(values).shut().subscribed(id).mailboxes[id] == (Mailbox {
                queue: latest(self.replay + payloads(values), self.capacity),
                completed: true,
            }),
    {
        self.lemma_pushes_are_delivered_and_remembered(values);
    }

    /// A subscription made after closing sees the backlog and then the end,
    /// and never has to wait.
    pub proof fn lemma_late_subscriber_never_waits(self, id: int)
        requires
            self.closed,
        ensures
            self.subscribed(id).mailboxes[id].queue == self.replay,
            !(self.subscribed(id).front(id) is Pending),
    {
    }
}

/// A producer with any number of subscribers. Each subscription is
/// a handle; it is pulled through the subject and handed back to cancel.
pub trait Subject {
    type Item;

    /// The subject as plain mathematics.
    spec fn state(&self) -> SubjectState<Self::Item>;

    /// The representation is consistent.
    spec fn wf(&self) -> bool;

    /// Opens a new subscription.
    fn subscribe(&mut self) -> (sub: Observable<Self::Item>)
        requires
            old(self).wf(),
        ensures
            final(self).wf(),
            !old(self).state().is_live(sub.id()),
            final(self).state() == old(self).state().subscribed(sub.id()),
    ;

    /// Gives a subscription up: what is pushed later no longer reaches it.
    fn unsubscribe(&mut self, sub: Observable<Self::Item>)
        requires
            old(self).wf(),
        ensures
            final(self).wf(),
            final(self).state() == old(self).state().unsubscribed(sub.id()),
    ;

    /// Closes the subject: every live subscription ends once its backlog is
    /// drained.
    fn close(&mut self)
        requires
            old(self).wf(),
        ensures
            final(self).wf(),
            final(self).state() == old(self).state().shut(),
    ;

    /// Pushes one value to every live subscription.
    fn next(&mut self, value: Self::Item)
        requires
            old(self).wf(),
        ensures
            final(self).wf(),
            final(self).state() == old(self).state().pushed(value),
    ;

    /// One pull on a subscription.
    fn poll_next(&mut self, sub: &Observable<Self::Item>) -> (polled: Poll<
        Option<Event<Self::Item>>,
    >)
        requires
            old(self).wf(),
        ensures
            final(self).wf(),
            polled == old(self).state().front(sub.id()),
            final(self).state() == old(self).state().polled(sub.id()),
    ;

    /// Bounds on the number of items a subscription will still yield.
    fn size_hint(&self, sub: &Observable<Self::Item>) -> (hint: (usize, Option<usize>))
        requires
            self.wf(),
        ensures
            hint == self.state().hint(sub.id()),
    ;

    /// Whether the producer side of a subscription has finished.
    fn is_terminated(&self, sub: &Observable<Self::Item>) -> (done: bool)
        requires
            self.wf(),
        ensures
            done == (self.state().is_live(sub.id()) ==> self.state().closed),
    ;
}

} // verus!
