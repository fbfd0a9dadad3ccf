use crate::controller::Controller;
use crate::controller::Mailbox;
use crate::event::Event;
use crate::observable::Observable;
use crate::poll::Poll;
use crate::subject::remember;
use crate::subject::SubjectState;
use std::collections::VecDeque;
use vstd::prelude::*;

verus! {

/// One entry of the handle table: a mailbox and whether its subscription is
/// still held by somebody.
pub struct Slot<T> {
    live: bool,
    mailbox: Controller<Event<T>>,
}

/// The shared core of every subject: the handle table of subscriber
/// mailboxes, the closed flag and the bounded or unbounded backlog.
pub struct Registry<T> {
    slots: Vec<Slot<T>>,
    is_closed: bool,
    replay: VecDeque<Event<T>>,
    capacity: Option<usize>,
}

impl<T> View for Registry<T> {
    type V = SubjectState<T>;

    closed spec fn view(&self) -> SubjectState<T> {
        SubjectState {
            closed: self.is_closed,
            mailboxes: Map::new(
                |id: int| 0 <= id < self.slots@.len() && self.slots@[id].live,
                |id: int| self.slots@[id].mailbox@,
            ),
            replay: self.replay@,
            capacity: match self.capacity {
                Some(limit) => Some(limit as nat),
                None => None,
            },
        }
    }
}

impl<T> Registry<T> {
    /// The representation is consistent.
    pub open spec fn wf(&self) -> bool {
        self@.valid()
    }

    /// A registry without subscribers that remembers at most `capacity`
    /// payloads, or all of them when no capacity is given.
    pub fn new(capacity: Option<usize>) -> (registry: Self)
        ensures
            registry.wf(),
            registry@ == SubjectState::<T>::initial(
                Seq::empty(),
                match capacity {
                    Some(limit) => Some(limit as nat),
                    None => None,
                },
            ),
    {
        let registry = Registry {
            slots: Vec::new(),
            is_closed: false,
            replay: VecDeque::new(),
            capacity,
        };
        assert(registry@.mailboxes =~= Map::empty());
        registry
    }

    /// A registry without subscribers that remembers only the latest
    /// payload, starting with `value`.
    pub fn with_latest(value: T) -> (registry: Self)
        ensures
            registry.wf(),
            registry@ == SubjectState::<T>::initial(seq![Event::spec_new(value)], Some(1nat)),
    {
        let mut replay = VecDeque::new();
        replay.push_back(Event::new(value));
        let registry = Registry { slots: Vec::new(), is_closed: false, replay, capacity: Some(1) };
        assert(registry@.mailboxes =~= Map::empty());
        assert(registry@.replay =~= seq![Event::spec_new(value)]);
        registry
    }

    /// Number of payloads in the backlog.
    pub fn replay_len(&self) -> (n: usize)
        ensures
            n == self@.replay.len(),
    {
        self.replay.len()
    }

    /// The most recent payload of the backlog.
    pub fn latest(&self) -> (value: &T)
        requires
            self@.replay.len() > 0,
        ensures
            *value == self@.replay.last()@,
    {
        self.replay[self.replay.len() - 1].borrow_value()
    }

    /// The first slot whose subscription was given up, or the table's length.
    fn free_slot(&self) -> (at: usize)
        ensures
            at <= self.slots@.len(),
            at < self.slots@.len() ==> !self.slots@[at as int].live,
            !self@.is_live(at as int),
    {
        let mut at: usize = 0;
        while at < self.slots.len()
            invariant
                at <= self.slots@.len(),
            decreases self.slots@.len() - at,
        {
            if !self.slots[at].live {
                return at;
            }
            at += 1;
        }
        at
    }

    /// A mailbox that starts with the backlog.
    fn fresh_mailbox(&self) -> (mailbox: Controller<Event<T>>)
        ensures
            mailbox@ == (Mailbox { queue: self@.replay, completed: self@.closed }),
    {
        let mut mailbox = Controller::with_completed(self.is_closed);
        let mut i: usize = 0;
        while i < self.replay.len()
            invariant
                i <= self.replay@.len(),
                mailbox@.completed == self.is_closed,
                mailbox@.queue == self.replay@.subrange(0, i as int),
            decreases self.replay@.len() - i,
        {
            let event = self.replay[i].clone();
            proof {
                event.lemma_payload_is_value(self.replay@[i as int]);
                assert(self.replay@.subrange(0, i as int).push(event) =~= self.replay@.subrange(
                    0,
                    i + 1,
                ));
            }
            mailbox.push(event);
            i += 1;
        }
        assert(self.replay@.subrange(0, i as int) =~= self.replay@);
        mailbox
    }

    /// Opens a subscription: takes the slot of a cancelled one, or adds a
    /// slot, and fills the new mailbox with the backlog.
    pub fn subscribe(&mut self) -> (sub: Observable<T>)
        requires
            old(self).wf(),
        ensures
            final(self).wf(),
            !old(self)@.is_live(sub.id()),
            final(self)@ == old(self)@.subscribed(sub.id()),
    {
        let at = self.free_slot();
        let slot = Slot { live: true, mailbox: self.fresh_mailbox() };
        if at < self.slots.len() {
            self.slots[at] = slot;
        } else {
            self.slots.push(slot);
        }
        proof {
            assert(self@.mailboxes =~= old(self)@.subscribed(at as int).mailboxes);
            old(self)@.lemma_steps_keep_valid(at as int, arbitrary());
        }
        Observable::new(at)
    }

    /// Gives a subscription up. Its mailbox is emptied at once, which
    /// releases the payloads it held; the slot itself stays in the table
    /// until a later subscription takes it.
    pub fn unsubscribe(&mut self, sub: Observable<T>)
        requires
            old(self).wf(),
        ensures
            final(self).wf(),
            final(self)@ == old(self)@.unsubscribed(sub.id()),
    {
        let at = sub.slot();
        if at < self.slots.len() {
            self.slots[at] = Slot { live: false, mailbox: Controller::with_completed(true) };
        }
        proof {
            assert(self@.mailboxes =~= old(self)@.unsubscribed(at as int).mailboxes);
            old(self)@.lemma_steps_keep_valid(at as int, arbitrary());
        }
    }

    /// Closes the registry: completes every live mailbox. The slots of
    /// cancelled subscriptions are passed over.
    pub fn close(&mut self)
        requires
            old(self).wf(),
        ensures
            final(self).wf(),
            final(self)@ == old(self)@.shut(),
    {
        self.is_closed = true;
        let mut i: usize = 0;
        while i < self.slots.len()
            invariant
                i <= self.slots@.len(),
                self.slots@.len() == old(self).slots@.len(),
                self.is_closed,
                self.replay == old(self).replay,
                self.capacity == old(self).capacity,
                forall|k: int|
                    0 <= k < self.slots@.len() ==> (#[trigger] self.slots@[k]).live == old(
                        self,
                    ).slots@[k].live,
                forall|k: int|
                    0 <= k < i && self.slots@[k].live ==> (#[trigger] self.slots@[k]).mailbox@
                        == old(self).slots@[k].mailbox@.finished(),
                forall|k: int|
                    i <= k < self.slots@.len() ==> (#[trigger] self.slots@[k]) == old(
                        self,
                    ).slots@[k],
            decreases self.slots@.len() - i,
        {
            if self.slots[i].live {
                self.slots[i].mailbox.mark_completed();
            }
            i += 1;
        }
        proof {
            assert(self@.mailboxes =~= old(self)@.shut().mailboxes);
            old(self)@.lemma_steps_keep_valid(0, arbitrary());
        }
    }

    /// Pushes one value: wraps it once, remembers it in the backlog, and
    /// hands a handle to every live mailbox. A closed registry ignores it.
    pub fn next(&mut self, value: T)
        requires
            old(self).wf(),
        ensures
            final(self).wf(),
            final(self)@ == old(self)@.pushed(value),
    {
        if self.is_closed {
            return ;
        }
        let event = Event::new(value);
        let kept = event.clone();
        proof {
            kept.lemma_payload_is_value(event);
        }
        self.remember(kept);
        let mut i: usize = 0;
        while i < self.slots.len()
            invariant
                i <= self.slots@.len(),
                self.slots@.len() == old(self).slots@.len(),
                !self.is_closed,
                event == Event::spec_new(value),
                self.replay@ == remember(old(self)@.replay, old(self)@.capacity, event),
                self.capacity == old(self).capacity,
                forall|k: int|
                    0 <= k < self.slots@.len() ==> (#[trigger] self.slots@[k]).live == old(
                        self,
                    ).slots@[k].live,
                forall|k: int|
                    0 <= k < i && self.slots@[k].live ==> (#[trigger] self.slots@[k]).mailbox@
                        == old(self).slots@[k].mailbox@.pushed(event),
                forall|k: int|
                    i <= k < self.slots@.len() ==> (#[trigger] self.slots@[k]) == old(
                        self,
                    ).slots@[k],
            decreases self.slots@.len() - i,
        {
            if self.slots[i].live {
                let handle = event.clone();
                proof {
                    handle.lemma_payload_is_value(event);
                }
                self.slots[i].mailbox.push(handle);
            }
            i += 1;
        }
        proof {
            assert(self@.mailboxes =~= old(self)@.pushed(value).mailboxes);
            old(self)@.lemma_steps_keep_valid(0, value);
        }
    }

    /// Appends to the backlog and evicts from the front while a bound is
    /// exceeded.
    fn remember(&mut self, event: Event<T>)
        ensures
            final(self).replay@ == remember(old(self)@.replay, old(self)@.capacity, event),
            final(self).slots == old(self).slots,
            final(self).is_closed == old(self).is_closed,
            final(self).capacity == old(self).capacity,
    {
        self.replay.push_back(event);
        if let Some(limit) = self.capacity {
            let ghost grown = self.replay@;
            assert(grown.subrange(0, grown.len() as int) =~= grown);
            while self.replay.len() > limit
                invariant
                    self.replay@.len() <= grown.len(),
                    grown.len() > limit ==> self.replay@.len() >= limit,
                    grown.len() <= limit ==> self.replay@.len() == grown.len(),
                    self.replay@ == grown.subrange(
                        grown.len() - self.replay@.len(),
                        grown.len() as int,
                    ),
                    self.slots == old(self).slots,
                    self.is_closed == old(self).is_closed,
                    self.capacity == old(self).capacity,
                decreases self.replay@.len(),
            {
                self.replay.pop_front();
                assert(self.replay@ =~= grown.subrange(
                    grown.len() - self.replay@.len(),
                    grown.len() as int,
                ));
            }
            assert(grown.subrange(0, grown.len() as int) =~= grown);
        }
    }

    /// One pull on a subscription's mailbox.
    pub fn poll_next(&mut self, sub: &Observable<T>) -> (polled: Poll<Option<Event<T>>>)
        requires
            old(self).wf(),
        ensures
            final(self).wf(),
            polled == old(self)@.front(sub.id()),
            final(self)@ == old(self)@.polled(sub.id()),
    {
        let at = sub.slot();
        if at < self.slots.len() && self.slots[at].live {
            let polled = self.slots[at].mailbox.pop();
            proof {
                assert(self@.mailboxes =~= old(self)@.polled(at as int).mailboxes);
                old(self)@.lemma_steps_keep_valid(at as int, arbitrary());
            }
            polled
        } else {
            Poll::Ready(None)
        }
    }

    /// Bounds on the number of items a subscription will still yield.
    pub fn size_hint(&self, sub: &Observable<T>) -> (hint: (usize, Option<usize>))
        ensures
            hint == self@.hint(sub.id()),
    {
        let at = sub.slot();
        if at < self.slots.len() && self.slots[at].live {
            self.slots[at].mailbox.size_hint()
        } else {
            (0, Some(0))
        }
    }

    /// Whether the producer side of a subscription has finished.
    pub fn is_terminated(&self, sub: &Observable<T>) -> (done: bool)
        requires
            self.wf(),
        ensures
            done == (self@.is_live(sub.id()) ==> self@.closed),
    {
        let at = sub.slot();
        if at < self.slots.len() && self.slots[at].live {
            assert(self@.mailboxes.dom().contains(at as int));
            self.slots[at].mailbox.is_done()
        } else {
            true
        }
    }
}

} // verus!
