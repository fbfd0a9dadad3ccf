use crate::event::Event;
use crate::observable::Observable;
use crate::poll::fused;
use crate::poll::fused_done;
use crate::poll::Poll;
use crate::subject::shareable_subject::ShareableSubject;
use crate::subject::Subject;
use crate::subject::SubjectState;
use vstd::prelude::*;

verus! {

/// A broadcast version of one upstream: any number of subscriptions see
/// every item, while the upstream is pulled once per poll, whichever
/// subscription is polled.
pub struct Shared<Sub: Subject> {
    inner: ShareableSubject<Sub>,
}

impl<Sub: Subject> Shared<Sub> {
    /// The subject behind the broadcast, as plain mathematics.
    pub closed spec fn state(&self) -> SubjectState<Sub::Item> {
        self.inner.state()
    }

    /// Whether the upstream has ended.
    pub closed spec fn upstream_done(&self) -> bool {
        self.inner.upstream_done()
    }

    /// The representation is consistent.
    pub closed spec fn wf(&self) -> bool {
        self.inner.wf()
    }

    pub fn new(subject: Sub) -> (shared: Self)
        requires
            subject.wf(),
        ensures
            shared.wf(),
            shared.state() == subject.state(),
            !shared.upstream_done(),
    {
        Shared { inner: ShareableSubject::new(subject) }
    }

    /// Opens one more subscription.
    pub fn subscribe(&mut self) -> (sub: Observable<Sub::Item>)
        requires
            old(self).wf(),
        ensures
            final(self).wf(),
            final(self).upstream_done() == old(self).upstream_done(),
            !old(self).state().is_live(sub.id()),
            final(self).state() == old(self).state().subscribed(sub.id()),
    {
        self.inner.subscribe()
    }

    /// Gives a subscription up.
    pub fn unsubscribe(&mut self, sub: Observable<Sub::Item>)
        requires
            old(self).wf(),
        ensures
            final(self).wf(),
            final(self).upstream_done() == old(self).upstream_done(),
            final(self).state() == old(self).state().unsubscribed(sub.id()),
    {
        self.inner.unsubscribe(sub)
    }

    /// Whether the upstream is to be polled for the next round.
    pub fn wants_upstream(&self) -> (wanted: bool)
        ensures
            wanted == !self.upstream_done(),
    {
        !self.inner.upstream_ended()
    }

    /// One poll of a subscription: the upstream's answer is forwarded to
    /// every subscriber first, then this subscription's mailbox is pulled.
    pub fn poll_next(
        &mut self,
        sub: &Observable<Sub::Item>,
        upstream: Poll<Option<Sub::Item>>,
    ) -> (polled: Poll<Option<Event<Sub::Item>>>)
        requires
            old(self).wf(),
        ensures
            final(self).wf(),
            final(self).upstream_done() == fused_done(old(self).upstream_done(), upstream),
            polled == old(self).state().forwarded(
                fused(old(self).upstream_done(), upstream),
            ).front(sub.id()),
            final(self).state() == old(self).state().forwarded(
                fused(old(self).upstream_done(), upstream),
            ).polled(sub.id()),
    {
        self.inner.poll_next(upstream);
        self.inner.poll_subscription(sub)
    }

    /// Bounds on the number of items a subscription will still yield
    /// without another pull on the upstream.
    pub fn size_hint(&self, sub: &Observable<Sub::Item>) -> (hint: (usize, Option<usize>))
        requires
            self.wf(),
        ensures
            hint == self.state().hint(sub.id()),
    {
        self.inner.size_hint(sub)
    }

    /// Whether the producer side of a subscription has finished.
    pub fn is_terminated(&self, sub: &Observable<Sub::Item>) -> (done: bool)
        requires
            self.wf(),
        ensures
            done == (self.state().is_live(sub.id()) ==> self.state().closed),
    {
        self.inner.is_terminated(sub)
    }
}

} // verus!
