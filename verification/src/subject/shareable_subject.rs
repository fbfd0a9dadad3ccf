use crate::event::Event;
use crate::observable::Observable;
use crate::poll::fused;
use crate::poll::fused_done;
use crate::poll::Fuse;
use crate::poll::Poll;
use crate::subject::Subject;
use crate::subject::SubjectState;
use vstd::prelude::*;

verus! {

/// Bridges one single-consumer upstream into a subject: every answer of
/// the upstream is forwarded once, to all subscribers.
pub struct ShareableSubject<Sub: Subject> {
    stream: Fuse,
    subject: Sub,
}

impl<Sub: Subject> ShareableSubject<Sub> {
    /// The subject behind the bridge, as plain mathematics.
    pub closed spec fn state(&self) -> SubjectState<Sub::Item> {
        self.subject.state()
    }

    /// Whether the upstream has ended.
    pub closed spec fn upstream_done(&self) -> bool {
        self.stream@
    }

    /// The representation is consistent.
    pub closed spec fn wf(&self) -> bool {
        self.subject.wf()
    }

    pub fn new(subject: Sub) -> (bridge: Self)
        requires
            subject.wf(),
        ensures
            bridge.wf(),
            bridge.state() == subject.state(),
            !bridge.upstream_done(),
    {
        ShareableSubject { stream: Fuse::new(), subject }
    }

    /// Whether the upstream has ended.
    pub fn upstream_ended(&self) -> (done: bool)
        ensures
            done == self.upstream_done(),
    {
        self.stream.is_terminated()
    }

    /// Opens a subscription on the subject.
    pub fn subscribe(&mut self) -> (sub: Observable<Sub::Item>)
        requires
            old(self).wf(),
        ensures
            final(self).wf(),
            final(self).upstream_done() == old(self).upstream_done(),
            !old(self).state().is_live(sub.id()),
            final(self).state() == old(self).state().subscribed(sub.id()),
    {
        self.subject.subscribe()
    }

    /// Gives a subscription up.
    pub fn unsubscribe(&mut self, sub: Observable<Sub::Item>)
        requires
            old(self).wf(),
        ensures
            final(self).wf(),
            final(self).upstream_done() == old(self).upstream_done(),
            final(self).state() == old(self).state().unsubscribed(sub.id()),
    {
        self.subject.unsubscribe(sub)
    }

    /// Forwards one answer of the upstream: an item is pushed to every
    /// subscriber, the end closes the subject.
    pub fn poll_next(&mut self, polled: Poll<Option<Sub::Item>>)
        requires
            old(self).wf(),
        ensures
            final(self).wf(),
            final(self).upstream_done() == fused_done(old(self).upstream_done(), polled),
            final(self).state() == old(self).state().forwarded(
                fused(old(self).upstream_done(), polled),
            ),
    {
        match self.stream.poll_next(polled) {
            Poll::Ready(Some(value)) => self.subject.next(value),
            Poll::Ready(None) => self.subject.close(),
            Poll::Pending => {},
        }
    }

    /// One pull on a subscription, without touching the upstream.
    pub fn poll_subscription(&mut self, sub: &Observable<Sub::Item>) -> (polled: Poll<
        Option<Event<Sub::Item>>,
    >)
        requires
            old(self).wf(),
        ensures
            final(self).wf(),
            final(self).upstream_done() == old(self).upstream_done(),
            polled == old(self).state().front(sub.id()),
            final(self).state() == old(self).state().polled(sub.id()),
    {
        self.subject.poll_next(sub)
    }

    /// Bounds on the number of items a subscription will still yield.
    pub fn size_hint(&self, sub: &Observable<Sub::Item>) -> (hint: (usize, Option<usize>))
        requires
            self.wf(),
        ensures
            hint == self.state().hint(sub.id()),
    {
        self.subject.size_hint(sub)
    }

    /// Whether the producer side of a subscription has finished.
    pub fn is_terminated(&self, sub: &Observable<Sub::Item>) -> (done: bool)
        requires
            self.wf(),
        ensures
            done == (self.state().is_live(sub.id()) ==> self.state().closed),
    {
        self.subject.is_terminated(sub)
    }
}

} // verus!
