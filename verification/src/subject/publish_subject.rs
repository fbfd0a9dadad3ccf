use crate::event::Event;
use crate::observable::Observable;
use crate::poll::Poll;
use crate::subject::registry::Registry;
use crate::subject::Subject;
use crate::subject::SubjectState;
use vstd::prelude::*;

verus! {

/// A subject without memory: a subscriber sees only what is pushed while
/// it is subscribed.
pub struct PublishSubject<T> {
    registry: Registry<T>,
}

impl<T> Subject for PublishSubject<T> {
    type Item = T;

    closed spec fn state(&self) -> SubjectState<T> {
        self.registry@
    }

    closed spec fn wf(&self) -> bool {
        &&& self.registry.wf()
        &&& self.registry@.capacity == Some(0nat)
    }

    fn subscribe(&mut self) -> (sub: Observable<T>) {
        self.registry.subscribe()
    }

    fn unsubscribe(&mut self, sub: Observable<T>) {
        self.registry.unsubscribe(sub)
    }

    fn close(&mut self) {
        self.registry.close()
    }

    fn next(&mut self, value: T) {
        self.registry.next(value)
    }

    fn poll_next(&mut self, sub: &Observable<T>) -> (polled: Poll<Option<Event<T>>>) {
        self.registry.poll_next(sub)
    }

    fn size_hint(&self, sub: &Observable<T>) -> (hint: (usize, Option<usize>)) {
        self.registry.size_hint(sub)
    }

    fn is_terminated(&self, sub: &Observable<T>) -> (done: bool) {
        self.registry.is_terminated(sub)
    }
}

impl<T> PublishSubject<T> {
    /// An open subject without subscribers.
    pub fn new() -> (subject: Self)
        ensures
            subject.wf(),
            subject.state() == SubjectState::<T>::initial(Seq::empty(), Some(0nat)),
    {
        PublishSubject { registry: Registry::new(Some(0)) }
    }

    /// A publish subject never holds a backlog, so a new subscriber starts
    /// with an empty mailbox.
    pub proof fn lemma_no_backlog(&self)
        requires
            self.wf(),
        ensures
            self.state().replay == Seq::<Event<T>>::empty(),
            self.state().capacity == Some(0nat),
    {
        assert(self.state().replay =~= Seq::<Event<T>>::empty());
    }
}

} // verus!
