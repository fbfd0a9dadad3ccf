use crate::event::Event;
use crate::observable::Observable;
use crate::poll::Poll;
use crate::subject::registry::Registry;
use crate::subject::Subject;
use crate::subject::SubjectState;
use vstd::prelude::*;

verus! {

/// A subject that remembers past values, all of them or the most recent
/// ones up to a bound: a new subscriber first gets them, in order.
pub struct ReplaySubject<T> {
    registry: Registry<T>,
}

impl<T> Subject for ReplaySubject<T> {
    type Item = T;

    closed spec fn state(&self) -> SubjectState<T> {
        self.registry@
    }

    closed spec fn wf(&self) -> bool {
        self.registry.wf()
    }

    fn subscribe(&mut self) -> (sub: Observable<T>) {
        self.registry.subscribe()
    }

    fn unsubscribe(&mut self, sub: Observable<T>) {
        self.registry.unsubscribe(sub)
    }

    fn close(&mut self) {
        self.registry.close()
    }

    fn next(&mut self, value: T) {
        self.registry.next(value)
    }

    fn poll_next(&mut self, sub: &Observable<T>) -> (polled: Poll<Option<Event<T>>>) {
        self.registry.poll_next(sub)
    }

    fn size_hint(&self, sub: &Observable<T>) -> (hint: (usize, Option<usize>)) {
        self.registry.size_hint(sub)
    }

    fn is_terminated(&self, sub: &Observable<T>) -> (done: bool) {
        self.registry.is_terminated(sub)
    }
}

impl<T> ReplaySubject<T> {
    /// An open subject without subscribers that remembers every value.
    pub fn new() -> (subject: Self)
        ensures
            subject.wf(),
            subject.state() == SubjectState::<T>::initial(Seq::empty(), None),
    {
        ReplaySubject { registry: Registry::new(None) }
    }

    /// An open subject without subscribers that remembers the `size` most
    /// recent values.
    pub fn buffer_size(size: usize) -> (subject: Self)
        ensures
            subject.wf(),
            subject.state() == SubjectState::<T>::initial(Seq::empty(), Some(size as nat)),
    {
        ReplaySubject { registry: Registry::new(Some(size)) }
    }

    /// Number of values currently remembered.
    pub fn buffer_len(&self) -> (n: usize)
        ensures
            n == self.state().replay.len(),
    {
        self.registry.replay_len()
    }
}

} // verus!
