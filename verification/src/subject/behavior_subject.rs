use crate::event::Event;
use crate::observable::Observable;
use crate::poll::Poll;
use crate::subject::registry::Registry;
use crate::subject::Subject;
use crate::subject::SubjectState;
use vstd::prelude::*;

verus! {

/// A subject that remembers its latest value: a new subscriber first gets
/// the value that was pushed last, or the initial one.
pub struct BehaviorSubject<T> {
    registry: Registry<T>,
}

impl<T> Subject for BehaviorSubject<T> {
    type Item = T;

    closed spec fn state(&self) -> SubjectState<T> {
        self.registry@
    }

    closed spec fn wf(&self) -> bool {
        &&& self.registry.wf()
        &&& self.registry@.capacity == Some(1nat)
        &&& self.registry@.replay.len() == 1
    }

    fn subscribe(&mut self) -> (sub: Observable<T>) {
        self.registry.subscribe()
    }

    fn unsubscribe(&mut self, sub: Observable<T>) {
        self.registry.unsubscribe(sub)
    }

    fn close(&mut self) {
        self.registry.close()
    }

    fn next(&mut self, value: T) {
        self.registry.next(value)
    }

    fn poll_next(&mut self, sub: &Observable<T>) -> (polled: Poll<Option<Event<T>>>) {
        self.registry.poll_next(sub)
    }

    fn size_hint(&self, sub: &Observable<T>) -> (hint: (usize, Option<usize>)) {
        self.registry.size_hint(sub)
    }

    fn is_terminated(&self, sub: &Observable<T>) -> (done: bool) {
        self.registry.is_terminated(sub)
    }
}

impl<T> BehaviorSubject<T> {
    /// An open subject without subscribers whose latest value is `value`.
    pub fn new(value: T) -> (subject: Self)
        ensures
            subject.wf(),
            subject.state() == SubjectState::<T>::initial(
                seq![Event::spec_new(value)],
                Some(1nat),
            ),
    {
        BehaviorSubject { registry: Registry::with_latest(value) }
    }

    /// The latest value: the one pushed last before closing, or the initial
    /// one if none was.
    pub fn get_value(&self) -> (value: &T)
        requires
            self.wf(),
        ensures
            self.state().replay.len() == 1,
            *value == self.state().replay[0]@,
    {
        self.registry.latest()
    }

    /// The backlog of a behavior subject is exactly its latest value.
    pub proof fn lemma_one_value(&self)
        requires
            self.wf(),
        ensures
            self.state().replay.len() == 1,
            self.state().capacity == Some(1nat),
    {
    }
}

} // verus!
