use std::sync::Arc;
use vstd::prelude::*;

verus! {

/// A value behind a shared, atomically counted handle. Cloning an `Event`
/// hands out another handle to the same value; the value itself is never
/// copied.
#[derive(Debug, PartialEq)]
pub struct Event<T>(pub(crate) Arc<T>);

/// Calls `Arc::clone`. By its documentation the new handle points at the
/// same allocation, so it shows the same value as the handle it was made
/// from. The contract states that and is not proved here.
#[verifier::external_body]
pub(crate) fn arc_share<T>(handle: &Arc<T>) -> (shared: Arc<T>)
    ensures
        *shared == **handle,
{
    Arc::clone(handle)
}

/// Calls `Arc::try_unwrap`. By its documentation it gives the inner value
/// when this is the only strong handle, and the same handle back
/// otherwise. Whether other handles exist is not visible in the value, so
/// the contract admits both outcomes; it is not proved here.
#[verifier::external_body]
pub(crate) fn arc_try_unwrap<T>(handle: Arc<T>) -> (outcome: Result<T, Arc<T>>)
    ensures
        match outcome {
            Ok(value) => value == *handle,
            Err(same) => *same == *handle,
        },
{
    Arc::try_unwrap(handle)
}

/// Calls `Arc::unwrap_or_clone`. By its documentation it gives the inner
/// value itself when this is the only strong handle, and a clone of it
/// otherwise. The contract admits both and is not proved here.
#[verifier::external_body]
pub(crate) fn arc_unwrap_or_clone<T: Clone>(handle: Arc<T>) -> (value: T)
    ensures
        value == *handle || cloned::<T>(*handle, value),
{
    Arc::unwrap_or_clone(handle)
}

impl<T> View for Event<T> {
    type V = T;

    /// The value that every handle to this payload shows.
    closed spec fn view(&self) -> T {
        *self.0
    }
}

impl<T> Event<T> {
    /// The payload that shows `value`.
    pub closed spec fn spec_new(value: T) -> Self {
        Event(Arc::new(value))
    }

    /// Wraps a value in a fresh handle.
    pub fn new(value: T) -> (event: Self)
        ensures
            event@ == value,
            event == Self::spec_new(value),
    {
        Event(Arc::new(value))
    }

    /// A shared look at the value.
    pub fn borrow_value(&self) -> (value: &T)
        ensures
            *value == self@,
    {
        &*self.0
    }

    /// Reclaims the value when this is the last handle to it; otherwise the
    /// handle comes back unchanged. Nothing is lost either way.
    pub fn try_unwrap(self) -> (outcome: Result<T, Arc<T>>)
        ensures
            match outcome {
                Ok(value) => value == self@,
                Err(same) => *same == self@,
            },
    {
        arc_try_unwrap(self.0)
    }

    /// A payload is determined by the value it shows: wrapping a value
    /// shows that value, and two payloads that show the same value are equal.
    pub proof fn lemma_payload_is_value(self, other: Self)
        ensures
            Self::spec_new(self@) == self,
            self@ == other@ ==> self == other,
    {
    }

    /// Wrapping a value gives a payload that shows it.
    pub proof fn lemma_new_shows(value: T)
        ensures
            Self::spec_new(value)@ == value,
    {
    }
}

impl<T: Clone> Event<T> {
    /// The value, taken out when this is the last handle and cloned
    /// otherwise.
    pub fn unwrap(self) -> (value: T)
        ensures
            value == self@ || cloned::<T>(self@, value),
    {
        arc_unwrap_or_clone(self.0)
    }
}

impl<T> std::ops::Deref for Event<T> {
    type Target = T;

    fn deref(&self) -> (value: &T)
        ensures
            *value == self@,
    {
        self.borrow_value()
    }
}

impl<T> From<T> for Event<T> {
    fn from(value: T) -> (event: Self) {
        Event::new(value)
    }
}

impl<T> vstd::std_specs::convert::FromSpecImpl<T> for Event<T> {
    open spec fn obeys_from_spec() -> bool {
        true
    }

    open spec fn from_spec(value: T) -> Self {
        Event::spec_new(value)
    }
}

impl<T> Clone for Event<T> {
    /// Another handle to the same value.
    fn clone(&self) -> (copy: Self)
        ensures
            copy@ == self@,
    {
        Event(arc_share(&self.0))
    }
}

} // verus!
