use std::rc::Rc;
use vstd::prelude::*;

verus! {

/// A value behind a shared, counted handle for use within one thread.
/// Cloning an `EventLite` hands out another handle to the same value; the
/// value itself is never copied.
#[derive(Debug, PartialEq)]
pub struct EventLite<T>(pub(crate) Rc<T>);

/// Calls `Rc::clone`. By its documentation the new handle points at the
/// same allocation, so it shows the same value as the handle it was made
/// from. The contract states that and is not proved here.
#[verifier::external_body]
pub(crate) fn rc_share<T>(handle: &Rc<T>) -> (shared: Rc<T>)
    ensures
        *shared == **handle,
{
    Rc::clone(handle)
}

/// Calls `Rc::unwrap_or_clone`. By its documentation it gives the inner
/// value itself when this is the only strong handle, and a clone of it
/// otherwise. The contract admits both and is not proved here.
#[verifier::external_body]
pub(crate) fn rc_unwrap_or_clone<T: Clone>(handle: Rc<T>) -> (value: T)
    ensures
        value == *handle || cloned::<T>(*handle, value),
{
    Rc::unwrap_or_clone(handle)
}

impl<T> View for EventLite<T> {
    type V = T;

    /// The value that every handle to this payload shows.
    closed spec fn view(&self) -> T {
        *self.0
    }
}

impl<T> EventLite<T> {
    /// The payload that shows `value`.
    pub closed spec fn spec_new(value: T) -> Self {
        EventLite(Rc::new(value))
    }

    /// Wraps a value in a fresh handle.
    pub fn new(value: T) -> (event: Self)
        ensures
            event@ == value,
            event == Self::spec_new(value),
    {
        EventLite(Rc::new(value))
    }

    /// The payload behind an existing handle.
    pub(crate) fn from_handle(handle: Rc<T>) -> (event: Self)
        ensures
            event@ == *handle,
    {
        EventLite(handle)
    }

    /// A shared look at the value.
    pub fn borrow_value(&self) -> (value: &T)
        ensures
            *value == self@,
    {
        &*self.0
    }

    /// Reclaims the value when this is the last handle to it; otherwise the
    /// handle comes back unchanged. Nothing is lost either way.
    pub fn try_unwrap(self) -> (outcome: Result<T, Rc<T>>)
        ensures
            match outcome {
                Ok(value) => value == self@,
                Err(same) => *same == self@,
            },
    {
        Rc::try_unwrap(self.0)
    }

    /// A payload is determined by the value it shows: wrapping a value
    /// shows that value, and two payloads that show the same value are equal.
    pub proof fn lemma_payload_is_value(self, other: Self)
        ensures
            Self::spec_new(self@) == self,
            self@ == other@ ==> self == other,
    {
    }

    /// Wrapping a value gives a payload that shows it.
    pub proof fn lemma_new_shows(value: T)
        ensures
            Self::spec_new(value)@ == value,
    {
    }
}

impl<T: Clone> EventLite<T> {
    /// The value, taken out when this is the last handle and cloned
    /// otherwise.
    pub fn unwrap(self) -> (value: T)
        ensures
            value == self@ || cloned::<T>(self@, value),
    {
        rc_unwrap_or_clone(self.0)
    }
}

impl<T> std::ops::Deref for EventLite<T> {
    type Target = T;

    fn deref(&self) -> (value: &T)
        ensures
            *value == self@,
    {
        self.borrow_value()
    }
}

impl<T> From<T> for EventLite<T> {
    fn from(value: T) -> (event: Self) {
        EventLite::new(value)
    }
}

impl<T> vstd::std_specs::convert::FromSpecImpl<T> for EventLite<T> {
    open spec fn obeys_from_spec() -> bool {
        true
    }

    open spec fn from_spec(value: T) -> Self {
        EventLite::spec_new(value)
    }
}

impl<T> Clone for EventLite<T> {
    /// Another handle to the same value.
    fn clone(&self) -> (copy: Self)
        ensures
            copy@ == self@,
    {
        EventLite(rc_share(&self.0))
    }
}

} // verus!
