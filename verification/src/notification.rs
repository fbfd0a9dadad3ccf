use vstd::prelude::*;

verus! {

/// An emission made explicit: either one more value, or the end of the
/// sequence.
#[derive(Debug, Clone, PartialEq, Eq)]
pub enum Notification<T> {
    Next(T),
    Complete,
}

impl<T> Notification<T> {
    /// The carried value, if this is not the end marker.
    pub fn inner_value(self) -> (value: Option<T>)
        ensures
            value == (match self {
                Notification::Next(it) => Some(it),
                Notification::Complete => None,
            }),
    {
        match self {
            Notification::Next(it) => Some(it),
            Notification::Complete => None,
        }
    }
}

} // verus!
