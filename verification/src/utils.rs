//! Small utility types shared across the library.

use vstd::prelude::*;

verus! {

/// Provides only an immutable reference to the contained value, for places
/// that must not hand out mutable access.
#[derive(Debug)]
pub struct Immutable<T>(pub(crate) T);

impl<T> Immutable<T> {
    /// The contained value.
    pub closed spec fn spec_value(self) -> T {
        self.0
    }

    /// Wrap a value so that only shared access to it is offered.
    pub fn new(value: T) -> (r: Immutable<T>)
        ensures
            r.spec_value() == value,
    {
        Immutable(value)
    }

    pub fn value(&self) -> (r: &T)
        ensures
            *r == self.spec_value(),
    {
        &self.0
    }
}

} // verus!
