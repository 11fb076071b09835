//! Values that one owns and many can look at.

use std::sync::Arc;
use vstd::prelude::*;

verus! {

/// The one owner of a shared value. It cannot be copied.
pub struct Shared<T>(Arc<T>);

/// Someone who can look at a shared value.
pub struct Reader<T>(Arc<T>);

impl<T> Shared<T> {
    /// The value.
    pub closed spec fn value(self) -> T {
        *self.0
    }

    /// The owner of a value.
    pub(crate) fn new(value: T) -> (shared: Self)
        ensures
            shared.value() == value,
    {
        Shared(Arc::new(value))
    }

    /// The value.
    pub(crate) fn get(&self) -> (value: &T)
        ensures
            *value == self.value(),
        opens_invariants none
    {
        &self.0
    }

    /// Someone who can look at the value.
    pub(crate) fn reader(&self) -> (reader: Reader<T>)
        ensures
            reader.value() == self.value(),
        opens_invariants none
    {
        Reader(self.0.clone())
    }
}

impl<T> Reader<T> {
    /// The value.
    pub closed spec fn value(self) -> T {
        *self.0
    }

    /// The value.
    pub(crate) fn get(&self) -> (value: &T)
        ensures
            *value == self.value(),
        opens_invariants none
    {
        &self.0
    }

    /// Another who can look at the value.
    pub(crate) fn another(&self) -> (reader: Reader<T>)
        ensures
            reader == *self,
        opens_invariants none
    {
        Reader(self.0.clone())
    }
}

} // verus!
