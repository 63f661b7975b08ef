//! The carrier that (de)serialization behaviour is attached to.
use vstd::prelude::*;

verus! {

/// A wrapper that gives a value, typically one involving a compiled regular
/// expression, its encode and decode behaviour.
#[derive(Debug, Clone, PartialEq, Eq, Hash)]
pub struct Serde<T>(pub T);

impl<T> Serde<T> {
    /// Wraps a value.
    pub fn new(value: T) -> (r: Serde<T>)
        ensures
            r.0 == value,
    {
        Serde(value)
    }

    /// Consumes the `Serde`, returning the inner value.
    pub fn into_inner(self) -> (r: T)
        ensures
            r == self.0,
    {
        self.0
    }

    /// Borrows the inner value.
    pub fn get(&self) -> (r: &T)
        ensures
            *r == self.0,
    {
        &self.0
    }

    /// Borrows the inner value mutably.
    pub fn get_mut(&mut self) -> (r: &mut T)
        ensures
            *r == old(self).0,
            *final(r) == final(self).0,
    {
        &mut self.0
    }
}

impl<T> core::ops::Deref for Serde<T> {
    type Target = T;

    fn deref(&self) -> (r: &T)
        ensures
            *r == self.0,
    {
        &self.0
    }
}

impl<T> core::ops::DerefMut for Serde<T> {
    fn deref_mut(&mut self) -> (r: &mut T)
        ensures
            *r == old(self).0,
            *final(r) == final(self).0,
    {
        &mut self.0
    }
}

impl<T> From<T> for Serde<T> {
    fn from(value: T) -> (r: Serde<T>) {
        Serde(value)
    }
}

impl<T> vstd::std_specs::convert::FromSpecImpl<T> for Serde<T> {
    open spec fn obeys_from_spec() -> bool {
        true
    }

    open spec fn from_spec(value: T) -> Serde<T> {
        Serde(value)
    }
}

} // verus!
