//! A generic holder of a single value.
use vstd::prelude::*;
use crate::defaults::is_default;

verus! {

/// Holds one value of `T`.
#[derive(Debug, Clone)]
pub struct HelloGeneric<T: Default + Clone> {
    datum: T,
}

impl<T: Default + Clone> View for HelloGeneric<T> {
    type V = T;

    closed spec fn view(&self) -> T {
        self.datum
    }
}

impl<T: Default + Clone> HelloGeneric<T> {
    /// Holds `d`.
    pub fn new(d: T) -> (r: Self)
        ensures
            r@ == d,
    {
        HelloGeneric { datum: d }
    }

    /// Holds the default value of `T`.
    pub fn default_new() -> (r: Self)
        ensures
            is_default(r@),
    {
        HelloGeneric { datum: T::default() }
    }

    /// Access to the held value, for reading and for writing.
    pub fn value(&mut self) -> (r: &mut T)
        ensures
            *r == old(self)@,
            final(self)@ == *final(r),
    {
        &mut self.datum
    }
}

} // verus!
