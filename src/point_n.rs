//! A point of any number of coordinates of one type.
use vstd::prelude::*;
use crate::defaults::{default_vec, is_default};

verus! {

/// A point whose coordinates are a vector of `T`, of any length.
#[derive(Debug, Clone)]
pub struct PointN<T: Default + Clone> {
    coor: Vec<T>,
}

impl<T: Default + Clone> View for PointN<T> {
    type V = Seq<T>;

    closed spec fn view(&self) -> Seq<T> {
        self.coor@
    }
}

impl<T: Default + Clone> PointN<T> {
    /// A point of `n` default coordinates.
    pub fn new(n: usize) -> (r: PointN<T>)
        ensures
            r@.len() == n,
            forall|i: int| 0 <= i < n ==> is_default(#[trigger] r@[i]),
    {
        PointN { coor: default_vec(n) }
    }

    /// Replaces the coordinates by `coord`.
    pub fn init(self, coord: Vec<T>) -> (r: PointN<T>)
        ensures
            r@ == coord@,
    {
        let mut p = self;
        p.coor = coord;
        p
    }

    /// Number of coordinates.
    pub fn len(&self) -> (r: usize)
        ensures
            r == self@.len(),
    {
        self.coor.len()
    }

    /// Access to the coordinate vector, for reading and for replacing.
    pub fn coors(&mut self) -> (r: &mut Vec<T>)
        ensures
            r@ == old(self)@,
            final(self)@ == final(r)@,
    {
        &mut self.coor
    }
}

} // verus!
