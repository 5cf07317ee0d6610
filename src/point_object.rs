//! A point of `n` coordinates that can be walked with a cursor or consumed
//! as an iterator.
use vstd::prelude::*;
use vstd::std_specs::iter::IteratorSpec;
use crate::defaults::{default_vec, is_default};

verus! {

/// A point whose coordinates are a vector of `T`.
#[derive(Debug, Clone)]
pub struct Point<T> {
    items: Vec<T>,
}

impl<T> View for Point<T> {
    type V = Seq<T>;

    closed spec fn view(&self) -> Seq<T> {
        self.items@
    }
}

impl<T: Default + Clone> Point<T> {
    /// A point of `n` default coordinates.
    pub fn new(n: usize) -> (r: Point<T>)
        ensures
            r@.len() == n,
            forall|i: int| 0 <= i < n ==> is_default(#[trigger] r@[i]),
    {
        Point { items: default_vec(n) }
    }

    /// The coordinate at `i`.
    pub fn index(&self, i: usize) -> (r: &T)
        requires
            i < self@.len(),
        ensures
            *r == self@[i as int],
    {
        &self.items[i]
    }

    /// Access to the coordinate at `i`, for reading and for writing.
    pub fn index_mut(&mut self, i: usize) -> (r: &mut T)
        requires
            i < old(self)@.len(),
        ensures
            *r == old(self)@[i as int],
            final(self)@ == old(self)@.update(i as int, *final(r)),
    {
        &mut self.items[i]
    }
}

impl<T> Point<T> {
    /// A cursor at the first coordinate.
    pub fn iter(&self) -> (r: PointIter<'_, T>)
        ensures
            r@ == (self@, 0nat),
    {
        PointIter { pt: self, count: 0 }
    }
}

/// A cursor over the coordinates of a point, from the first to the last.
#[derive(Debug, Clone)]
pub struct PointIter<'a, T> {
    pt: &'a Point<T>,
    count: usize,
}

impl<'a, T> View for PointIter<'a, T> {
    /// The coordinates walked, and how many were already handed out.
    type V = (Seq<T>, nat);

    closed spec fn view(&self) -> (Seq<T>, nat) {
        (self.pt@, self.count as nat)
    }
}

impl<'a, T> PointIter<'a, T> {
    /// Hands out the next coordinate and moves past it, or `None` once all
    /// were handed out.
    pub fn next(&mut self) -> (r: Option<&'a T>)
        ensures
            old(self)@.1 < old(self)@.0.len() ==> {
                &&& r matches Some(v) && *v == old(self)@.0[old(self)@.1 as int]
                &&& final(self)@ == (old(self)@.0, old(self)@.1 + 1)
            },
            old(self)@.1 >= old(self)@.0.len() ==> r is None && final(self)@ == old(self)@,
    {
        if self.count < self.pt.items.len() {
            let val = &self.pt.items[self.count];
            self.count += 1;
            Some(val)
        } else {
            None
        }
    }
}

impl<T> IntoIterator for Point<T> {
    type Item = T;

    type IntoIter = std::vec::IntoIter<T>;

    /// Consumes the point, yielding its coordinates in order.
    fn into_iter(self) -> (r: std::vec::IntoIter<T>)
        ensures
            IteratorSpec::remaining(&r) == self@,
    {
        let r = self.items.into_iter();
        proof {
            broadcast use vstd::std_specs::vec::axiom_spec_into_iter;
        }
        r
    }
}

} // verus!
