//! A point of `N` coordinates of one type that hands out iterators over
//! its coordinates.
use vstd::prelude::*;
use vstd::std_specs::iter::IteratorSpec;
use crate::defaults::{default_vec, is_default};

verus! {

/// A point meant to hold `N` coordinates of `T`.
#[derive(Debug, Clone)]
pub struct Point<T: Default + Clone, const N: usize> {
    pub items: Vec<T>,
}

impl<T: Default + Clone, const N: usize> Point<T, N> {
    /// A point of `N` default coordinates.
    pub fn new() -> (r: Point<T, N>)
        ensures
            r.items@.len() == N,
            forall|i: int| 0 <= i < N ==> is_default(#[trigger] r.items@[i]),
    {
        Point { items: default_vec(N) }
    }

    /// The coordinate at `i`.
    pub fn index(&self, i: usize) -> (r: &T)
        requires
            i < self.items@.len(),
        ensures
            *r == self.items@[i as int],
    {
        &self.items[i]
    }

    /// Access to the coordinate at `i`, for reading and for writing.
    pub fn index_mut(&mut self, i: usize) -> (r: &mut T)
        requires
            i < old(self).items@.len(),
        ensures
            *r == old(self).items@[i as int],
            final(self).items@ == old(self).items@.update(i as int, *final(r)),
    {
        &mut self.items[i]
    }

    /// Copies `v` into the first coordinates, then sets the coordinates
    /// from the end of `v` up to `N` to default values.
    pub fn init(&mut self, v: &Vec<T>)
        requires
            v@.len() <= old(self).items@.len(),
            N <= old(self).items@.len(),
        ensures
            final(self).items@.len() == old(self).items@.len(),
            forall|i: int| 0 <= i < v@.len() ==> cloned(v@[i], #[trigger] final(self).items@[i]),
            forall|i: int| v@.len() <= i < N ==> is_default(#[trigger] final(self).items@[i]),
            forall|i: int|
                v@.len() <= i < old(self).items@.len() && N <= i
                    ==> #[trigger] final(self).items@[i] == old(self).items@[i],
    {
        let mut i: usize = 0;
        while i < v.len()
            invariant
                i <= v@.len(),
                v@.len() <= old(self).items@.len(),
                self.items@.len() == old(self).items@.len(),
                forall|j: int| 0 <= j < i ==> cloned(v@[j], #[trigger] self.items@[j]),
                forall|j: int| i <= j < self.items@.len() ==> self.items@[j] == old(self).items@[j],
            decreases v@.len() - i,
        {
            self.items.set(i, v[i].clone());
            i += 1;
        }
        let mut k: usize = v.len();
        while k < N
            invariant
                v@.len() <= k,
                k == v@.len() || k <= N,
                N <= old(self).items@.len(),
                self.items@.len() == old(self).items@.len(),
                forall|j: int| 0 <= j < v@.len() ==> cloned(v@[j], #[trigger] self.items@[j]),
                forall|j: int| v@.len() <= j < k && j < N ==> is_default(#[trigger] self.items@[j]),
                forall|j: int| k <= j < self.items@.len() ==> self.items@[j] == old(self).items@[j],
            decreases N - k,
        {
            let ghost before = self.items@;
            self.items.set(k, T::default());
            assert(forall|j: int| 0 <= j < v@.len() ==> self.items@[j] == before[j]);
            k += 1;
        }
    }

    /// An iterator over references to the coordinates, in order.
    pub fn iter(&self) -> (r: std::slice::Iter<'_, T>)
        ensures
            IteratorSpec::remaining(&r) == self.items@.as_ref(),
            IteratorSpec::decrease(&r) is Some,
            IteratorSpec::initial_value_relation(&r, &r),
    {
        let r = self.items.as_slice().iter();
        proof {
            broadcast use vstd::std_specs::slice::axiom_spec_slice_iter;
        }
        r
    }

    /// The coordinates as a mutable slice, to be changed in place, for
    /// instance one by one while iterating.
    pub fn iter_mut(&mut self) -> (r: &mut [T])
        ensures
            r@ == old(self).items@,
            final(self).items@ == final(r)@,
    {
        self.items.as_mut_slice()
    }
}

impl<T: Default + Clone, const N: usize> IntoIterator for Point<T, N> {
    type Item = T;

    type IntoIter = std::vec::IntoIter<T>;

    /// Consumes the point, yielding its coordinates in order.
    fn into_iter(self) -> (r: std::vec::IntoIter<T>)
        ensures
            IteratorSpec::remaining(&r) == self.items@,
    {
        let r = self.items.into_iter();
        proof {
            broadcast use vstd::std_specs::vec::axiom_spec_into_iter;
        }
        r
    }
}

impl<'a, T: Default + Clone, const N: usize> IntoIterator for &'a Point<T, N> {
    type Item = T;

    type IntoIter = std::vec::IntoIter<T>;

    /// Yields clones of the coordinates in order, leaving the point as it is.
    fn into_iter(self) -> (r: std::vec::IntoIter<T>)
        ensures
            IteratorSpec::remaining(&r).len() == self.items@.len(),
            forall|i: int|
                0 <= i < self.items@.len() ==> cloned(
                    self.items@[i],
                    #[trigger] IteratorSpec::remaining(&r)[i],
                ),
    {
        let copy = self.items.clone();
        let r = copy.into_iter();
        proof {
            broadcast use vstd::std_specs::vec::axiom_spec_into_iter;
        }
        r
    }
}

} // verus!
