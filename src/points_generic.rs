//! A point of `N` coordinates of one type, filled from a vector.
use vstd::prelude::*;
use crate::defaults::{default_vec, is_default};

verus! {

/// A point meant to hold `N` coordinates of `T`.
#[derive(Debug, Clone)]
pub struct Point<T: Default + Clone, const N: usize> {
    coor: Vec<T>,
}

impl<T: Default + Clone, const N: usize> View for Point<T, N> {
    type V = Seq<T>;

    closed spec fn view(&self) -> Seq<T> {
        self.coor@
    }
}

/// `after` is `before` with its first `n` coordinates taken from `coord`,
/// where it has them, and set to default values past its end.
pub open spec fn filled_from<T: Default + Clone>(
    before: Seq<T>,
    after: Seq<T>,
    coord: Seq<T>,
    n: nat,
) -> bool {
    &&& after.len() == before.len()
    &&& forall|i: int| 0 <= i < n && i < coord.len() ==> cloned(coord[i], #[trigger] after[i])
    &&& forall|i: int| coord.len() <= i < n ==> is_default(#[trigger] after[i])
    &&& forall|i: int| n <= i < before.len() ==> after[i] == before[i]
}

impl<T: Default + Clone, const N: usize> Point<T, N> {
    /// A point of `N` default coordinates.
    pub fn new() -> (r: Point<T, N>)
        ensures
            r@.len() == N,
            forall|i: int| 0 <= i < N ==> is_default(#[trigger] r@[i]),
    {
        Point { coor: default_vec(N) }
    }

    /// Sets the first `N` coordinates from `coord`, and to default values
    /// where `coord` is shorter.
    pub fn init(self, coord: &Vec<T>) -> (r: Point<T, N>)
        requires
            self@.len() >= N,
        ensures
            filled_from(self@, r@, coord@, N as nat),
    {
        let mut p = self;
        let mut i: usize = 0;
        while i < N
            invariant
                i <= N,
                N <= self@.len(),
                filled_from(self@, p.coor@, coord@, i as nat),
                forall|j: int| i <= j < self@.len() ==> p.coor@[j] == self@[j],
            decreases N - i,
        {
            if i < coord.len() {
                p.coor.set(i, coord[i].clone());
            } else {
                p.coor.set(i, T::default());
            }
            i += 1;
        }
        p
    }

    /// Number of coordinates.
    pub fn len(&self) -> (r: usize)
        ensures
            r == self@.len(),
    {
        self.coor.len()
    }

    /// The coordinate at `i`.
    pub fn index(&self, i: usize) -> (r: &T)
        requires
            i < self@.len(),
        ensures
            *r == self@[i as int],
    {
        &self.coor[i]
    }

    /// Access to the coordinate at `i`, for reading and for writing.
    pub fn index_mut(&mut self, i: usize) -> (r: &mut T)
        requires
            i < old(self)@.len(),
        ensures
            *r == old(self)@[i as int],
            final(self)@ == old(self)@.update(i as int, *final(r)),
    {
        &mut self.coor[i]
    }

    /// Access to the coordinate vector, for reading and for replacing.
    pub fn coors(&mut self) -> (r: &mut Vec<T>)
        ensures
            r@ == old(self)@,
            final(self)@ == final(r)@,
    {
        &mut self.coor
    }
}

impl<T: Default + Clone, const N: usize> AsRef<[T]> for Point<T, N> {
    /// The coordinates as a slice.
    fn as_ref(&self) -> (r: &[T])
        ensures
            r@ == self@,
    {
        self.coor.as_slice()
    }
}

impl<T: Default + Clone, const N: usize> std::ops::Deref for Point<T, N> {
    type Target = [T];

    /// The coordinates as a slice.
    fn deref(&self) -> (r: &[T])
        ensures
            r@ == self@,
    {
        self.coor.as_slice()
    }
}

} // verus!
