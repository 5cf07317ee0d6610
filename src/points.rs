//! A point of three integer coordinates, and a point of any number of
//! coordinates of one type.
use vstd::prelude::*;
use crate::defaults::{default_vec, is_default};

verus! {

/// A point of three `i32` coordinates.
#[derive(Debug, Clone)]
pub struct Point1 {
    x: i32,
    y: i32,
    z: i32,
}

impl View for Point1 {
    type V = (i32, i32, i32);

    closed spec fn view(&self) -> (i32, i32, i32) {
        (self.x, self.y, self.z)
    }
}

impl Point1 {
    /// The origin.
    pub fn new() -> (r: Point1)
        ensures
            r@ == (0i32, 0i32, 0i32),
    {
        Point1 { x: 0, y: 0, z: 0 }
    }

    pub fn get_x(&self) -> (r: &i32)
        ensures
            *r == self@.0,
    {
        &self.x
    }

    pub fn get_y(&self) -> (r: &i32)
        ensures
            *r == self@.1,
    {
        &self.y
    }

    pub fn get_z(&self) -> (r: &i32)
        ensures
            *r == self@.2,
    {
        &self.z
    }

    pub fn set_x(&mut self, x: i32)
        ensures
            final(self)@ == (x, old(self)@.1, old(self)@.2),
    {
        self.x = x
    }

    pub fn set_y(&mut self, y: i32)
        ensures
            final(self)@ == (old(self)@.0, y, old(self)@.2),
    {
        self.y = y
    }

    pub fn set_z(&mut self, z: i32)
        ensures
            final(self)@ == (old(self)@.0, old(self)@.1, z),
    {
        self.z = z
    }
}

/// A point whose coordinates are a vector of `T`, of any length.
#[derive(Debug, Clone)]
pub struct Point2<T: Default + Clone> {
    coor: Vec<T>,
}

impl<T: Default + Clone> View for Point2<T> {
    type V = Seq<T>;

    closed spec fn view(&self) -> Seq<T> {
        self.coor@
    }
}

impl<T: Default + Clone> Point2<T> {
    /// A point of `n` default coordinates.
    pub fn new(n: usize) -> (r: Point2<T>)
        ensures
            r@.len() == n,
            forall|i: int| 0 <= i < n ==> is_default(#[trigger] r@[i]),
    {
        Point2 { coor: default_vec(n) }
    }

    /// Replaces the coordinates by `coord`.
    pub fn init(self, coord: Vec<T>) -> (r: Point2<T>)
        ensures
            r@ == coord@,
    {
        let mut p = self;
        p.coor = coord;
        p
    }

    /// Number of coordinates.
    pub fn len(&self) -> (r: usize)
        ensures
            r == self@.len(),
    {
        self.coor.len()
    }

    /// Access to the coordinate vector, for reading and for replacing.
    pub fn coors(&mut self) -> (r: &mut Vec<T>)
        ensures
            r@ == old(self)@,
            final(self)@ == final(r)@,
    {
        &mut self.coor
    }
}

} // verus!
