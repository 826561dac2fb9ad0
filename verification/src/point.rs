//! Points in 1-, 2- and 3-dimensional space, generic over the scalar type.

use vstd::prelude::*;

verus! {

/// A point in 1-dimensional space.
#[derive(Debug, Copy, Clone, PartialEq)]
pub struct Point1<T> {
    pub x: T,
}

/// A point in 2-dimensional space.
#[derive(Debug, Copy, Clone, PartialEq)]
pub struct Point2<T> {
    pub x: T,
    pub y: T,
}

/// A point in 3-dimensional space.
#[derive(Debug, Copy, Clone, PartialEq)]
pub struct Point3<T> {
    pub x: T,
    pub y: T,
    pub z: T,
}

impl<T> Point1<T> {
    pub fn new(x: T) -> (r: Point1<T>)
        ensures
            r.x == x,
    {
        Point1 { x }
    }
}

impl<T> Point2<T> {
    pub fn new(x: T, y: T) -> (r: Point2<T>)
        ensures
            r.x == x,
            r.y == y,
    {
        Point2 { x, y }
    }
}

impl<T> Point3<T> {
    pub fn new(x: T, y: T, z: T) -> (r: Point3<T>)
        ensures
            r.x == x,
            r.y == y,
            r.z == z,
    {
        Point3 { x, y, z }
    }
}

} // verus!
