//! Vectors in 1 to 4 dimensions, generic over the scalar type.

use vstd::prelude::*;

verus! {

/// A 1-dimensional vector.
#[derive(Debug, Copy, Clone, PartialEq)]
pub struct Vector1<T> {
    pub x: T,
}

/// A 2-dimensional vector.
#[derive(Debug, Copy, Clone, PartialEq)]
pub struct Vector2<T> {
    pub x: T,
    pub y: T,
}

/// A 3-dimensional vector.
#[derive(Debug, Copy, Clone, PartialEq)]
pub struct Vector3<T> {
    pub x: T,
    pub y: T,
    pub z: T,
}

/// A 4-dimensional vector.
#[derive(Debug, Copy, Clone, PartialEq)]
pub struct Vector4<T> {
    pub x: T,
    pub y: T,
    pub z: T,
    pub w: T,
}

impl<T> Vector1<T> {
    pub fn new(x: T) -> (r: Vector1<T>)
        ensures
            r.x == x,
    {
        Vector1 { x }
    }
}

impl<T> Vector2<T> {
    pub fn new(x: T, y: T) -> (r: Vector2<T>)
        ensures
            r.x == x,
            r.y == y,
    {
        Vector2 { x, y }
    }
}

impl<T> Vector3<T> {
    pub fn new(x: T, y: T, z: T) -> (r: Vector3<T>)
        ensures
            r.x == x,
            r.y == y,
            r.z == z,
    {
        Vector3 { x, y, z }
    }
}

impl<T> Vector4<T> {
    pub fn new(x: T, y: T, z: T, w: T) -> (r: Vector4<T>)
        ensures
            r.x == x,
            r.y == y,
            r.z == z,
            r.w == w,
    {
        Vector4 { x, y, z, w }
    }
}

} // verus!
