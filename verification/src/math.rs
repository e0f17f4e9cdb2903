//! Two-dimensional vectors and the scalar helpers the rest of the crate uses.

use vstd::prelude::*;

verus! {

/// One of the two directions along which a collision can be resolved.
#[derive(Clone, Copy, Debug, PartialEq, Eq, Structural)]
pub enum Axis {
    Horizontal,
    Vertical,
}

/// A point, an extent or a velocity in the plane.
#[derive(Clone, Copy, Debug, PartialEq, Eq, Structural)]
pub struct Vector2 {
    pub x: i32,
    pub y: i32,
}

impl Vector2 {
    /// The coordinate of the vector along `axis`.
    pub open spec fn component(self, axis: Axis) -> int {
        match axis {
            Axis::Horizontal => self.x as int,
            Axis::Vertical => self.y as int,
        }
    }

    /// The vector with the given coordinates.
    pub fn new(x: i32, y: i32) -> (v: Self)
        ensures
            v.x == x,
            v.y == y,
    {
        Vector2 { x, y }
    }

    /// The vector whose coordinates are both zero.
    pub fn zero() -> (v: Self)
        ensures
            v.x == 0,
            v.y == 0,
    {
        Vector2 { x: 0, y: 0 }
    }

    /// Reads the coordinate along `axis`.
    pub fn along(&self, axis: Axis) -> (c: i32)
        ensures
            c == self.component(axis),
    {
        match axis {
            Axis::Horizontal => self.x,
            Axis::Vertical => self.y,
        }
    }
}

/// The distance of `v` from zero.
pub open spec fn magnitude(v: int) -> int {
    if v < 0 {
        -v
    } else {
        v
    }
}

/// Computes the distance of `v` from zero.
pub fn magnitude_of(v: i64) -> (m: i64)
    requires
        v > i64::MIN,
    ensures
        m == magnitude(v as int),
{
    if v < 0 {
        -v
    } else {
        v
    }
}

} // verus!
