//! The rectangular footprint of an entity.

use vstd::prelude::*;
use crate::math::{magnitude, magnitude_of, Axis, Vector2};

verus! {

/// An axis-aligned rectangle, given by its centre and its half extents.
///
/// `old_position` is the centre at the start of the current tick, before
/// motion was integrated; `position` is the centre after it.
#[derive(Clone, Copy, Debug, PartialEq, Eq, Structural)]
pub struct BoundingBox {
    pub position: Vector2,
    pub old_position: Vector2,
    pub half_size: Vector2,
}

/// The smallest distance between the centres of `a` and `b` along `axis`
/// at which the two boxes do not interpenetrate.
pub open spec fn min_safe_distance(a: BoundingBox, b: BoundingBox, axis: Axis) -> int {
    a.half_size.component(axis) + b.half_size.component(axis)
}

/// Whether `a` and `b` were closer than their safe distance along `axis`
/// at the start of the tick.
pub open spec fn overlapped_before(a: BoundingBox, b: BoundingBox, axis: Axis) -> bool {
    magnitude(a.old_position.component(axis) - b.old_position.component(axis))
        < min_safe_distance(a, b, axis)
}

/// The signed penetration depth of `a` and `b` along `axis` at their
/// current positions. It is positive when the boxes interpenetrate by that
/// amount, and zero or negative when they are apart.
pub open spec fn overlap(a: BoundingBox, b: BoundingBox, axis: Axis) -> int {
    min_safe_distance(a, b, axis) - magnitude(
        a.position.component(axis) - b.position.component(axis),
    )
}

/// Whether `a` and `b` interpenetrate at their current positions, that is,
/// whether their overlap is positive along both axes.
pub open spec fn in_contact(a: BoundingBox, b: BoundingBox) -> bool {
    overlap(a, b, Axis::Horizontal) > 0 && overlap(a, b, Axis::Vertical) > 0
}

impl BoundingBox {
    /// A box is well formed when both of its half extents are positive.
    pub open spec fn wf(&self) -> bool {
        self.half_size.x > 0 && self.half_size.y > 0
    }

    /// A box at rest at `position`. Degenerate extents are rejected.
    pub fn new(position: Vector2, half_size: Vector2) -> (made: Option<BoundingBox>)
        ensures
            made.is_some() <==> (half_size.x > 0 && half_size.y > 0),
            made matches Some(b) ==> b.wf() && b.position == position && b.old_position
                == position && b.half_size == half_size,
    {
        if half_size.x > 0 && half_size.y > 0 {
            Some(BoundingBox { position, old_position: position, half_size })
        } else {
            None
        }
    }

    /// Tells whether the extents of the box are both positive.
    pub fn is_well_formed(&self) -> (ok: bool)
        ensures
            ok == self.wf(),
    {
        self.half_size.x > 0 && self.half_size.y > 0
    }

    /// Tests whether the box and `other` already overlapped along `axis`
    /// at the start of the tick.
    pub fn overlapped_before(&self, other: &BoundingBox, axis: Axis) -> (hit: bool)
        ensures
            hit == overlapped_before(*self, *other, axis),
    {
        let apart: i64 = self.old_position.along(axis) as i64 - other.old_position.along(
            axis,
        ) as i64;
        let reach: i64 = self.half_size.along(axis) as i64 + other.half_size.along(axis) as i64;
        magnitude_of(apart) < reach
    }

    /// Measures the penetration depth of the box and `other` along `axis`
    /// at their current positions.
    pub fn overlap(&self, other: &BoundingBox, axis: Axis) -> (depth: i64)
        ensures
            depth == overlap(*self, *other, axis),
    {
        let apart: i64 = self.position.along(axis) as i64 - other.position.along(axis) as i64;
        let reach: i64 = self.half_size.along(axis) as i64 + other.half_size.along(axis) as i64;
        reach - magnitude_of(apart)
    }

    /// Tests whether the box and `other` interpenetrate at their current
    /// positions.
    pub fn is_overlapping_with(&self, other: &BoundingBox) -> (hit: bool)
        ensures
            hit == in_contact(*self, *other),
    {
        self.overlap(other, Axis::Horizontal) > 0 && self.overlap(other, Axis::Vertical) > 0
    }
}

} // verus!
