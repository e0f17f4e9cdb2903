//! Collision records and the rules that fill them.
//!
//! Only a pair of boxes that interpenetrate is recorded, and it is resolved
//! along exactly one axis. The axis is chosen from where the boxes stood at
//! the start of the tick, the depth from where they stand now, and the mover
//! takes the share of the depth that its own speed has in the closing speed
//! of the pair.

use vstd::prelude::*;
use crate::components::bounding_box::{in_contact, overlap, overlapped_before, BoundingBox};
use crate::math::{magnitude, magnitude_of, Axis, Vector2};

verus! {

/// The largest magnitude that the overlap of two well-formed boxes can have.
pub const OVERLAP_LIMIT: i64 = 4294967294;

/// The widest and the tallest a boundary can be: twice the largest coordinate.
pub const SPAN_LIMIT: i64 = 4294967294;

/// A static rectangular limit, such as the bounds of a level, given by the
/// coordinates of its four edges. The vertical axis points up.
#[derive(Clone, Copy, Debug, PartialEq, Eq, Structural)]
pub struct Boundary {
    pub left: i32,
    pub right: i32,
    pub top: i32,
    pub bottom: i32,
}

/// What a moving entity ran into along one axis.
#[derive(Clone, Debug, PartialEq, Eq)]
pub struct CollideeDetails {
    /// The name of the obstacle.
    pub name: String,
    /// The velocity of the obstacle when the collision was detected.
    pub velocity: Vector2,
    /// The box of the obstacle when the collision was detected.
    pub bounding_box: BoundingBox,
    /// The signed distance to take off the mover's position along the axis.
    pub correction: i64,
}

/// The outcome of the latest detection pass for one entity: at most one
/// obstacle per axis.
#[derive(Clone, Debug, PartialEq, Eq)]
pub struct CollideeNew {
    pub horizontal: Option<CollideeDetails>,
    pub vertical: Option<CollideeDetails>,
}

/// Marks the entities that take part in collision detection.
#[derive(Clone, Copy, Debug, PartialEq, Eq, Structural)]
pub struct ColliderNew;

/// The mathematical content of a [`CollideeDetails`].
pub struct CollideeDetailsView {
    pub name: Seq<char>,
    pub velocity: Vector2,
    pub bounding_box: BoundingBox,
    pub correction: int,
}

/// The mathematical content of a [`CollideeNew`].
pub struct CollideeView {
    pub horizontal: Option<CollideeDetailsView>,
    pub vertical: Option<CollideeDetailsView>,
}

impl View for CollideeDetails {
    type V = CollideeDetailsView;

    open spec fn view(&self) -> CollideeDetailsView {
        CollideeDetailsView {
            name: self.name@,
            velocity: self.velocity,
            bounding_box: self.bounding_box,
            correction: self.correction as int,
        }
    }
}

/// The content of one slot of a record.
pub open spec fn slot_view(slot: Option<CollideeDetails>) -> Option<CollideeDetailsView> {
    match slot {
        Some(details) => Some(details@),
        None => None,
    }
}

impl View for CollideeNew {
    type V = CollideeView;

    open spec fn view(&self) -> CollideeView {
        CollideeView {
            horizontal: slot_view(self.horizontal),
            vertical: slot_view(self.vertical),
        }
    }
}

impl CollideeView {
    /// The record with no obstacle on either axis.
    pub open spec fn empty() -> CollideeView {
        CollideeView { horizontal: None, vertical: None }
    }

    /// The slot of the record that belongs to `axis`.
    pub open spec fn slot(self, axis: Axis) -> Option<CollideeDetailsView> {
        match axis {
            Axis::Horizontal => self.horizontal,
            Axis::Vertical => self.vertical,
        }
    }

    /// The record with `details` written to the slot of `axis` and the other
    /// slot untouched.
    pub open spec fn with(self, axis: Axis, details: CollideeDetailsView) -> CollideeView {
        match axis {
            Axis::Horizontal => CollideeView { horizontal: Some(details), vertical: self.vertical },
            Axis::Vertical => CollideeView { horizontal: self.horizontal, vertical: Some(details) },
        }
    }
}

/// The axis along which the pair `a`, `b` is resolved.
///
/// A pair that already overlapped along one axis only is resolved along the
/// other one, where the new penetration came from. A pair that overlapped
/// along neither axis is resolved along the axis of the shallower
/// penetration, horizontally on a tie. Every other pair is resolved
/// vertically.
pub open spec fn resolved_axis(a: BoundingBox, b: BoundingBox) -> Axis {
    let x_overlapped = overlapped_before(a, b, Axis::Horizontal);
    let y_overlapped = overlapped_before(a, b, Axis::Vertical);
    if (!x_overlapped && y_overlapped) || (!x_overlapped && !y_overlapped && magnitude(
        overlap(a, b, Axis::Horizontal),
    ) <= magnitude(overlap(a, b, Axis::Vertical))) {
        Axis::Horizontal
    } else {
        Axis::Vertical
    }
}

/// The speed at which two bodies with velocities `velocity_a` and
/// `velocity_b` close in on each other along `axis`.
pub open spec fn speed_sum(velocity_a: Vector2, velocity_b: Vector2, axis: Axis) -> int {
    magnitude(velocity_a.component(axis) - velocity_b.component(axis))
}

/// The share of `depth` that falls to a body moving at `speed` when the
/// pair closes at `closing`: `depth * speed / closing`, rounded towards
/// zero. When the pair does not close at all the body takes the whole depth.
pub open spec fn attributed(depth: int, speed: int, closing: int) -> int {
    if closing == 0 {
        depth
    } else {
        let scaled = depth * speed;
        if scaled >= 0 {
            scaled / closing
        } else {
            -((-scaled) / closing)
        }
    }
}

/// The correction that the mover `a` owes along `axis` for its overlap
/// with `b`.
pub open spec fn correction(
    a: BoundingBox,
    b: BoundingBox,
    velocity_a: Vector2,
    velocity_b: Vector2,
    axis: Axis,
) -> int {
    attributed(overlap(a, b, axis), velocity_a.component(axis), speed_sum(velocity_a, velocity_b, axis))
}

/// The record `before` with the collision of the mover `a` with the
/// obstacle `b`, called `name`, written to it. This is what becomes of the
/// record of a pair that interpenetrates; see [`detected`] for any pair.
pub open spec fn recorded(
    before: CollideeView,
    name: Seq<char>,
    a: BoundingBox,
    b: BoundingBox,
    velocity_a: Vector2,
    velocity_b: Vector2,
) -> CollideeView {
    let axis = resolved_axis(a, b);
    before.with(
        axis,
        CollideeDetailsView {
            name,
            velocity: velocity_b,
            bounding_box: b,
            correction: correction(a, b, velocity_a, velocity_b, axis),
        },
    )
}

/// The record `before` after the pair `a`, `b` has been tested: the
/// collision is written to it when the boxes interpenetrate, and nothing
/// changes when they do not.
pub open spec fn detected(
    before: CollideeView,
    name: Seq<char>,
    a: BoundingBox,
    b: BoundingBox,
    velocity_a: Vector2,
    velocity_b: Vector2,
) -> CollideeView {
    if in_contact(a, b) {
        recorded(before, name, a, b, velocity_a, velocity_b)
    } else {
        before
    }
}

/// How far `bb` reaches beyond `boundary` along `axis`: positive beyond the
/// right or top edge, negative beyond the left or bottom edge, zero when it
/// stays within both. A box too large to fit counts as beyond the right or
/// top edge.
pub open spec fn excess(bb: BoundingBox, boundary: Boundary, axis: Axis) -> int {
    let beyond_upper = bb.position.component(axis) + bb.half_size.component(axis)
        - boundary.upper(axis);
    let beyond_lower = bb.position.component(axis) - bb.half_size.component(axis)
        - boundary.lower(axis);
    if beyond_upper > 0 {
        beyond_upper
    } else if beyond_lower < 0 {
        beyond_lower
    } else {
        0
    }
}

/// Whether `bb` lies within `boundary`, edges included.
pub open spec fn inside(bb: BoundingBox, boundary: Boundary) -> bool {
    &&& boundary.left <= bb.position.x - bb.half_size.x
    &&& bb.position.x + bb.half_size.x <= boundary.right
    &&& boundary.bottom <= bb.position.y - bb.half_size.y
    &&& bb.position.y + bb.half_size.y <= boundary.top
}

/// One slot of a record after `bb` has been held against `boundary` along
/// `axis`: the slot is rewritten when an edge is crossed and kept otherwise.
pub open spec fn clamped_slot(
    before: Option<CollideeDetailsView>,
    name: Seq<char>,
    bb: BoundingBox,
    boundary: Boundary,
    axis: Axis,
) -> Option<CollideeDetailsView> {
    if excess(bb, boundary, axis) != 0 {
        Some(
            CollideeDetailsView {
                name,
                velocity: Vector2 { x: 0, y: 0 },
                bounding_box: boundary.region(),
                correction: excess(bb, boundary, axis),
            },
        )
    } else {
        before
    }
}

/// The record `before` after `bb` has been held against `boundary`, called
/// `name`. Each axis is clamped on its own.
pub open spec fn clamped(
    before: CollideeView,
    name: Seq<char>,
    bb: BoundingBox,
    boundary: Boundary,
) -> CollideeView {
    CollideeView {
        horizontal: clamped_slot(before.horizontal, name, bb, boundary, Axis::Horizontal),
        vertical: clamped_slot(before.vertical, name, bb, boundary, Axis::Vertical),
    }
}

impl Boundary {
    /// A boundary is well formed when its left edge lies left of its right
    /// edge and its bottom edge below its top edge, and when it is no wider
    /// and no taller than [`SPAN_LIMIT`], so that half its width and half
    /// its height are coordinates themselves.
    pub open spec fn wf(&self) -> bool {
        &&& self.left < self.right
        &&& self.bottom < self.top
        &&& self.right - self.left <= SPAN_LIMIT
        &&& self.top - self.bottom <= SPAN_LIMIT
    }

    /// The left or the bottom edge.
    pub open spec fn lower(self, axis: Axis) -> int {
        match axis {
            Axis::Horizontal => self.left as int,
            Axis::Vertical => self.bottom as int,
        }
    }

    /// The right or the top edge.
    pub open spec fn upper(self, axis: Axis) -> int {
        match axis {
            Axis::Horizontal => self.right as int,
            Axis::Vertical => self.top as int,
        }
    }

    /// The boundary as a box at rest: centred on the middle of the region,
    /// rounded down to a whole coordinate, and reaching exactly to the
    /// right and top edges.
    pub open spec fn region(self) -> BoundingBox {
        let centre = Vector2 {
            x: (self.left + (self.right - self.left) / 2) as i32,
            y: (self.bottom + (self.top - self.bottom) / 2) as i32,
        };
        BoundingBox {
            position: centre,
            old_position: centre,
            half_size: Vector2 {
                x: (self.right - centre.x) as i32,
                y: (self.top - centre.y) as i32,
            },
        }
    }

    /// The boundary with the given edges.
    pub fn new(left: i32, right: i32, top: i32, bottom: i32) -> (made: Self)
        requires
            left < right,
            bottom < top,
            right - left <= SPAN_LIMIT,
            top - bottom <= SPAN_LIMIT,
        ensures
            made.wf(),
            made.left == left,
            made.right == right,
            made.top == top,
            made.bottom == bottom,
    {
        Self { left, right, top, bottom }
    }

    /// Tells whether the edges describe a well-formed boundary.
    pub fn is_well_formed(&self) -> (ok: bool)
        ensures
            ok == self.wf(),
    {
        self.left < self.right && self.bottom < self.top && self.right as i64 - self.left as i64
            <= SPAN_LIMIT && self.top as i64 - self.bottom as i64 <= SPAN_LIMIT
    }

    /// Reads the left or the bottom edge.
    pub fn lower_edge(&self, axis: Axis) -> (edge: i32)
        ensures
            edge == self.lower(axis),
    {
        match axis {
            Axis::Horizontal => self.left,
            Axis::Vertical => self.bottom,
        }
    }

    /// Reads the right or the top edge.
    pub fn upper_edge(&self, axis: Axis) -> (edge: i32)
        ensures
            edge == self.upper(axis),
    {
        match axis {
            Axis::Horizontal => self.right,
            Axis::Vertical => self.top,
        }
    }

    /// Builds the box that stands for the boundary in a collision record.
    pub fn bounding_box(&self) -> (made: BoundingBox)
        requires
            self.wf(),
        ensures
            made == self.region(),
            made.wf(),
            made.position.x - made.half_size.x <= self.left,
            made.position.x + made.half_size.x == self.right,
            made.position.y - made.half_size.y <= self.bottom,
            made.position.y + made.half_size.y == self.top,
    {
        let width: i64 = self.right as i64 - self.left as i64;
        let height: i64 = self.top as i64 - self.bottom as i64;
        let centre_x: i64 = self.left as i64 + width / 2;
        let centre_y: i64 = self.bottom as i64 + height / 2;
        let centre = Vector2 { x: centre_x as i32, y: centre_y as i32 };
        BoundingBox {
            position: centre,
            old_position: centre,
            half_size: Vector2 {
                x: (self.right as i64 - centre_x) as i32,
                y: (self.top as i64 - centre_y) as i32,
            },
        }
    }

    /// Measures how far `bb` reaches beyond the boundary along `axis`.
    pub fn excess_of(&self, bb: &BoundingBox, axis: Axis) -> (beyond: i64)
        ensures
            beyond == excess(*bb, *self, axis),
    {
        let centre: i64 = bb.position.along(axis) as i64;
        let half: i64 = bb.half_size.along(axis) as i64;
        let beyond_upper: i64 = centre + half - self.upper_edge(axis) as i64;
        let beyond_lower: i64 = centre - half - self.lower_edge(axis) as i64;
        if beyond_upper > 0 {
            beyond_upper
        } else if beyond_lower < 0 {
            beyond_lower
        } else {
            0
        }
    }
}

/// Chooses the axis along which the pair `a`, `b` is resolved.
pub fn resolve_axis(a: &BoundingBox, b: &BoundingBox) -> (axis: Axis)
    ensures
        axis == resolved_axis(*a, *b),
{
    let x_overlapped = a.overlapped_before(b, Axis::Horizontal);
    let y_overlapped = a.overlapped_before(b, Axis::Vertical);
    let depth_x: i64 = magnitude_of(a.overlap(b, Axis::Horizontal));
    let depth_y: i64 = magnitude_of(a.overlap(b, Axis::Vertical));
    if (!x_overlapped && y_overlapped) || (!x_overlapped && !y_overlapped && depth_x <= depth_y) {
        Axis::Horizontal
    } else {
        Axis::Vertical
    }
}

/// Computes the share of `depth` that falls to a body moving at `speed`
/// when the pair closes at `closing`.
pub fn attribute(depth: i64, speed: i32, closing: i64) -> (share: i64)
    requires
        -OVERLAP_LIMIT <= depth <= OVERLAP_LIMIT,
        0 <= closing,
    ensures
        share == attributed(depth as int, speed as int, closing as int),
{
    if closing == 0 {
        return depth;
    }
    // The product stays within 4294967294 * 2147483648, which an `i64` holds.
    assert(-9223372032559808512 <= depth * speed <= 9223372032559808512) by (nonlinear_arith)
        requires
            -4294967294 <= depth <= 4294967294,
            -2147483648 <= speed <= 2147483647,
    ;
    let scaled: i64 = depth * (speed as i64);
    if scaled >= 0 {
        assert(0 <= scaled / closing <= scaled) by (nonlinear_arith)
            requires
                0 <= scaled,
                0 < closing,
        ;
        scaled / closing
    } else {
        let raised: i64 = -scaled;
        assert(0 <= raised / closing <= raised) by (nonlinear_arith)
            requires
                0 <= raised,
                0 < closing,
        ;
        -(raised / closing)
    }
}

/// Computes the correction that the mover `a` owes along `axis` for its
/// overlap with `b`.
pub fn compute_correction(
    a: &BoundingBox,
    b: &BoundingBox,
    velocity_a: Vector2,
    velocity_b: Vector2,
    axis: Axis,
) -> (owed: i64)
    requires
        a.wf(),
        b.wf(),
    ensures
        owed == correction(*a, *b, velocity_a, velocity_b, axis),
{
    let depth: i64 = a.overlap(b, axis);
    let speed: i32 = velocity_a.along(axis);
    let closing: i64 = magnitude_of(speed as i64 - velocity_b.along(axis) as i64);
    attribute(depth, speed, closing)
}

impl Default for CollideeNew {
    /// The record with no obstacle on either axis.
    fn default() -> (made: Self)
        ensures
            made@ == CollideeView::empty(),
    {
        Self { horizontal: None, vertical: None }
    }
}

impl Default for ColliderNew {
    fn default() -> (made: Self)
        ensures
            made == ColliderNew,
    {
        ColliderNew
    }
}

impl CollideeNew {
    /// Empties both slots, as every detection pass does before it starts.
    pub fn clear(&mut self)
        ensures
            final(self)@ == CollideeView::empty(),
    {
        self.horizontal = None;
        self.vertical = None;
    }

    /// Tests the mover `bb_a` against the obstacle `bb_b`. When the two
    /// interpenetrate, the collision is written to the slot of the axis
    /// along which the pair is resolved: whatever the slot held before is
    /// overwritten, and the other slot is left alone. When they do not,
    /// the record stays as it was.
    pub fn set_collidee_details(
        &mut self,
        name: String,
        bb_a: &BoundingBox,
        bb_b: &BoundingBox,
        velocity_a: Vector2,
        velocity_b: Vector2,
    )
        requires
            bb_a.wf(),
            bb_b.wf(),
        ensures
            final(self)@ == detected(old(self)@, name@, *bb_a, *bb_b, velocity_a, velocity_b),
    {
        if bb_a.is_overlapping_with(bb_b) {
            let axis = resolve_axis(bb_a, bb_b);
            let owed = compute_correction(bb_a, bb_b, velocity_a, velocity_b, axis);
            let details = CollideeDetails {
                name,
                velocity: velocity_b,
                bounding_box: *bb_b,
                correction: owed,
            };
            match axis {
                Axis::Horizontal => {
                    self.horizontal = Some(details);
                },
                Axis::Vertical => {
                    self.vertical = Some(details);
                },
            }
        }
    }

    /// Does what [`set_collidee_details`](Self::set_collidee_details) does,
    /// and tells whether the two boxes interpenetrate.
    pub fn detect(
        &mut self,
        name: String,
        bb_a: &BoundingBox,
        bb_b: &BoundingBox,
        velocity_a: Vector2,
        velocity_b: Vector2,
    ) -> (hit: bool)
        requires
            bb_a.wf(),
            bb_b.wf(),
        ensures
            hit == in_contact(*bb_a, *bb_b),
            final(self)@ == detected(old(self)@, name@, *bb_a, *bb_b, velocity_a, velocity_b),
    {
        let hit = bb_a.is_overlapping_with(bb_b);
        self.set_collidee_details(name, bb_a, bb_b, velocity_a, velocity_b);
        hit
    }

    /// Holds the mover `bb` against `boundary` and records, for each axis
    /// on which an edge is crossed, the correction that puts the mover
    /// flush with that edge. The boundary does not move, so the mover
    /// takes the whole correction.
    pub fn set_boundary_details(&mut self, name: String, bb: &BoundingBox, boundary: &Boundary)
        requires
            boundary.wf(),
        ensures
            final(self)@ == clamped(old(self)@, name@, *bb, *boundary),
    {
        let beyond_x: i64 = boundary.excess_of(bb, Axis::Horizontal);
        let beyond_y: i64 = boundary.excess_of(bb, Axis::Vertical);
        if beyond_x != 0 {
            self.horizontal = Some(
                CollideeDetails {
                    name: name.clone(),
                    velocity: Vector2::zero(),
                    bounding_box: boundary.bounding_box(),
                    correction: beyond_x,
                },
            );
        }
        if beyond_y != 0 {
            self.vertical = Some(
                CollideeDetails {
                    name,
                    velocity: Vector2::zero(),
                    bounding_box: boundary.bounding_box(),
                    correction: beyond_y,
                },
            );
        }
    }
}

} // verus!
