//! What holds of every collision that the rules in
//! [`collision`](crate::components::collision) resolve.

use vstd::prelude::*;
use crate::components::bounding_box::{
    in_contact, min_safe_distance, overlap, overlapped_before, BoundingBox,
};
use crate::components::collision::{
    attributed, clamped, correction, detected, excess, inside, resolved_axis, speed_sum, Boundary,
    CollideeView,
};
use crate::math::{magnitude, Axis, Vector2};

verus! {

/// A pair whose boxes do not interpenetrate, and so in particular a pair
/// with no overlap along either axis, leaves the record as it was: tested
/// against an empty record, no slot is filled.
pub proof fn lemma_separate_pair_fills_no_slot(
    before: CollideeView,
    name: Seq<char>,
    a: BoundingBox,
    b: BoundingBox,
    velocity_a: Vector2,
    velocity_b: Vector2,
)
    requires
        overlap(a, b, Axis::Horizontal) <= 0 || overlap(a, b, Axis::Vertical) <= 0,
    ensures
        detected(before, name, a, b, velocity_a, velocity_b) == before,
        detected(CollideeView::empty(), name, a, b, velocity_a, velocity_b).horizontal is None,
        detected(CollideeView::empty(), name, a, b, velocity_a, velocity_b).vertical is None,
{
}

/// A pair that interpenetrates fills the slot of its resolved axis and
/// leaves the other slot alone. Whatever the pair, a record that was empty
/// holds at most one obstacle afterwards.
pub proof fn lemma_one_axis_per_pair(
    before: CollideeView,
    name: Seq<char>,
    a: BoundingBox,
    b: BoundingBox,
    velocity_a: Vector2,
    velocity_b: Vector2,
)
    ensures
        in_contact(a, b) ==> detected(before, name, a, b, velocity_a, velocity_b).slot(
            resolved_axis(a, b),
        ) is Some,
        resolved_axis(a, b) == Axis::Horizontal ==> detected(
            before,
            name,
            a,
            b,
            velocity_a,
            velocity_b,
        ).vertical == before.vertical,
        resolved_axis(a, b) == Axis::Vertical ==> detected(
            before,
            name,
            a,
            b,
            velocity_a,
            velocity_b,
        ).horizontal == before.horizontal,
        detected(CollideeView::empty(), name, a, b, velocity_a, velocity_b).horizontal is None
            || detected(CollideeView::empty(), name, a, b, velocity_a, velocity_b).vertical
            is None,
        in_contact(a, b) ==> (detected(
            CollideeView::empty(),
            name,
            a,
            b,
            velocity_a,
            velocity_b,
        ).horizontal is Some <==> detected(
            CollideeView::empty(),
            name,
            a,
            b,
            velocity_a,
            velocity_b,
        ).vertical is None),
{
}

/// Of two pairs that are resolved along the same axis, the one tested
/// last is the one that the record keeps, provided that it interpenetrates.
pub proof fn lemma_latest_pair_wins(
    before: CollideeView,
    first_name: Seq<char>,
    first: BoundingBox,
    first_velocity: Vector2,
    name: Seq<char>,
    a: BoundingBox,
    b: BoundingBox,
    velocity_a: Vector2,
    velocity_b: Vector2,
)
    requires
        in_contact(a, b),
        in_contact(a, first) ==> resolved_axis(a, first) == resolved_axis(a, b),
    ensures
        detected(
            detected(before, first_name, a, first, velocity_a, first_velocity),
            name,
            a,
            b,
            velocity_a,
            velocity_b,
        ) == detected(before, name, a, b, velocity_a, velocity_b),
{
}

/// A pair that overlapped along the horizontal axis only at the start of
/// the tick is resolved vertically: if it interpenetrates now, the
/// vertical slot is filled and the horizontal one left alone.
pub proof fn lemma_horizontal_overlap_resolves_vertically(
    before: CollideeView,
    name: Seq<char>,
    a: BoundingBox,
    b: BoundingBox,
    velocity_a: Vector2,
    velocity_b: Vector2,
)
    requires
        overlapped_before(a, b, Axis::Horizontal),
        !overlapped_before(a, b, Axis::Vertical),
    ensures
        resolved_axis(a, b) == Axis::Vertical,
        in_contact(a, b) ==> detected(before, name, a, b, velocity_a, velocity_b).vertical
            is Some,
        detected(before, name, a, b, velocity_a, velocity_b).horizontal == before.horizontal,
{
}

/// A pair that overlapped along the vertical axis only at the start of the
/// tick is resolved horizontally: if it interpenetrates now, the
/// horizontal slot is filled and the vertical one left alone.
pub proof fn lemma_vertical_overlap_resolves_horizontally(
    before: CollideeView,
    name: Seq<char>,
    a: BoundingBox,
    b: BoundingBox,
    velocity_a: Vector2,
    velocity_b: Vector2,
)
    requires
        !overlapped_before(a, b, Axis::Horizontal),
        overlapped_before(a, b, Axis::Vertical),
    ensures
        resolved_axis(a, b) == Axis::Horizontal,
        in_contact(a, b) ==> detected(before, name, a, b, velocity_a, velocity_b).horizontal
            is Some,
        detected(before, name, a, b, velocity_a, velocity_b).vertical == before.vertical,
{
}

/// A pair that overlapped along neither axis at the start of the tick is
/// resolved along the axis of the shallower penetration, and horizontally
/// when both are equally deep.
pub proof fn lemma_fresh_crossing_resolves_shallower_axis(a: BoundingBox, b: BoundingBox)
    requires
        !overlapped_before(a, b, Axis::Horizontal),
        !overlapped_before(a, b, Axis::Vertical),
    ensures
        magnitude(overlap(a, b, Axis::Horizontal)) <= magnitude(overlap(a, b, Axis::Vertical))
            ==> resolved_axis(a, b) == Axis::Horizontal,
        magnitude(overlap(a, b, Axis::Horizontal)) > magnitude(overlap(a, b, Axis::Vertical))
            ==> resolved_axis(a, b) == Axis::Vertical,
        magnitude(overlap(a, b, resolved_axis(a, b))) <= magnitude(
            overlap(a, b, Axis::Horizontal),
        ),
        magnitude(overlap(a, b, resolved_axis(a, b))) <= magnitude(overlap(a, b, Axis::Vertical)),
{
}

/// A pair that overlapped along both axes at the start of the tick is
/// resolved vertically.
pub proof fn lemma_standing_overlap_resolves_vertically(a: BoundingBox, b: BoundingBox)
    requires
        overlapped_before(a, b, Axis::Horizontal),
        overlapped_before(a, b, Axis::Vertical),
    ensures
        resolved_axis(a, b) == Axis::Vertical,
{
}

/// A body that is no faster than the pair closes never takes more than the
/// whole depth.
pub proof fn lemma_share_within_depth(depth: int, speed: int, closing: int)
    requires
        0 <= closing,
        closing == 0 || magnitude(speed) <= closing,
    ensures
        magnitude(attributed(depth, speed, closing)) <= magnitude(depth),
{
    if closing != 0 {
        let scaled = depth * speed;
        assert(magnitude(scaled) <= magnitude(depth) * closing) by (nonlinear_arith)
            requires
                scaled == depth * speed,
                magnitude(speed) <= closing,
        ;
        let raised = magnitude(scaled);
        let limit = magnitude(depth);
        assert(0 <= raised / closing <= limit) by (nonlinear_arith)
            requires
                0 <= raised <= limit * closing,
                0 < closing,
        ;
    }
}

/// The correction never exceeds the overlap along the resolved axis, or
/// along any axis, as long as the mover is no faster along it than the
/// pair closes.
pub proof fn lemma_correction_within_overlap(
    a: BoundingBox,
    b: BoundingBox,
    velocity_a: Vector2,
    velocity_b: Vector2,
    axis: Axis,
)
    requires
        speed_sum(velocity_a, velocity_b, axis) == 0 || magnitude(velocity_a.component(axis))
            <= speed_sum(velocity_a, velocity_b, axis),
    ensures
        magnitude(correction(a, b, velocity_a, velocity_b, axis)) <= magnitude(overlap(a, b, axis)),
{
    lemma_share_within_depth(
        overlap(a, b, axis),
        velocity_a.component(axis),
        speed_sum(velocity_a, velocity_b, axis),
    );
}

/// When mover and obstacle share their velocity along an axis, the mover
/// takes the whole overlap along it.
pub proof fn lemma_equal_velocities_take_whole_overlap(
    a: BoundingBox,
    b: BoundingBox,
    velocity_a: Vector2,
    velocity_b: Vector2,
    axis: Axis,
)
    requires
        velocity_a.component(axis) == velocity_b.component(axis),
    ensures
        correction(a, b, velocity_a, velocity_b, axis) == overlap(a, b, axis),
{
}

/// A mover at rest along an axis owes nothing along it while the obstacle
/// moves.
pub proof fn lemma_resting_mover_owes_nothing(
    a: BoundingBox,
    b: BoundingBox,
    velocity_a: Vector2,
    velocity_b: Vector2,
    axis: Axis,
)
    requires
        velocity_a.component(axis) == 0,
        velocity_b.component(axis) != 0,
    ensures
        correction(a, b, velocity_a, velocity_b, axis) == 0,
{
    let closing = speed_sum(velocity_a, velocity_b, axis);
    assert(overlap(a, b, axis) * 0 == 0);
    assert(0int / closing == 0) by (nonlinear_arith)
        requires
            closing > 0,
    ;
}

/// A mover that runs into an obstacle at rest takes the whole overlap, and
/// taking the correction off its position leaves the two boxes touching:
/// nothing of the penetration is left, and no gap opens.
pub proof fn lemma_resting_obstacle_is_cleared(
    a: BoundingBox,
    b: BoundingBox,
    velocity_a: Vector2,
    velocity_b: Vector2,
    axis: Axis,
)
    requires
        velocity_b.component(axis) == 0,
        overlap(a, b, axis) >= 0,
        velocity_a.component(axis) > 0 && a.position.component(axis) <= b.position.component(axis)
            || velocity_a.component(axis) < 0 && a.position.component(axis)
            >= b.position.component(axis),
    ensures
        magnitude(correction(a, b, velocity_a, velocity_b, axis)) == overlap(a, b, axis),
        magnitude(
            (a.position.component(axis) - correction(a, b, velocity_a, velocity_b, axis))
                - b.position.component(axis),
        ) == min_safe_distance(a, b, axis),
{
    let depth = overlap(a, b, axis);
    let speed = velocity_a.component(axis);
    let closing = magnitude(speed);
    assert(magnitude(depth * speed) == depth * closing && (depth * speed >= 0 <==> (speed > 0
        || depth == 0))) by (nonlinear_arith)
        requires
            depth >= 0,
            speed != 0,
            closing == magnitude(speed),
    ;
    assert((depth * closing) / closing == depth) by (nonlinear_arith)
        requires
            closing > 0,
    ;
}

/// Testing the same pair twice in a row gives what testing it once gives.
pub proof fn lemma_detection_is_idempotent(
    before: CollideeView,
    name: Seq<char>,
    a: BoundingBox,
    b: BoundingBox,
    velocity_a: Vector2,
    velocity_b: Vector2,
)
    ensures
        detected(
            detected(before, name, a, b, velocity_a, velocity_b),
            name,
            a,
            b,
            velocity_a,
            velocity_b,
        ) == detected(before, name, a, b, velocity_a, velocity_b),
{
}

/// Holding the same box against the same boundary twice in a row gives
/// what holding it once gives.
pub proof fn lemma_clamping_is_idempotent(
    before: CollideeView,
    name: Seq<char>,
    bb: BoundingBox,
    boundary: Boundary,
)
    ensures
        clamped(clamped(before, name, bb, boundary), name, bb, boundary) == clamped(
            before,
            name,
            bb,
            boundary,
        ),
{
}

/// A box that lies within a boundary is not corrected: the record stays as
/// it was, and only such a box leaves both axes alone.
pub proof fn lemma_inside_boundary_fills_no_slot(
    before: CollideeView,
    name: Seq<char>,
    bb: BoundingBox,
    boundary: Boundary,
)
    ensures
        inside(bb, boundary) <==> (excess(bb, boundary, Axis::Horizontal) == 0 && excess(
            bb,
            boundary,
            Axis::Vertical,
        ) == 0),
        inside(bb, boundary) ==> clamped(before, name, bb, boundary) == before,
{
}

/// A box whose right edge lies `delta` beyond the right edge of a boundary
/// is corrected horizontally by exactly `delta`, which puts its right edge
/// flush with that of the boundary.
pub proof fn lemma_beyond_right_edge(
    before: CollideeView,
    name: Seq<char>,
    bb: BoundingBox,
    boundary: Boundary,
    delta: int,
)
    requires
        delta > 0,
        bb.position.x + bb.half_size.x == boundary.right + delta,
    ensures
        clamped(before, name, bb, boundary).horizontal is Some,
        clamped(before, name, bb, boundary).horizontal->0.correction == delta,
        (bb.position.x - delta) + bb.half_size.x == boundary.right,
{
}

/// Whatever edge a box crosses, taking the recorded correction off its
/// position puts it flush with that edge: nothing of the penetration is left.
pub proof fn lemma_correction_leaves_no_penetration(
    bb: BoundingBox,
    boundary: Boundary,
    axis: Axis,
)
    ensures
        excess(bb, boundary, axis) > 0 ==> (bb.position.component(axis) - excess(
            bb,
            boundary,
            axis,
        )) + bb.half_size.component(axis) == boundary.upper(axis),
        excess(bb, boundary, axis) < 0 ==> (bb.position.component(axis) - excess(
            bb,
            boundary,
            axis,
        )) - bb.half_size.component(axis) == boundary.lower(axis),
{
}

} // verus!
