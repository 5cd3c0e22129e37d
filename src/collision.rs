//! Overlap of an axis-aligned box with a circle.
use vstd::prelude::*;
use crate::kinematics::COORD_LIMIT;

verus! {

/// Bound on the magnitude of each argument of `box_intersects_circle`.
pub const GEOMETRY_LIMIT: i64 = 4 * COORD_LIMIT;

/// `v` moved into `[lo, hi]`; a value below `lo` goes to `lo` first.
pub open spec fn clamp(v: int, lo: int, hi: int) -> int {
    if v < lo {
        lo
    } else if v > hi {
        hi
    } else {
        v
    }
}

/// Squared distance from `(cx, cy)` to the closest point of the box
/// `[min_x, max_x] x [min_y, max_y]`.
pub open spec fn box_distance_sq(min_x: int, min_y: int, max_x: int, max_y: int, cx: int, cy: int) -> int {
    let dx = cx - clamp(cx, min_x, max_x);
    let dy = cy - clamp(cy, min_y, max_y);
    dx * dx + dy * dy
}

/// The circle of centre `(cx, cy)` and radius `r` meets the box: the closest
/// point of the box lies no farther from the centre than the radius.
pub open spec fn circle_meets_box(
    min_x: int,
    min_y: int,
    max_x: int,
    max_y: int,
    cx: int,
    cy: int,
    r: int,
) -> bool {
    box_distance_sq(min_x, min_y, max_x, max_y, cx, cy) <= r * r
}

fn clamp_exec(v: i128, lo: i128, hi: i128) -> (r: i128)
    ensures
        r == clamp(v as int, lo as int, hi as int),
{
    if v < lo {
        lo
    } else if v > hi {
        hi
    } else {
        v
    }
}

/// Whether the box centred at `(center_x, center_y)` with half extents
/// `(half_width, half_height)` meets the circle centred at `(circle_x, circle_y)`
/// with radius `radius`.
pub fn box_intersects_circle(
    center_x: i64,
    center_y: i64,
    half_width: i64,
    half_height: i64,
    circle_x: i64,
    circle_y: i64,
    radius: i64,
) -> (r: bool)
    requires
        -GEOMETRY_LIMIT <= center_x <= GEOMETRY_LIMIT,
        -GEOMETRY_LIMIT <= center_y <= GEOMETRY_LIMIT,
        -GEOMETRY_LIMIT <= half_width <= GEOMETRY_LIMIT,
        -GEOMETRY_LIMIT <= half_height <= GEOMETRY_LIMIT,
        -GEOMETRY_LIMIT <= circle_x <= GEOMETRY_LIMIT,
        -GEOMETRY_LIMIT <= circle_y <= GEOMETRY_LIMIT,
        -GEOMETRY_LIMIT <= radius <= GEOMETRY_LIMIT,
    ensures
        r == circle_meets_box(
            center_x - half_width,
            center_y - half_height,
            center_x + half_width,
            center_y + half_height,
            circle_x as int,
            circle_y as int,
            radius as int,
        ),
{
    let cx = circle_x as i128;
    let cy = circle_y as i128;
    let near_x = clamp_exec(cx, center_x as i128 - half_width as i128, center_x as i128 + half_width as i128);
    let near_y = clamp_exec(cy, center_y as i128 - half_height as i128, center_y as i128 + half_height as i128);
    let dx = cx - near_x;
    let dy = cy - near_y;
    let rr = radius as i128;
    proof {
        let lim: int = 3 * GEOMETRY_LIMIT;
        assert(dx * dx <= lim * lim) by (nonlinear_arith)
            requires
                -lim <= dx <= lim,
        ;
        assert(dy * dy <= lim * lim) by (nonlinear_arith)
            requires
                -lim <= dy <= lim,
        ;
        assert(rr * rr <= lim * lim) by (nonlinear_arith)
            requires
                -lim <= rr <= lim,
        ;
        assert(0 <= dx * dx) by (nonlinear_arith);
        assert(0 <= dy * dy) by (nonlinear_arith);
        assert(0 <= rr * rr) by (nonlinear_arith);
    }
    dx * dx + dy * dy <= rr * rr
}

/// A circle whose centre lies inside the box always meets it; a circle whose
/// centre is farther from the box than its radius never does.
pub proof fn lemma_collision_cases(
    min_x: int,
    min_y: int,
    max_x: int,
    max_y: int,
    cx: int,
    cy: int,
    r: int,
)
    ensures
        min_x <= cx <= max_x && min_y <= cy <= max_y ==> circle_meets_box(
            min_x,
            min_y,
            max_x,
            max_y,
            cx,
            cy,
            r,
        ),
        box_distance_sq(min_x, min_y, max_x, max_y, cx, cy) > r * r ==> !circle_meets_box(
            min_x,
            min_y,
            max_x,
            max_y,
            cx,
            cy,
            r,
        ),
{
    assert(0 <= r * r) by (nonlinear_arith);
    if min_x <= cx <= max_x && min_y <= cy <= max_y {
        assert(clamp(cx, min_x, max_x) == cx);
        assert(clamp(cy, min_y, max_y) == cy);
        assert((cx - cx) * (cx - cx) + (cy - cy) * (cy - cy) == 0);
    }
}

} // verus!
