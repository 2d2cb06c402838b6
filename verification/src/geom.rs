//! Integer geometry: clamping and the two overlap tests the game uses,
//! circle-versus-rectangle (closest-point) and point-versus-circle.  All
//! coordinates are subpixels; overlap is decided on squared distances, so no
//! square root is ever taken and the tangent case is exclusive.
use vstd::prelude::*;

verus! {

/// Bound on any coordinate handed to the geometric tests, in subpixels.
/// Squared distances between in-bound coordinates stay inside `i64`.
pub const MAX_COORD_SPX: i64 = 1_000_000_000;

/// `v` clamped into the interval `[lo, hi]`.
pub open spec fn clamp_spec(v: int, lo: int, hi: int) -> int {
    if v < lo {
        lo
    } else if v > hi {
        hi
    } else {
        v
    }
}

/// Squared Euclidean distance between two points.
pub open spec fn dist_sq(ax: int, ay: int, bx: int, by: int) -> int {
    (ax - bx) * (ax - bx) + (ay - by) * (ay - by)
}

/// A circle overlaps an axis-aligned rectangle exactly when the squared
/// distance from the circle's centre to the closest point of the rectangle
/// is strictly below the squared radius; touching at exactly the radius
/// does not count.
pub open spec fn circle_rect_overlap_spec(
    cx: int,
    cy: int,
    r: int,
    rx: int,
    ry: int,
    rw: int,
    rh: int,
) -> bool {
    dist_sq(cx, cy, clamp_spec(cx, rx, rx + rw), clamp_spec(cy, ry, ry + rh)) < r * r
}

/// A point lies strictly inside a circle.
pub open spec fn point_in_circle_spec(px: int, py: int, cx: int, cy: int, r: int) -> bool {
    dist_sq(px, py, cx, cy) < r * r
}

/// `v` clamped into `[lo, hi]`.
pub fn clamp_i64(v: i64, lo: i64, hi: i64) -> (r: i64)
    requires
        lo <= hi,
    ensures
        r == clamp_spec(v as int, lo as int, hi as int),
{
    if v < lo {
        lo
    } else if v > hi {
        hi
    } else {
        v
    }
}

/// Closest-point test of a circle against an axis-aligned rectangle given by
/// its top-left corner and extent.
pub fn circle_rect_overlap(cx: i64, cy: i64, r: i64, rx: i64, ry: i64, rw: i64, rh: i64) -> (hit:
    bool)
    requires
        -MAX_COORD_SPX <= cx <= MAX_COORD_SPX,
        -MAX_COORD_SPX <= cy <= MAX_COORD_SPX,
        0 <= r <= MAX_COORD_SPX,
        -MAX_COORD_SPX <= rx,
        -MAX_COORD_SPX <= ry,
        0 <= rw,
        0 <= rh,
        rx + rw <= MAX_COORD_SPX,
        ry + rh <= MAX_COORD_SPX,
    ensures
        hit == circle_rect_overlap_spec(
            cx as int,
            cy as int,
            r as int,
            rx as int,
            ry as int,
            rw as int,
            rh as int,
        ),
{
    let closest_x = clamp_i64(cx, rx, rx + rw);
    let closest_y = clamp_i64(cy, ry, ry + rh);
    let dx = cx - closest_x;
    let dy = cy - closest_y;
    proof {
        lemma_square_bound(dx as int);
        lemma_square_bound(dy as int);
        lemma_square_bound(r as int);
    }
    dx * dx + dy * dy < r * r
}

/// Point-inside-circle test on squared distance.
pub fn point_in_circle(px: i64, py: i64, cx: i64, cy: i64, r: i64) -> (hit: bool)
    requires
        -MAX_COORD_SPX <= px <= MAX_COORD_SPX,
        -MAX_COORD_SPX <= py <= MAX_COORD_SPX,
        -MAX_COORD_SPX <= cx <= MAX_COORD_SPX,
        -MAX_COORD_SPX <= cy <= MAX_COORD_SPX,
        0 <= r <= MAX_COORD_SPX,
    ensures
        hit == point_in_circle_spec(px as int, py as int, cx as int, cy as int, r as int),
{
    let dx = px - cx;
    let dy = py - cy;
    proof {
        lemma_square_bound(dx as int);
        lemma_square_bound(dy as int);
        lemma_square_bound(r as int);
    }
    dx * dx + dy * dy < r * r
}

/// The square of a coordinate difference within twice the coordinate bound
/// fits comfortably in `i64`.
proof fn lemma_square_bound(d: int)
    requires
        -2 * MAX_COORD_SPX <= d <= 2 * MAX_COORD_SPX,
    ensures
        0 <= d * d <= 4_000_000_000_000_000_000,
{
    assert(0 <= d * d <= 4_000_000_000_000_000_000) by (nonlinear_arith)
        requires
            -2_000_000_000 <= d <= 2_000_000_000,
    ;
}

/// Negating both operands leaves a square unchanged.
proof fn lemma_square_neg(a: int)
    ensures
        (-a) * (-a) == a * a,
{
    assert((-a) * (-a) == a * a) by (nonlinear_arith);
}

/// Mirroring the circle's centre and the rectangle's horizontal bounds across
/// the vertical axis leaves the overlap test unchanged: the test depends only
/// on the relative horizontal placement.
pub proof fn lemma_overlap_reflect_x(cx: int, cy: int, r: int, rx: int, ry: int, rw: int, rh: int)
    requires
        0 <= rw,
        0 <= rh,
    ensures
        circle_rect_overlap_spec(cx, cy, r, rx, ry, rw, rh) == circle_rect_overlap_spec(
            -cx,
            cy,
            r,
            -(rx + rw),
            ry,
            rw,
            rh,
        ),
{
    let px = clamp_spec(cx, rx, rx + rw);
    let qx = clamp_spec(-cx, -(rx + rw), -(rx + rw) + rw);
    assert(qx == -px);
    lemma_square_neg(cx - px);
}

/// Mirroring the circle's centre and the rectangle's vertical bounds across
/// the horizontal axis leaves the overlap test unchanged.
pub proof fn lemma_overlap_reflect_y(cx: int, cy: int, r: int, rx: int, ry: int, rw: int, rh: int)
    requires
        0 <= rw,
        0 <= rh,
    ensures
        circle_rect_overlap_spec(cx, cy, r, rx, ry, rw, rh) == circle_rect_overlap_spec(
            cx,
            -cy,
            r,
            rx,
            -(ry + rh),
            rw,
            rh,
        ),
{
    let py = clamp_spec(cy, ry, ry + rh);
    let qy = clamp_spec(-cy, -(ry + rh), -(ry + rh) + rh);
    assert(qy == -py);
    lemma_square_neg(cy - py);
}

} // verus!
