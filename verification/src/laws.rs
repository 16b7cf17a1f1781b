//! General properties of the kernel, stated over its spec functions and
//! proved once for all inputs.

use vstd::prelude::*;
use crate::{coords, cross, orient, square_dist, Point};

verus! {

/// Constructing a point from two coordinates and decomposing it again yields
/// the same pair, in order.
pub proof fn lemma_construct_decompose(x: i64, y: i64)
    ensures
        coords(Point { x, y }) =~= seq![x, y],
{
}

/// Squared distance is symmetric in its two endpoints.
pub proof fn lemma_square_distance_symmetric(a: Point, b: Point)
    ensures
        square_dist(a, b) == square_dist(b, a),
{
    assert((a.x - b.x) * (a.x - b.x) == (b.x - a.x) * (b.x - a.x)) by (nonlinear_arith);
    assert((a.y - b.y) * (a.y - b.y) == (b.y - a.y) * (b.y - a.y)) by (nonlinear_arith);
}

/// The orientation determinant of `(a, b, c)` is the cross product of the
/// difference vectors `b - a` and `c - a`, so the two share one sign
/// convention.
pub proof fn lemma_orientation_is_cross_of_differences(
    a: Point,
    b: Point,
    c: Point,
    ab: Point,
    ac: Point,
)
    requires
        ab.x == b.x - a.x,
        ab.y == b.y - a.y,
        ac.x == c.x - a.x,
        ac.y == c.y - a.y,
    ensures
        orient(a, b, c) == cross(ab, ac),
{
}

/// Swapping the last two points of the orientation triple flips the sign of
/// the orientation determinant.
pub proof fn lemma_orientation_swap(a: Point, b: Point, c: Point)
    ensures
        orient(a, c, b) == -orient(a, b, c),
{
    assert((c.x - a.x) * (b.y - a.y) - (c.y - a.y) * (b.x - a.x)
        == -((b.x - a.x) * (c.y - a.y) - (b.y - a.y) * (c.x - a.x))) by (nonlinear_arith);
}

/// A point whose offset from `a` is a rational multiple `t/s` of the offset
/// of `b` from `a` lies on the line through `a` and `b`: its orientation
/// determinant vanishes.
pub proof fn lemma_orientation_collinear(a: Point, b: Point, c: Point, s: int, t: int)
    requires
        s != 0,
        s * (c.x - a.x) == t * (b.x - a.x),
        s * (c.y - a.y) == t * (b.y - a.y),
    ensures
        orient(a, b, c) == 0,
{
    assert(s * orient(a, b, c) == 0) by (nonlinear_arith)
        requires
            s * (c.x - a.x) == t * (b.x - a.x),
            s * (c.y - a.y) == t * (b.y - a.y),
            orient(a, b, c) == (b.x - a.x) * (c.y - a.y) - (b.y - a.y) * (c.x - a.x),
    ;
    assert(s * orient(a, b, c) == 0 && s != 0 ==> orient(a, b, c) == 0) by (nonlinear_arith);
}

} // verus!
