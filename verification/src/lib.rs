//! A 2D point/vector kernel over signed integer scalars.
//!
//! `Point` doubles as an absolute position and a free vector in the plane.
//! The operations offered here are the non-trigonometric subset of the kernel
//! that stays exact over any signed integer scalar: construction and
//! decomposition, positional indexing, componentwise algebra, dot and cross
//! products, squared magnitude and squared distance, and an exact orientation
//! predicate. Each operation's contract pins its result to the corresponding
//! mathematical function of the coordinates; preconditions state only what the
//! fixed-width machine arithmetic forces.

use vstd::prelude::*;

pub mod laws;

verus! {

/// Holds when an integer value is representable as an `i64`.
pub open spec fn fits_i64(v: int) -> bool {
    i64::MIN <= v <= i64::MAX
}

/// Holds when an integer value is representable as an `i128`.
pub open spec fn fits_i128(v: int) -> bool {
    i128::MIN <= v <= i128::MAX
}

/// A 2D point or free vector with signed integer coordinates.
///
/// Index 0 is `x`, index 1 is `y`. Values are copied freely; no operation
/// shares state.
#[derive(Clone, Copy, Debug)]
pub struct Point {
    pub x: i64,
    pub y: i64,
}

/// The coordinates of a point as a two-element sequence: index 0 is `x`,
/// index 1 is `y`.
pub open spec fn coords(p: Point) -> Seq<i64> {
    seq![p.x, p.y]
}

/// The dot product of two vectors, `x1*x2 + y1*y2`.
pub open spec fn dot(a: Point, b: Point) -> int {
    a.x * b.x + a.y * b.y
}

/// The scalar 2D cross product of two vectors, `x1*y2 - y1*x2`: positive when
/// the turn from the first to the second is counter-clockwise, negative when
/// clockwise, zero when they are collinear.
pub open spec fn cross(a: Point, b: Point) -> int {
    a.x * b.y - a.y * b.x
}

/// The squared Euclidean magnitude of a vector, `x*x + y*y`.
pub open spec fn square_mag(p: Point) -> int {
    p.x * p.x + p.y * p.y
}

/// The squared Euclidean distance between two points.
pub open spec fn square_dist(a: Point, b: Point) -> int {
    (a.x - b.x) * (a.x - b.x) + (a.y - b.y) * (a.y - b.y)
}

/// The orientation determinant of the ordered triple `(a, b, c)`: the cross
/// product of the vectors `b - a` and `c - a`. Positive when the triple turns
/// counter-clockwise, negative when clockwise, zero exactly when the three
/// points are collinear.
pub open spec fn orient(a: Point, b: Point, c: Point) -> int {
    (b.x - a.x) * (c.y - a.y) - (b.y - a.y) * (c.x - a.x)
}

impl Point {
    /// Constructs a point from its two coordinates.
    pub fn new(x: i64, y: i64) -> (r: Point)
        ensures
            r == (Point { x, y }),
    {
        Point { x, y }
    }

    /// Constructs a point from a two-element coordinate array.
    pub fn new_from_array(a: &[i64; 2]) -> (r: Point)
        ensures
            r == (Point { x: a[0], y: a[1] }),
    {
        Point { x: a[0], y: a[1] }
    }

    /// Constructs a point from the first two elements of a coordinate slice,
    /// ignoring the rest. A slice with fewer than two elements is a caller
    /// error and is excluded.
    pub fn new_from_slice(s: &[i64]) -> (r: Point)
        requires
            s@.len() >= 2,
        ensures
            r == (Point { x: s@[0], y: s@[1] }),
    {
        Point { x: s[0], y: s[1] }
    }

    /// Constructs a point by invoking the generator once per dimension index,
    /// in ascending order: index 0 yields `x`, then index 1 yields `y`.
    pub fn gen<F: Fn(usize) -> i64>(value: F) -> (r: Point)
        requires
            call_requires(value, (0usize,)),
            call_requires(value, (1usize,)),
        ensures
            call_ensures(value, (0usize,), r.x),
            call_ensures(value, (1usize,), r.y),
    {
        let x: i64 = value(0);
        let y: i64 = value(1);
        Point { x, y }
    }

    /// Tests coordinatewise equality.
    ///
    /// The kernel's equality tolerance is far below one, so over integer
    /// scalars it admits exactly the coordinatewise-equal pairs.
    pub fn equals(&self, other: &Point) -> (r: bool)
        ensures
            r == (self.x == other.x && self.y == other.y),
    {
        self.x == other.x && self.y == other.y
    }

    /// Tests coordinatewise equality within a caller-chosen tolerance: true
    /// exactly when both coordinate differences are at most `eps` in absolute
    /// value, even where the raw values differ.
    pub fn equals_within(&self, other: &Point, eps: i64) -> (r: bool)
        requires
            eps >= 0,
            fits_i64(self.x - other.x),
            fits_i64(self.y - other.y),
        ensures
            r == (-eps <= self.x - other.x <= eps && -eps <= self.y - other.y <= eps),
    {
        let dx: i64 = self.x - other.x;
        let dy: i64 = self.y - other.y;
        -eps <= dx && dx <= eps && -eps <= dy && dy <= eps
    }

    /// Decomposes the point into a two-element coordinate array.
    pub fn as_array(&self) -> (r: [i64; 2])
        ensures
            r@ == coords(*self),
    {
        let r = [self.x, self.y];
        proof {
            assert(r@ =~= coords(*self));
        }
        r
    }

    /// Decomposes the point into an `(x, y)` tuple.
    pub fn as_tuple(&self) -> (r: (i64, i64))
        ensures
            r.0 == self.x,
            r.1 == self.y,
    {
        (self.x, self.y)
    }

    /// The coordinate at a dimension index: 0 is `x`, 1 is `y`.
    ///
    /// Indexing outside the two dimensions is a caller error and is excluded.
    pub fn val(&self, i: usize) -> (r: i64)
        requires
            i < 2,
        ensures
            r == coords(*self)[i as int],
    {
        if i == 0 {
            self.x
        } else {
            self.y
        }
    }

    /// A mutable borrow of the coordinate at a dimension index: 0 is `x`,
    /// 1 is `y`. The other coordinate is unchanged.
    ///
    /// Indexing outside the two dimensions is a caller error and is excluded.
    pub fn val_mut(&mut self, i: usize) -> (r: &mut i64)
        requires
            i < 2,
        ensures
            *r == coords(*old(self))[i as int],
            i == 0 ==> *final(self) == (Point { x: *final(r), y: old(self).y }),
            i == 1 ==> *final(self) == (Point { x: old(self).x, y: *final(r) }),
    {
        if i == 0 {
            &mut self.x
        } else {
            &mut self.y
        }
    }

    /// Componentwise vector sum.
    pub fn add(&self, other: &Point) -> (r: Point)
        requires
            fits_i64(self.x + other.x),
            fits_i64(self.y + other.y),
        ensures
            r.x == self.x + other.x,
            r.y == self.y + other.y,
    {
        Point { x: self.x + other.x, y: self.y + other.y }
    }

    /// Componentwise vector difference: the vector from `other` to `self`.
    pub fn sub(&self, other: &Point) -> (r: Point)
        requires
            fits_i64(self.x - other.x),
            fits_i64(self.y - other.y),
        ensures
            r.x == self.x - other.x,
            r.y == self.y - other.y,
    {
        Point { x: self.x - other.x, y: self.y - other.y }
    }

    /// Scales both components by the constant `k`.
    pub fn kproduct(&self, k: i64) -> (r: Point)
        requires
            fits_i64(self.x * k),
            fits_i64(self.y * k),
        ensures
            r.x == self.x * k,
            r.y == self.y * k,
    {
        Point { x: self.x * k, y: self.y * k }
    }

    /// The negation of the point: both components scaled by -1.
    pub fn neg(&self) -> (r: Point)
        requires
            self.x > i64::MIN,
            self.y > i64::MIN,
        ensures
            r.x == -self.x,
            r.y == -self.y,
    {
        self.kproduct(-1)
    }

    /// The dot product of `self` and `o` as vectors.
    pub fn dot_product(&self, o: Point) -> (r: i64)
        requires
            fits_i64(self.x * o.x),
            fits_i64(self.y * o.y),
            fits_i64(dot(*self, o)),
        ensures
            r == dot(*self, o),
    {
        (self.x * o.x) + (self.y * o.y)
    }

    /// The scalar 2D cross product of `self` and `b` as vectors: the
    /// z-component of their 3D cross product, positive when the turn from
    /// `self` to `b` is counter-clockwise and negative when clockwise.
    pub fn cross_product(&self, b: Point) -> (r: i64)
        requires
            fits_i64(self.x * b.y),
            fits_i64(self.y * b.x),
            fits_i64(cross(*self, b)),
        ensures
            r == cross(*self, b),
    {
        (self.x * b.y) - (self.y * b.x)
    }

    /// The squared magnitude of the point as a vector, `x*x + y*y`. Offered
    /// so that comparisons need no square root.
    pub fn square_magnitude(&self) -> (r: i64)
        requires
            square_mag(*self) <= i64::MAX,
        ensures
            r == square_mag(*self),
            r >= 0,
    {
        proof {
            assert(self.x * self.x >= 0) by (nonlinear_arith);
            assert(self.y * self.y >= 0) by (nonlinear_arith);
        }
        (self.x * self.x) + (self.y * self.y)
    }

    /// The squared Euclidean distance between two points: the squared
    /// magnitude of their difference vector.
    pub fn square_distance(&self, other: &Point) -> (r: i64)
        requires
            fits_i64(self.x - other.x),
            fits_i64(self.y - other.y),
            square_dist(*self, *other) <= i64::MAX,
        ensures
            r == square_dist(*self, *other),
            r >= 0,
    {
        let dx: i64 = self.x - other.x;
        let dy: i64 = self.y - other.y;
        proof {
            assert(dx * dx >= 0) by (nonlinear_arith);
            assert(dy * dy >= 0) by (nonlinear_arith);
        }
        (dx * dx) + (dy * dy)
    }

    /// The exact orientation determinant of the ordered triple
    /// `(a, b, self)`: positive when the triple makes a counter-clockwise
    /// turn, negative when clockwise, and exactly zero when the three points
    /// are collinear. The sign convention matches [`Point::cross_product`]
    /// applied to the difference vectors `b - a` and `self - a`.
    pub fn orientation2d(&self, a: Point, b: Point) -> (r: i128)
        requires
            fits_i64(b.x - a.x),
            fits_i64(b.y - a.y),
            fits_i64(self.x - a.x),
            fits_i64(self.y - a.y),
            fits_i128(orient(a, b, *self)),
        ensures
            r == orient(a, b, *self),
    {
        let d1x: i128 = (b.x as i128) - (a.x as i128);
        let d1y: i128 = (b.y as i128) - (a.y as i128);
        let d2x: i128 = (self.x as i128) - (a.x as i128);
        let d2y: i128 = (self.y as i128) - (a.y as i128);
        proof {
            lemma_i64_range_product_fits(d1x as int, d2y as int);
            lemma_i64_range_product_fits(d1y as int, d2x as int);
        }
        let p1: i128 = d1x * d2y;
        let p2: i128 = d1y * d2x;
        p1 - p2
    }
}

/// The product of two values from the `i64` range stays within the `i128`
/// range.
proof fn lemma_i64_range_product_fits(a: int, b: int)
    requires
        fits_i64(a),
        fits_i64(b),
    ensures
        fits_i128(a * b),
{
    assert(i128::MIN <= a * b <= i128::MAX) by (nonlinear_arith)
        requires
            -0x8000_0000_0000_0000 <= a <= 0x7fff_ffff_ffff_ffff,
            -0x8000_0000_0000_0000 <= b <= 0x7fff_ffff_ffff_ffff,
    ;
}

impl PartialEq for Point {
    /// Equality of points is the coordinatewise equality of [`Point::equals`].
    fn eq(&self, other: &Point) -> (r: bool)
    {
        self.equals(other)
    }
}

impl vstd::std_specs::cmp::PartialEqSpecImpl for Point {
    open spec fn obeys_eq_spec() -> bool {
        true
    }

    open spec fn eq_spec(&self, other: &Point) -> bool {
        self.x == other.x && self.y == other.y
    }
}

} // verus!
