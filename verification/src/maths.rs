//! 2D points on an integer grid, and the exact arithmetic the collision
//! predicates are built on.

use vstd::prelude::*;

verus! {

/// Bound on every coordinate and radius the collision predicates work with,
/// chosen so that every product of coordinate differences fits in an `i64`.
pub const COORD_LIMIT: i64 = 1_000_000_000;

/// A `Point` represents a position in space; it doubles as a 2D vector.
#[derive(Clone, Copy, PartialEq, Eq, Structural, Debug)]
pub struct Point {
    pub x: i64,
    pub y: i64,
}

/// The dot product of `a` and `b` taken as vectors.
pub open spec fn dot_value(a: Point, b: Point) -> int {
    a.x * b.x + a.y * b.y
}

/// The 2D cross product ("perp dot product") of `a` and `b` taken as
/// vectors; its sign gives the rotational orientation of `b` relative to `a`.
pub open spec fn cross_value(a: Point, b: Point) -> int {
    a.x * b.y - a.y * b.x
}

/// The squared Euclidean distance between `a` and `b`.
pub open spec fn squared_distance(a: Point, b: Point) -> int {
    (a.x - b.x) * (a.x - b.x) + (a.y - b.y) * (a.y - b.y)
}

/// The side-of-line value of `p` relative to the directed line through `a`
/// and `b`: positive on one fixed side, negative on the other, zero exactly
/// when `p` is collinear with the infinite extension of the segment. Only its
/// sign carries meaning for containment logic.
pub open spec fn side_of_line(a: Point, b: Point, p: Point) -> int {
    (b.x - a.x) * (p.y - a.y) - (b.y - a.y) * (p.x - a.x)
}

/// A product of two numbers bounded in magnitude is bounded by the product of
/// the bounds.
pub proof fn lemma_mul_bound(a: int, b: int, m: int, n: int)
    by (nonlinear_arith)
    requires
        -m <= a <= m,
        -n <= b <= n,
        0 <= m,
        0 <= n,
    ensures
        -(m * n) <= a * b <= m * n,
{
}

/// Squaring is strictly monotonic on the non-negative numbers.
pub proof fn lemma_square_strictly_monotonic(a: int, b: int)
    by (nonlinear_arith)
    requires
        0 <= a < b,
    ensures
        a * a < b * b,
{
}

/// A square is never negative.
pub proof fn lemma_square_nonneg(a: int)
    by (nonlinear_arith)
    ensures
        0 <= a * a,
{
}

impl Point {
    /// Both coordinates lie within `COORD_LIMIT`, which keeps the arithmetic
    /// of every predicate within `i64`.
    pub open spec fn in_bounds(self) -> bool {
        -COORD_LIMIT <= self.x <= COORD_LIMIT && -COORD_LIMIT <= self.y <= COORD_LIMIT
    }

    /// Returns a new `Point` with the given coordinates.
    pub fn new(x: i64, y: i64) -> (p: Point)
        ensures
            p == (Point { x, y }),
    {
        Point { x, y }
    }

    /// Returns the squared distance from this point to the given one.
    pub fn squared_distance_to(&self, target: Point) -> (r: i64)
        requires
            self.in_bounds(),
            target.in_bounds(),
        ensures
            r == squared_distance(*self, target),
            r >= 0,
    {
        let dx: i64 = self.x - target.x;
        let dy: i64 = self.y - target.y;
        proof {
            lemma_mul_bound(dx as int, dx as int, 2_000_000_000, 2_000_000_000);
            lemma_mul_bound(dy as int, dy as int, 2_000_000_000, 2_000_000_000);
            lemma_square_nonneg(dx as int);
            lemma_square_nonneg(dy as int);
        }
        dx * dx + dy * dy
    }

    /// Returns the distance from this point to the given one, rounded down
    /// to the grid: the floor of the exact Euclidean distance.
    pub fn distance_to_point(&self, point: Point) -> (r: i64)
        requires
            self.in_bounds(),
            point.in_bounds(),
        ensures
            0 <= r,
            r * r <= squared_distance(*self, point) < (r + 1) * (r + 1),
    {
        let sq = self.squared_distance_to(point);
        let root = isqrt(sq as u64);
        root as i64
    }

    /// Translates the point by another point.
    pub fn translate(self, other: Point) -> (r: Point)
        requires
            self.in_bounds(),
            other.in_bounds(),
        ensures
            r.x == self.x + other.x,
            r.y == self.y + other.y,
    {
        Point { x: self.x + other.x, y: self.y + other.y }
    }

    /// Returns the point translated by another point, leaving this one alone.
    pub fn translated(&self, other: Point) -> (r: Point)
        requires
            self.in_bounds(),
            other.in_bounds(),
        ensures
            r.x == self.x + other.x,
            r.y == self.y + other.y,
    {
        Point { x: self.x + other.x, y: self.y + other.y }
    }

    /// Reflects the point across the x axis.
    pub fn normal(&self) -> (r: Point)
        requires
            self.in_bounds(),
        ensures
            r.x == self.x,
            r.y == -self.y,
    {
        Point { x: self.x, y: -self.y }
    }

    /// Negates both coordinates, turning a vector around.
    pub fn invert(&self) -> (r: Point)
        requires
            self.in_bounds(),
        ensures
            r.x == -self.x,
            r.y == -self.y,
    {
        Point { x: -self.x, y: -self.y }
    }

    /// The dot product of this point and `p`, taken as vectors.
    pub fn dot(&self, p: Point) -> (r: i64)
        requires
            self.in_bounds(),
            p.in_bounds(),
        ensures
            r == dot_value(*self, p),
    {
        proof {
            lemma_mul_bound(self.x as int, p.x as int, COORD_LIMIT as int, COORD_LIMIT as int);
            lemma_mul_bound(self.y as int, p.y as int, COORD_LIMIT as int, COORD_LIMIT as int);
        }
        self.x * p.x + self.y * p.y
    }

    /// The 2D cross product of this point and `p`, taken as vectors.
    pub fn cross(&self, p: Point) -> (r: i64)
        requires
            self.in_bounds(),
            p.in_bounds(),
        ensures
            r == cross_value(*self, p),
    {
        proof {
            lemma_mul_bound(self.x as int, p.y as int, COORD_LIMIT as int, COORD_LIMIT as int);
            lemma_mul_bound(self.y as int, p.x as int, COORD_LIMIT as int, COORD_LIMIT as int);
        }
        self.x * p.y - self.y * p.x
    }

    /// Scales both coordinates by `scalar`.
    pub fn multiply_by_scalar(&self, scalar: i64) -> (r: Point)
        requires
            i64::MIN <= self.x * scalar <= i64::MAX,
            i64::MIN <= self.y * scalar <= i64::MAX,
        ensures
            r.x == self.x * scalar,
            r.y == self.y * scalar,
    {
        Point { x: self.x * scalar, y: self.y * scalar }
    }
}

/// The integer square root: the largest number whose square does not exceed
/// `n`, found by bisection.
pub fn isqrt(n: u64) -> (r: u64)
    ensures
        r * r <= n < (r + 1) * (r + 1),
        r < 0x1_0000_0000,
{
    let mut lo: u64 = 0;
    let mut hi: u64 = 0x1_0000_0000;
    proof {
        assert((0x1_0000_0000 as int) * (0x1_0000_0000 as int) > u64::MAX as int)
            by (nonlinear_arith);
    }
    while lo + 1 < hi
        invariant
            lo < hi <= 0x1_0000_0000,
            lo * lo <= n,
            n < hi * hi,
        decreases hi - lo,
    {
        let mid = lo + (hi - lo) / 2;
        proof {
            lemma_mul_bound(mid as int, mid as int, 0xffff_ffff, 0xffff_ffff);
        }
        let sq = mid * mid;
        if sq <= n {
            lo = mid;
        } else {
            hi = mid;
        }
    }
    lo
}

} // verus!
