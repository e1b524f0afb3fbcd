//! The collision-detection core: exact point-in-shape and shape-versus-circle
//! predicates for circles, line segments, convex polygons and annular arcs.
//!
//! Every test reduces to integer sign tests and squared-distance comparisons,
//! so each predicate is exact: there is no rounding, no square root and no
//! undefined division anywhere in a decision.

use vstd::arithmetic::div_mod::lemma_mod_self_0;
use vstd::arithmetic::div_mod::lemma_small_mod;
use vstd::prelude::*;

use crate::maths::cross_value;
use crate::maths::lemma_mul_bound;
use crate::maths::side_of_line;
use crate::maths::squared_distance;
use crate::maths::Point;
use crate::maths::COORD_LIMIT;

verus! {

/// A circle given by its radius and centre; radius 0 denotes a point.
#[derive(Clone, Copy, PartialEq, Eq, Structural, Debug)]
pub struct Circle {
    pub radius: i64,
    pub centre: Point,
}

impl Circle {
    /// A well-formed circle: non-negative radius, both bounded by the grid.
    pub open spec fn wf(self) -> bool {
        0 <= self.radius <= COORD_LIMIT && self.centre.in_bounds()
    }

    /// `p` lies strictly inside the circle. The disk is open: a point
    /// exactly on the boundary is not contained.
    pub open spec fn contains_point(self, p: Point) -> bool {
        squared_distance(self.centre, p) < self.radius * self.radius
    }

    /// The circles overlap: the distance between the centres is strictly
    /// below the sum of the radii, so externally tangent circles do not
    /// count as intersecting.
    pub open spec fn intersects_circle(self, other: Circle) -> bool {
        squared_distance(self.centre, other.centre) < (self.radius + other.radius) * (self.radius
            + other.radius)
    }

    /// Decides `contains_point` by comparing squared distances.
    pub fn collide_with_point(&self, point: Point) -> (r: bool)
        requires
            self.wf(),
            point.in_bounds(),
        ensures
            r == self.contains_point(point),
    {
        let sq = self.centre.squared_distance_to(point);
        proof {
            lemma_mul_bound(
                self.radius as int,
                self.radius as int,
                COORD_LIMIT as int,
                COORD_LIMIT as int,
            );
        }
        sq < self.radius * self.radius
    }

    /// Decides `intersects_circle` by comparing squared distances.
    pub fn collide_with_circle(&self, circle: &Circle) -> (r: bool)
        requires
            self.wf(),
            circle.wf(),
        ensures
            r == self.intersects_circle(*circle),
    {
        let sq = self.centre.squared_distance_to(circle.centre);
        let radii = self.radius + circle.radius;
        proof {
            lemma_mul_bound(radii as int, radii as int, 2_000_000_000, 2_000_000_000);
        }
        sq < radii * radii
    }
}

/// Circle intersection is symmetric: swapping the two circles never changes
/// the answer.
pub proof fn lemma_intersects_circle_symmetric(c1: Circle, c2: Circle)
    ensures
        c1.intersects_circle(c2) == c2.intersects_circle(c1),
{
    lemma_squared_distance_symmetric(
        c1.centre.x as int,
        c1.centre.y as int,
        c2.centre.x as int,
        c2.centre.y as int,
    );
}

proof fn lemma_squared_distance_symmetric(ax: int, ay: int, bx: int, b_y: int)
    by (nonlinear_arith)
    ensures
        (ax - bx) * (ax - bx) + (ay - b_y) * (ay - b_y) == (bx - ax) * (bx - ax) + (b_y - ay) * (
        b_y - ay),
{
}

/// Externally tangent circles — the centre distance exactly the sum of the
/// radii — do not intersect: the comparison is strict.
pub proof fn lemma_tangent_circles_do_not_intersect(c1: Circle, c2: Circle)
    requires
        squared_distance(c1.centre, c2.centre) == (c1.radius + c2.radius) * (c1.radius
            + c2.radius),
    ensures
        !c1.intersects_circle(c2),
{
}

/// Open-disk semantics of circle containment: a point strictly closer to
/// the centre than the radius is contained, a point exactly on the boundary
/// is not.
pub proof fn lemma_open_disk_semantics(c: Circle, p: Point)
    ensures
        squared_distance(c.centre, p) < c.radius * c.radius ==> c.contains_point(p),
        squared_distance(c.centre, p) == c.radius * c.radius ==> !c.contains_point(p),
{
}

/// A line segment directed from `a` to `b`.
#[derive(Clone, Copy, PartialEq, Eq, Structural, Debug)]
pub struct LineSegment {
    pub a: Point,
    pub b: Point,
}

impl LineSegment {
    /// Both endpoints lie on the bounded grid.
    pub open spec fn wf(self) -> bool {
        self.a.in_bounds() && self.b.in_bounds()
    }

    /// Returns a new segment over the given endpoints. Distinct endpoints
    /// make the side test meaningful; on the integer grid a zero-length
    /// segment is not an error, its side value is simply 0 for every point.
    pub fn new(p1: Point, p2: Point) -> (s: LineSegment)
        ensures
            s == (LineSegment { a: p1, b: p2 }),
    {
        LineSegment { a: p1, b: p2 }
    }

    /// If left of line: > 0, if right of line: < 0, if on line: == 0.
    /// Callers must only use the sign — the magnitude depends on the
    /// coordinate scale and carries no meaning for containment.
    pub fn point_is_on_side(&self, p: Point) -> (r: i64)
        requires
            self.wf(),
            p.in_bounds(),
        ensures
            r == side_of_line(self.a, self.b, p),
    {
        let v1x: i64 = self.b.x - self.a.x;
        let v1y: i64 = self.b.y - self.a.y;
        let v2x: i64 = p.x - self.a.x;
        let v2y: i64 = p.y - self.a.y;
        proof {
            lemma_mul_bound(v1x as int, v2y as int, 2_000_000_000, 2_000_000_000);
            lemma_mul_bound(v1y as int, v2x as int, 2_000_000_000, 2_000_000_000);
        }
        v1x * v2y - v1y * v2x
    }
}

/// The side value of `p` against edge `k` of the closed loop over `pts`:
/// the edge from vertex `k` to the next vertex, the last wrapping back to
/// the first.
pub open spec fn edge_side(pts: Seq<Point>, k: int, p: Point) -> int {
    side_of_line(pts[k], pts[(k + 1) % (pts.len() as int)], p)
}

/// `p` is on the non-positive side of every edge of the loop over `pts`.
pub open spec fn all_edges_nonpos(pts: Seq<Point>, p: Point) -> bool {
    forall|k: int| 0 <= k < pts.len() ==> #[trigger] edge_side(pts, k, p) <= 0
}

/// `p` is on the non-negative side of every edge of the loop over `pts`.
pub open spec fn all_edges_nonneg(pts: Seq<Point>, p: Point) -> bool {
    forall|k: int| 0 <= k < pts.len() ==> #[trigger] edge_side(pts, k, p) >= 0
}

/// Containment in the closed loop over `pts`: the point is consistently on
/// one side — boundary included — of every edge. Stated this way the test
/// accepts either winding order.
pub open spec fn polygon_contains(pts: Seq<Point>, p: Point) -> bool {
    all_edges_nonpos(pts, p) || all_edges_nonneg(pts, p)
}

/// An ordered sequence of vertices interpreted as a closed convex loop.
#[derive(Clone, Debug)]
pub struct ConvexPolygon {
    pub points: Vec<Point>,
}

impl ConvexPolygon {
    /// Vertices of a meaningful polygon: at least three of them, on the
    /// bounded grid. That the loop is convex and consistently wound remains
    /// the caller's contract, exactly as in the data model: the containment
    /// algorithm does not check it and answers for the loop as given.
    pub open spec fn wf(self) -> bool {
        self.points@.len() >= 3 && forall|i: int|
            0 <= i < self.points@.len() ==> (#[trigger] self.points@[i]).in_bounds()
    }

    /// Returns a new polygon over the given vertex loop.
    pub fn new(points: Vec<Point>) -> (poly: ConvexPolygon)
        requires
            points@.len() >= 3,
        ensures
            poly.points@ == points@,
    {
        ConvexPolygon { points }
    }

    /// Decides `polygon_contains`: `point` is contained exactly when all
    /// edge side values are `<= 0` or all are `>= 0`, which treats
    /// boundary-touching points as contained and either winding order alike.
    pub fn collide_with_point(&self, point: Point) -> (r: bool)
        requires
            self.wf(),
            point.in_bounds(),
        ensures
            r == polygon_contains(self.points@, point),
    {
        let n = self.points.len();
        let mut all_nonpos = true;
        let mut all_nonneg = true;
        let mut i: usize = 0;
        while i < n
            invariant
                n == self.points@.len(),
                3 <= n,
                self.wf(),
                point.in_bounds(),
                i <= n,
                all_nonpos == (forall|k: int|
                    0 <= k < i ==> #[trigger] edge_side(self.points@, k, point) <= 0),
                all_nonneg == (forall|k: int|
                    0 <= k < i ==> #[trigger] edge_side(self.points@, k, point) >= 0),
            decreases n - i,
        {
            let j = if i + 1 == n {
                0
            } else {
                i + 1
            };
            proof {
                if i + 1 == n {
                    lemma_mod_self_0(n as int);
                } else {
                    lemma_small_mod((i + 1) as nat, n as nat);
                }
            }
            let edge = LineSegment { a: self.points[i], b: self.points[j] };
            let side = edge.point_is_on_side(point);
            proof {
                assert(j as int == (i as int + 1) % (n as int));
                assert(edge_side(self.points@, i as int, point) == side);
            }
            if side > 0 {
                all_nonpos = false;
            }
            if side < 0 {
                all_nonneg = false;
            }
            i = i + 1;
        }
        all_nonpos || all_nonneg
    }
}

/// The index of the edge of the reversed loop that runs along edge `j` of
/// the original loop, in the opposite direction.
pub open spec fn reversed_edge_index(n: int, j: int) -> int {
    if j == n - 1 {
        n - 1
    } else {
        n - 2 - j
    }
}

/// Reading the side value of the same geometric edge against the same point
/// with the endpoints swapped flips its sign.
pub proof fn lemma_side_of_line_antisymmetric(a: Point, b: Point, p: Point)
    ensures
        side_of_line(b, a, p) == -side_of_line(a, b, p),
{
    lemma_swapped_side_values(a.x as int, a.y as int, b.x as int, b.y as int, p.x as int, p.y as int);
}

proof fn lemma_swapped_side_values(ax: int, ay: int, bx: int, b_y: int, px: int, py: int)
    by (nonlinear_arith)
    ensures
        (ax - bx) * (py - b_y) - (ay - b_y) * (px - bx) == -((bx - ax) * (py - ay) - (b_y - ay) * (
        px - ax)),
{
}

/// Edge `j` of a loop reappears in the reversed loop as edge
/// `reversed_edge_index`, endpoints swapped, so its side value changes sign
/// and nothing else.
proof fn lemma_reversed_edge(pts: Seq<Point>, j: int, p: Point)
    requires
        pts.len() >= 1,
        0 <= j < pts.len(),
    ensures
        edge_side(pts.reverse(), reversed_edge_index(pts.len() as int, j), p) == -edge_side(
            pts,
            j,
            p,
        ),
{
    let n = pts.len() as int;
    let rev = pts.reverse();
    assert(rev.len() == n);
    let k = reversed_edge_index(n, j);
    if j == n - 1 {
        lemma_mod_self_0(n);
        assert(rev[n - 1] == pts[0]);
        assert(rev[0] == pts[n - 1]);
        lemma_side_of_line_antisymmetric(pts[n - 1], pts[0], p);
    } else {
        lemma_small_mod((j + 1) as nat, n as nat);
        lemma_small_mod((k + 1) as nat, n as nat);
        assert(rev[k] == pts[j + 1]);
        assert(rev[k + 1] == pts[j]);
        lemma_side_of_line_antisymmetric(pts[j], pts[j + 1], p);
    }
}

/// The winding order of the vertices does not matter: the loop read
/// backwards contains exactly the same points as the loop as given.
pub proof fn lemma_winding_order_irrelevant(pts: Seq<Point>, p: Point)
    requires
        pts.len() >= 3,
    ensures
        polygon_contains(pts.reverse(), p) == polygon_contains(pts, p),
{
    let n = pts.len() as int;
    let rev = pts.reverse();
    assert(rev.len() == n);
    if all_edges_nonpos(pts, p) {
        assert forall|k: int| 0 <= k < n implies #[trigger] edge_side(rev, k, p) >= 0 by {
            let j = reversed_edge_index(n, k);
            lemma_reversed_edge(pts, j, p);
            assert(reversed_edge_index(n, j) == k);
            assert(edge_side(pts, j, p) <= 0);
        }
        assert(all_edges_nonneg(rev, p));
    }
    if all_edges_nonneg(pts, p) {
        assert forall|k: int| 0 <= k < n implies #[trigger] edge_side(rev, k, p) <= 0 by {
            let j = reversed_edge_index(n, k);
            lemma_reversed_edge(pts, j, p);
            assert(reversed_edge_index(n, j) == k);
            assert(edge_side(pts, j, p) >= 0);
        }
        assert(all_edges_nonpos(rev, p));
    }
    if all_edges_nonpos(rev, p) {
        assert forall|j: int| 0 <= j < n implies #[trigger] edge_side(pts, j, p) >= 0 by {
            lemma_reversed_edge(pts, j, p);
            assert(edge_side(rev, reversed_edge_index(n, j), p) <= 0);
        }
        assert(all_edges_nonneg(pts, p));
    }
    if all_edges_nonneg(rev, p) {
        assert forall|j: int| 0 <= j < n implies #[trigger] edge_side(pts, j, p) <= 0 by {
            lemma_reversed_edge(pts, j, p);
            assert(edge_side(rev, reversed_edge_index(n, j), p) >= 0);
        }
        assert(all_edges_nonpos(pts, p));
    }
}

/// The side-of-line value of `p` against the boundary ray from `centre`
/// along the direction `dir`: by convention the value of the segment from
/// `centre + dir` back to `centre`, so `<= 0` means `p` lies
/// counter-clockwise of the ray or on it.
pub open spec fn ray_side(centre: Point, dir: Point, p: Point) -> int {
    dir.y * (p.x - centre.x) - dir.x * (p.y - centre.y)
}

/// `ray_side` really is the plain side-of-line value of the segment from
/// `centre + dir` to `centre`.
pub proof fn lemma_ray_side_is_side_of_line(centre: Point, dir: Point, p: Point)
    requires
        centre.in_bounds(),
        dir.in_bounds(),
    ensures
        ray_side(centre, dir, p) == side_of_line(
            Point { x: (centre.x + dir.x) as i64, y: (centre.y + dir.y) as i64 },
            centre,
            p,
        ),
{
    lemma_ray_side_expansion(
        centre.x as int,
        centre.y as int,
        dir.x as int,
        dir.y as int,
        p.x as int,
        p.y as int,
    );
}

proof fn lemma_ray_side_expansion(cx: int, cy: int, dx: int, dy: int, px: int, py: int)
    by (nonlinear_arith)
    ensures
        dy * (px - cx) - dx * (py - cy) == (cx - (cx + dx)) * (py - (cy + dy)) - (cy - (cy + dy)) * (
        px - (cx + dx)),
{
}

/// An annular wedge: the points lying outside the inner circle, inside the
/// outer circle at `inner radius + thickness`, and within the wedge that
/// runs counter-clockwise from the start ray to the end ray.
///
/// The data model speaks of a start and an end angle; each boundary ray is
/// carried here as an exact direction vector instead, so the angular test
/// stays an exact sign test. A front end that thinks in radians converts an
/// angle to a direction once, with whatever precision it owns.
#[derive(Clone, Copy, PartialEq, Eq, Structural, Debug)]
pub struct Arc {
    pub start_direction: Point,
    pub end_direction: Point,
    pub thickness: i64,
    pub inner_circle: Circle,
}

impl Arc {
    /// A well-formed arc: a well-formed inner circle, a non-negative
    /// thickness that keeps the outer radius on the grid, and two non-zero
    /// boundary ray directions on the grid.
    pub open spec fn wf(self) -> bool {
        &&& self.inner_circle.wf()
        &&& 0 <= self.thickness
        &&& self.inner_circle.radius + self.thickness <= COORD_LIMIT
        &&& self.start_direction.in_bounds()
        &&& self.end_direction.in_bounds()
        &&& self.start_direction != (Point { x: 0, y: 0 })
        &&& self.end_direction != (Point { x: 0, y: 0 })
    }

    /// The wedge spans more than half a turn exactly when the end direction
    /// lies clockwise of the start direction. This is the corrected form of
    /// the angular-span threshold — the difference of the two boundary
    /// angles, normalized to a full turn, compared against half a turn —
    /// computed as one exact sign test on the two direction vectors.
    pub open spec fn spans_more_than_half_turn(self) -> bool {
        cross_value(self.start_direction, self.end_direction) < 0
    }

    /// The direction of `p` from the centre lies within the wedge: on the
    /// qualifying side (`<= 0`) of the start ray and on the qualifying side
    /// (`>= 0`) of the end ray. When the wedge wraps beyond half a turn,
    /// either ray suffices; otherwise both are required. A swapped sign here
    /// would silently invert the wedge, so the association is part of the
    /// contract.
    pub open spec fn within_angles(self, p: Point) -> bool {
        let s = ray_side(self.inner_circle.centre, self.start_direction, p);
        let e = ray_side(self.inner_circle.centre, self.end_direction, p);
        if self.spans_more_than_half_turn() {
            s <= 0 || e >= 0
        } else {
            s <= 0 && e >= 0
        }
    }

    /// Containment in the annular wedge: strictly outside the inner circle
    /// (boundary points of the inner circle belong to the arc), strictly
    /// inside the outer circle, and within the angular wedge.
    pub open spec fn arc_contains(self, p: Point) -> bool {
        &&& !self.inner_circle.contains_point(p)
        &&& squared_distance(self.inner_circle.centre, p) < (self.inner_circle.radius
            + self.thickness) * (self.inner_circle.radius + self.thickness)
        &&& self.within_angles(p)
    }

    /// Returns a new arc over the given boundary rays, thickness and inner
    /// circle.
    pub fn new(start_direction: Point, end_direction: Point, thickness: i64, circle: Circle) -> (a:
        Arc)
        ensures
            a == (Arc { start_direction, end_direction, thickness, inner_circle: circle }),
    {
        Arc { start_direction, end_direction, thickness, inner_circle: circle }
    }

    /// Decides `arc_contains` as the conjunction of the two circle tests
    /// and the wrap-aware angular test.
    ///
    /// Arc-versus-circle intersection is deliberately absent: no exact
    /// predicate for it is provided yet, and a missing method is a
    /// compile-time signal, never a silently wrong boolean.
    pub fn collide_with_point(&self, point: Point) -> (r: bool)
        requires
            self.wf(),
            point.in_bounds(),
        ensures
            r == self.arc_contains(point),
    {
        let outer_circle = Circle {
            radius: self.inner_circle.radius + self.thickness,
            centre: self.inner_circle.centre,
        };
        let side_start = ray_side_value(
            self.inner_circle.centre,
            self.start_direction,
            point,
        );
        let side_end = ray_side_value(self.inner_circle.centre, self.end_direction, point);
        let wide = self.start_direction.cross(self.end_direction) < 0;
        let within_angles = if wide {
            side_start <= 0 || side_end >= 0
        } else {
            side_start <= 0 && side_end >= 0
        };
        !self.inner_circle.collide_with_point(point) && outer_circle.collide_with_point(point)
            && within_angles
    }
}

/// The circle's centre lies strictly within the circle's radius of the
/// segment from `a` to `b`: against the near endpoint when the
/// perpendicular foot of the centre falls before `a` or past `b`, against
/// the carrier line otherwise. The last comparison is the usual
/// division-free form — the squared cross product against the squared
/// radius scaled by the squared segment length. A zero-length segment
/// degenerates to the plain point distance test against `a`.
pub open spec fn edge_near_circle(a: Point, b: Point, c: Circle) -> bool {
    let ux = b.x - a.x;
    let uy = b.y - a.y;
    let wx = c.centre.x - a.x;
    let wy = c.centre.y - a.y;
    let proj = ux * wx + uy * wy;
    let len2 = ux * ux + uy * uy;
    if proj <= 0 {
        squared_distance(a, c.centre) < c.radius * c.radius
    } else if proj >= len2 {
        squared_distance(b, c.centre) < c.radius * c.radius
    } else {
        let crs = ux * wy - uy * wx;
        crs * crs < c.radius * c.radius * len2
    }
}

/// The circle meets the filled loop over `pts`: its centre is contained, or
/// some edge of the loop passes strictly within the radius of the centre.
pub open spec fn polygon_intersects_circle(pts: Seq<Point>, c: Circle) -> bool {
    polygon_contains(pts, c.centre) || exists|k: int|
        0 <= k < pts.len() && #[trigger] edge_near_circle(
            pts[k],
            pts[(k + 1) % (pts.len() as int)],
            c,
        )
}

/// Decides `edge_near_circle` exactly; the one comparison whose operands
/// outgrow an `i64` is taken in an `i128`.
fn edge_near_circle_value(a: Point, b: Point, c: &Circle) -> (r: bool)
    requires
        a.in_bounds(),
        b.in_bounds(),
        c.wf(),
    ensures
        r == edge_near_circle(a, b, *c),
{
    let ux: i64 = b.x - a.x;
    let uy: i64 = b.y - a.y;
    let wx: i64 = c.centre.x - a.x;
    let wy: i64 = c.centre.y - a.y;
    proof {
        lemma_mul_bound(ux as int, wx as int, 2_000_000_000, 2_000_000_000);
        lemma_mul_bound(uy as int, wy as int, 2_000_000_000, 2_000_000_000);
        lemma_mul_bound(ux as int, ux as int, 2_000_000_000, 2_000_000_000);
        lemma_mul_bound(uy as int, uy as int, 2_000_000_000, 2_000_000_000);
        lemma_mul_bound(
            c.radius as int,
            c.radius as int,
            COORD_LIMIT as int,
            COORD_LIMIT as int,
        );
    }
    let proj: i64 = ux * wx + uy * wy;
    let len2: i64 = ux * ux + uy * uy;
    if proj <= 0 {
        let sq = a.squared_distance_to(c.centre);
        sq < c.radius * c.radius
    } else if proj >= len2 {
        let sq = b.squared_distance_to(c.centre);
        sq < c.radius * c.radius
    } else {
        proof {
            lemma_mul_bound(ux as int, wy as int, 2_000_000_000, 2_000_000_000);
            lemma_mul_bound(uy as int, wx as int, 2_000_000_000, 2_000_000_000);
        }
        let crs: i64 = ux * wy - uy * wx;
        proof {
            lemma_mul_bound(
                crs as int,
                crs as int,
                8_000_000_000_000_000_000,
                8_000_000_000_000_000_000,
            );
            lemma_mul_bound(
                (c.radius as int) * (c.radius as int),
                len2 as int,
                1_000_000_000_000_000_000,
                8_000_000_000_000_000_000,
            );
        }
        let crs2: i128 = (crs as i128) * (crs as i128);
        let rhs: i128 = ((c.radius as i128) * (c.radius as i128)) * (len2 as i128);
        crs2 < rhs
    }
}

impl ConvexPolygon {
    /// Decides `polygon_intersects_circle`: the centre inside the loop, or
    /// some edge strictly within the radius of the centre.
    pub fn collide_with_circle(&self, circle: &Circle) -> (r: bool)
        requires
            self.wf(),
            circle.wf(),
        ensures
            r == polygon_intersects_circle(self.points@, *circle),
    {
        if self.collide_with_point(circle.centre) {
            return true;
        }
        let n = self.points.len();
        let mut i: usize = 0;
        while i < n
            invariant
                n == self.points@.len(),
                3 <= n,
                self.wf(),
                circle.wf(),
                i <= n,
                forall|k: int|
                    0 <= k < i ==> !#[trigger] edge_near_circle(
                        self.points@[k],
                        self.points@[(k + 1) % (n as int)],
                        *circle,
                    ),
            decreases n - i,
        {
            let j = if i + 1 == n {
                0
            } else {
                i + 1
            };
            proof {
                if i + 1 == n {
                    lemma_mod_self_0(n as int);
                } else {
                    lemma_small_mod((i + 1) as nat, n as nat);
                }
            }
            if edge_near_circle_value(self.points[i], self.points[j], circle) {
                proof {
                    assert(edge_near_circle(
                        self.points@[i as int],
                        self.points@[(i as int + 1) % (n as int)],
                        *circle,
                    ));
                }
                return true;
            }
            i = i + 1;
        }
        false
    }
}

/// The closed set of shapes that take part in collision queries, as one
/// tagged union with one dispatch function per predicate.
#[derive(Clone, Debug)]
pub enum HitBoxes {
    Circle(Circle),
    ConvexPolygon(ConvexPolygon),
    Arc(Arc),
}

impl HitBoxes {
    /// The carried shape is well formed.
    pub open spec fn wf(self) -> bool {
        match self {
            HitBoxes::Circle(c) => c.wf(),
            HitBoxes::ConvexPolygon(poly) => poly.wf(),
            HitBoxes::Arc(a) => a.wf(),
        }
    }

    /// Containment of a point in the carried shape.
    pub open spec fn shape_contains(self, p: Point) -> bool {
        match self {
            HitBoxes::Circle(c) => c.contains_point(p),
            HitBoxes::ConvexPolygon(poly) => polygon_contains(poly.points@, p),
            HitBoxes::Arc(a) => a.arc_contains(p),
        }
    }

    /// Dispatches the point-containment predicate to the carried shape.
    pub fn contains_point(&self, point: Point) -> (r: bool)
        requires
            self.wf(),
            point.in_bounds(),
        ensures
            r == self.shape_contains(point),
    {
        match self {
            HitBoxes::Circle(c) => c.collide_with_point(point),
            HitBoxes::ConvexPolygon(poly) => poly.collide_with_point(point),
            HitBoxes::Arc(a) => a.collide_with_point(point),
        }
    }

    /// Dispatches the circle-intersection predicate to the carried shape.
    /// Arc-versus-circle has no predicate yet; that case answers `None`
    /// rather than a made-up boolean.
    pub fn intersects_circle(&self, circle: &Circle) -> (r: Option<bool>)
        requires
            self.wf(),
            circle.wf(),
        ensures
            match *self {
                HitBoxes::Circle(c) => r == Some(c.intersects_circle(*circle)),
                HitBoxes::ConvexPolygon(poly) => r == Some(
                    polygon_intersects_circle(poly.points@, *circle),
                ),
                HitBoxes::Arc(_) => r is None,
            },
    {
        match self {
            HitBoxes::Circle(c) => Some(c.collide_with_circle(circle)),
            HitBoxes::ConvexPolygon(poly) => Some(poly.collide_with_circle(circle)),
            HitBoxes::Arc(_) => None,
        }
    }
}

/// Every predicate is a pure function of its arguments: a repeated query
/// with identical inputs answers identically. Each executable predicate
/// takes its shape and point by value or shared reference — nothing is
/// mutated — and its contract equates the result with one of the spec-level
/// predicates of the arguments alone, of which this is the restatement.
pub proof fn lemma_predicates_are_pure(s1: HitBoxes, s2: HitBoxes, p1: Point, p2: Point)
    requires
        s1 == s2,
        p1 == p2,
    ensures
        s1.shape_contains(p1) == s2.shape_contains(p2),
{
}

/// Computes `ray_side` exactly.
fn ray_side_value(centre: Point, dir: Point, p: Point) -> (r: i64)
    requires
        centre.in_bounds(),
        dir.in_bounds(),
        p.in_bounds(),
    ensures
        r == ray_side(centre, dir, p),
{
    let qx: i64 = p.x - centre.x;
    let qy: i64 = p.y - centre.y;
    proof {
        lemma_mul_bound(dir.y as int, qx as int, 1_000_000_000, 2_000_000_000);
        lemma_mul_bound(dir.x as int, qy as int, 1_000_000_000, 2_000_000_000);
    }
    dir.y * qx - dir.x * qy
}

} // verus!
