use rocket_collision::collision::Arc;
use rocket_collision::collision::Circle;
use rocket_collision::collision::ConvexPolygon;
use rocket_collision::collision::HitBoxes;
use rocket_collision::collision::LineSegment;
use rocket_collision::maths::Point;

fn point(x: i64, y: i64) -> Point {
    Point::new(x, y)
}

#[test]
fn test_sides() {
    let line = LineSegment::new(point(0, 0), point(5, 5));
    let point_left_of_line = point(1, 9);
    assert_eq!(line.point_is_on_side(point_left_of_line), 40);

    let point_right_of_line = point(9, 1);
    assert_eq!(line.point_is_on_side(point_right_of_line), -40);

    let point_on_line = point(5, 5);
    assert_eq!(line.point_is_on_side(point_on_line), 0);
}

#[test]
fn test_point_in_circle() {
    let circle = Circle { radius: 5, centre: point(0, 0) };

    assert_eq!(circle.collide_with_point(point(1, 1)), true);
    assert_eq!(circle.collide_with_point(point(5, -5)), false);
}

// The polygon of the collision test, with every coordinate doubled so that
// the boundary case (originally half a unit along the bottom edge) lands on
// the grid.
#[test]
fn test_contex_polygon() {
    let contex_polygon = ConvexPolygon::new(vec![point(0, 0), point(8, 0), point(8, 8)]);

    assert_eq!(contex_polygon.collide_with_point(point(4, 2)), true);
    assert_eq!(contex_polygon.collide_with_point(point(2, 2)), true);
    assert_eq!(contex_polygon.collide_with_point(point(-2, -2)), false);
    assert_eq!(contex_polygon.collide_with_point(point(1, 0)), true);
}

// The arc of the collision test, with every length scaled by ten: a quarter
// turn starting on the positive x axis, so the boundary rays point along
// the two axes.
#[test]
fn test_point_in_arc() {
    let arc = Arc::new(
        point(10, 0),
        point(0, 10),
        50,
        Circle { radius: 50, centre: point(0, 0) },
    );

    assert_eq!(arc.collide_with_point(point(51, 0)), true);
    assert_eq!(arc.collide_with_point(point(101, 0)), false);
}

#[test]
fn circle_intersection_is_symmetric() {
    let c1 = Circle { radius: 7, centre: point(-3, 4) };
    let c2 = Circle { radius: 2, centre: point(5, 1) };
    assert_eq!(c1.collide_with_circle(&c2), c2.collide_with_circle(&c1));
    assert!(c1.collide_with_circle(&c2));

    let far = Circle { radius: 1, centre: point(500, 500) };
    assert_eq!(c1.collide_with_circle(&far), far.collide_with_circle(&c1));
    assert!(!c1.collide_with_circle(&far));
}

#[test]
fn tangent_circles_do_not_intersect() {
    // Centres 5 apart, radii 2 and 3: externally tangent, no intersection.
    let c1 = Circle { radius: 2, centre: point(0, 0) };
    let c2 = Circle { radius: 3, centre: point(5, 0) };
    assert!(!c1.collide_with_circle(&c2));
    assert!(!c2.collide_with_circle(&c1));

    // One grid unit closer and they do intersect.
    let c3 = Circle { radius: 3, centre: point(4, 0) };
    assert!(c1.collide_with_circle(&c3));
}

#[test]
fn circle_boundary_is_not_contained() {
    let circle = Circle { radius: 5, centre: point(0, 0) };
    // Strictly inside.
    assert!(circle.collide_with_point(point(3, -3)));
    // Exactly on the boundary: 3-4-5 triangle.
    assert!(!circle.collide_with_point(point(3, 4)));
    assert!(!circle.collide_with_point(point(-5, 0)));
}

#[test]
fn polygon_winding_order_does_not_matter() {
    let clockwise = vec![point(0, 0), point(4, 4), point(8, 0)];
    let counter_clockwise = vec![point(8, 0), point(4, 4), point(0, 0)];
    let poly_cw = ConvexPolygon::new(clockwise);
    let poly_ccw = ConvexPolygon::new(counter_clockwise);

    let samples = [
        point(4, 1),
        point(0, 0),
        point(4, 4),
        point(9, 0),
        point(4, -1),
        point(2, 2),
    ];
    for p in samples.iter() {
        assert_eq!(poly_cw.collide_with_point(*p), poly_ccw.collide_with_point(*p));
    }
}

#[test]
fn polygon_against_circle() {
    let triangle = ConvexPolygon::new(vec![point(0, 0), point(8, 0), point(8, 8)]);

    // Centre inside the triangle.
    assert!(triangle.collide_with_circle(&Circle { radius: 1, centre: point(6, 2) }));
    // Centre outside, circle reaching across the bottom edge.
    assert!(triangle.collide_with_circle(&Circle { radius: 3, centre: point(4, -2) }));
    // Centre outside, circle exactly tangent to the bottom edge: strict, no hit.
    assert!(!triangle.collide_with_circle(&Circle { radius: 2, centre: point(4, -2) }));
    // Nearest to a corner rather than an edge.
    assert!(triangle.collide_with_circle(&Circle { radius: 3, centre: point(-2, 0) }));
    assert!(!triangle.collide_with_circle(&Circle { radius: 2, centre: point(-2, 0) }));
    // Far away.
    assert!(!triangle.collide_with_circle(&Circle { radius: 3, centre: point(50, 50) }));
}

#[test]
fn arc_wedge_sides() {
    // Quarter-turn wedge between the positive x axis and the positive y axis.
    let arc = Arc::new(
        point(1, 0),
        point(0, 1),
        50,
        Circle { radius: 50, centre: point(0, 0) },
    );
    // Inside the wedge, between the two radii.
    assert!(arc.collide_with_point(point(51, 30)));
    // Same distance but on the wrong side of the start ray.
    assert!(!arc.collide_with_point(point(51, -30)));
    // Wrong side of the end ray.
    assert!(!arc.collide_with_point(point(-30, 51)));
    // Inside the inner circle: the inner boundary belongs to the arc.
    assert!(!arc.collide_with_point(point(30, 30)));
    assert!(arc.collide_with_point(point(50, 0)));
}

#[test]
fn arc_wide_wedge_wraps() {
    // Three-quarter turn: from the positive x axis counter-clockwise all the
    // way to the negative y axis. Points that a narrow wedge would reject
    // qualify through either boundary ray.
    let arc = Arc::new(
        point(1, 0),
        point(0, -1),
        50,
        Circle { radius: 50, centre: point(0, 0) },
    );
    assert!(arc.collide_with_point(point(51, 30)));
    assert!(arc.collide_with_point(point(-51, 30)));
    assert!(arc.collide_with_point(point(-51, -30)));
    assert!(!arc.collide_with_point(point(51, -30)));
}

#[test]
fn predicates_are_pure() {
    let circle = Circle { radius: 5, centre: point(0, 0) };
    let p = point(1, 1);
    let first = circle.collide_with_point(p);
    let second = circle.collide_with_point(p);
    assert_eq!(first, second);
    assert_eq!(circle, Circle { radius: 5, centre: point(0, 0) });
    assert_eq!(p, point(1, 1));

    let vertices = vec![point(0, 0), point(8, 0), point(8, 8)];
    let polygon = ConvexPolygon::new(vertices.clone());
    let q = point(4, 2);
    assert_eq!(polygon.collide_with_point(q), polygon.collide_with_point(q));
    assert_eq!(polygon.points, vertices);
    assert_eq!(q, point(4, 2));
}

#[test]
fn hitbox_dispatch() {
    let circle_box = HitBoxes::Circle(Circle { radius: 5, centre: point(0, 0) });
    let polygon_box =
        HitBoxes::ConvexPolygon(ConvexPolygon::new(vec![point(0, 0), point(8, 0), point(8, 8)]));
    let arc_box = HitBoxes::Arc(Arc::new(
        point(1, 0),
        point(0, 1),
        50,
        Circle { radius: 50, centre: point(0, 0) },
    ));

    assert!(circle_box.contains_point(point(1, 1)));
    assert!(!circle_box.contains_point(point(5, -5)));
    assert!(polygon_box.contains_point(point(4, 2)));
    assert!(!polygon_box.contains_point(point(-2, -2)));
    assert!(arc_box.contains_point(point(51, 0)));
    assert!(!arc_box.contains_point(point(101, 0)));

    let probe = Circle { radius: 2, centre: point(6, 0) };
    assert_eq!(circle_box.intersects_circle(&probe), Some(true));
    assert_eq!(polygon_box.intersects_circle(&probe), Some(true));
    // Arc-versus-circle has no predicate: the dispatch says so instead of
    // guessing a boolean.
    assert_eq!(arc_box.intersects_circle(&probe), None);
}
