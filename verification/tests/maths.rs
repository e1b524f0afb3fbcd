use rocket_collision::maths::isqrt;
use rocket_collision::maths::Point;

#[test]
fn test_point_distances() {
    let p1 = Point::new(0, 0);
    let p2 = Point::new(0, 4);
    assert_eq!(p1.squared_distance_to(p2), 16);
    assert_eq!(p1.distance_to_point(p2), 4);

    let p1 = Point::new(0, 3);
    let p2 = Point::new(4, 0);
    assert_eq!(p1.distance_to_point(p2), 5);
}

#[test]
fn point_arithmetic() {
    let p = Point::new(3, -4);
    let q = Point::new(10, 2);

    let sum = p.translated(q);
    assert_eq!(sum, Point::new(13, -2));
    assert_eq!(p.translate(q), sum);

    assert_eq!(p.normal(), Point::new(3, 4));
    assert_eq!(p.invert(), Point::new(-3, 4));
    assert_eq!(p.multiply_by_scalar(3), Point::new(9, -12));

    assert_eq!(p.dot(q), 3 * 10 + (-4) * 2);
    assert_eq!(p.cross(q), 3 * 2 - (-4) * 10);
}

#[test]
fn distance_rounds_down() {
    let origin = Point::new(0, 0);
    // 1-1-sqrt(2): the exact distance is irrational, the grid answer is its
    // floor.
    assert_eq!(origin.distance_to_point(Point::new(1, 1)), 1);
    assert_eq!(origin.distance_to_point(Point::new(3, 3)), 4);
    assert_eq!(origin.distance_to_point(Point::new(0, 0)), 0);
}

#[test]
fn integer_square_roots() {
    assert_eq!(isqrt(0), 0);
    assert_eq!(isqrt(1), 1);
    assert_eq!(isqrt(2), 1);
    assert_eq!(isqrt(3), 1);
    assert_eq!(isqrt(4), 2);
    assert_eq!(isqrt(24), 4);
    assert_eq!(isqrt(25), 5);
    assert_eq!(isqrt(26), 5);
    assert_eq!(isqrt(u64::MAX), 4_294_967_295);
}
