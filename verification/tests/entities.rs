use physdes::generic::{contain, displacement, intersection, lower, min_dist, overlap, upper,
    Contains, IntersectWith, MinDistWith, Overlaps};
use physdes::interval::{enlarge, hull, Interval};
use physdes::point::{nearest_point_to, Point};
use physdes::recti::Rectangle;
use physdes::vector2::{unit_x, unit_y, zero_vector, Vector2};

#[test]
fn invalid_interval_is_representable() {
    let iv = Interval::new(5, 1);
    assert!(iv.is_invalid());
    assert!(!iv.is_valid());
    assert_eq!(iv.width(), -4); // a sentinel, not a measurement
    assert!(!iv.is_empty());
    assert!(Interval::new(3, 3).is_empty());
}

#[test]
fn interval_center_truncates_toward_zero() {
    assert_eq!(Interval::new(1, 4).center(), 2);
    assert_eq!(Interval::new(-4, 1).center(), -1);
    assert_eq!(Interval::new(-5, -1).center(), -3);
    // The most negative representable diagonal still has a midpoint.
    assert_eq!(Interval::new(i64::MIN, 0).center(), i64::MIN / 2);
}

#[test]
fn interval_scalar_overlap_contains_and_distance() {
    let iv = Interval::new(1, 5);
    assert!(iv.overlaps(&3));
    assert!(iv.overlaps(&1));
    assert!(!iv.overlaps(&6));
    assert!(iv.contains(&5));
    assert!(!iv.contains(&0));
    assert_eq!(iv.min_dist_with(&3), 0);
    assert_eq!(iv.min_dist_with(&-2), 3);
    assert_eq!(iv.min_dist_with(&9), 4);
}

#[test]
fn interval_translation_and_scaling() {
    let iv = Interval::new(1, 5);
    assert_eq!(iv + 3, Interval::new(4, 8));
    assert_eq!(iv - 2, Interval::new(-1, 3));
    assert_eq!(iv * 2, Interval::new(2, 10));
    // Scaling by a negative factor does not reorder the bounds: the result
    // turns invalid.
    let scaled = iv * -1;
    assert_eq!(scaled, Interval::new(-1, -5));
    assert!(scaled.is_invalid());
}

#[test]
fn hull_orders_its_arguments() {
    assert_eq!(hull(3, 8), Interval::new(3, 8));
    assert_eq!(hull(8, 3), Interval::new(3, 8));
    assert_eq!(hull(4, 4), Interval::new(4, 4));
}

#[test]
fn enlarge_grows_and_negative_amount_shrinks() {
    let iv = Interval::new(2, 6);
    assert_eq!(enlarge(iv, 3), Interval::new(-1, 9));
    assert_eq!(enlarge(iv, -1), Interval::new(3, 5));
    // Shrinking past the middle makes the interval invalid.
    assert!(enlarge(iv, -3).is_invalid());
}

#[test]
fn scalar_dispatch_helpers() {
    assert_eq!(displacement(9, 4), 5);
    assert_eq!(displacement(4, 9), -5);
    assert_eq!(lower(3, 8), 3);
    assert_eq!(upper(3, 8), 8);
    assert_eq!(lower(8, 3), 3);
    assert_eq!(upper(8, 3), 8);
    // A bare coordinate overlaps and contains exactly itself.
    assert!(overlap(&4i64, &4i64));
    assert!(!overlap(&4i64, &5i64));
    assert!(contain(&4i64, &4i64));
    assert_eq!(min_dist(&4i64, &9i64), 5);
    assert_eq!(min_dist(&9i64, &4i64), 5);
}

#[test]
fn vector2_products_and_lengths() {
    let v1 = Vector2::new(3, -4);
    let v2 = Vector2::new(2, 5);
    assert_eq!(v1.dot(&v2), -14);
    assert_eq!(v1.cross(&v2), 23);
    assert_eq!(v1.manhattan_length(), 7);
    assert_eq!(v1.length_squared(), 25);
}

#[test]
fn vector2_division_truncates_and_negation_flips() {
    let v = Vector2::new(7, -7);
    assert_eq!(v / 2, Vector2::new(3, -3));
    assert_eq!(-v, Vector2::new(-7, 7));
}

#[test]
fn vector2_compares_with_scalar() {
    assert!(Vector2::new(4, 4) == 4);
    assert!(Vector2::new(4, 5) != 4);
    assert_eq!(zero_vector(), Vector2::new(0, 0));
    assert_eq!(unit_x(), Vector2::new(1, 0));
    assert_eq!(unit_y(), Vector2::new(0, 1));
}

#[test]
fn point_vector_arithmetic() {
    let p = Point::new(3, 4);
    let v = Vector2::new(1, -2);
    assert_eq!(p + v, Point::new(4, 2));
    assert_eq!(p - v, Point::new(2, 6));
    assert_eq!(Point::new(5, 9) - Point::new(2, 3), Vector2::new(3, 6));
}

#[test]
fn point_hull_and_enlarge() {
    let p = Point::new(5, 1);
    let q = Point::new(2, 7);
    let (xs, ys) = p.hull_with(&q);
    assert_eq!(xs, Interval::new(2, 5));
    assert_eq!(ys, Interval::new(1, 7));

    let (ex, ey) = p.enlarge(2);
    assert_eq!(ex, Interval::new(3, 7));
    assert_eq!(ey, Interval::new(-1, 3));
    assert_eq!(p.width(), 1);
    assert_eq!(p.height(), 1);
    assert_eq!(p.area(), 1);
}

#[test]
fn point_intersection_absent_for_distinct_points() {
    let p = Point::new(3, 4);
    let q = Point::new(3, 4);
    let s = Point::new(5, 6);
    assert_eq!(p.intersect_with(&q), Some(Point::new(3, 4)));
    assert_eq!(p.intersect_with(&s), None);
}

#[test]
fn nearest_point_selects_first_minimum() {
    let query = Point::new(0, 0);
    let candidates = [
        Point::new(5, 5), // distance 10
        Point::new(1, 2), // distance 3
        Point::new(2, 1), // distance 3: a tie, the earlier one wins
        Point::new(4, 0), // distance 4
    ];
    let nearest = nearest_point_to(&query, &candidates).unwrap();
    assert_eq!(*nearest, Point::new(1, 2));

    let empty: [Point<i64>; 0] = [];
    assert!(nearest_point_to(&query, &empty).is_none());
}

#[test]
fn rectangle_dimensions_and_transpose() {
    let rect = Rectangle::new(Interval::new(1, 5), Interval::new(2, 8));
    assert_eq!(rect.width(), 4);
    assert_eq!(rect.height(), 6);
    assert_eq!(rect.area(), 24);
    assert_eq!(rect.flip(), Rectangle::new(Interval::new(2, 8), Interval::new(1, 5)));
    assert_eq!(rect.flip().flip(), rect);
    assert_eq!(rect.x_interval(), &Interval::new(1, 5));
    assert_eq!(rect.y_interval(), &Interval::new(2, 8));
}

#[test]
fn rectangle_against_points() {
    let rect = Rectangle::new(Interval::new(1, 5), Interval::new(2, 8));
    assert!(rect.contains(&Point::new(3, 4)));
    assert!(rect.contains(&Point::new(1, 2)));
    assert!(!rect.contains(&Point::new(0, 4)));
    assert_eq!(rect.min_dist_with(&Point::new(3, 4)), 0);
    assert_eq!(rect.min_dist_with(&Point::new(8, 10)), 5); // 3 in x plus 2 in y
}

#[test]
fn rectangle_intersection_via_intervals() {
    let r1 = Rectangle::new(Interval::new(1, 5), Interval::new(2, 6));
    let r2 = Rectangle::new(Interval::new(3, 7), Interval::new(4, 8));
    let xi = intersection(r1.x_interval(), r2.x_interval()).unwrap();
    let yi = intersection(r1.y_interval(), r2.y_interval()).unwrap();
    assert_eq!(Rectangle::new(xi, yi), Rectangle::new(Interval::new(3, 5), Interval::new(4, 6)));
}
