use physdes::generic::{center, intersection, measure_of, min_dist, overlap, Contains, MinDistWith,
    Overlaps};
use physdes::interval::Interval;
use physdes::point::Point;
use physdes::recti::{HSegment, Rectangle, VSegment};
use physdes::vector2::Vector2;

#[test]
fn overlap_is_symmetric_on_samples() {
    let a = Interval::new(1, 5);
    let b = Interval::new(3, 7);
    let c = Interval::new(6, 8);
    assert_eq!(a.overlaps(&b), b.overlaps(&a));
    assert_eq!(a.overlaps(&c), c.overlaps(&a));

    let p = Point::new(3, 4);
    let q = Point::new(5, 6);
    assert_eq!(p.overlaps(&q), q.overlaps(&p));

    let r1 = Rectangle::new(Interval::new(1, 5), Interval::new(2, 6));
    let r2 = Rectangle::new(Interval::new(3, 7), Interval::new(4, 8));
    assert_eq!(r1.overlaps(&r2), r2.overlaps(&r1));

    let v1 = VSegment::new(5, Interval::new(1, 10));
    let v2 = VSegment::new(5, Interval::new(4, 12));
    assert_eq!(v1.overlaps(&v2), v2.overlaps(&v1));

    let h1 = HSegment::new(Interval::new(1, 10), 5);
    let h2 = HSegment::new(Interval::new(11, 12), 5);
    assert_eq!(h1.overlaps(&h2), h2.overlaps(&h1));
}

#[test]
fn containment_is_a_partial_order_on_samples() {
    let a = Interval::new(1, 5);
    let b = Interval::new(2, 4);
    assert!(a.contains(&a));
    assert!(b.contains(&b));
    assert!(a.contains(&b));
    assert!(!b.contains(&a));

    let c = Interval::new(1, 5);
    assert!(a.contains(&c) && c.contains(&a));
    assert_eq!(a, c);

    let r1 = Rectangle::new(Interval::new(0, 10), Interval::new(0, 10));
    let r2 = Rectangle::new(Interval::new(2, 8), Interval::new(3, 7));
    assert!(r1.contains(&r1));
    assert!(r1.contains(&r2));
    assert!(!r2.contains(&r1));
}

#[test]
fn intersection_is_contained_in_both_operands() {
    let a = Interval::new(1, 5);
    let b = Interval::new(3, 7);
    let i = intersection(&a, &b).unwrap();
    assert_eq!(i, Interval::new(3, 5));
    assert!(a.contains(&i));
    assert!(b.contains(&i));

    let c = Interval::new(6, 8);
    assert!(intersection(&a, &c).is_none());
}

#[test]
fn min_dist_is_zero_iff_overlap_on_samples() {
    let a = Interval::new(1, 5);
    let b = Interval::new(3, 7);
    let c = Interval::new(10, 15);
    assert!(a.overlaps(&b));
    assert_eq!(a.min_dist_with(&b), 0);
    assert!(!a.overlaps(&c));
    assert!(a.min_dist_with(&c) > 0);

    let p = Point::new(3, 4);
    let q = Point::new(3, 4);
    let s = Point::new(5, 6);
    assert_eq!(p.min_dist_with(&q), 0);
    assert!(p.min_dist_with(&s) > 0);

    let r1 = Rectangle::new(Interval::new(1, 5), Interval::new(2, 6));
    let r2 = Rectangle::new(Interval::new(3, 7), Interval::new(4, 8));
    let r3 = Rectangle::new(Interval::new(10, 15), Interval::new(10, 15));
    assert_eq!(r1.min_dist_with(&r2), 0);
    assert!(r1.min_dist_with(&r3) > 0);
    assert_eq!(r1.min_dist_with(&r3), 9); // gap of 5 in x plus 4 in y
}

#[test]
fn segment_flip_is_an_involution() {
    let vseg = VSegment::new(5, Interval::new(1, 10));
    assert_eq!(vseg.flip().flip(), vseg);

    let hseg = HSegment::new(Interval::new(2, 9), -4);
    assert_eq!(hseg.flip().flip(), hseg);
}

#[test]
fn interval_center_width_and_overlap_values() {
    let iv = Interval::new(1, 5);
    assert_eq!(iv.center(), 3);
    assert_eq!(iv.width(), 4);
    assert!(iv.overlaps(&Interval::new(3, 7)));
    assert!(!iv.overlaps(&Interval::new(6, 8)));
}

#[test]
fn point_equality_and_manhattan_distance() {
    assert_eq!(Point::new(3, 4), Point::new(3, 4));
    assert_ne!(Point::new(3, 4), Point::new(5, 6));
    assert_eq!(Point::new(3, 4).min_dist_with(&Point::new(5, 6)), 4);
}

#[test]
fn vector2_arithmetic_values() {
    assert_eq!(Vector2::new(1, 2) + Vector2::new(3, 4), Vector2::new(4, 6));
    assert_eq!(Vector2::new(3, 4) - Vector2::new(1, 2), Vector2::new(2, 2));
    assert_eq!(Vector2::new(1, 2) * 2, Vector2::new(2, 4));
}

#[test]
fn rectangle_overlap_and_corners() {
    let rect = Rectangle::new(Interval::new(1, 5), Interval::new(2, 6));
    assert!(rect.overlaps(&Rectangle::new(Interval::new(3, 7), Interval::new(4, 8))));
    assert!(!rect.overlaps(&Rectangle::new(Interval::new(10, 15), Interval::new(10, 15))));
    assert_eq!(rect.ll(), Point::new(1, 2));
    assert_eq!(rect.ur(), Point::new(5, 6));
}

#[test]
fn vsegment_contains_point_and_flips_to_hsegment() {
    let vseg = VSegment::new(5, Interval::new(1, 10));
    assert!(vseg.contains(&Point::new(5, 3)));
    assert_eq!(vseg.flip(), HSegment::new(Interval::new(1, 10), 5));
}

#[test]
fn min_dist_of_disjoint_intervals() {
    assert_eq!(min_dist(&Interval::new(1, 5), &Interval::new(10, 15)), 5);
    // Symmetric gap: the displaced side decides.
    assert_eq!(min_dist(&Interval::new(10, 15), &Interval::new(1, 5)), 5);
    assert!(overlap(&Interval::new(1, 5), &Interval::new(5, 9)));
    assert_eq!(min_dist(&Interval::new(1, 5), &Interval::new(5, 9)), 0);
}

#[test]
fn measure_and_center_dispatch() {
    let iv = Interval::new(2, 8);
    assert_eq!(measure_of(&iv), 6);
    assert_eq!(center(&iv), 5);

    let p = Point::new(7, -2);
    assert_eq!(measure_of(&p), 1);
    assert_eq!(center(&p), p);

    let rect = Rectangle::new(Interval::new(0, 4), Interval::new(1, 7));
    assert_eq!(measure_of(&rect), 24);
    assert_eq!(center(&rect), Point::new(2, 4));
}
