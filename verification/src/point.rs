//! Points in 2D space, with hulls, enlargement, Manhattan distance and a
//! nearest-point search.

use vstd::prelude::*;

use crate::generic::{abs_diff, Center, Contains, IntersectWith, Measure, MinDistWith, Overlaps};
use crate::interval::Interval;
use crate::vector2::Vector2;

verus! {

/// A point (a location) in 2D space.
#[derive(Debug, Clone, Copy, PartialEq, Eq, Hash, Structural)]
pub struct Point<T> {
    pub x: T,
    pub y: T,
}

impl<T> Point<T> {
    /// Create a new point with given x and y coordinates.
    pub fn new(x: T, y: T) -> (r: Self)
        ensures
            r.x == x,
            r.y == y,
    {
        Point { x, y }
    }

    /// The x-coordinate.
    pub fn x(&self) -> (r: &T)
        ensures
            *r == self.x,
    {
        &self.x
    }

    /// The y-coordinate.
    pub fn y(&self) -> (r: &T)
        ensures
            *r == self.y,
    {
        &self.y
    }
}

/// The Manhattan distance `|dx| + |dy|` between two points.
pub open spec fn point_min_dist(a: Point<i64>, b: Point<i64>) -> int {
    abs_diff(a.x as int, b.x as int) + abs_diff(a.y as int, b.y as int)
}

impl Point<i64> {
    /// The width of a point: the unit cell, 1.
    pub fn width(&self) -> (r: i64)
        ensures
            r == 1,
    {
        1
    }

    /// The height of a point: the unit cell, 1.
    pub fn height(&self) -> (r: i64)
        ensures
            r == 1,
    {
        1
    }

    /// The area of a point: 1, a unit cell rather than zero, so that
    /// area-based algorithms treat points as minimal placeable cells.
    pub fn area(&self) -> (r: i64)
        ensures
            r == 1,
    {
        1
    }

    /// The bounding box of this point and another, as a pair of ordered
    /// intervals (x-extent, y-extent): the seed for building a rectangle
    /// from two corner points.
    pub fn hull_with(&self, other: &Self) -> (r: (Interval<i64>, Interval<i64>))
        ensures
            r.0.lb == if self.x <= other.x { self.x } else { other.x },
            r.0.ub == if self.x >= other.x { self.x } else { other.x },
            r.1.lb == if self.y <= other.y { self.y } else { other.y },
            r.1.ub == if self.y >= other.y { self.y } else { other.y },
            r.0.spec_valid() && r.1.spec_valid(),
    {
        let x_interval = if self.x <= other.x {
            Interval::new(self.x, other.x)
        } else {
            Interval::new(other.x, self.x)
        };
        let y_interval = if self.y <= other.y {
            Interval::new(self.y, other.y)
        } else {
            Interval::new(other.y, self.y)
        };
        (x_interval, y_interval)
    }

    /// Grow the point by `amount` on each side of each axis, yielding the
    /// pair of intervals of a square centered on the point.
    pub fn enlarge(&self, amount: i64) -> (r: (Interval<i64>, Interval<i64>))
        requires
            i64::MIN <= self.x - amount <= i64::MAX,
            i64::MIN <= self.x + amount <= i64::MAX,
            i64::MIN <= self.y - amount <= i64::MAX,
            i64::MIN <= self.y + amount <= i64::MAX,
        ensures
            r.0.lb == self.x - amount,
            r.0.ub == self.x + amount,
            r.1.lb == self.y - amount,
            r.1.ub == self.y + amount,
    {
        let x_interval = Interval::new(self.x - amount, self.x + amount);
        let y_interval = Interval::new(self.y - amount, self.y + amount);
        (x_interval, y_interval)
    }
}

// Two points overlap exactly when they are the same point.
impl Overlaps for Point<i64> {
    open spec fn spec_overlaps(&self, other: &Self) -> bool {
        self.x == other.x && self.y == other.y
    }

    fn overlaps(&self, other: &Self) -> bool {
        self.x == other.x && self.y == other.y
    }
}

// A point contains only itself.
impl Contains for Point<i64> {
    open spec fn spec_contains(&self, other: &Self) -> bool {
        self.spec_overlaps(other)
    }

    fn contains(&self, other: &Self) -> bool {
        self.overlaps(other)
    }
}

// A point contains a bare coordinate when both its components equal it.
impl Contains<i64> for Point<i64> {
    open spec fn spec_contains(&self, other: &i64) -> bool {
        self.x == *other && self.y == *other
    }

    fn contains(&self, other: &i64) -> bool {
        self.x == *other && self.y == *other
    }
}

// The intersection of two points is the shared point when they coincide,
// and absent when they do not.
impl IntersectWith for Point<i64> {
    type Output = Point<i64>;

    open spec fn intersect_post(&self, other: &Self, r: Option<Point<i64>>) -> bool {
        if self.spec_overlaps(other) {
            r == Some(*self)
        } else {
            r is None
        }
    }

    fn intersect_with(&self, other: &Self) -> Option<Point<i64>> {
        if self.overlaps(other) {
            Some(*self)
        } else {
            None
        }
    }
}

// The minimum distance between two points is their Manhattan distance.
impl MinDistWith for Point<i64> {
    type Output = i64;

    open spec fn min_dist_req(&self, other: &Self) -> bool {
        point_min_dist(*self, *other) <= i64::MAX
    }

    open spec fn min_dist_post(&self, other: &Self, r: i64) -> bool {
        r == point_min_dist(*self, *other)
    }

    fn min_dist_with(&self, other: &Self) -> i64 {
        let dx: i64 = if self.x > other.x {
            self.x - other.x
        } else {
            other.x - self.x
        };
        let dy: i64 = if self.y > other.y {
            self.y - other.y
        } else {
            other.y - self.y
        };
        dx + dy
    }
}

// The measure of a point is its unit-cell area.
impl Measure for Point<i64> {
    type Output = i64;

    open spec fn measure_req(&self) -> bool {
        true
    }

    open spec fn measure_post(&self, r: i64) -> bool {
        r == 1
    }

    fn measure(&self) -> i64 {
        self.area()
    }
}

// A point is its own center.
impl Center for Point<i64> {
    type Output = Point<i64>;

    open spec fn center_req(&self) -> bool {
        true
    }

    open spec fn center_post(&self, r: Point<i64>) -> bool {
        r == *self
    }

    fn center(&self) -> Point<i64> {
        *self
    }
}

// Translating a point by a vector moves it componentwise.
impl core::ops::Add<Vector2<i64>> for Point<i64> {
    type Output = Point<i64>;

    fn add(self, rhs: Vector2<i64>) -> Point<i64> {
        Point::new(self.x + rhs.x, self.y + rhs.y)
    }
}

impl vstd::std_specs::ops::AddSpecImpl<Vector2<i64>> for Point<i64> {
    open spec fn obeys_add_spec() -> bool {
        true
    }

    open spec fn add_req(self, rhs: Vector2<i64>) -> bool {
        i64::MIN <= self.x + rhs.x <= i64::MAX && i64::MIN <= self.y + rhs.y <= i64::MAX
    }

    open spec fn add_spec(self, rhs: Vector2<i64>) -> Point<i64> {
        Point { x: (self.x + rhs.x) as i64, y: (self.y + rhs.y) as i64 }
    }
}

impl core::ops::Sub<Vector2<i64>> for Point<i64> {
    type Output = Point<i64>;

    fn sub(self, rhs: Vector2<i64>) -> Point<i64> {
        Point::new(self.x - rhs.x, self.y - rhs.y)
    }
}

impl vstd::std_specs::ops::SubSpecImpl<Vector2<i64>> for Point<i64> {
    open spec fn obeys_sub_spec() -> bool {
        true
    }

    open spec fn sub_req(self, rhs: Vector2<i64>) -> bool {
        i64::MIN <= self.x - rhs.x <= i64::MAX && i64::MIN <= self.y - rhs.y <= i64::MAX
    }

    open spec fn sub_spec(self, rhs: Vector2<i64>) -> Point<i64> {
        Point { x: (self.x - rhs.x) as i64, y: (self.y - rhs.y) as i64 }
    }
}

// Subtracting two points yields the displacement vector between them.
impl core::ops::Sub for Point<i64> {
    type Output = Vector2<i64>;

    fn sub(self, rhs: Point<i64>) -> Vector2<i64> {
        Vector2::new(self.x - rhs.x, self.y - rhs.y)
    }
}

impl vstd::std_specs::ops::SubSpecImpl for Point<i64> {
    open spec fn obeys_sub_spec() -> bool {
        true
    }

    open spec fn sub_req(self, rhs: Point<i64>) -> bool {
        i64::MIN <= self.x - rhs.x <= i64::MAX && i64::MIN <= self.y - rhs.y <= i64::MAX
    }

    open spec fn sub_spec(self, rhs: Point<i64>) -> Vector2<i64> {
        Vector2 { x: (self.x - rhs.x) as i64, y: (self.y - rhs.y) as i64 }
    }
}

/// Find the candidate nearest to `point` in Manhattan distance: the first
/// minimal element in iteration order, or `None` when there are no
/// candidates.
pub fn nearest_point_to<'a>(point: &Point<i64>, candidates: &'a [Point<i64>]) -> (r: Option<
    &'a Point<i64>,
>)
    requires
        forall|k: int|
            0 <= k < candidates@.len() ==> point_min_dist(*point, candidates@[k]) <= i64::MAX,
    ensures
        r is Some <==> candidates@.len() > 0,
        r is Some ==> exists|j: int|
            {
                &&& 0 <= j < candidates@.len()
                &&& *r->Some_0 == candidates@[j]
                &&& forall|k: int|
                    0 <= k < candidates@.len() ==> point_min_dist(*point, candidates@[k])
                        >= point_min_dist(*point, candidates@[j])
                &&& forall|k: int|
                    0 <= k < j ==> point_min_dist(*point, candidates@[k]) > point_min_dist(
                        *point,
                        candidates@[j],
                    )
            },
{
    if candidates.len() == 0 {
        return None;
    }
    let mut best: usize = 0;
    let mut best_dist: i64 = point.min_dist_with(&candidates[0]);
    let mut i: usize = 1;
    while i < candidates.len()
        invariant
            1 <= i <= candidates@.len(),
            0 <= best < i,
            forall|k: int|
                0 <= k < candidates@.len() ==> point_min_dist(*point, candidates@[k]) <= i64::MAX,
            best_dist == point_min_dist(*point, candidates@[best as int]),
            forall|k: int| 0 <= k < i ==> point_min_dist(*point, candidates@[k]) >= best_dist,
            forall|k: int| 0 <= k < best ==> point_min_dist(*point, candidates@[k]) > best_dist,
        decreases candidates@.len() - i,
    {
        let d: i64 = point.min_dist_with(&candidates[i]);
        if d < best_dist {
            best = i;
            best_dist = d;
        }
        i += 1;
    }
    Some(&candidates[best])
}

/// Overlap of points is symmetric.
pub proof fn lemma_point_overlap_symmetric(a: Point<i64>, b: Point<i64>)
    ensures
        a.spec_overlaps(&b) == b.spec_overlaps(&a),
{
}

/// The Manhattan distance between two points is zero exactly when they
/// coincide (overlap), and is never negative.
pub proof fn lemma_point_min_dist_zero_iff_overlap(a: Point<i64>, b: Point<i64>)
    ensures
        point_min_dist(a, b) == 0 <==> a.spec_overlaps(&b),
        point_min_dist(a, b) >= 0,
{
}

} // verus!
