//! Axis-aligned rectangles and axis-aligned segments.
//!
//! A rectangle is the Cartesian product of an x-interval and a y-interval;
//! every 2D predicate or metric on it decomposes per axis into the
//! corresponding interval operation. A segment is a rectangle degenerated on
//! one axis to a single coordinate.

use vstd::prelude::*;

use crate::generic::{Center, Contains, Measure, MinDistWith, Overlaps};
use crate::interval::{
    half_toward_zero, interval_min_dist, interval_value_min_dist, Interval,
    lemma_interval_min_dist_zero_iff_overlap, lemma_interval_value_min_dist_zero_iff_contains,
};
use crate::point::Point;

verus! {

/// An axis-aligned rectangle: the product of an x-extent and a y-extent.
#[derive(Debug, Clone, Copy, PartialEq, Eq, Hash, Structural)]
pub struct Rectangle<T> {
    pub x_interval: Interval<T>,
    pub y_interval: Interval<T>,
}

impl<T> Rectangle<T> {
    /// Create a new rectangle with given x and y intervals.
    pub fn new(x_interval: Interval<T>, y_interval: Interval<T>) -> (r: Self)
        ensures
            r.x_interval == x_interval,
            r.y_interval == y_interval,
    {
        Rectangle { x_interval, y_interval }
    }

    /// The x-interval.
    pub fn x_interval(&self) -> (r: &Interval<T>)
        ensures
            *r == self.x_interval,
    {
        &self.x_interval
    }

    /// The y-interval.
    pub fn y_interval(&self) -> (r: &Interval<T>)
        ensures
            *r == self.y_interval,
    {
        &self.y_interval
    }
}

impl<T: Copy> Rectangle<T> {
    /// The transposed rectangle: the two intervals swap axes.
    pub open spec fn spec_flip(&self) -> Rectangle<T> {
        Rectangle { x_interval: self.y_interval, y_interval: self.x_interval }
    }

    /// The lower-left corner point.
    pub fn ll(&self) -> (r: Point<T>)
        ensures
            r.x == self.x_interval.lb,
            r.y == self.y_interval.lb,
    {
        Point::new(self.x_interval.lb, self.y_interval.lb)
    }

    /// The upper-right corner point.
    pub fn ur(&self) -> (r: Point<T>)
        ensures
            r.x == self.x_interval.ub,
            r.y == self.y_interval.ub,
    {
        Point::new(self.x_interval.ub, self.y_interval.ub)
    }

    /// Flip the rectangle: transpose it across the diagonal.
    pub fn flip(&self) -> (r: Self)
        ensures
            r == self.spec_flip(),
    {
        Rectangle::new(self.y_interval, self.x_interval)
    }
}

impl Rectangle<i64> {
    /// The area: width times height.
    pub open spec fn spec_area(&self) -> int {
        self.x_interval.spec_width() * self.y_interval.spec_width()
    }

    /// The width of the rectangle: the width of its x-interval.
    pub fn width(&self) -> (r: i64)
        requires
            i64::MIN <= self.x_interval.spec_width() <= i64::MAX,
        ensures
            r == self.x_interval.spec_width(),
    {
        self.x_interval.width()
    }

    /// The height of the rectangle: the width of its y-interval.
    pub fn height(&self) -> (r: i64)
        requires
            i64::MIN <= self.y_interval.spec_width() <= i64::MAX,
        ensures
            r == self.y_interval.spec_width(),
    {
        self.y_interval.width()
    }

    /// The area of the rectangle: width times height.
    pub fn area(&self) -> (r: i64)
        requires
            i64::MIN <= self.x_interval.spec_width() <= i64::MAX,
            i64::MIN <= self.y_interval.spec_width() <= i64::MAX,
            i64::MIN <= self.spec_area() <= i64::MAX,
        ensures
            r == self.spec_area(),
    {
        self.width() * self.height()
    }
}

// Rectangles overlap when both axis extents overlap.
impl Overlaps for Rectangle<i64> {
    open spec fn spec_overlaps(&self, other: &Self) -> bool {
        self.x_interval.spec_overlaps(&other.x_interval) && self.y_interval.spec_overlaps(
            &other.y_interval,
        )
    }

    fn overlaps(&self, other: &Self) -> bool {
        self.x_interval.overlaps(&other.x_interval) && self.y_interval.overlaps(&other.y_interval)
    }
}

// A rectangle contains another when it does so on both axes.
impl Contains for Rectangle<i64> {
    open spec fn spec_contains(&self, other: &Self) -> bool {
        self.x_interval.spec_contains(&other.x_interval) && self.y_interval.spec_contains(
            &other.y_interval,
        )
    }

    fn contains(&self, other: &Self) -> bool {
        self.x_interval.contains(&other.x_interval) && self.y_interval.contains(&other.y_interval)
    }
}

// A rectangle contains a point when each axis interval contains the
// corresponding coordinate.
impl Contains<Point<i64>> for Rectangle<i64> {
    open spec fn spec_contains(&self, other: &Point<i64>) -> bool {
        self.x_interval.spec_contains(&other.x) && self.y_interval.spec_contains(&other.y)
    }

    fn contains(&self, other: &Point<i64>) -> bool {
        self.x_interval.contains(other.x()) && self.y_interval.contains(other.y())
    }
}

/// The minimum Manhattan distance between two rectangles: the sum of the
/// per-axis interval distances.
pub open spec fn rectangle_min_dist(a: Rectangle<i64>, b: Rectangle<i64>) -> int {
    interval_min_dist(a.x_interval, b.x_interval) + interval_min_dist(a.y_interval, b.y_interval)
}

/// The minimum Manhattan distance between a rectangle and a point: the sum
/// of the per-axis interval-to-coordinate distances.
pub open spec fn rectangle_point_min_dist(a: Rectangle<i64>, p: Point<i64>) -> int {
    interval_value_min_dist(a.x_interval, p.x) + interval_value_min_dist(a.y_interval, p.y)
}

impl MinDistWith for Rectangle<i64> {
    type Output = i64;

    open spec fn min_dist_req(&self, other: &Self) -> bool {
        rectangle_min_dist(*self, *other) <= i64::MAX
    }

    open spec fn min_dist_post(&self, other: &Self, r: i64) -> bool {
        r == rectangle_min_dist(*self, *other)
    }

    fn min_dist_with(&self, other: &Self) -> i64 {
        proof {
            lemma_interval_min_dist_zero_iff_overlap(self.x_interval, other.x_interval);
            lemma_interval_min_dist_zero_iff_overlap(self.y_interval, other.y_interval);
        }
        let dx: i64 = self.x_interval.min_dist_with(&other.x_interval);
        let dy: i64 = self.y_interval.min_dist_with(&other.y_interval);
        dx + dy
    }
}

impl MinDistWith<Point<i64>> for Rectangle<i64> {
    type Output = i64;

    open spec fn min_dist_req(&self, other: &Point<i64>) -> bool {
        rectangle_point_min_dist(*self, *other) <= i64::MAX
    }

    open spec fn min_dist_post(&self, other: &Point<i64>, r: i64) -> bool {
        r == rectangle_point_min_dist(*self, *other)
    }

    fn min_dist_with(&self, other: &Point<i64>) -> i64 {
        proof {
            lemma_interval_value_min_dist_zero_iff_contains(self.x_interval, other.x);
            lemma_interval_value_min_dist_zero_iff_contains(self.y_interval, other.y);
        }
        let dx: i64 = self.x_interval.min_dist_with(other.x());
        let dy: i64 = self.y_interval.min_dist_with(other.y());
        dx + dy
    }
}

// The measure of a rectangle is its area.
impl Measure for Rectangle<i64> {
    type Output = i64;

    open spec fn measure_req(&self) -> bool {
        &&& i64::MIN <= self.x_interval.spec_width() <= i64::MAX
        &&& i64::MIN <= self.y_interval.spec_width() <= i64::MAX
        &&& i64::MIN <= self.spec_area() <= i64::MAX
    }

    open spec fn measure_post(&self, r: i64) -> bool {
        r == self.spec_area()
    }

    fn measure(&self) -> i64 {
        self.area()
    }
}

// The center of a rectangle is the point of its two interval midpoints.
impl Center for Rectangle<i64> {
    type Output = Point<i64>;

    open spec fn center_req(&self) -> bool {
        &&& i64::MIN <= self.x_interval.lb + self.x_interval.ub <= i64::MAX
        &&& i64::MIN <= self.y_interval.lb + self.y_interval.ub <= i64::MAX
    }

    open spec fn center_post(&self, r: Point<i64>) -> bool {
        r.x == half_toward_zero(self.x_interval.lb + self.x_interval.ub) && r.y == half_toward_zero(
            self.y_interval.lb + self.y_interval.ub,
        )
    }

    fn center(&self) -> Point<i64> {
        Point::new(self.x_interval.center(), self.y_interval.center())
    }
}

/// A vertical line segment: a fixed x-coordinate and a y-extent.
#[derive(Debug, Clone, Copy, PartialEq, Eq, Hash, Structural)]
pub struct VSegment<T> {
    pub x: T,
    pub y_interval: Interval<T>,
}

/// A horizontal line segment: an x-extent and a fixed y-coordinate.
#[derive(Debug, Clone, Copy, PartialEq, Eq, Hash, Structural)]
pub struct HSegment<T> {
    pub x_interval: Interval<T>,
    pub y: T,
}

impl<T> VSegment<T> {
    /// Create a new vertical segment.
    pub fn new(x: T, y_interval: Interval<T>) -> (r: Self)
        ensures
            r.x == x,
            r.y_interval == y_interval,
    {
        VSegment { x, y_interval }
    }

    /// The fixed x-coordinate.
    pub fn x(&self) -> (r: &T)
        ensures
            *r == self.x,
    {
        &self.x
    }

    /// The y-interval.
    pub fn y_interval(&self) -> (r: &Interval<T>)
        ensures
            *r == self.y_interval,
    {
        &self.y_interval
    }
}

impl<T: Copy> VSegment<T> {
    /// The same segment seen across the diagonal, as a horizontal one.
    pub open spec fn spec_flip(&self) -> HSegment<T> {
        HSegment { x_interval: self.y_interval, y: self.x }
    }

    /// Flip the segment: vertical to horizontal, an exact structural
    /// transpose.
    pub fn flip(&self) -> (r: HSegment<T>)
        ensures
            r == self.spec_flip(),
    {
        HSegment::new(self.y_interval, self.x)
    }
}

impl<T> HSegment<T> {
    /// Create a new horizontal segment.
    pub fn new(x_interval: Interval<T>, y: T) -> (r: Self)
        ensures
            r.x_interval == x_interval,
            r.y == y,
    {
        HSegment { x_interval, y }
    }

    /// The x-interval.
    pub fn x_interval(&self) -> (r: &Interval<T>)
        ensures
            *r == self.x_interval,
    {
        &self.x_interval
    }

    /// The fixed y-coordinate.
    pub fn y(&self) -> (r: &T)
        ensures
            *r == self.y,
    {
        &self.y
    }
}

impl<T: Copy> HSegment<T> {
    /// The same segment seen across the diagonal, as a vertical one.
    pub open spec fn spec_flip(&self) -> VSegment<T> {
        VSegment { x: self.y, y_interval: self.x_interval }
    }

    /// Flip the segment: horizontal to vertical, an exact structural
    /// transpose.
    pub fn flip(&self) -> (r: VSegment<T>)
        ensures
            r == self.spec_flip(),
    {
        VSegment::new(self.y, self.x_interval)
    }
}

// Vertical segments overlap when they share the fixed coordinate and their
// extents overlap.
impl Overlaps for VSegment<i64> {
    open spec fn spec_overlaps(&self, other: &Self) -> bool {
        self.x == other.x && self.y_interval.spec_overlaps(&other.y_interval)
    }

    fn overlaps(&self, other: &Self) -> bool {
        self.x == other.x && self.y_interval.overlaps(&other.y_interval)
    }
}

impl Contains for VSegment<i64> {
    open spec fn spec_contains(&self, other: &Self) -> bool {
        self.x == other.x && self.y_interval.spec_contains(&other.y_interval)
    }

    fn contains(&self, other: &Self) -> bool {
        self.x == other.x && self.y_interval.contains(&other.y_interval)
    }
}

// A vertical segment contains a point on its line whose y-coordinate lies in
// its extent.
impl Contains<Point<i64>> for VSegment<i64> {
    open spec fn spec_contains(&self, other: &Point<i64>) -> bool {
        self.x == other.x && self.y_interval.spec_contains(&other.y)
    }

    fn contains(&self, other: &Point<i64>) -> bool {
        self.x == *other.x() && self.y_interval.contains(other.y())
    }
}

impl Overlaps for HSegment<i64> {
    open spec fn spec_overlaps(&self, other: &Self) -> bool {
        self.y == other.y && self.x_interval.spec_overlaps(&other.x_interval)
    }

    fn overlaps(&self, other: &Self) -> bool {
        self.y == other.y && self.x_interval.overlaps(&other.x_interval)
    }
}

impl Contains for HSegment<i64> {
    open spec fn spec_contains(&self, other: &Self) -> bool {
        self.y == other.y && self.x_interval.spec_contains(&other.x_interval)
    }

    fn contains(&self, other: &Self) -> bool {
        self.y == other.y && self.x_interval.contains(&other.x_interval)
    }
}

impl Contains<Point<i64>> for HSegment<i64> {
    open spec fn spec_contains(&self, other: &Point<i64>) -> bool {
        self.y == other.y && self.x_interval.spec_contains(&other.x)
    }

    fn contains(&self, other: &Point<i64>) -> bool {
        self.y == *other.y() && self.x_interval.contains(other.x())
    }
}

/// Overlap of rectangles is symmetric.
pub proof fn lemma_rectangle_overlap_symmetric(a: Rectangle<i64>, b: Rectangle<i64>)
    ensures
        a.spec_overlaps(&b) == b.spec_overlaps(&a),
{
}

/// Containment of rectangles is reflexive.
pub proof fn lemma_rectangle_contains_reflexive(a: Rectangle<i64>)
    ensures
        a.spec_contains(&a),
{
}

/// Containment of rectangles is antisymmetric: mutual containment forces
/// equal extents.
pub proof fn lemma_rectangle_contains_antisymmetric(a: Rectangle<i64>, b: Rectangle<i64>)
    requires
        a.spec_contains(&b),
        b.spec_contains(&a),
    ensures
        a == b,
{
}

/// Containment of rectangles is transitive.
pub proof fn lemma_rectangle_contains_transitive(
    a: Rectangle<i64>,
    b: Rectangle<i64>,
    c: Rectangle<i64>,
)
    requires
        a.spec_contains(&b),
        b.spec_contains(&c),
    ensures
        a.spec_contains(&c),
{
}

/// The minimum distance between two rectangles is zero exactly when they
/// overlap, and is never negative.
pub proof fn lemma_rectangle_min_dist_zero_iff_overlap(a: Rectangle<i64>, b: Rectangle<i64>)
    ensures
        rectangle_min_dist(a, b) == 0 <==> a.spec_overlaps(&b),
        rectangle_min_dist(a, b) >= 0,
{
    lemma_interval_min_dist_zero_iff_overlap(a.x_interval, b.x_interval);
    lemma_interval_min_dist_zero_iff_overlap(a.y_interval, b.y_interval);
}

/// Overlap of vertical segments is symmetric.
pub proof fn lemma_vsegment_overlap_symmetric(a: VSegment<i64>, b: VSegment<i64>)
    ensures
        a.spec_overlaps(&b) == b.spec_overlaps(&a),
{
}

/// Overlap of horizontal segments is symmetric.
pub proof fn lemma_hsegment_overlap_symmetric(a: HSegment<i64>, b: HSegment<i64>)
    ensures
        a.spec_overlaps(&b) == b.spec_overlaps(&a),
{
}

/// Flipping a vertical segment twice gives the segment back.
pub proof fn lemma_vsegment_flip_involution(a: VSegment<i64>)
    ensures
        a.spec_flip().spec_flip() == a,
{
}

/// Flipping a horizontal segment twice gives the segment back.
pub proof fn lemma_hsegment_flip_involution(a: HSegment<i64>)
    ensures
        a.spec_flip().spec_flip() == a,
{
}

/// Flipping a rectangle twice gives the rectangle back.
pub proof fn lemma_rectangle_flip_involution(a: Rectangle<i64>)
    ensures
        a.spec_flip().spec_flip() == a,
{
}

} // verus!
