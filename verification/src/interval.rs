//! One-dimensional closed intervals `[lb, ub]`.
//!
//! An interval is constructed without validation: `lb > ub` is representable
//! and denotes an invalid range. Callers are expected to consult `is_valid`
//! before relying on width or center semantics.

use vstd::prelude::*;

use crate::generic::{Center, Contains, IntersectWith, Measure, MinDistWith, Overlaps};

verus! {

/// A closed interval `[lb, ub]` over a coordinate type.
#[derive(Debug, Clone, Copy, PartialEq, Eq, Hash, Structural)]
pub struct Interval<T> {
    pub lb: T,
    pub ub: T,
}

impl<T> Interval<T> {
    /// Create a new interval with the given bounds; no validation is performed.
    pub fn new(lb: T, ub: T) -> (r: Self)
        ensures
            r.lb == lb,
            r.ub == ub,
    {
        Interval { lb, ub }
    }

    /// The lower bound.
    pub fn lb(&self) -> (r: &T)
        ensures
            *r == self.lb,
    {
        &self.lb
    }

    /// The upper bound.
    pub fn ub(&self) -> (r: &T)
        ensures
            *r == self.ub,
    {
        &self.ub
    }
}

impl Interval<i64> {
    /// An interval is valid when its lower bound does not exceed its upper bound.
    pub open spec fn spec_valid(&self) -> bool {
        self.lb <= self.ub
    }

    /// The width `ub - lb`; negative exactly when the interval is invalid.
    pub open spec fn spec_width(&self) -> int {
        self.ub - self.lb
    }

    /// True when the bounds are ordered (`lb <= ub`).
    pub fn is_valid(&self) -> (r: bool)
        ensures
            r == self.spec_valid(),
    {
        self.lb <= self.ub
    }

    /// True when the bounds are out of order (`lb > ub`).
    pub fn is_invalid(&self) -> (r: bool)
        ensures
            r == !self.spec_valid(),
    {
        self.lb > self.ub
    }

    /// The width `ub - lb`. For an invalid interval this is negative: a
    /// sentinel, not a measurement.
    pub fn width(&self) -> (r: i64)
        requires
            i64::MIN <= self.spec_width() <= i64::MAX,
        ensures
            r == self.spec_width(),
    {
        self.ub - self.lb
    }

    /// True when the interval has zero width (a single value, not invalid).
    pub fn is_empty(&self) -> (r: bool)
        ensures
            r == (self.lb == self.ub),
    {
        self.lb == self.ub
    }

    /// The midpoint `(lb + ub) / 2`, where the division truncates toward zero.
    pub open spec fn spec_center(&self) -> int {
        half_toward_zero(self.lb + self.ub)
    }

    /// The midpoint of the interval; integer division truncates toward zero.
    pub fn center(&self) -> (r: i64)
        requires
            i64::MIN <= self.lb + self.ub <= i64::MAX,
        ensures
            r == self.spec_center(),
    {
        let s: i64 = self.lb + self.ub;
        s / 2
    }
}

/// Halve an integer, truncating toward zero as Rust's `/` does.
pub open spec fn half_toward_zero(v: int) -> int {
    if v >= 0 {
        v / 2
    } else {
        -((-v) / 2)
    }
}

/// The overlapping sub-interval `[max(lb1, lb2), min(ub1, ub2)]` of two
/// intervals; meaningful as an intersection only when the two overlap.
pub open spec fn interval_intersection(a: Interval<i64>, b: Interval<i64>) -> Interval<i64> {
    Interval {
        lb: if a.lb >= b.lb {
            a.lb
        } else {
            b.lb
        },
        ub: if a.ub <= b.ub {
            a.ub
        } else {
            b.ub
        },
    }
}

/// The minimum distance between two intervals: zero when they overlap, else
/// the gap between the nearer pair of bounds.
pub open spec fn interval_min_dist(a: Interval<i64>, b: Interval<i64>) -> int {
    if a.spec_overlaps(&b) {
        0
    } else if a.ub < b.lb {
        b.lb - a.ub
    } else {
        a.lb - b.ub
    }
}

/// The minimum distance between an interval and a bare coordinate: zero when
/// the interval contains it, else the gap to the nearer bound.
pub open spec fn interval_value_min_dist(a: Interval<i64>, v: i64) -> int {
    if a.spec_contains(&v) {
        0
    } else if v < a.lb {
        a.lb - v
    } else {
        v - a.ub
    }
}

// Two closed intervals overlap iff `lb1 <= ub2 && lb2 <= ub1`; touching at a
// single boundary value counts as overlap.
impl Overlaps for Interval<i64> {
    open spec fn spec_overlaps(&self, other: &Self) -> bool {
        self.lb <= other.ub && other.lb <= self.ub
    }

    fn overlaps(&self, other: &Self) -> bool {
        self.lb <= other.ub && other.lb <= self.ub
    }
}

// An interval overlaps a bare coordinate the same way it overlaps another
// interval degenerated to a point.
impl Overlaps<i64> for Interval<i64> {
    open spec fn spec_overlaps(&self, other: &i64) -> bool {
        self.lb <= *other && *other <= self.ub
    }

    fn overlaps(&self, other: &i64) -> bool {
        self.lb <= *other && *other <= self.ub
    }
}

impl Contains for Interval<i64> {
    open spec fn spec_contains(&self, other: &Self) -> bool {
        self.lb <= other.lb && other.ub <= self.ub
    }

    fn contains(&self, other: &Self) -> bool {
        self.lb <= other.lb && other.ub <= self.ub
    }
}

impl Contains<i64> for Interval<i64> {
    open spec fn spec_contains(&self, other: &i64) -> bool {
        self.lb <= *other && *other <= self.ub
    }

    fn contains(&self, other: &i64) -> bool {
        self.lb <= *other && *other <= self.ub
    }
}

impl IntersectWith for Interval<i64> {
    type Output = Interval<i64>;

    open spec fn intersect_post(&self, other: &Self, r: Option<Interval<i64>>) -> bool {
        if self.spec_overlaps(other) {
            r == Some(interval_intersection(*self, *other))
        } else {
            r is None
        }
    }

    fn intersect_with(&self, other: &Self) -> Option<Interval<i64>> {
        if self.overlaps(other) {
            let lb: i64 = if self.lb > other.lb {
                self.lb
            } else {
                other.lb
            };
            let ub: i64 = if self.ub < other.ub {
                self.ub
            } else {
                other.ub
            };
            Some(Interval::new(lb, ub))
        } else {
            None
        }
    }
}

impl MinDistWith for Interval<i64> {
    type Output = i64;

    open spec fn min_dist_req(&self, other: &Self) -> bool {
        interval_min_dist(*self, *other) <= i64::MAX
    }

    open spec fn min_dist_post(&self, other: &Self, r: i64) -> bool {
        r == interval_min_dist(*self, *other)
    }

    fn min_dist_with(&self, other: &Self) -> i64 {
        if self.overlaps(other) {
            0
        } else if self.ub < other.lb {
            other.lb - self.ub
        } else {
            self.lb - other.ub
        }
    }
}

impl MinDistWith<i64> for Interval<i64> {
    type Output = i64;

    open spec fn min_dist_req(&self, other: &i64) -> bool {
        interval_value_min_dist(*self, *other) <= i64::MAX
    }

    open spec fn min_dist_post(&self, other: &i64, r: i64) -> bool {
        r == interval_value_min_dist(*self, *other)
    }

    fn min_dist_with(&self, other: &i64) -> i64 {
        if self.contains(other) {
            0
        } else if *other < self.lb {
            self.lb - *other
        } else {
            *other - self.ub
        }
    }
}

// The measure of an interval is its width.
impl Measure for Interval<i64> {
    type Output = i64;

    open spec fn measure_req(&self) -> bool {
        i64::MIN <= self.spec_width() <= i64::MAX
    }

    open spec fn measure_post(&self, r: i64) -> bool {
        r == self.spec_width()
    }

    fn measure(&self) -> i64 {
        self.width()
    }
}

// The center of an interval is its midpoint, with truncating division.
impl Center for Interval<i64> {
    type Output = i64;

    open spec fn center_req(&self) -> bool {
        i64::MIN <= self.lb + self.ub <= i64::MAX
    }

    open spec fn center_post(&self, r: i64) -> bool {
        r == self.spec_center()
    }

    fn center(&self) -> i64 {
        Interval::<i64>::center(self)
    }
}

// Translating an interval by a scalar shifts both bounds.
impl core::ops::Add<i64> for Interval<i64> {
    type Output = Interval<i64>;

    fn add(self, rhs: i64) -> Interval<i64> {
        Interval::new(self.lb + rhs, self.ub + rhs)
    }
}

impl vstd::std_specs::ops::AddSpecImpl<i64> for Interval<i64> {
    open spec fn obeys_add_spec() -> bool {
        true
    }

    open spec fn add_req(self, rhs: i64) -> bool {
        i64::MIN <= self.lb + rhs <= i64::MAX && i64::MIN <= self.ub + rhs <= i64::MAX
    }

    open spec fn add_spec(self, rhs: i64) -> Interval<i64> {
        Interval { lb: (self.lb + rhs) as i64, ub: (self.ub + rhs) as i64 }
    }
}

impl core::ops::Sub<i64> for Interval<i64> {
    type Output = Interval<i64>;

    fn sub(self, rhs: i64) -> Interval<i64> {
        Interval::new(self.lb - rhs, self.ub - rhs)
    }
}

impl vstd::std_specs::ops::SubSpecImpl<i64> for Interval<i64> {
    open spec fn obeys_sub_spec() -> bool {
        true
    }

    open spec fn sub_req(self, rhs: i64) -> bool {
        i64::MIN <= self.lb - rhs <= i64::MAX && i64::MIN <= self.ub - rhs <= i64::MAX
    }

    open spec fn sub_spec(self, rhs: i64) -> Interval<i64> {
        Interval { lb: (self.lb - rhs) as i64, ub: (self.ub - rhs) as i64 }
    }
}

// Scaling multiplies both bounds without reordering them: a negative factor
// can turn a valid interval invalid.
impl core::ops::Mul<i64> for Interval<i64> {
    type Output = Interval<i64>;

    fn mul(self, rhs: i64) -> Interval<i64> {
        Interval::new(self.lb * rhs, self.ub * rhs)
    }
}

impl vstd::std_specs::ops::MulSpecImpl<i64> for Interval<i64> {
    open spec fn obeys_mul_spec() -> bool {
        true
    }

    open spec fn mul_req(self, rhs: i64) -> bool {
        i64::MIN <= self.lb * rhs <= i64::MAX && i64::MIN <= self.ub * rhs <= i64::MAX
    }

    open spec fn mul_spec(self, rhs: i64) -> Interval<i64> {
        Interval { lb: (self.lb * rhs) as i64, ub: (self.ub * rhs) as i64 }
    }
}

/// Create the hull: the smallest interval containing two values, whatever
/// their order.
pub fn hull(a: i64, b: i64) -> (r: Interval<i64>)
    ensures
        r.lb == if a <= b { a } else { b },
        r.ub == if a >= b { a } else { b },
        r.spec_valid(),
        r.spec_contains(&a) && r.spec_contains(&b),
{
    let lb: i64 = if a <= b {
        a
    } else {
        b
    };
    let ub: i64 = if a >= b {
        a
    } else {
        b
    };
    Interval::new(lb, ub)
}

/// Enlarge an interval by a given amount on both sides; a negative amount
/// shrinks it and may make it invalid.
pub fn enlarge(interval: Interval<i64>, amount: i64) -> (r: Interval<i64>)
    requires
        i64::MIN <= interval.lb - amount <= i64::MAX,
        i64::MIN <= interval.ub + amount <= i64::MAX,
    ensures
        r.lb == interval.lb - amount,
        r.ub == interval.ub + amount,
{
    Interval::new(interval.lb - amount, interval.ub + amount)
}

/// Overlap of intervals is symmetric.
pub proof fn lemma_interval_overlap_symmetric(a: Interval<i64>, b: Interval<i64>)
    ensures
        a.spec_overlaps(&b) == b.spec_overlaps(&a),
{
}

/// Containment of intervals is reflexive.
pub proof fn lemma_interval_contains_reflexive(a: Interval<i64>)
    ensures
        a.spec_contains(&a),
{
}

/// Containment of intervals is antisymmetric: mutual containment forces
/// equal bounds.
pub proof fn lemma_interval_contains_antisymmetric(a: Interval<i64>, b: Interval<i64>)
    requires
        a.spec_contains(&b),
        b.spec_contains(&a),
    ensures
        a == b,
{
}

/// Containment of intervals is transitive.
pub proof fn lemma_interval_contains_transitive(a: Interval<i64>, b: Interval<i64>, c: Interval<
    i64,
>)
    requires
        a.spec_contains(&b),
        b.spec_contains(&c),
    ensures
        a.spec_contains(&c),
{
}

/// The intersection of two overlapping intervals is contained in both
/// operands.
pub proof fn lemma_interval_intersection_contained(a: Interval<i64>, b: Interval<i64>)
    requires
        a.spec_overlaps(&b),
    ensures
        a.spec_contains(&interval_intersection(a, b)),
        b.spec_contains(&interval_intersection(a, b)),
{
}

/// The minimum distance between two intervals is zero exactly when they
/// overlap, and is never negative.
pub proof fn lemma_interval_min_dist_zero_iff_overlap(a: Interval<i64>, b: Interval<i64>)
    ensures
        interval_min_dist(a, b) == 0 <==> a.spec_overlaps(&b),
        interval_min_dist(a, b) >= 0,
{
}

/// The minimum distance between an interval and a bare coordinate is zero
/// exactly when the interval contains it, and is never negative.
pub proof fn lemma_interval_value_min_dist_zero_iff_contains(a: Interval<i64>, v: i64)
    ensures
        interval_value_min_dist(a, v) == 0 <==> a.spec_contains(&v),
        interval_value_min_dist(a, v) >= 0,
{
}

} // verus!
