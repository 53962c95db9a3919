//! The generic operation protocol: capability traits for overlap,
//! containment, intersection, minimum Manhattan distance, measure and center,
//! together with free dispatch functions over them.
//!
//! Each capability pairs an executable method with a specification function
//! (or a postcondition predicate) that the implementing pair defines, so that
//! callers of the free functions obtain the exact contract of the concrete
//! entity pair.

use vstd::prelude::*;

verus! {

/// Capability: test whether two entities share at least one point.
pub trait Overlaps<Rhs = Self> {
    /// What it means for the two entities to overlap.
    spec fn spec_overlaps(&self, other: &Rhs) -> bool;

    /// Check if this object overlaps with another object.
    fn overlaps(&self, other: &Rhs) -> (r: bool)
        ensures
            r == self.spec_overlaps(other),
    ;
}

/// Capability: test whether every point of another entity lies within this one.
pub trait Contains<Rhs = Self> {
    /// What it means for this entity to contain the other.
    spec fn spec_contains(&self, other: &Rhs) -> bool;

    /// Check if this object contains another object.
    fn contains(&self, other: &Rhs) -> (r: bool)
        ensures
            r == self.spec_contains(other),
    ;
}

/// Capability: compute the overlapping sub-region of two entities, when any.
pub trait IntersectWith<Rhs = Self> {
    /// Type of the intersection result.
    type Output;

    /// Exactly which result the intersection returns.
    spec fn intersect_post(&self, other: &Rhs, r: Option<Self::Output>) -> bool;

    /// Compute the intersection with another object; `None` when the
    /// entities do not overlap.
    fn intersect_with(&self, other: &Rhs) -> (r: Option<Self::Output>)
        ensures
            self.intersect_post(other, r),
    ;
}

/// Capability: compute the minimum Manhattan distance between two entities.
pub trait MinDistWith<Rhs = Self> {
    /// Type of the distance result.
    type Output;

    /// Machine-limit precondition: the distance must be representable.
    spec fn min_dist_req(&self, other: &Rhs) -> bool;

    /// Exactly which distance is returned.
    spec fn min_dist_post(&self, other: &Rhs, r: Self::Output) -> bool;

    /// Compute the minimum Manhattan distance to another object; zero
    /// exactly when the entities overlap.
    fn min_dist_with(&self, other: &Rhs) -> (r: Self::Output)
        requires
            self.min_dist_req(other),
        ensures
            self.min_dist_post(other, r),
    ;
}

/// Capability: a size (width for an interval, area for a rectangle or point).
pub trait Measure {
    /// Type of the measurement result.
    type Output;

    /// Machine-limit precondition: the measure must be representable.
    spec fn measure_req(&self) -> bool;

    /// Exactly which measure is returned.
    spec fn measure_post(&self, r: Self::Output) -> bool;

    /// Compute the measure (size) of the object.
    fn measure(&self) -> (r: Self::Output)
        requires
            self.measure_req(),
        ensures
            self.measure_post(r),
    ;
}

/// Capability: a midpoint (componentwise for 2D entities).
pub trait Center {
    /// Type of the center result.
    type Output;

    /// Machine-limit precondition: the center must be representable.
    spec fn center_req(&self) -> bool;

    /// Exactly which center is returned.
    spec fn center_post(&self, r: Self::Output) -> bool;

    /// Compute the center of the object.
    fn center(&self) -> (r: Self::Output)
        requires
            self.center_req(),
        ensures
            self.center_post(r),
    ;
}

/// Check if two objects overlap.
pub fn overlap<L: Overlaps<R>, R>(lhs: &L, rhs: &R) -> (r: bool)
    ensures
        r == lhs.spec_overlaps(rhs),
{
    lhs.overlaps(rhs)
}

/// Check if one object contains another.
pub fn contain<L: Contains<R>, R>(lhs: &L, rhs: &R) -> (r: bool)
    ensures
        r == lhs.spec_contains(rhs),
{
    lhs.contains(rhs)
}

/// Compute the intersection of two objects.
pub fn intersection<L: IntersectWith<R>, R>(lhs: &L, rhs: &R) -> (r: Option<
    <L as IntersectWith<R>>::Output,
>)
    ensures
        lhs.intersect_post(rhs, r),
{
    lhs.intersect_with(rhs)
}

/// Compute the minimum Manhattan distance between two objects.
pub fn min_dist<L: MinDistWith<R>, R>(lhs: &L, rhs: &R) -> (r: <L as MinDistWith<R>>::Output)
    requires
        lhs.min_dist_req(rhs),
    ensures
        lhs.min_dist_post(rhs, r),
{
    lhs.min_dist_with(rhs)
}

/// Compute the measure (size) of an object.
pub fn measure_of<T: Measure>(obj: &T) -> (r: <T as Measure>::Output)
    requires
        obj.measure_req(),
    ensures
        obj.measure_post(r),
{
    obj.measure()
}

/// Compute the center of an object.
pub fn center<T: Center>(obj: &T) -> (r: <T as Center>::Output)
    requires
        obj.center_req(),
    ensures
        obj.center_post(r),
{
    obj.center()
}

/// Compute the displacement (difference) between two coordinates.
pub fn displacement(lhs: i64, rhs: i64) -> (r: i64)
    requires
        i64::MIN <= lhs - rhs <= i64::MAX,
    ensures
        r == lhs - rhs,
{
    lhs - rhs
}

/// The lower of two coordinate values.
pub fn lower(lhs: i64, rhs: i64) -> (r: i64)
    ensures
        r == if lhs <= rhs { lhs } else { rhs },
{
    if lhs <= rhs {
        lhs
    } else {
        rhs
    }
}

/// The upper of two coordinate values.
pub fn upper(lhs: i64, rhs: i64) -> (r: i64)
    ensures
        r == if lhs >= rhs { lhs } else { rhs },
{
    if lhs >= rhs {
        lhs
    } else {
        rhs
    }
}

/// The absolute difference of two coordinates, as a mathematical integer.
pub open spec fn abs_diff(a: int, b: int) -> int {
    if a >= b {
        a - b
    } else {
        b - a
    }
}

// A bare coordinate behaves as an entity degenerated to a single value:
// overlap and containment are equality, distance is the absolute difference.
impl Overlaps for i64 {
    open spec fn spec_overlaps(&self, other: &i64) -> bool {
        self == other
    }

    fn overlaps(&self, other: &i64) -> bool {
        *self == *other
    }
}

impl Contains for i64 {
    open spec fn spec_contains(&self, other: &i64) -> bool {
        self == other
    }

    fn contains(&self, other: &i64) -> bool {
        *self == *other
    }
}

impl MinDistWith for i64 {
    type Output = i64;

    open spec fn min_dist_req(&self, other: &i64) -> bool {
        abs_diff(*self as int, *other as int) <= i64::MAX
    }

    open spec fn min_dist_post(&self, other: &i64, r: i64) -> bool {
        r == abs_diff(*self as int, *other as int)
    }

    fn min_dist_with(&self, other: &i64) -> i64 {
        if *self >= *other {
            *self - *other
        } else {
            *other - *self
        }
    }
}

} // verus!
