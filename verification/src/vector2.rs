//! Two-dimensional displacement vectors with componentwise linear algebra.

use vstd::prelude::*;

use vstd::math::abs;

verus! {

/// A 2D vector (a displacement, not a location).
#[derive(Debug, Clone, Copy, Hash)]
pub struct Vector2<T> {
    pub x: T,
    pub y: T,
}

impl<T> Vector2<T> {
    /// Create a new vector with given x and y components.
    pub fn new(x: T, y: T) -> (r: Self)
        ensures
            r.x == x,
            r.y == y,
    {
        Vector2 { x, y }
    }

    /// The x-component.
    pub fn x(&self) -> (r: &T)
        ensures
            *r == self.x,
    {
        &self.x
    }

    /// The y-component.
    pub fn y(&self) -> (r: &T)
        ensures
            *r == self.y,
    {
        &self.y
    }
}

impl Vector2<i64> {
    /// The scalar cross product `x1 * y2 - y1 * x2`.
    pub open spec fn spec_cross(&self, other: &Self) -> int {
        self.x * other.y - self.y * other.x
    }

    /// The dot product `x1 * x2 + y1 * y2`.
    pub open spec fn spec_dot(&self, other: &Self) -> int {
        self.x * other.x + self.y * other.y
    }

    /// The Manhattan length `|x| + |y|` (L1 norm).
    pub open spec fn spec_manhattan_length(&self) -> int {
        (abs(self.x as int) + abs(self.y as int)) as int
    }

    /// Componentwise equality of two vectors.
    pub open spec fn spec_eq(&self, other: &Self) -> bool {
        self.x == other.x && self.y == other.y
    }

    /// The squared Euclidean length `x * x + y * y`.
    pub open spec fn spec_length_squared(&self) -> int {
        self.x * self.x + self.y * self.y
    }

    /// Compute the scalar cross product with another vector.
    pub fn cross(&self, other: &Self) -> (r: i64)
        requires
            i64::MIN <= self.x * other.y <= i64::MAX,
            i64::MIN <= self.y * other.x <= i64::MAX,
            i64::MIN <= self.spec_cross(other) <= i64::MAX,
        ensures
            r == self.spec_cross(other),
    {
        self.x * other.y - self.y * other.x
    }

    /// Compute the dot product with another vector.
    pub fn dot(&self, other: &Self) -> (r: i64)
        requires
            i64::MIN <= self.x * other.x <= i64::MAX,
            i64::MIN <= self.y * other.y <= i64::MAX,
            i64::MIN <= self.spec_dot(other) <= i64::MAX,
        ensures
            r == self.spec_dot(other),
    {
        self.x * other.x + self.y * other.y
    }

    /// Compute the Manhattan length (L1 norm) of the vector.
    pub fn manhattan_length(&self) -> (r: i64)
        requires
            self.spec_manhattan_length() <= i64::MAX,
        ensures
            r == self.spec_manhattan_length(),
    {
        let ax: i64 = if self.x >= 0 {
            self.x
        } else {
            -self.x
        };
        let ay: i64 = if self.y >= 0 {
            self.y
        } else {
            -self.y
        };
        ax + ay
    }

    /// Compute the squared Euclidean length of the vector. No square root is
    /// taken: callers needing the Euclidean length must do so themselves.
    pub fn length_squared(&self) -> (r: i64)
        requires
            self.spec_length_squared() <= i64::MAX,
        ensures
            r == self.spec_length_squared(),
    {
        proof {
            lemma_square_nonneg(self.x as int);
            lemma_square_nonneg(self.y as int);
        }
        self.x * self.x + self.y * self.y
    }
}

/// A square is never negative.
proof fn lemma_square_nonneg(v: int)
    ensures
        v * v >= 0,
{
    assert(v * v >= 0) by (nonlinear_arith);
}

// Vectors add and subtract componentwise.
impl core::ops::Add for Vector2<i64> {
    type Output = Vector2<i64>;

    fn add(self, rhs: Vector2<i64>) -> Vector2<i64> {
        Vector2::new(self.x + rhs.x, self.y + rhs.y)
    }
}

impl vstd::std_specs::ops::AddSpecImpl for Vector2<i64> {
    open spec fn obeys_add_spec() -> bool {
        true
    }

    open spec fn add_req(self, rhs: Vector2<i64>) -> bool {
        i64::MIN <= self.x + rhs.x <= i64::MAX && i64::MIN <= self.y + rhs.y <= i64::MAX
    }

    open spec fn add_spec(self, rhs: Vector2<i64>) -> Vector2<i64> {
        Vector2 { x: (self.x + rhs.x) as i64, y: (self.y + rhs.y) as i64 }
    }
}

impl core::ops::Sub for Vector2<i64> {
    type Output = Vector2<i64>;

    fn sub(self, rhs: Vector2<i64>) -> Vector2<i64> {
        Vector2::new(self.x - rhs.x, self.y - rhs.y)
    }
}

impl vstd::std_specs::ops::SubSpecImpl for Vector2<i64> {
    open spec fn obeys_sub_spec() -> bool {
        true
    }

    open spec fn sub_req(self, rhs: Vector2<i64>) -> bool {
        i64::MIN <= self.x - rhs.x <= i64::MAX && i64::MIN <= self.y - rhs.y <= i64::MAX
    }

    open spec fn sub_spec(self, rhs: Vector2<i64>) -> Vector2<i64> {
        Vector2 { x: (self.x - rhs.x) as i64, y: (self.y - rhs.y) as i64 }
    }
}

// A vector scales by a scalar componentwise.
impl core::ops::Mul<i64> for Vector2<i64> {
    type Output = Vector2<i64>;

    fn mul(self, rhs: i64) -> Vector2<i64> {
        Vector2::new(self.x * rhs, self.y * rhs)
    }
}

impl vstd::std_specs::ops::MulSpecImpl<i64> for Vector2<i64> {
    open spec fn obeys_mul_spec() -> bool {
        true
    }

    open spec fn mul_req(self, rhs: i64) -> bool {
        i64::MIN <= self.x * rhs <= i64::MAX && i64::MIN <= self.y * rhs <= i64::MAX
    }

    open spec fn mul_spec(self, rhs: i64) -> Vector2<i64> {
        Vector2 { x: (self.x * rhs) as i64, y: (self.y * rhs) as i64 }
    }
}

/// The quotient of two integers under Rust's `/`: division truncating
/// toward zero.
pub open spec fn div_toward_zero(a: int, b: int) -> int {
    if a >= 0 {
        a / b
    } else {
        -((-a) / b)
    }
}

// A vector divides by a scalar componentwise, truncating toward zero.
impl core::ops::Div<i64> for Vector2<i64> {
    type Output = Vector2<i64>;

    fn div(self, rhs: i64) -> Vector2<i64> {
        Vector2::new(self.x / rhs, self.y / rhs)
    }
}

impl vstd::std_specs::ops::DivSpecImpl<i64> for Vector2<i64> {
    open spec fn obeys_div_spec() -> bool {
        true
    }

    open spec fn div_req(self, rhs: i64) -> bool {
        rhs != 0 && !(self.x == i64::MIN && rhs == -1) && !(self.y == i64::MIN && rhs == -1)
    }

    open spec fn div_spec(self, rhs: i64) -> Vector2<i64> {
        Vector2 {
            x: div_toward_zero(self.x as int, rhs as int) as i64,
            y: div_toward_zero(self.y as int, rhs as int) as i64,
        }
    }
}

// Negation flips both components.
impl core::ops::Neg for Vector2<i64> {
    type Output = Vector2<i64>;

    fn neg(self) -> Vector2<i64> {
        Vector2::new(-self.x, -self.y)
    }
}

impl vstd::std_specs::ops::NegSpecImpl for Vector2<i64> {
    open spec fn obeys_neg_spec() -> bool {
        true
    }

    open spec fn neg_req(self) -> bool {
        self.x != i64::MIN && self.y != i64::MIN
    }

    open spec fn neg_spec(self) -> Vector2<i64> {
        Vector2 { x: (-self.x) as i64, y: (-self.y) as i64 }
    }
}

// Two vectors are equal when their components are.
impl PartialEq for Vector2<i64> {
    fn eq(&self, other: &Self) -> (r: bool) {
        self.x == other.x && self.y == other.y
    }
}

impl vstd::std_specs::cmp::PartialEqSpecImpl for Vector2<i64> {
    open spec fn obeys_eq_spec() -> bool {
        true
    }

    open spec fn eq_spec(&self, other: &Self) -> bool {
        self.spec_eq(other)
    }
}

// A vector compares equal to a bare scalar when both components equal that
// scalar: an explicit asymmetric equality, not a structural coercion.
impl PartialEq<i64> for Vector2<i64> {
    fn eq(&self, other: &i64) -> (r: bool) {
        self.x == *other && self.y == *other
    }
}

impl vstd::std_specs::cmp::PartialEqSpecImpl<i64> for Vector2<i64> {
    open spec fn obeys_eq_spec() -> bool {
        true
    }

    open spec fn eq_spec(&self, other: &i64) -> bool {
        self.x == *other && self.y == *other
    }
}

/// The zero vector.
pub fn zero_vector() -> (r: Vector2<i64>)
    ensures
        r.x == 0,
        r.y == 0,
{
    Vector2::new(0, 0)
}

/// The unit vector in the x-direction.
pub fn unit_x() -> (r: Vector2<i64>)
    ensures
        r.x == 1,
        r.y == 0,
{
    Vector2::new(1, 0)
}

/// The unit vector in the y-direction.
pub fn unit_y() -> (r: Vector2<i64>)
    ensures
        r.x == 0,
        r.y == 1,
{
    Vector2::new(0, 1)
}

} // verus!
