//! Three-component vectors.
//!
//! `Vector3<T>` is an ordered triple: component order is fixed and
//! significant.  The arithmetic is implemented for the `i64`
//! instantiation [`Vec3I`]; its length is the floor of the real Euclidean
//! norm (the integer-norm precision caveat documented on
//! [`crate::ops::Length`]).

use vstd::prelude::*;

use crate::num::abs_int;
use crate::num::div_trunc_i64;
use crate::num::isqrt;
use crate::num::isqrt_u64;
use crate::num::lemma_isqrt_exists;
use crate::num::lemma_mul_le;
use crate::num::lemma_square_nonneg;
use crate::num::tdiv;
use crate::ops::Cross;
use crate::ops::Dot;
use crate::ops::Length;
use crate::ops::Normalize;

verus! {

/// An ordered triple of components.
#[derive(Debug, Copy, Clone, PartialEq, Eq, Structural)]
pub struct Vector3<T> {
    pub x: T,
    pub y: T,
    pub z: T,
}

/// The integer instantiation that carries the verified arithmetic.
pub type Vec3I = Vector3<i64>;

/// Componentwise bound under which the dot product, the cross product and
/// the squared norm of `Vec3I` values stay inside the machine range
/// (three products of magnitude at most `1_500_000_000²` and their sum).
pub const VEC3_COORD_MAX: i64 = 1_500_000_000;

impl<T> Vector3<T> {
    /// Gather the three components, in order.
    pub fn new(x: T, y: T, z: T) -> (r: Vector3<T>)
        ensures
            r.x == x,
            r.y == y,
            r.z == z,
    {
        Vector3 { x, y, z }
    }
}

impl Vector3<i64> {
    /// All components of `self` are bounded by `b` in magnitude.
    pub open spec fn coords_bounded(self, b: int) -> bool {
        &&& -b <= self.x <= b
        &&& -b <= self.y <= b
        &&& -b <= self.z <= b
    }

    /// The squared Euclidean norm, as a mathematical integer.
    pub open spec fn norm_sq(self) -> int {
        self.x * self.x + self.y * self.y + self.z * self.z
    }

    /// Componentwise negation, as a value.
    pub open spec fn spec_neg(self) -> Vec3I {
        Vector3 { x: (-(self.x as int)) as i64, y: (-(self.y as int)) as i64, z: (-(self.z as int)) as i64 }
    }

    /// The component at position `i` (0 is `x`, 1 is `y`, 2 is `z`).
    pub open spec fn spec_index(self, i: int) -> i64 {
        if i == 0 {
            self.x
        } else if i == 1 {
            self.y
        } else {
            self.z
        }
    }

    /// The component at a position.  Indexing out of range is a caller
    /// bug, excluded by contract rather than answered with a default.
    pub fn index(&self, i: usize) -> (r: i64)
        requires
            i < 3,
        ensures
            r == self.spec_index(i as int),
    {
        if i == 0 {
            self.x
        } else if i == 1 {
            self.y
        } else {
            self.z
        }
    }

    /// Componentwise sum.
    pub fn add(&self, rhs: &Vec3I) -> (r: Vec3I)
        requires
            i64::MIN <= self.x + rhs.x <= i64::MAX,
            i64::MIN <= self.y + rhs.y <= i64::MAX,
            i64::MIN <= self.z + rhs.z <= i64::MAX,
        ensures
            r.x == self.x + rhs.x,
            r.y == self.y + rhs.y,
            r.z == self.z + rhs.z,
    {
        Vector3 { x: self.x + rhs.x, y: self.y + rhs.y, z: self.z + rhs.z }
    }

    /// Componentwise difference.
    pub fn sub(&self, rhs: &Vec3I) -> (r: Vec3I)
        requires
            i64::MIN <= self.x - rhs.x <= i64::MAX,
            i64::MIN <= self.y - rhs.y <= i64::MAX,
            i64::MIN <= self.z - rhs.z <= i64::MAX,
        ensures
            r.x == self.x - rhs.x,
            r.y == self.y - rhs.y,
            r.z == self.z - rhs.z,
    {
        Vector3 { x: self.x - rhs.x, y: self.y - rhs.y, z: self.z - rhs.z }
    }

    /// Multiplication by a scalar (commutes, so one entry point serves
    /// both operand orders).
    pub fn scale(&self, s: i64) -> (r: Vec3I)
        requires
            i64::MIN <= self.x * s <= i64::MAX,
            i64::MIN <= self.y * s <= i64::MAX,
            i64::MIN <= self.z * s <= i64::MAX,
        ensures
            r.x == self.x * s,
            r.y == self.y * s,
            r.z == self.z * s,
    {
        Vector3 { x: self.x * s, y: self.y * s, z: self.z * s }
    }

    /// In-place multiplication by a scalar.
    pub fn scale_assign(&mut self, s: i64)
        requires
            i64::MIN <= old(self).x * s <= i64::MAX,
            i64::MIN <= old(self).y * s <= i64::MAX,
            i64::MIN <= old(self).z * s <= i64::MAX,
        ensures
            final(self).x == old(self).x * s,
            final(self).y == old(self).y * s,
            final(self).z == old(self).z * s,
    {
        self.x = self.x * s;
        self.y = self.y * s;
        self.z = self.z * s;
    }

    /// Componentwise product.
    pub fn mul_elem(&self, rhs: &Vec3I) -> (r: Vec3I)
        requires
            i64::MIN <= self.x * rhs.x <= i64::MAX,
            i64::MIN <= self.y * rhs.y <= i64::MAX,
            i64::MIN <= self.z * rhs.z <= i64::MAX,
        ensures
            r.x == self.x * rhs.x,
            r.y == self.y * rhs.y,
            r.z == self.z * rhs.z,
    {
        Vector3 { x: self.x * rhs.x, y: self.y * rhs.y, z: self.z * rhs.z }
    }

    /// Componentwise quotient by a scalar, rounding toward zero.
    pub fn div_scalar(&self, s: i64) -> (r: Vec3I)
        requires
            s != 0,
            i64::MIN < self.x,
            i64::MIN < self.y,
            i64::MIN < self.z,
            i64::MIN < s,
        ensures
            r.x == tdiv(self.x as int, s as int),
            r.y == tdiv(self.y as int, s as int),
            r.z == tdiv(self.z as int, s as int),
    {
        Vector3 {
            x: div_trunc_i64(self.x, s),
            y: div_trunc_i64(self.y, s),
            z: div_trunc_i64(self.z, s),
        }
    }

    /// The opposite vector (every component negated).
    pub fn inverse(&self) -> (r: Vec3I)
        requires
            i64::MIN < self.x,
            i64::MIN < self.y,
            i64::MIN < self.z,
        ensures
            r == self.spec_neg(),
    {
        Vector3 { x: -self.x, y: -self.y, z: -self.z }
    }

    /// Normalization with singularity reported as a value: `None` exactly
    /// for the zero vector, `Some(self.normalize())` otherwise.
    pub fn try_normalize(&self) -> (r: Option<Vec3I>)
        requires
            self.coords_bounded(VEC3_COORD_MAX as int),
        ensures
            r is Some <==> !(self.x == 0 && self.y == 0 && self.z == 0),
            r is Some ==> r.unwrap() == self.spec_normalize(),
    {
        if self.x == 0 && self.y == 0 && self.z == 0 {
            None
        } else {
            Some(self.normalize())
        }
    }
}

impl Dot for Vector3<i64> {
    type Output = i64;

    open spec fn dot_req(&self, rhs: &Vec3I) -> bool {
        self.coords_bounded(VEC3_COORD_MAX as int) && rhs.coords_bounded(VEC3_COORD_MAX as int)
    }

    open spec fn spec_dot(&self, rhs: &Vec3I) -> i64 {
        (self.x * rhs.x + self.y * rhs.y + self.z * rhs.z) as i64
    }

    fn dot(&self, rhs: &Vec3I) -> (r: i64) {
        proof {
            lemma_mul_le(self.x as int, rhs.x as int, VEC3_COORD_MAX as int, VEC3_COORD_MAX as int);
            lemma_mul_le(self.y as int, rhs.y as int, VEC3_COORD_MAX as int, VEC3_COORD_MAX as int);
            lemma_mul_le(self.z as int, rhs.z as int, VEC3_COORD_MAX as int, VEC3_COORD_MAX as int);
        }
        self.x * rhs.x + self.y * rhs.y + self.z * rhs.z
    }
}

impl Cross for Vector3<i64> {
    type Output = Vec3I;

    open spec fn cross_req(&self, rhs: &Vec3I) -> bool {
        self.coords_bounded(VEC3_COORD_MAX as int) && rhs.coords_bounded(VEC3_COORD_MAX as int)
    }

    open spec fn spec_cross(&self, rhs: &Vec3I) -> Vec3I {
        Vector3 {
            x: (self.y * rhs.z - self.z * rhs.y) as i64,
            y: (self.z * rhs.x - self.x * rhs.z) as i64,
            z: (self.x * rhs.y - self.y * rhs.x) as i64,
        }
    }

    fn cross(&self, rhs: &Vec3I) -> (r: Vec3I) {
        proof {
            lemma_mul_le(self.y as int, rhs.z as int, VEC3_COORD_MAX as int, VEC3_COORD_MAX as int);
            lemma_mul_le(self.z as int, rhs.y as int, VEC3_COORD_MAX as int, VEC3_COORD_MAX as int);
            lemma_mul_le(self.z as int, rhs.x as int, VEC3_COORD_MAX as int, VEC3_COORD_MAX as int);
            lemma_mul_le(self.x as int, rhs.z as int, VEC3_COORD_MAX as int, VEC3_COORD_MAX as int);
            lemma_mul_le(self.x as int, rhs.y as int, VEC3_COORD_MAX as int, VEC3_COORD_MAX as int);
            lemma_mul_le(self.y as int, rhs.x as int, VEC3_COORD_MAX as int, VEC3_COORD_MAX as int);
        }
        Vector3 {
            x: self.y * rhs.z - self.z * rhs.y,
            y: self.z * rhs.x - self.x * rhs.z,
            z: self.x * rhs.y - self.y * rhs.x,
        }
    }
}

impl Length for Vector3<i64> {
    type Output = i64;

    open spec fn length_req(&self) -> bool {
        self.coords_bounded(VEC3_COORD_MAX as int)
    }

    open spec fn spec_length(&self) -> i64 {
        isqrt(self.norm_sq()) as i64
    }

    fn length(&self) -> (r: i64) {
        let ax: i64 = if self.x < 0 {
            -self.x
        } else {
            self.x
        };
        let ay: i64 = if self.y < 0 {
            -self.y
        } else {
            self.y
        };
        let az: i64 = if self.z < 0 {
            -self.z
        } else {
            self.z
        };
        proof {
            assert(ax * ax == self.x * self.x && ay * ay == self.y * self.y && az * az == self.z
                * self.z) by (nonlinear_arith)
                requires
                    ax == abs_int(self.x as int),
                    ay == abs_int(self.y as int),
                    az == abs_int(self.z as int),
            ;
            lemma_mul_le(ax as int, ax as int, VEC3_COORD_MAX as int, VEC3_COORD_MAX as int);
            lemma_mul_le(ay as int, ay as int, VEC3_COORD_MAX as int, VEC3_COORD_MAX as int);
            lemma_mul_le(az as int, az as int, VEC3_COORD_MAX as int, VEC3_COORD_MAX as int);
        }
        let n: u64 = (ax as u64) * (ax as u64) + (ay as u64) * (ay as u64) + (az as u64) * (az
            as u64);
        let r: u64 = isqrt_u64(n);
        proof {
            assert(r < 0x1_0000_0000) by (nonlinear_arith)
                requires
                    0 <= r,
                    r * r <= n,
                    n <= 0xffff_ffff_ffff_ffffu64,
            ;
        }
        r as i64
    }
}

impl Normalize for Vector3<i64> {
    /// The vector must be bounded (so its length is computable) and
    /// nonzero.
    open spec fn normalize_req(&self) -> bool {
        self.coords_bounded(VEC3_COORD_MAX as int) && !(self.x == 0 && self.y == 0 && self.z == 0)
    }

    open spec fn spec_normalize(&self) -> Vec3I {
        let len = isqrt(self.norm_sq());
        Vector3 {
            x: tdiv(self.x as int, len) as i64,
            y: tdiv(self.y as int, len) as i64,
            z: tdiv(self.z as int, len) as i64,
        }
    }

    fn normalize(&self) -> (r: Vec3I) {
        let len: i64 = self.length();
        proof {
            lemma_square_nonneg(self.x as int);
            lemma_square_nonneg(self.y as int);
            lemma_square_nonneg(self.z as int);
            lemma_mul_le(self.x as int, self.x as int, VEC3_COORD_MAX as int, VEC3_COORD_MAX as int);
            lemma_mul_le(self.y as int, self.y as int, VEC3_COORD_MAX as int, VEC3_COORD_MAX as int);
            lemma_mul_le(self.z as int, self.z as int, VEC3_COORD_MAX as int, VEC3_COORD_MAX as int);
            assert(self.norm_sq() >= 1);
            lemma_isqrt_exists(self.norm_sq());
            let rt = isqrt(self.norm_sq());
            assert(rt <= 0xffff_ffff) by (nonlinear_arith)
                requires
                    0 <= rt,
                    rt * rt <= self.norm_sq(),
                    self.norm_sq() < 0x8000_0000_0000_0000,
            ;
            assert(len == rt);
            assert(len >= 1);
        }
        self.div_scalar(len)
    }
}

/// Two vectors are orthogonal when their dot product vanishes; this spec
/// function writes the condition out over the mathematical integers.
pub open spec fn orthogonal(a: Vec3I, b: Vec3I) -> bool {
    a.x * b.x + a.y * b.y + a.z * b.z == 0
}

/// The dot product is zero exactly for orthogonal arguments.
pub proof fn lemma_dot_zero_iff_orthogonal(a: Vec3I, b: Vec3I)
    requires
        a.dot_req(&b),
    ensures
        a.spec_dot(&b) == 0 <==> orthogonal(a, b),
{
    lemma_mul_le(a.x as int, b.x as int, VEC3_COORD_MAX as int, VEC3_COORD_MAX as int);
    lemma_mul_le(a.y as int, b.y as int, VEC3_COORD_MAX as int, VEC3_COORD_MAX as int);
    lemma_mul_le(a.z as int, b.z as int, VEC3_COORD_MAX as int, VEC3_COORD_MAX as int);
}

/// The cross product is anti-commutative: swapping the arguments negates
/// the result.
pub proof fn lemma_cross_anticommutative(a: Vec3I, b: Vec3I)
    requires
        a.cross_req(&b),
    ensures
        a.spec_cross(&b) == b.spec_cross(&a).spec_neg(),
{
    lemma_mul_le(a.x as int, b.y as int, VEC3_COORD_MAX as int, VEC3_COORD_MAX as int);
    lemma_mul_le(a.y as int, b.x as int, VEC3_COORD_MAX as int, VEC3_COORD_MAX as int);
    lemma_mul_le(a.y as int, b.z as int, VEC3_COORD_MAX as int, VEC3_COORD_MAX as int);
    lemma_mul_le(a.z as int, b.y as int, VEC3_COORD_MAX as int, VEC3_COORD_MAX as int);
    lemma_mul_le(a.z as int, b.x as int, VEC3_COORD_MAX as int, VEC3_COORD_MAX as int);
    lemma_mul_le(a.x as int, b.z as int, VEC3_COORD_MAX as int, VEC3_COORD_MAX as int);
    assert(a.y * b.z - a.z * b.y == -(b.y * a.z - b.z * a.y) && a.z * b.x - a.x * b.z == -(b.z
        * a.x - b.x * a.z) && a.x * b.y - a.y * b.x == -(b.x * a.y - b.y * a.x))
        by (nonlinear_arith);
}

} // verus!
