//! Two-component vectors.
//!
//! `Vector2<T>` is an ordered pair: component order is fixed and
//! significant.  The arithmetic is implemented for the `i32`
//! instantiation [`Vec2I`]; its length is the floor of the real Euclidean
//! norm (the integer-norm precision caveat documented on
//! [`crate::ops::Length`]).

use vstd::prelude::*;

use crate::num::abs_int;
use crate::num::div_trunc_i32;
use crate::num::lemma_isqrt_exists;
use crate::num::isqrt;
use crate::num::isqrt_u64;
use crate::num::lemma_square_nonneg;
use crate::num::tdiv;
use crate::ops::Dot;
use crate::ops::Length;
use crate::ops::Normalize;

verus! {

/// An ordered pair of components.
#[derive(Debug, Copy, Clone, PartialEq, Eq, Structural)]
pub struct Vector2<T> {
    pub x: T,
    pub y: T,
}

/// The integer instantiation that carries the verified arithmetic.
pub type Vec2I = Vector2<i32>;

/// Componentwise bound under which a dot product of two `Vec2I` values
/// stays inside `i32` (two products of magnitude at most `32767²` and
/// their sum).
pub const VEC2_COORD_MAX: i32 = 32767;

impl<T> Vector2<T> {
    /// Pair the two components, in order.
    pub fn new(x: T, y: T) -> (r: Vector2<T>)
        ensures
            r.x == x,
            r.y == y,
    {
        Vector2 { x, y }
    }
}

impl Vector2<i32> {
    /// Both components of `self` are bounded by `b` in magnitude.
    pub open spec fn coords_bounded(self, b: int) -> bool {
        -b <= self.x <= b && -b <= self.y <= b
    }

    /// The squared Euclidean norm, as a mathematical integer.
    pub open spec fn norm_sq(self) -> int {
        self.x * self.x + self.y * self.y
    }

    /// The component at position `i` (0 is `x`, 1 is `y`).
    pub open spec fn spec_index(self, i: int) -> i32 {
        if i == 0 {
            self.x
        } else {
            self.y
        }
    }

    /// The component at a position.  Indexing out of range is a caller
    /// bug, excluded by contract rather than answered with a default.
    pub fn index(&self, i: usize) -> (r: i32)
        requires
            i < 2,
        ensures
            r == self.spec_index(i as int),
    {
        if i == 0 {
            self.x
        } else {
            self.y
        }
    }

    /// Componentwise sum.
    pub fn add(&self, rhs: &Vec2I) -> (r: Vec2I)
        requires
            i32::MIN <= self.x + rhs.x <= i32::MAX,
            i32::MIN <= self.y + rhs.y <= i32::MAX,
        ensures
            r.x == self.x + rhs.x,
            r.y == self.y + rhs.y,
    {
        Vector2 { x: self.x + rhs.x, y: self.y + rhs.y }
    }

    /// Componentwise difference.
    pub fn sub(&self, rhs: &Vec2I) -> (r: Vec2I)
        requires
            i32::MIN <= self.x - rhs.x <= i32::MAX,
            i32::MIN <= self.y - rhs.y <= i32::MAX,
        ensures
            r.x == self.x - rhs.x,
            r.y == self.y - rhs.y,
    {
        Vector2 { x: self.x - rhs.x, y: self.y - rhs.y }
    }

    /// Multiplication by a scalar (commutes, so one entry point serves
    /// both operand orders).
    pub fn scale(&self, s: i32) -> (r: Vec2I)
        requires
            i32::MIN <= self.x * s <= i32::MAX,
            i32::MIN <= self.y * s <= i32::MAX,
        ensures
            r.x == self.x * s,
            r.y == self.y * s,
    {
        Vector2 { x: self.x * s, y: self.y * s }
    }

    /// In-place multiplication by a scalar.
    pub fn scale_assign(&mut self, s: i32)
        requires
            i32::MIN <= old(self).x * s <= i32::MAX,
            i32::MIN <= old(self).y * s <= i32::MAX,
        ensures
            final(self).x == old(self).x * s,
            final(self).y == old(self).y * s,
    {
        self.x = self.x * s;
        self.y = self.y * s;
    }

    /// Componentwise product.
    pub fn mul_elem(&self, rhs: &Vec2I) -> (r: Vec2I)
        requires
            i32::MIN <= self.x * rhs.x <= i32::MAX,
            i32::MIN <= self.y * rhs.y <= i32::MAX,
        ensures
            r.x == self.x * rhs.x,
            r.y == self.y * rhs.y,
    {
        Vector2 { x: self.x * rhs.x, y: self.y * rhs.y }
    }

    /// Componentwise quotient by a scalar, rounding toward zero.
    pub fn div_scalar(&self, s: i32) -> (r: Vec2I)
        requires
            s != 0,
            i32::MIN < self.x,
            i32::MIN < self.y,
            i32::MIN < s,
        ensures
            r.x == tdiv(self.x as int, s as int),
            r.y == tdiv(self.y as int, s as int),
    {
        Vector2 { x: div_trunc_i32(self.x, s), y: div_trunc_i32(self.y, s) }
    }
}

impl Dot for Vector2<i32> {
    type Output = i32;

    open spec fn dot_req(&self, rhs: &Vec2I) -> bool {
        self.coords_bounded(VEC2_COORD_MAX as int) && rhs.coords_bounded(VEC2_COORD_MAX as int)
    }

    open spec fn spec_dot(&self, rhs: &Vec2I) -> i32 {
        (self.x * rhs.x + self.y * rhs.y) as i32
    }

    fn dot(&self, rhs: &Vec2I) -> (r: i32) {
        proof {
            crate::num::lemma_mul_le(
                self.x as int,
                rhs.x as int,
                VEC2_COORD_MAX as int,
                VEC2_COORD_MAX as int,
            );
            crate::num::lemma_mul_le(
                self.y as int,
                rhs.y as int,
                VEC2_COORD_MAX as int,
                VEC2_COORD_MAX as int,
            );
        }
        self.x * rhs.x + self.y * rhs.y
    }
}

impl Length for Vector2<i32> {
    type Output = i32;

    /// The squared norm must stay below `2^62` so that its floor square
    /// root fits the component type.
    open spec fn length_req(&self) -> bool {
        self.norm_sq() < 0x4000_0000_0000_0000
    }

    open spec fn spec_length(&self) -> i32 {
        isqrt(self.norm_sq()) as i32
    }

    fn length(&self) -> (r: i32) {
        let xw: i64 = self.x as i64;
        let yw: i64 = self.y as i64;
        let ax: i64 = if xw < 0 {
            -xw
        } else {
            xw
        };
        let ay: i64 = if yw < 0 {
            -yw
        } else {
            yw
        };
        proof {
            assert(ax * ax == self.x * self.x && ay * ay == self.y * self.y)
                by (nonlinear_arith)
                requires
                    ax == abs_int(self.x as int),
                    ay == abs_int(self.y as int),
            ;
            assert(ax * ax <= 0x8000_0000i64 * 0x8000_0000i64 && ay * ay <= 0x8000_0000i64
                * 0x8000_0000i64) by (nonlinear_arith)
                requires
                    0 <= ax <= 0x8000_0000i64,
                    0 <= ay <= 0x8000_0000i64,
            ;
        }
        let n: u64 = (ax as u64) * (ax as u64) + (ay as u64) * (ay as u64);
        let r: u64 = isqrt_u64(n);
        proof {
            assert(r < 0x8000_0000) by (nonlinear_arith)
                requires
                    0 <= r,
                    r * r <= n,
                    n < 0x4000_0000_0000_0000u64,
            ;
        }
        r as i32
    }
}

impl Normalize for Vector2<i32> {
    /// The vector must have a representable, nonzero length.
    open spec fn normalize_req(&self) -> bool {
        self.length_req() && !(self.x == 0 && self.y == 0)
    }

    open spec fn spec_normalize(&self) -> Vec2I {
        let len = isqrt(self.norm_sq());
        Vector2 { x: tdiv(self.x as int, len) as i32, y: tdiv(self.y as int, len) as i32 }
    }

    fn normalize(&self) -> (r: Vec2I) {
        let len: i32 = self.length();
        proof {
            lemma_square_nonneg(self.x as int);
            lemma_square_nonneg(self.y as int);
            assert(self.norm_sq() >= 1);
            lemma_isqrt_exists(self.norm_sq());
            let rt = isqrt(self.norm_sq());
            assert(rt < 0x8000_0000) by (nonlinear_arith)
                requires
                    0 <= rt,
                    rt * rt <= self.norm_sq(),
                    self.norm_sq() < 0x4000_0000_0000_0000,
            ;
            assert(len == rt);
            assert(len >= 1);
            assert(self.x > i32::MIN && self.y > i32::MIN) by (nonlinear_arith)
                requires
                    self.x * self.x + self.y * self.y < 0x4000_0000_0000_0000,
                    self.y * self.y >= 0,
                    self.x * self.x >= 0,
            ;
        }
        self.div_scalar(len)
    }
}

} // verus!
