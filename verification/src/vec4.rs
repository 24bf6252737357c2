//! Four-component vectors, the homogeneous companions of [`Vector3`]:
//! the fourth component `w` distinguishes a direction (`w == 0`) from a
//! position (`w == 1`) under the four-by-four matrices.
//!
//! Conversions are explicit in both directions: widening a triple takes
//! the `w` to use, narrowing drops `w` through `From`.

use vstd::prelude::*;

use crate::num::lemma_mul_le;
use crate::ops::Dot;
use crate::vec3::Vec3I;
use crate::vec3::Vector3;
use crate::vec3::VEC3_COORD_MAX;

verus! {

/// An ordered quadruple of components.
#[derive(Debug, Copy, Clone, PartialEq, Eq, Structural)]
pub struct Vector4<T> {
    pub x: T,
    pub y: T,
    pub z: T,
    pub w: T,
}

/// The integer instantiation that carries the verified arithmetic.
pub type Vec4I = Vector4<i64>;

impl<T> Vector4<T> {
    /// Gather the four components, in order.
    pub fn new(x: T, y: T, z: T, w: T) -> (r: Vector4<T>)
        ensures
            r.x == x,
            r.y == y,
            r.z == z,
            r.w == w,
    {
        Vector4 { x, y, z, w }
    }
}

impl Vector4<i64> {
    /// All components of `self` are bounded by `b` in magnitude.
    pub open spec fn coords_bounded(self, b: int) -> bool {
        &&& -b <= self.x <= b
        &&& -b <= self.y <= b
        &&& -b <= self.z <= b
        &&& -b <= self.w <= b
    }

    /// The component at position `i` (0 is `x`, through 3 for `w`).
    pub open spec fn spec_index(self, i: int) -> i64 {
        if i == 0 {
            self.x
        } else if i == 1 {
            self.y
        } else if i == 2 {
            self.z
        } else {
            self.w
        }
    }

    /// The component at a position.  Indexing out of range is a caller
    /// bug, excluded by contract rather than answered with a default.
    pub fn index(&self, i: usize) -> (r: i64)
        requires
            i < 4,
        ensures
            r == self.spec_index(i as int),
    {
        if i == 0 {
            self.x
        } else if i == 1 {
            self.y
        } else if i == 2 {
            self.z
        } else {
            self.w
        }
    }

    /// Componentwise sum.
    pub fn add(&self, rhs: &Vec4I) -> (r: Vec4I)
        requires
            i64::MIN <= self.x + rhs.x <= i64::MAX,
            i64::MIN <= self.y + rhs.y <= i64::MAX,
            i64::MIN <= self.z + rhs.z <= i64::MAX,
            i64::MIN <= self.w + rhs.w <= i64::MAX,
        ensures
            r.x == self.x + rhs.x,
            r.y == self.y + rhs.y,
            r.z == self.z + rhs.z,
            r.w == self.w + rhs.w,
    {
        Vector4 { x: self.x + rhs.x, y: self.y + rhs.y, z: self.z + rhs.z, w: self.w + rhs.w }
    }

    /// Componentwise difference.
    pub fn sub(&self, rhs: &Vec4I) -> (r: Vec4I)
        requires
            i64::MIN <= self.x - rhs.x <= i64::MAX,
            i64::MIN <= self.y - rhs.y <= i64::MAX,
            i64::MIN <= self.z - rhs.z <= i64::MAX,
            i64::MIN <= self.w - rhs.w <= i64::MAX,
        ensures
            r.x == self.x - rhs.x,
            r.y == self.y - rhs.y,
            r.z == self.z - rhs.z,
            r.w == self.w - rhs.w,
    {
        Vector4 { x: self.x - rhs.x, y: self.y - rhs.y, z: self.z - rhs.z, w: self.w - rhs.w }
    }

    /// Multiplication by a scalar.
    pub fn scale(&self, s: i64) -> (r: Vec4I)
        requires
            i64::MIN <= self.x * s <= i64::MAX,
            i64::MIN <= self.y * s <= i64::MAX,
            i64::MIN <= self.z * s <= i64::MAX,
            i64::MIN <= self.w * s <= i64::MAX,
        ensures
            r.x == self.x * s,
            r.y == self.y * s,
            r.z == self.z * s,
            r.w == self.w * s,
    {
        Vector4 { x: self.x * s, y: self.y * s, z: self.z * s, w: self.w * s }
    }

    /// Widen a triple to a quadruple with an explicit fourth component
    /// (0 for a direction, 1 for a position).
    pub fn from_vec3(v: &Vec3I, w: i64) -> (r: Vec4I)
        ensures
            r.x == v.x,
            r.y == v.y,
            r.z == v.z,
            r.w == w,
    {
        Vector4 { x: v.x, y: v.y, z: v.z, w }
    }
}

impl Dot for Vector4<i64> {
    type Output = i64;

    open spec fn dot_req(&self, rhs: &Vec4I) -> bool {
        self.coords_bounded(VEC3_COORD_MAX as int) && rhs.coords_bounded(VEC3_COORD_MAX as int)
    }

    open spec fn spec_dot(&self, rhs: &Vec4I) -> i64 {
        (self.x * rhs.x + self.y * rhs.y + self.z * rhs.z + self.w * rhs.w) as i64
    }

    fn dot(&self, rhs: &Vec4I) -> (r: i64) {
        proof {
            lemma_mul_le(self.x as int, rhs.x as int, VEC3_COORD_MAX as int, VEC3_COORD_MAX as int);
            lemma_mul_le(self.y as int, rhs.y as int, VEC3_COORD_MAX as int, VEC3_COORD_MAX as int);
            lemma_mul_le(self.z as int, rhs.z as int, VEC3_COORD_MAX as int, VEC3_COORD_MAX as int);
            lemma_mul_le(self.w as int, rhs.w as int, VEC3_COORD_MAX as int, VEC3_COORD_MAX as int);
        }
        self.x * rhs.x + self.y * rhs.y + self.z * rhs.z + self.w * rhs.w
    }
}

impl From<Vec4I> for Vector3<i64> {
    /// Narrowing drops the `w` component.
    fn from(v: Vec4I) -> (r: Vec3I) {
        Vector3 { x: v.x, y: v.y, z: v.z }
    }
}

impl vstd::std_specs::convert::FromSpecImpl<Vec4I> for Vector3<i64> {
    open spec fn obeys_from_spec() -> bool {
        true
    }

    open spec fn from_spec(v: Vec4I) -> Vec3I {
        Vector3 { x: v.x, y: v.y, z: v.z }
    }
}

} // verus!
