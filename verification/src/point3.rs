//! Affine points.
//!
//! `Point3<T>` is a position, algebraically distinct from the
//! displacement [`Vector3`] even though it is structurally a triple too:
//! a point plus a vector is a point, a point minus a point is a vector,
//! and there is deliberately no point-plus-point, no dot, no cross and no
//! normalization on points.  The arithmetic is implemented for the `i64`
//! instantiation [`Point3I`].

use vstd::prelude::*;

use crate::vec3::Vec3I;
use crate::vec3::Vector3;

verus! {

/// A position in space.
#[derive(Debug, Copy, Clone, PartialEq, Eq, Structural)]
pub struct Point3<T> {
    pub x: T,
    pub y: T,
    pub z: T,
}

/// The integer instantiation that carries the verified arithmetic.
pub type Point3I = Point3<i64>;

impl<T> Point3<T> {
    /// Gather the three coordinates, in order.
    pub fn new(x: T, y: T, z: T) -> (r: Point3<T>)
        ensures
            r.x == x,
            r.y == y,
            r.z == z,
    {
        Point3 { x, y, z }
    }
}

impl Point3<i64> {
    /// The point mirrored through the origin (every coordinate negated).
    pub fn inverse(point: Point3<i64>) -> (r: Point3<i64>)
        requires
            i64::MIN < point.x,
            i64::MIN < point.y,
            i64::MIN < point.z,
        ensures
            r.x == -point.x,
            r.y == -point.y,
            r.z == -point.z,
    {
        point.mul(-1)
    }

    /// Coordinatewise multiplication by a scalar.
    pub fn mul(&self, scalar: i64) -> (r: Point3<i64>)
        requires
            i64::MIN <= self.x * scalar <= i64::MAX,
            i64::MIN <= self.y * scalar <= i64::MAX,
            i64::MIN <= self.z * scalar <= i64::MAX,
        ensures
            r.x == self.x * scalar,
            r.y == self.y * scalar,
            r.z == self.z * scalar,
    {
        Point3 { x: self.x * scalar, y: self.y * scalar, z: self.z * scalar }
    }

    /// Translation: a point plus a displacement is a point.
    pub fn add(&self, v: &Vec3I) -> (r: Point3<i64>)
        requires
            i64::MIN <= self.x + v.x <= i64::MAX,
            i64::MIN <= self.y + v.y <= i64::MAX,
            i64::MIN <= self.z + v.z <= i64::MAX,
        ensures
            r.x == self.x + v.x,
            r.y == self.y + v.y,
            r.z == self.z + v.z,
    {
        Point3 { x: self.x + v.x, y: self.y + v.y, z: self.z + v.z }
    }

    /// Difference of positions: a point minus a point is a displacement.
    pub fn sub(&self, other: &Point3<i64>) -> (r: Vec3I)
        requires
            i64::MIN <= self.x - other.x <= i64::MAX,
            i64::MIN <= self.y - other.y <= i64::MAX,
            i64::MIN <= self.z - other.z <= i64::MAX,
        ensures
            r.x == self.x - other.x,
            r.y == self.y - other.y,
            r.z == self.z - other.z,
    {
        Vector3 { x: self.x - other.x, y: self.y - other.y, z: self.z - other.z }
    }

    /// The coordinates of the point read as a displacement from the
    /// origin (the explicit conversion in place of any implicit
    /// point-as-direction use).
    pub fn to_vector(&self) -> (r: Vec3I)
        ensures
            r.x == self.x,
            r.y == self.y,
            r.z == self.z,
    {
        Vector3 { x: self.x, y: self.y, z: self.z }
    }
}

impl From<Vec3I> for Point3<i64> {
    /// The position reached from the origin by the displacement.
    fn from(v: Vec3I) -> (r: Point3<i64>) {
        Point3 { x: v.x, y: v.y, z: v.z }
    }
}

impl vstd::std_specs::convert::FromSpecImpl<Vec3I> for Point3<i64> {
    open spec fn obeys_from_spec() -> bool {
        true
    }

    open spec fn from_spec(v: Vec3I) -> Point3<i64> {
        Point3 { x: v.x, y: v.y, z: v.z }
    }
}

/// Translating a point and subtracting the original point returns the
/// displacement: the affine structure of points over vectors.
pub proof fn lemma_point_add_sub(p: Point3<i64>, v: Vec3I)
    requires
        i64::MIN <= p.x + v.x <= i64::MAX,
        i64::MIN <= p.y + v.y <= i64::MAX,
        i64::MIN <= p.z + v.z <= i64::MAX,
    ensures
        p.add_spec(v).sub_spec(p) == v,
{
}

impl Point3<i64> {
    /// The value [`Point3::sub`] returns, as a spec function.
    pub open spec fn sub_spec(self, other: Point3<i64>) -> Vec3I {
        Vector3 {
            x: (self.x - other.x) as i64,
            y: (self.y - other.y) as i64,
            z: (self.z - other.z) as i64,
        }
    }

    /// The value [`Point3::add`] returns, as a spec function.
    pub open spec fn add_spec(self, v: Vec3I) -> Point3<i64> {
        Point3 { x: (self.x + v.x) as i64, y: (self.y + v.y) as i64, z: (self.z + v.z) as i64 }
    }
}

/// Adding the difference of two points to the first point reaches the
/// second: the other half of the affine structure.
pub proof fn lemma_point_sub_add(p: Point3<i64>, q: Point3<i64>)
    requires
        i64::MIN <= q.x - p.x <= i64::MAX,
        i64::MIN <= q.y - p.y <= i64::MAX,
        i64::MIN <= q.z - p.z <= i64::MAX,
    ensures
        p.add_spec(q.sub_spec(p)) == q,
{
}

} // verus!
