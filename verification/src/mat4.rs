//! Four-by-four matrices, stored row-major like [`Matrix3`]: `r0` is the
//! top row, and the homogeneous application methods put the column vector
//! on the right, with `w = 1` for a position and `w = 0` for a direction
//! so that the translation column moves points but never directions.

use vstd::prelude::*;

use crate::ops::Dot;
use crate::ops::Transpose;
use crate::point3::Point3I;
use crate::vec3::Vec3I;
use crate::vec4::Vec4I;
use crate::vec4::Vector4;

verus! {

/// A fixed grid of sixteen elements, as four rows.
#[derive(Debug, Copy, Clone, PartialEq, Eq, Structural)]
pub struct Matrix4<T> {
    pub r0: Vector4<T>,
    pub r1: Vector4<T>,
    pub r2: Vector4<T>,
    pub r3: Vector4<T>,
}

/// The integer instantiation that carries the verified arithmetic.
pub type Mat4I = Matrix4<i64>;

/// Entry bound under which a matrix product stays inside `i64` (four
/// products per entry).
pub const MAT4_MUL_MAX: i64 = 1_500_000_000;

/// A position as a homogeneous column, `w = 1`.
pub open spec fn spec_point_h(p: Point3I) -> Vec4I {
    Vector4 { x: p.x, y: p.y, z: p.z, w: 1i64 }
}

/// A direction as a homogeneous column, `w = 0`.
pub open spec fn spec_vector_h(v: Vec3I) -> Vec4I {
    Vector4 { x: v.x, y: v.y, z: v.z, w: 0i64 }
}

impl<T> Matrix4<T> {
    /// Assemble a matrix from its four rows, top to bottom.
    pub fn new(r0: Vector4<T>, r1: Vector4<T>, r2: Vector4<T>, r3: Vector4<T>) -> (r: Matrix4<T>)
        ensures
            r.r0 == r0,
            r.r1 == r1,
            r.r2 == r2,
            r.r3 == r3,
    {
        Matrix4 { r0, r1, r2, r3 }
    }
}

impl<T: Copy> Transpose for Matrix4<T> {
    open spec fn spec_transpose(&self) -> Matrix4<T> {
        Matrix4 {
            r0: Vector4 { x: self.r0.x, y: self.r1.x, z: self.r2.x, w: self.r3.x },
            r1: Vector4 { x: self.r0.y, y: self.r1.y, z: self.r2.y, w: self.r3.y },
            r2: Vector4 { x: self.r0.z, y: self.r1.z, z: self.r2.z, w: self.r3.z },
            r3: Vector4 { x: self.r0.w, y: self.r1.w, z: self.r2.w, w: self.r3.w },
        }
    }

    fn transpose(&self) -> (r: Matrix4<T>) {
        Matrix4 {
            r0: Vector4 { x: self.r0.x, y: self.r1.x, z: self.r2.x, w: self.r3.x },
            r1: Vector4 { x: self.r0.y, y: self.r1.y, z: self.r2.y, w: self.r3.y },
            r2: Vector4 { x: self.r0.z, y: self.r1.z, z: self.r2.z, w: self.r3.z },
            r3: Vector4 { x: self.r0.w, y: self.r1.w, z: self.r2.w, w: self.r3.w },
        }
    }
}

/// Transposing twice gives the original matrix back, exactly, for every
/// matrix and every element type.
pub proof fn lemma_transpose_involutive4<T: Copy>(m: Matrix4<T>)
    ensures
        m.spec_transpose().spec_transpose() == m,
{
}

impl Matrix4<i64> {
    /// All sixteen entries of `self` are bounded by `b` in magnitude.
    pub open spec fn entries_bounded(self, b: int) -> bool {
        &&& self.r0.coords_bounded(b)
        &&& self.r1.coords_bounded(b)
        &&& self.r2.coords_bounded(b)
        &&& self.r3.coords_bounded(b)
    }

    /// Column `j`, read as a vector.
    pub open spec fn spec_col(self, j: int) -> Vec4I {
        Vector4 {
            x: self.r0.spec_index(j),
            y: self.r1.spec_index(j),
            z: self.r2.spec_index(j),
            w: self.r3.spec_index(j),
        }
    }

    /// The multiplicative identity.
    pub open spec fn spec_identity() -> Matrix4<i64> {
        Matrix4 {
            r0: Vector4 { x: 1i64, y: 0i64, z: 0i64, w: 0i64 },
            r1: Vector4 { x: 0i64, y: 1i64, z: 0i64, w: 0i64 },
            r2: Vector4 { x: 0i64, y: 0i64, z: 1i64, w: 0i64 },
            r3: Vector4 { x: 0i64, y: 0i64, z: 0i64, w: 1i64 },
        }
    }

    /// The multiplicative identity.
    pub fn identity() -> (r: Matrix4<i64>)
        ensures
            r == Matrix4::<i64>::spec_identity(),
    {
        Matrix4 {
            r0: Vector4 { x: 1i64, y: 0i64, z: 0i64, w: 0i64 },
            r1: Vector4 { x: 0i64, y: 1i64, z: 0i64, w: 0i64 },
            r2: Vector4 { x: 0i64, y: 0i64, z: 1i64, w: 0i64 },
            r3: Vector4 { x: 0i64, y: 0i64, z: 0i64, w: 1i64 },
        }
    }

    /// The translation matrix that moves every point by `t`.
    pub fn from_translation(t: &Vec3I) -> (r: Matrix4<i64>)
        ensures
            r.r0 == (Vector4 { x: 1i64, y: 0i64, z: 0i64, w: t.x }),
            r.r1 == (Vector4 { x: 0i64, y: 1i64, z: 0i64, w: t.y }),
            r.r2 == (Vector4 { x: 0i64, y: 0i64, z: 1i64, w: t.z }),
            r.r3 == (Vector4 { x: 0i64, y: 0i64, z: 0i64, w: 1i64 }),
    {
        Matrix4 {
            r0: Vector4 { x: 1i64, y: 0i64, z: 0i64, w: t.x },
            r1: Vector4 { x: 0i64, y: 1i64, z: 0i64, w: t.y },
            r2: Vector4 { x: 0i64, y: 0i64, z: 1i64, w: t.z },
            r3: Vector4 { x: 0i64, y: 0i64, z: 0i64, w: 1i64 },
        }
    }

    /// The matrix product, row by column.
    pub open spec fn spec_mul(self, rhs: Matrix4<i64>) -> Matrix4<i64> {
        Matrix4 {
            r0: Vector4 {
                x: self.r0.spec_dot(&rhs.spec_col(0)),
                y: self.r0.spec_dot(&rhs.spec_col(1)),
                z: self.r0.spec_dot(&rhs.spec_col(2)),
                w: self.r0.spec_dot(&rhs.spec_col(3)),
            },
            r1: Vector4 {
                x: self.r1.spec_dot(&rhs.spec_col(0)),
                y: self.r1.spec_dot(&rhs.spec_col(1)),
                z: self.r1.spec_dot(&rhs.spec_col(2)),
                w: self.r1.spec_dot(&rhs.spec_col(3)),
            },
            r2: Vector4 {
                x: self.r2.spec_dot(&rhs.spec_col(0)),
                y: self.r2.spec_dot(&rhs.spec_col(1)),
                z: self.r2.spec_dot(&rhs.spec_col(2)),
                w: self.r2.spec_dot(&rhs.spec_col(3)),
            },
            r3: Vector4 {
                x: self.r3.spec_dot(&rhs.spec_col(0)),
                y: self.r3.spec_dot(&rhs.spec_col(1)),
                z: self.r3.spec_dot(&rhs.spec_col(2)),
                w: self.r3.spec_dot(&rhs.spec_col(3)),
            },
        }
    }

    /// Matrix times matrix.  Multiplication is not commutative: `self` is
    /// the left factor.
    pub fn mul_mat(&self, rhs: &Matrix4<i64>) -> (r: Matrix4<i64>)
        requires
            self.entries_bounded(MAT4_MUL_MAX as int),
            rhs.entries_bounded(MAT4_MUL_MAX as int),
        ensures
            r == self.spec_mul(*rhs),
    {
        let c0 = Vector4::new(rhs.r0.x, rhs.r1.x, rhs.r2.x, rhs.r3.x);
        let c1 = Vector4::new(rhs.r0.y, rhs.r1.y, rhs.r2.y, rhs.r3.y);
        let c2 = Vector4::new(rhs.r0.z, rhs.r1.z, rhs.r2.z, rhs.r3.z);
        let c3 = Vector4::new(rhs.r0.w, rhs.r1.w, rhs.r2.w, rhs.r3.w);
        Matrix4 {
            r0: Vector4 {
                x: self.r0.dot(&c0),
                y: self.r0.dot(&c1),
                z: self.r0.dot(&c2),
                w: self.r0.dot(&c3),
            },
            r1: Vector4 {
                x: self.r1.dot(&c0),
                y: self.r1.dot(&c1),
                z: self.r1.dot(&c2),
                w: self.r1.dot(&c3),
            },
            r2: Vector4 {
                x: self.r2.dot(&c0),
                y: self.r2.dot(&c1),
                z: self.r2.dot(&c2),
                w: self.r2.dot(&c3),
            },
            r3: Vector4 {
                x: self.r3.dot(&c0),
                y: self.r3.dot(&c1),
                z: self.r3.dot(&c2),
                w: self.r3.dot(&c3),
            },
        }
    }

    /// Applies the map to a position: the point rides through as a
    /// homogeneous column with `w = 1`, so the translation column acts.
    pub fn transform_point(&self, p: &Point3I) -> (r: Point3I)
        requires
            self.entries_bounded(MAT4_MUL_MAX as int),
            (spec_point_h(*p)).coords_bounded(MAT4_MUL_MAX as int),
        ensures
            r.x == self.r0.spec_dot(&spec_point_h(*p)),
            r.y == self.r1.spec_dot(&spec_point_h(*p)),
            r.z == self.r2.spec_dot(&spec_point_h(*p)),
    {
        let h = Vector4::new(p.x, p.y, p.z, 1i64);
        Point3I { x: self.r0.dot(&h), y: self.r1.dot(&h), z: self.r2.dot(&h) }
    }

    /// Applies the map to a direction: the vector rides through with
    /// `w = 0`, so the translation column has no effect.
    pub fn transform_vector(&self, v: &Vec3I) -> (r: Vec3I)
        requires
            self.entries_bounded(MAT4_MUL_MAX as int),
            v.coords_bounded(MAT4_MUL_MAX as int),
        ensures
            r.x == self.r0.spec_dot(&spec_vector_h(*v)),
            r.y == self.r1.spec_dot(&spec_vector_h(*v)),
            r.z == self.r2.spec_dot(&spec_vector_h(*v)),
    {
        let h = Vector4::new(v.x, v.y, v.z, 0i64);
        Vec3I { x: self.r0.dot(&h), y: self.r1.dot(&h), z: self.r2.dot(&h) }
    }
}

} // verus!
