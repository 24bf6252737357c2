//! Fixed-size linear algebra for spatial code: vectors of two, three and
//! four components, affine points, and square matrices, with verified
//! contracts for every operation.
//!
//! The numeric operations are implemented for the integer element types
//! (`i32` for two-component vectors, `i64` for the three- and
//! four-component family); every contract states the exact value of the
//! result.  Element order is fixed and significant, all values are plain
//! `Copy` aggregates, and matrices are stored row-major.

use vstd::prelude::*;

pub mod ops;
mod num;
mod vec2;
mod vec3;
mod vec4;
mod mat3;
mod mat4;
mod point3;

pub use vec2::Vec2I;
pub use vec2::Vector2;
pub use vec2::VEC2_COORD_MAX;
pub use vec3::Vec3I;
pub use vec3::Vector3;
pub use vec3::VEC3_COORD_MAX;
pub use vec3::orthogonal;
pub use vec4::Vec4I;
pub use vec4::Vector4;
pub use point3::Point3;
pub use mat3::Mat3I;
pub use mat3::Matrix3;
pub use mat3::MAT3_DET_MAX;
pub use mat3::MAT3_MUL_MAX;
pub use mat3::lemma_transpose_involutive3;
pub use mat4::Mat4I;
pub use mat4::Matrix4;
pub use mat4::MAT4_MUL_MAX;
pub use mat4::lemma_transpose_involutive4;
pub use mat4::spec_point_h;
pub use mat4::spec_vector_h;
pub use point3::Point3I;
pub use point3::lemma_point_add_sub;
pub use point3::lemma_point_sub_add;
pub use vec3::lemma_dot_zero_iff_orthogonal;
pub use vec3::lemma_cross_anticommutative;

verus! {

/// Dot product of two values through the [`ops::Dot`] contract.
pub fn dot<T: ops::Dot>(v1: &T, v2: &T) -> (r: <T as ops::Dot>::Output)
    requires
        v1.dot_req(v2),
    ensures
        r == v1.spec_dot(v2),
{
    v1.dot(v2)
}

/// Euclidean length of a value through the [`ops::Length`] contract.
pub fn length<T: ops::Length>(v: &T) -> (r: <T as ops::Length>::Output)
    requires
        v.length_req(),
    ensures
        r == v.spec_length(),
{
    v.length()
}

/// Cross product of two values through the [`ops::Cross`] contract.
pub fn cross<T: ops::Cross>(v1: &T, v2: &T) -> (r: <T as ops::Cross>::Output)
    requires
        v1.cross_req(v2),
    ensures
        r == v1.spec_cross(v2),
{
    v1.cross(v2)
}

} // verus!
