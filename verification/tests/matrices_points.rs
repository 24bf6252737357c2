use linmath::ops::Determinant;
use linmath::Matrix4;
use linmath::Vector4;
use linmath::ops::Inverse;
use linmath::ops::Transpose;
use linmath::Mat3I;
use linmath::Matrix3;
use linmath::Point3;
use linmath::Point3I;
use linmath::Vec3I;
use linmath::Vector3;

fn sample() -> Mat3I {
    Matrix3::new(
        Vector3::new(1, 2, 3),
        Vector3::new(0, 1, 4),
        Vector3::new(5, 6, 0),
    )
}

#[test]
fn transpose_swaps_rows_and_columns() {
    let m = sample();
    let t = m.transpose();
    assert_eq!(t.r0, Vector3::new(1, 0, 5));
    assert_eq!(t.r1, Vector3::new(2, 1, 6));
    assert_eq!(t.r2, Vector3::new(3, 4, 0));
}

#[test]
fn transpose_twice_is_identity() {
    let m = sample();
    assert_eq!(m.transpose().transpose(), m);
}

#[test]
fn determinant_by_cofactors() {
    // det = 1*(1*0-4*6) - 2*(0*0-4*5) + 3*(0*6-1*5) = -24 + 40 - 15 = 1
    assert_eq!(sample().determinant(), 1);
    let singular = Matrix3::new(
        Vector3::new(1, 2, 3),
        Vector3::new(2, 4, 6),
        Vector3::new(7, 8, 9),
    );
    assert_eq!(singular.determinant(), 0);
}

#[test]
fn inverse_times_matrix_is_identity() {
    let m = sample();
    let inv = m.try_inverse().expect("unimodular matrix has an integer inverse");
    assert_eq!(m.mul_mat(&inv), Matrix3::identity());
    assert_eq!(inv, m.inverse());
}

#[test]
fn singular_matrix_has_no_inverse() {
    let singular = Matrix3::new(
        Vector3::new(1, 2, 3),
        Vector3::new(2, 4, 6),
        Vector3::new(7, 8, 9),
    );
    assert_eq!(singular.try_inverse(), None);
}

#[test]
fn matrix_products_apply_rows_to_columns() {
    let id = Matrix3::identity();
    let m = sample();
    assert_eq!(m.mul_mat(&id), m);
    assert_eq!(id.mul_mat(&m), m);
    let v = Vec3I::new(1, 1, 1);
    assert_eq!(m.mul_vec(&v), Vec3I::new(6, 5, 11));
}

#[test]
fn point_minus_point_is_a_vector() {
    let p = Point3I::new(1, 2, 3);
    let q = Point3I::new(4, 5, 6);
    assert_eq!(p.sub(&q), Vec3I::new(-3, -3, -3));
}

#[test]
fn point_plus_vector_is_a_point() {
    let p = Point3I::new(1, 1, 1);
    let v = Vec3I::new(1, 0, 0);
    assert_eq!(p.add(&v), Point3I::new(2, 1, 1));
}

#[test]
fn point_scaling_and_inversion() {
    let p = Point3I::new(1, -2, 3);
    assert_eq!(p.mul(4), Point3I::new(4, -8, 12));
    assert_eq!(Point3::inverse(p), Point3I::new(-1, 2, -3));
    assert_eq!(Point3I::from(Vec3I::new(9, 8, 7)), Point3I::new(9, 8, 7));
    assert_eq!(p.to_vector(), Vec3I::new(1, -2, 3));
}

#[test]
fn matrix4_identity_and_translation() {
    let id = Matrix4::<i64>::identity();
    let t = Matrix4::from_translation(&Vec3I::new(10, 20, 30));
    assert_eq!(t.mul_mat(&id), t);
    let p = Point3I::new(1, 2, 3);
    assert_eq!(t.transform_point(&p), Point3I::new(11, 22, 33));
    // directions are not translated
    let d = Vec3I::new(1, 2, 3);
    assert_eq!(t.transform_vector(&d), d);
    let m = Matrix4::new(
        Vector4::new(1i64, 2, 3, 4),
        Vector4::new(5i64, 6, 7, 8),
        Vector4::new(9i64, 10, 11, 12),
        Vector4::new(13i64, 14, 15, 16),
    );
    assert_eq!(m.transpose().transpose(), m);
    let mt = m.transpose();
    assert_eq!(mt.r0, Vector4::new(1, 5, 9, 13));
}
