use linmath::ops::Cross;
use linmath::ops::Dot;
use linmath::ops::Length;
use linmath::ops::Normalize;
use linmath::Vec2I;
use linmath::Vec3I;
use linmath::Vector2;
use linmath::Vector3;
use linmath::Vector4;

#[test]
fn dot() {
    let v1 = Vec3I::new(3, -2, 7);
    let v2 = Vec3I::new(0, 4, -1);

    let result = -15;
    assert_eq!(Vec3I::dot(&v1, &v2), result);
}

#[test]
fn cross() {
    let v1 = Vec3I::new(1, 3, 4);
    let v2 = Vec3I::new(2, -5, 8);

    let result = Vec3I::new(44, 0, -11);
    assert_eq!(Vec3I::cross(&v1, &v2), result);
}

#[test]
fn add() {
    let v1 = Vec3I::new(1, 2, 3);
    let v2 = Vec3I::new(4, 5, 6);

    let result = Vec3I::new(5, 7, 9);

    assert_eq!(v1.add(&v2), result);
}

#[test]
fn sub() {
    let v1 = Vec3I::new(1, 2, 3);
    let v2 = Vec3I::new(4, 5, 6);

    let result = Vec3I::new(-3, -3, -3);
    assert_eq!(v1.sub(&v2), result);
}

#[test]
fn add_sub() {
    let v1 = Vec3I::new(4, 5, 6);
    let v2 = Vec3I::new(7, -3, 0);
    let v3 = Vec3I::new(1, 2, 3);

    let result = Vec3I::new(10, 0, 3);
    assert_eq!(v1.add(&v2).sub(&v3), result);
}

#[test]
fn normalize() {
    let v = Vec3I::new(0, 0, -10);
    let result = Vec3I::new(0, 0, -1);

    assert_eq!(v.normalize(), result);
}

#[test]
fn normalized_axis_has_unit_length() {
    let v = Vec3I::new(0, 0, -10);
    let n = v.normalize();
    assert_eq!(n.length(), 1);
}

#[test]
fn dot_of_orthogonal_axes_is_zero() {
    let v1 = Vec3I::new(1, 0, 0);
    let v2 = Vec3I::new(0, 1, 0);
    assert_eq!(linmath::dot(&v1, &v2), 0);
}

#[test]
fn cross_of_axes_follows_right_hand_rule() {
    let x = Vec3I::new(1, 0, 0);
    let y = Vec3I::new(0, 1, 0);
    assert_eq!(linmath::cross(&x, &y), Vec3I::new(0, 0, 1));
}

#[test]
fn cross_is_anticommutative() {
    let a = Vec3I::new(1, 3, 4);
    let b = Vec3I::new(2, -5, 8);
    assert_eq!(a.cross(&b), b.cross(&a).inverse());
}

#[test]
fn length_is_floor_of_euclidean_norm() {
    assert_eq!(Vec3I::new(2, 3, 6).length(), 7);
    assert_eq!(Vec2I::new(3, 4).length(), 5);
    // The integer norm truncates: the real norm here is sqrt(2).
    assert_eq!(Vec2I::new(1, 1).length(), 1);
    assert_eq!(linmath::length(&Vec2I::new(0, 0)), 0);
}

#[test]
fn try_normalize_rejects_only_the_zero_vector() {
    assert_eq!(Vec3I::new(0, 0, 0).try_normalize(), None);
    assert_eq!(Vec3I::new(0, -10, 0).try_normalize(), Some(Vec3I::new(0, -1, 0)));
}

#[test]
fn vec2_normalize_of_axis() {
    let v = Vec2I::new(0, -10);
    assert_eq!(v.normalize(), Vec2I::new(0, -1));
    assert_eq!(Vec2I::dot(&Vec2I::new(2, 3), &Vec2I::new(4, 5)), 23);
}

#[test]
fn indexing_returns_components_in_order() {
    let v3 = Vec3I::new(7, 8, 9);
    assert_eq!(v3.index(0), 7);
    assert_eq!(v3.index(1), 8);
    assert_eq!(v3.index(2), 9);
    let v2 = Vec2I::new(4, 5);
    assert_eq!(v2.index(0), 4);
    assert_eq!(v2.index(1), 5);
    let v4 = Vector4::new(1i64, 2, 3, 4);
    assert_eq!(v4.index(3), 4);
}

#[test]
fn scalar_operations_are_componentwise() {
    let mut v = Vec3I::new(1, -2, 3);
    assert_eq!(v.scale(4), Vec3I::new(4, -8, 12));
    assert_eq!(v.mul_elem(&Vec3I::new(2, 3, 4)), Vec3I::new(2, -6, 12));
    assert_eq!(v.div_scalar(2), Vec3I::new(0, -1, 1));
    v.scale_assign(-3);
    assert_eq!(v, Vec3I::new(-3, 6, -9));
    let mut w = Vec2I::new(2, -5);
    w.scale_assign(6);
    assert_eq!(w, Vec2I::new(12, -30));
    assert_eq!(Vec2I::new(9, -8).div_scalar(-3), Vec2I::new(-3, 2));
    assert_eq!(Vec2I::new(1, 2).add(&Vec2I::new(10, 20)), Vec2I::new(11, 22));
    assert_eq!(Vec2I::new(1, 2).sub(&Vec2I::new(10, 20)), Vec2I::new(-9, -18));
    assert_eq!(Vec2I::new(3, 4).mul_elem(&Vec2I::new(5, 6)), Vec2I::new(15, 24));
    assert_eq!(Vec2I::new(3, 4).scale(2), Vec2I::new(6, 8));
}

#[test]
fn vector4_arithmetic_and_conversions() {
    let a = Vector4::new(1i64, 2, 3, 4);
    let b = Vector4::new(10i64, 20, 30, 40);
    assert_eq!(a.add(&b), Vector4::new(11, 22, 33, 44));
    assert_eq!(b.sub(&a), Vector4::new(9, 18, 27, 36));
    assert_eq!(a.scale(3), Vector4::new(3, 6, 9, 12));
    assert_eq!(Vector4::dot(&a, &b), 300);
    let v3 = Vec3I::new(5, 6, 7);
    let widened = Vector4::from_vec3(&v3, 1);
    assert_eq!(widened, Vector4::new(5, 6, 7, 1));
    let narrowed = Vec3I::from(widened);
    assert_eq!(narrowed, Vec3I::new(5, 6, 7));
}

#[test]
fn generic_new_orders_components() {
    let v2 = Vector2::new(-7i32, 11i32);
    assert_eq!(v2.x, -7);
    assert_eq!(v2.y, 11);
    let v3 = Vector3::new(1i64, 2i64, 3i64);
    assert_eq!((v3.x, v3.y, v3.z), (1, 2, 3));
}
