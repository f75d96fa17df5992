use std::cmp::Ordering;

use fiz_math::unit::MM;
use fiz_math::{Clamp, One, Vec2, Vec3, Vec4, Zero};

#[test]
fn vec3_dot_and_length_sq() {
    let v = Vec3(1, 2, 3);
    assert_eq!(v.dot(Vec3(1, 2, 3)), 14);
    assert_eq!(v.length_sq(), 14);
}

#[test]
fn vec2_dot() {
    let x = Vec2(1, 2);
    assert_eq!(x.dot(x), 5);
    assert_eq!(Vec2(1, 2).length_sq(), 5);
    assert_eq!(Vec4(1, 2, 3, 4).dot(Vec4(2, 0, -1, 1)), 3);
}

#[test]
fn vec2_float_dot() {
    assert_eq!(Vec2(1.5f64, 2.0).dot(Vec2(2.0, 0.25)), 3.5);
}

#[test]
fn partial_order_less_when_every_component_is_less() {
    assert!(Vec2(1, 1) < Vec2(2, 2));
    assert!(Vec2(2, 2) > Vec2(1, 1));
    assert_eq!(Vec2(1, 1).partial_cmp(&Vec2(2, 2)), Some(Ordering::Less));
    assert_eq!(Vec2(3, 3).partial_cmp(&Vec2(2, 2)), Some(Ordering::Greater));
    assert_eq!(Vec2(2, 2).partial_cmp(&Vec2(2, 2)), Some(Ordering::Equal));
    assert!(Vec2(1.0, 2.0) < Vec2(1.1, 2.1));
}

#[test]
fn partial_order_mixed_is_unordered() {
    let a = Vec2(1, 2);
    let b = Vec2(2, 1);
    assert_eq!(a.partial_cmp(&b), None);
    assert!(!(a < b));
    assert!(!(a > b));
    assert!(a != b);
    // one component equal, the other less: still unordered
    assert_eq!(Vec3(1, 1, 1).partial_cmp(&Vec3(1, 2, 2)), None);
    assert_eq!(Vec4(1, 2, 3, 4).partial_cmp(&Vec4(2, 3, 4, 4)), None);
    assert_eq!(Vec4(1, 2, 3, 4).partial_cmp(&Vec4(2, 3, 4, 5)), Some(Ordering::Less));
}

#[test]
fn any_less_and_any_greater_are_componentwise_or() {
    let a = Vec2(0, 1);
    assert!(a.any_less(Vec2(0, 2)));
    assert!(!a.any_less(Vec2(0, 1)));
    assert!(Vec2(0, 2).any_greater(Vec2(0, 1)));
    assert!(!Vec2(0, 1).any_greater(Vec2(0, 2)));
    // any_less holds where the partial order says unordered
    assert!(Vec2(1, 2).any_less(Vec2(2, 1)));
    assert!(Vec2(1, 2).any_greater(Vec2(2, 1)));
    assert!(Vec3(5, 5, 1).any_less(Vec3(0, 0, 2)));
    assert!(Vec4(0, 0, 0, 3).any_greater(Vec4(1, 1, 1, 2)));
}

#[test]
fn exact_equality() {
    assert_eq!(Vec2(4, 5), Vec2(4, 5));
    assert_eq!(Vec2(4.0, 9.0), Vec2(4.0, 9.00000000000000000000001));
    assert_ne!(Vec3(1, 2, 3), Vec3(1, 2, 4));
    assert_eq!(Vec4(1u8, 2, 3, 4), Vec4(1u8, 2, 3, 4));
}

#[test]
fn componentwise_arithmetic() {
    assert_eq!(Vec2(1, 2) + Vec2(4, 5), Vec2(5, 7));
    assert_eq!(Vec2(1, 2) - Vec2(4, 5), Vec2(-3, -3));
    assert_eq!(Vec2(1, 2) * Vec2(4, 5), Vec2(4, 10));
    assert_eq!(Vec2(4, 5) / Vec2(1, 2), Vec2(4, 2));
    assert_eq!(-Vec2(1, 2), Vec2(-1, -2));
    assert_eq!(Vec3(1, 2, 3) + Vec3(4, 5, 6), Vec3(5, 7, 9));
    assert_eq!(Vec4(1, 2, 3, 3) + Vec4(4, 5, 6, 6), Vec4(5, 7, 9, 9));
    assert_eq!(Vec4(1, 2, 3, 3) - Vec4(4, 5, 6, 6), Vec4(-3, -3, -3, -3));
    assert_eq!(Vec4(1, 2, 3, 3) * Vec4(4, 5, 6, 6), Vec4(4, 10, 18, 18));
    assert_eq!(Vec4(4, 5, 6, 6) / Vec4(1, 2, 3, 3), Vec4(4, 2, 2, 2));
    assert_eq!(-Vec4(1, 2, 3, 4), Vec4(-1, -2, -3, -4));
    assert_eq!(-Vec3(1, -2, 3), Vec3(-1, 2, -3));
}

#[test]
fn integer_division_truncates_toward_zero() {
    assert_eq!(Vec2(-7, 7) / Vec2(2, 2), Vec2(-3, 3));
    assert_eq!(Vec3(-7, 7, 0).div_scalar(2), Vec3(-3, 3, 0));
}

#[test]
fn scalar_broadcast() {
    assert_eq!(Vec2(1, 2).add_scalar(1), Vec2(2, 3));
    assert_eq!(Vec2(2, 3).sub_scalar(1), Vec2(1, 2));
    assert_eq!(Vec2(2, 3).mul_scalar(2), Vec2(4, 6));
    assert_eq!(Vec2(2, 4).div_scalar(2), Vec2(1, 2));
    assert_eq!(Vec3(1, 2, 3).add_scalar(1), Vec3(2, 3, 4));
    assert_eq!(Vec3(2, 3, 4).sub_scalar(1), Vec3(1, 2, 3));
    assert_eq!(Vec3(2, 3, 4).mul_scalar(2), Vec3(4, 6, 8));
    assert_eq!(Vec3(2, 4, 6).div_scalar(2), Vec3(1, 2, 3));
    assert_eq!(Vec4(1, 2, 3, 4).add_scalar(1), Vec4(2, 3, 4, 5));
    assert_eq!(Vec4(2, 3, 4, 5).sub_scalar(1), Vec4(1, 2, 3, 4));
    assert_eq!(Vec4(2, 3, 4, 5).mul_scalar(2), Vec4(4, 6, 8, 10));
    assert_eq!(Vec4(2, 4, 6, 8).div_scalar(2), Vec4(1, 2, 3, 4));
}

#[test]
fn componentwise_min_and_max() {
    assert_eq!(Vec2(0, 1).min(Vec2(-1, 0)), Vec2(-1, 0));
    assert_eq!(Vec2(0, 1).max(Vec2(-1, 0)), Vec2(0, 1));
    assert_eq!(Vec2(0, 5).min(Vec2(3, -2)), Vec2(0, -2));
    assert_eq!(Vec2(0, 5).max(Vec2(3, -2)), Vec2(3, 5));
    assert_eq!(Vec3(1, 5, 3).min(Vec3(2, 4, 3)), Vec3(1, 4, 3));
    assert_eq!(Vec3(1, 5, 3).max(Vec3(2, 4, 3)), Vec3(2, 5, 3));
    assert_eq!(Vec4(1, 5, 3, 9).min(Vec4(2, 4, 3, -9)), Vec4(1, 4, 3, -9));
    assert_eq!(Vec4(1, 5, 3, 9).max(Vec4(2, 4, 3, -9)), Vec4(2, 5, 3, 9));
}

#[test]
fn componentwise_clamp() {
    assert_eq!(Vec2(-2, 4).clamp(-1, 2), Vec2(-1, 2));
    assert_eq!(Vec3(-2, 1, 4).clamp(-1, 2), Vec3(-1, 1, 2));
    assert_eq!(Vec4(-2, 1, 4, 2).clamp(-1, 2), Vec4(-1, 1, 2, 2));
}

#[test]
fn zero_and_one() {
    assert_eq!(Vec2::<u8>::zero(), Vec2(0u8, 0));
    assert_eq!(Vec3::<i64>::zero(), Vec3(0i64, 0, 0));
    assert_eq!(Vec4::<i32>::one(), Vec4(1, 1, 1, 1));
    assert_eq!(Vec2::<i64>::one(), Vec2(1i64, 1));
    assert!(!Vec2(1i32, 0).is_zero());
    assert!(Vec2(0u8, 0).is_zero());
    assert!(Vec3(0u16, 0, 0).is_zero());
    assert!(!Vec4(0i8, 0, 0, 1).is_zero());
}

#[test]
fn project_onto_axis() {
    assert_eq!(Vec2(2, 4).project(Vec2(1, 0)), Vec2(2, 0));
    assert_eq!(Vec3(3, 4, 5).project(Vec3(0, 2, 0)), Vec3(0, 4, 0));
    assert_eq!(Vec4(1, 2, 3, 4).project(Vec4(0, 0, 0, 1)), Vec4(0, 0, 0, 4));
    let p = Vec2(1.0f64, 2.0).project(Vec2(1.0, 3.0));
    assert!((p.0 - 0.7).abs() < 0.01 && (p.1 - 2.1).abs() < 0.01);
}

// The interpolation blends the two vectors, (1 - t) * self + t * other, per
// component; it does not multiply self by the scaled other.
#[test]
fn lerp_blends_the_endpoints() {
    assert_eq!(Vec2(1, 2).lerp(Vec2(5, 6), 0), Vec2(1, 2));
    assert_eq!(Vec2(1, 2).lerp(Vec2(5, 6), 1), Vec2(5, 6));
    assert_eq!(Vec3(1, 2, 3).lerp(Vec3(5, 6, 7), 1), Vec3(5, 6, 7));
    assert_eq!(Vec4(1, 2, 3, 4).lerp(Vec4(5, 6, 7, 8), 0), Vec4(1, 2, 3, 4));
}

#[test]
fn lerp_extrapolates_outside_the_unit_range() {
    assert_eq!(Vec2(1, 2).lerp(Vec2(5, 6), 2), Vec2(9, 10));
    assert_eq!(Vec3(1, 2, 3).lerp(Vec3(5, 6, 7), -1), Vec3(-3, -2, -1));
}

#[test]
fn scalar_lerp() {
    assert_eq!(fiz_math::lerp(0, 10, 0), 0);
    assert_eq!(fiz_math::lerp(0, 10, 1), 10);
    assert_eq!(fiz_math::lerp(3i64, -8, 0), 3);
    assert_eq!(fiz_math::lerp(2, 4, 3), 8);
}

#[test]
fn iteration_yields_components_in_order() {
    let mut it = Vec2(1, 2).into_iter();
    assert_eq!(it.next(), Some(1));
    assert_eq!(it.next(), Some(2));
    assert_eq!(it.next(), None);
    assert_eq!(it.next(), None);
    let mut it = Vec3(7u8, 8, 9).into_iter();
    assert_eq!(it.next(), Some(7));
    assert_eq!(it.next(), Some(8));
    assert_eq!(it.next(), Some(9));
    assert_eq!(it.next(), None);
    let mut it = Vec4(1, 2, 3, 4).into_iter();
    assert_eq!(it.next(), Some(1));
    assert_eq!(it.next(), Some(2));
    assert_eq!(it.next(), Some(3));
    assert_eq!(it.next(), Some(4));
    assert_eq!(it.next(), None);
}

#[test]
fn iterating_twice_yields_the_same_components() {
    let v = Vec3(4, 5, 6);
    let mut first = Vec::new();
    let mut it = v.into_iter();
    while let Some(c) = it.next() {
        first.push(c);
    }
    let mut second = Vec::new();
    let mut it = v.into_iter();
    while let Some(c) = it.next() {
        second.push(c);
    }
    assert_eq!(first, vec![4, 5, 6]);
    assert_eq!(first, second);
}

#[test]
fn vectors_of_units() {
    let a = Vec2(MM(1), MM(5));
    let b = Vec2(MM(2), MM(3));
    assert_eq!(a + b, Vec2(MM(3), MM(8)));
    assert_eq!(a.dot(b), MM(17));
    assert!(a.any_less(b));
    assert_eq!(a.min(b), Vec2(MM(1), MM(3)));
    assert_eq!(Vec2::<MM<i32>>::zero(), Vec2(MM(0), MM(0)));
}

#[test]
fn as_ref_returns_the_vector() {
    let v = Vec2(1, 2);
    assert_eq!(*v.as_ref(), Vec2(1, 2));
}
