use fiz_math::{Clamp, One, ScalarConst, Zero};

#[test]
fn clamp_integers() {
    assert_eq!(Clamp::clamp(11, 0, 10), 10);
    assert_eq!(Clamp::clamp(20, 0, 15), 15);
    assert_eq!(Clamp::clamp(-10, 0, 10), 0);
    assert_eq!(Clamp::clamp(0, 1, 10), 1);
    assert_eq!(Clamp::clamp(5, 1, 10), 5);
    assert_eq!(Clamp::clamp(200u8, 0, 100), 100);
    assert_eq!(Clamp::clamp(-3i8, -2, 2), -2);
    assert_eq!(Clamp::clamp(7usize, 7, 7), 7);
}

#[test]
fn clamp_with_inverted_bounds_does_not_panic() {
    // the test against min comes first, then the one against max
    assert_eq!(Clamp::clamp(0, 10, 1), 10);
    assert_eq!(Clamp::clamp(5, 10, 1), 10);
    assert_eq!(Clamp::clamp(20, 10, 1), 1);
}

#[test]
fn identities() {
    assert_eq!(<i32 as Zero>::zero(), 0);
    assert_eq!(<u64 as One>::one(), 1);
    assert!(0i16.is_zero());
    assert!(!3u32.is_zero());
}

#[test]
fn scalar_constants() {
    assert_eq!(<i8 as ScalarConst>::from_u32(100), Some(100i8));
    assert_eq!(<i8 as ScalarConst>::from_u32(1000), None);
    assert_eq!(<u8 as ScalarConst>::from_u32(255), Some(255u8));
    assert_eq!(<u8 as ScalarConst>::from_u32(256), None);
    assert_eq!(<i16 as ScalarConst>::from_u32(1000), Some(1000i16));
    assert_eq!(<i16 as ScalarConst>::from_u32(100000), None);
    assert_eq!(<i32 as ScalarConst>::from_u32(1000000), Some(1000000i32));
    assert_eq!(<u32 as ScalarConst>::from_u32(u32::MAX), Some(u32::MAX));
    assert_eq!(<isize as ScalarConst>::from_u32(1000000), Some(1000000isize));
    assert_eq!(<i64 as ScalarConst>::frac_pi_180(), 0);
    assert_eq!(<i64 as ScalarConst>::frac_180_pi(), 57);
}

#[test]
fn lerp_at_zero_for_integers() {
    for &(a, b) in &[(0i64, 10i64), (-7, 3), (i64::MAX, i64::MIN), (42, 42)] {
        assert_eq!(fiz_math::lerp(a, b, 0), a);
    }
}
