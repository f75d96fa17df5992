use fiz_math::unit::{ToCM, ToDeg, ToKM, ToM, ToMM, ToRad, CM, Deg, KM, M, MM, Rad};
use fiz_math::{One, Zero};

#[test]
fn centimeters_to_meters() {
    assert_eq!(CM(100).to_m(), M(1));
}

#[test]
fn meters_to_centimeters_and_back() {
    assert_eq!(M(1).to_cm().to_m(), M(1));
    assert_eq!(M(1).to_cm(), CM(100));
}

#[test]
fn coarse_to_fine_and_back_is_exact() {
    for &x in &[0i64, 1, -1, 7, -123, 9_000_000] {
        assert_eq!(M(x).to_cm().to_m(), M(x));
        assert_eq!(M(x).to_mm().to_m(), M(x));
        assert_eq!(CM(x).to_mm().to_cm(), CM(x));
        assert_eq!(KM(x).to_m().to_km(), KM(x));
        assert_eq!(KM(x).to_cm().to_km(), KM(x));
        assert_eq!(KM(x).to_mm().to_km(), KM(x));
    }
}

#[test]
fn fine_to_coarse_truncates() {
    assert_eq!(MM(19).to_cm(), CM(1));
    assert_eq!(MM(-19).to_cm(), CM(-1));
    assert_eq!(CM(250).to_m(), M(2));
    assert_eq!(M(999).to_km(), KM(0));
}

#[test]
fn millimeter_conversions() {
    assert_eq!(MM(5).to_mm(), MM(5));
    assert_eq!(MM(10).to_cm(), CM(1));
    assert_eq!(MM(1000).to_m(), M(1));
    assert_eq!(MM(1000000).to_km(), KM(1));
}

#[test]
fn centimeter_conversions() {
    assert_eq!(CM(1).to_mm(), MM(10));
    assert_eq!(CM(1).to_cm(), CM(1));
    assert_eq!(CM(100).to_m(), M(1));
    assert_eq!(CM(100000).to_km(), KM(1));
}

#[test]
fn meter_conversions() {
    assert_eq!(M(1).to_mm(), MM(1000));
    assert_eq!(M(1).to_cm(), CM(100));
    assert_eq!(M(1).to_m(), M(1));
    assert_eq!(M(1000).to_km(), KM(1));
}

#[test]
fn kilometer_conversions() {
    assert_eq!(KM(1).to_mm(), MM(1000000));
    assert_eq!(KM(1).to_cm(), CM(100000));
    assert_eq!(KM(1).to_m(), M(1000));
    assert_eq!(KM(1).to_km(), KM(1));
}

#[test]
fn unsigned_and_wide_units() {
    assert_eq!(KM(3u64).to_mm(), MM(3_000_000u64));
    assert_eq!(MM(2_500_000usize).to_km(), KM(2usize));
}

#[test]
fn angle_identity_conversions() {
    assert_eq!(Rad(1).to_rad(), Rad(1));
    assert_eq!(Deg(1).to_deg(), Deg(1));
    assert_eq!(Rad(2.5f64).to_rad(), Rad(2.5));
    assert_eq!(Deg(90.0f64).to_deg(), Deg(90.0));
}

#[test]
fn integer_angle_conversions_truncate_the_ratio() {
    // 180/pi held as an integer is 57, pi/180 is 0
    assert_eq!(Rad(2i16).to_deg(), Deg(114i16));
    assert_eq!(Deg(360i32).to_rad(), Rad(0i32));
}

#[test]
fn same_unit_arithmetic() {
    let y = MM(6);
    assert_eq!(y + MM(4), MM(10));
    assert_eq!(y - MM(3), MM(3));
    assert_eq!(y * MM(3), MM(18));
    assert_eq!(y / MM(2), MM(3));
    assert_eq!(MM(7) % MM(4), MM(3));
    assert_eq!(-CM(2), CM(-2));
    assert_eq!(KM(1.5f64) + KM(0.25), KM(1.75));
    assert_eq!(Deg(30) + Deg(60), Deg(90));
    assert_eq!(Rad(3) - Rad(1), Rad(2));
}

#[test]
fn same_unit_ordering() {
    let y = M(6);
    assert!(y < M(7));
    assert!(y > M(5));
    assert!(y <= M(6));
    assert!(y >= M(6));
    assert!(y == M(6));
    assert!(Deg(1.0) < Deg(2.0));
    assert_eq!(Rad(1).partial_cmp(&Rad(1)), Some(std::cmp::Ordering::Equal));
}

#[test]
fn unit_identities() {
    assert_eq!(MM::<i32>::zero(), MM(0));
    assert!(CM(0u8).is_zero());
    assert!(!KM(2i64).is_zero());
    assert_eq!(Deg::<i16>::one(), Deg(1));
}

#[test]
fn two_step_and_one_step_conversions_agree() {
    for &x in &[0i64, 9, -9, 1999, -1999, 123_456_789, -987_654_321] {
        assert_eq!(MM(x).to_cm().to_m(), MM(x).to_m());
        assert_eq!(MM(x).to_m().to_km(), MM(x).to_km());
        assert_eq!(MM(x).to_cm().to_km(), MM(x).to_km());
        assert_eq!(CM(x).to_m().to_km(), CM(x).to_km());
    }
    assert_eq!(MM(-1_999_999i64).to_km(), KM(-1));
}
