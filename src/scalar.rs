use vstd::prelude::*;
use std::ops::{Add, Mul, Sub};
use vstd::std_specs::cmp::PartialOrdIs;
use vstd::std_specs::ops::{AddSpec, MulSpec, SubSpec};

verus! {

/// The additive identity of a scalar type.
pub trait Zero: Sized {
    spec fn spec_zero() -> Self;

    fn zero() -> (r: Self)
        ensures
            r == Self::spec_zero(),
    ;

    fn is_zero(&self) -> (r: bool)
        ensures
            r == (*self == Self::spec_zero()),
    ;
}

/// The multiplicative identity of a scalar type.
pub trait One: Sized {
    spec fn spec_one() -> Self;

    fn one() -> (r: Self)
        ensures
            r == Self::spec_one(),
    ;
}

/// The constants that unit conversion multiplies or divides by, as a scalar
/// type holds them.
pub trait ScalarConst: Sized {
    /// `n` in this type, or `None` where the type cannot hold it.
    spec fn spec_from_u32(n: u32) -> Option<Self>;

    /// The ratio pi/180 (radians per degree) in this type.
    spec fn spec_frac_pi_180() -> Self;

    /// The ratio 180/pi (degrees per radian) in this type.
    spec fn spec_frac_180_pi() -> Self;

    fn from_u32(n: u32) -> (r: Option<Self>)
        ensures
            r == Self::spec_from_u32(n),
    ;

    fn frac_pi_180() -> (r: Self)
        ensures
            r == Self::spec_frac_pi_180(),
    ;

    fn frac_180_pi() -> (r: Self)
        ensures
            r == Self::spec_frac_180_pi(),
    ;
}

/// `(1 - t) * a + t * b` can be computed: the scalar's arithmetic follows its
/// specification and no step overflows.
pub open spec fn lerp_req<T: One + Add<Output = T> + Sub<Output = T> + Mul<Output = T>>(
    a: T,
    b: T,
    t: T,
) -> bool {
    &&& T::obeys_add_spec()
    &&& T::obeys_sub_spec()
    &&& T::obeys_mul_spec()
    &&& T::spec_one().sub_req(t)
    &&& T::spec_one().sub_spec(t).mul_req(a)
    &&& t.mul_req(b)
    &&& T::spec_one().sub_spec(t).mul_spec(a).add_req(t.mul_spec(b))
}

/// Linear interpolation from `a` (at `t == 0`) to `b` (at `t == 1`), as
/// `(1 - t) * a + t * b` in the scalar's own arithmetic.
pub open spec fn spec_lerp<T: One + Add<Output = T> + Sub<Output = T> + Mul<Output = T>>(
    a: T,
    b: T,
    t: T,
) -> T {
    T::spec_one().sub_spec(t).mul_spec(a).add_spec(t.mul_spec(b))
}

/// Returns the linear interpolation `(1 - t) * a + t * b`. The parameter `t`
/// is meant to lie in `[0, 1]`; outside it the result extrapolates.
pub fn lerp<T: One + Add<Output = T> + Sub<Output = T> + Mul<Output = T> + Copy>(
    a: T,
    b: T,
    t: T,
) -> (r: T)
    requires
        lerp_req(a, b, t),
    ensures
        r == spec_lerp(a, b, t),
{
    (T::one() - t) * a + t * b
}

/// The conversion factor `n` in the scalar type `T`; meaningful where
/// `T::spec_from_u32(n)` is `Some`.
pub open spec fn factor<T: ScalarConst>(n: u32) -> T {
    T::spec_from_u32(n)->Some_0
}

/// The lesser of `a` and `b` under `<`; `b` where they are not ordered that way.
pub open spec fn lesser<T: PartialOrd>(a: T, b: T) -> T {
    if a.is_lt(&b) {
        a
    } else {
        b
    }
}

/// The greater of `a` and `b` under `>`; `b` where they are not ordered that way.
pub open spec fn greater<T: PartialOrd>(a: T, b: T) -> T {
    if a.is_gt(&b) {
        a
    } else {
        b
    }
}

impl Zero for i8 {
    open spec fn spec_zero() -> i8 {
        0
    }

    fn zero() -> (r: i8) {
        0
    }

    fn is_zero(&self) -> (r: bool) {
        *self == 0
    }
}

impl One for i8 {
    open spec fn spec_one() -> i8 {
        1
    }

    fn one() -> (r: i8) {
        1
    }
}

/// Casts to `i8` truncate toward zero, so pi/180 becomes 0 and 180/pi becomes 57.
impl ScalarConst for i8 {
    open spec fn spec_from_u32(n: u32) -> Option<i8> {
        if n as int <= i8::MAX {
            Some(n as i8)
        } else {
            None
        }
    }

    open spec fn spec_frac_pi_180() -> i8 {
        0
    }

    open spec fn spec_frac_180_pi() -> i8 {
        57
    }

    fn from_u32(n: u32) -> (r: Option<i8>) {
        if n <= (i8::MAX as u32) {
            Some(n as i8)
        } else {
            None
        }
    }

    fn frac_pi_180() -> (r: i8) {
        0
    }

    fn frac_180_pi() -> (r: i8) {
        57
    }
}

impl Zero for u8 {
    open spec fn spec_zero() -> u8 {
        0
    }

    fn zero() -> (r: u8) {
        0
    }

    fn is_zero(&self) -> (r: bool) {
        *self == 0
    }
}

impl One for u8 {
    open spec fn spec_one() -> u8 {
        1
    }

    fn one() -> (r: u8) {
        1
    }
}

/// Casts to `u8` truncate toward zero, so pi/180 becomes 0 and 180/pi becomes 57.
impl ScalarConst for u8 {
    open spec fn spec_from_u32(n: u32) -> Option<u8> {
        if n as int <= u8::MAX {
            Some(n as u8)
        } else {
            None
        }
    }

    open spec fn spec_frac_pi_180() -> u8 {
        0
    }

    open spec fn spec_frac_180_pi() -> u8 {
        57
    }

    fn from_u32(n: u32) -> (r: Option<u8>) {
        if n <= (u8::MAX as u32) {
            Some(n as u8)
        } else {
            None
        }
    }

    fn frac_pi_180() -> (r: u8) {
        0
    }

    fn frac_180_pi() -> (r: u8) {
        57
    }
}

impl Zero for i16 {
    open spec fn spec_zero() -> i16 {
        0
    }

    fn zero() -> (r: i16) {
        0
    }

    fn is_zero(&self) -> (r: bool) {
        *self == 0
    }
}

impl One for i16 {
    open spec fn spec_one() -> i16 {
        1
    }

    fn one() -> (r: i16) {
        1
    }
}

/// Casts to `i16` truncate toward zero, so pi/180 becomes 0 and 180/pi becomes 57.
impl ScalarConst for i16 {
    open spec fn spec_from_u32(n: u32) -> Option<i16> {
        if n as int <= i16::MAX {
            Some(n as i16)
        } else {
            None
        }
    }

    open spec fn spec_frac_pi_180() -> i16 {
        0
    }

    open spec fn spec_frac_180_pi() -> i16 {
        57
    }

    fn from_u32(n: u32) -> (r: Option<i16>) {
        if n <= (i16::MAX as u32) {
            Some(n as i16)
        } else {
            None
        }
    }

    fn frac_pi_180() -> (r: i16) {
        0
    }

    fn frac_180_pi() -> (r: i16) {
        57
    }
}

impl Zero for u16 {
    open spec fn spec_zero() -> u16 {
        0
    }

    fn zero() -> (r: u16) {
        0
    }

    fn is_zero(&self) -> (r: bool) {
        *self == 0
    }
}

impl One for u16 {
    open spec fn spec_one() -> u16 {
        1
    }

    fn one() -> (r: u16) {
        1
    }
}

/// Casts to `u16` truncate toward zero, so pi/180 becomes 0 and 180/pi becomes 57.
impl ScalarConst for u16 {
    open spec fn spec_from_u32(n: u32) -> Option<u16> {
        if n as int <= u16::MAX {
            Some(n as u16)
        } else {
            None
        }
    }

    open spec fn spec_frac_pi_180() -> u16 {
        0
    }

    open spec fn spec_frac_180_pi() -> u16 {
        57
    }

    fn from_u32(n: u32) -> (r: Option<u16>) {
        if n <= (u16::MAX as u32) {
            Some(n as u16)
        } else {
            None
        }
    }

    fn frac_pi_180() -> (r: u16) {
        0
    }

    fn frac_180_pi() -> (r: u16) {
        57
    }
}

impl Zero for i32 {
    open spec fn spec_zero() -> i32 {
        0
    }

    fn zero() -> (r: i32) {
        0
    }

    fn is_zero(&self) -> (r: bool) {
        *self == 0
    }
}

impl One for i32 {
    open spec fn spec_one() -> i32 {
        1
    }

    fn one() -> (r: i32) {
        1
    }
}

/// Casts to `i32` truncate toward zero, so pi/180 becomes 0 and 180/pi becomes 57.
impl ScalarConst for i32 {
    open spec fn spec_from_u32(n: u32) -> Option<i32> {
        if n as int <= i32::MAX {
            Some(n as i32)
        } else {
            None
        }
    }

    open spec fn spec_frac_pi_180() -> i32 {
        0
    }

    open spec fn spec_frac_180_pi() -> i32 {
        57
    }

    fn from_u32(n: u32) -> (r: Option<i32>) {
        if n <= (i32::MAX as u32) {
            Some(n as i32)
        } else {
            None
        }
    }

    fn frac_pi_180() -> (r: i32) {
        0
    }

    fn frac_180_pi() -> (r: i32) {
        57
    }
}

impl Zero for u32 {
    open spec fn spec_zero() -> u32 {
        0
    }

    fn zero() -> (r: u32) {
        0
    }

    fn is_zero(&self) -> (r: bool) {
        *self == 0
    }
}

impl One for u32 {
    open spec fn spec_one() -> u32 {
        1
    }

    fn one() -> (r: u32) {
        1
    }
}

/// Casts to `u32` truncate toward zero, so pi/180 becomes 0 and 180/pi becomes 57.
impl ScalarConst for u32 {
    open spec fn spec_from_u32(n: u32) -> Option<u32> {
        Some(n as u32)
    }

    open spec fn spec_frac_pi_180() -> u32 {
        0
    }

    open spec fn spec_frac_180_pi() -> u32 {
        57
    }

    fn from_u32(n: u32) -> (r: Option<u32>) {
        Some(n as u32)
    }

    fn frac_pi_180() -> (r: u32) {
        0
    }

    fn frac_180_pi() -> (r: u32) {
        57
    }
}

impl Zero for i64 {
    open spec fn spec_zero() -> i64 {
        0
    }

    fn zero() -> (r: i64) {
        0
    }

    fn is_zero(&self) -> (r: bool) {
        *self == 0
    }
}

impl One for i64 {
    open spec fn spec_one() -> i64 {
        1
    }

    fn one() -> (r: i64) {
        1
    }
}

/// Casts to `i64` truncate toward zero, so pi/180 becomes 0 and 180/pi becomes 57.
impl ScalarConst for i64 {
    open spec fn spec_from_u32(n: u32) -> Option<i64> {
        Some(n as i64)
    }

    open spec fn spec_frac_pi_180() -> i64 {
        0
    }

    open spec fn spec_frac_180_pi() -> i64 {
        57
    }

    fn from_u32(n: u32) -> (r: Option<i64>) {
        Some(n as i64)
    }

    fn frac_pi_180() -> (r: i64) {
        0
    }

    fn frac_180_pi() -> (r: i64) {
        57
    }
}

impl Zero for u64 {
    open spec fn spec_zero() -> u64 {
        0
    }

    fn zero() -> (r: u64) {
        0
    }

    fn is_zero(&self) -> (r: bool) {
        *self == 0
    }
}

impl One for u64 {
    open spec fn spec_one() -> u64 {
        1
    }

    fn one() -> (r: u64) {
        1
    }
}

/// Casts to `u64` truncate toward zero, so pi/180 becomes 0 and 180/pi becomes 57.
impl ScalarConst for u64 {
    open spec fn spec_from_u32(n: u32) -> Option<u64> {
        Some(n as u64)
    }

    open spec fn spec_frac_pi_180() -> u64 {
        0
    }

    open spec fn spec_frac_180_pi() -> u64 {
        57
    }

    fn from_u32(n: u32) -> (r: Option<u64>) {
        Some(n as u64)
    }

    fn frac_pi_180() -> (r: u64) {
        0
    }

    fn frac_180_pi() -> (r: u64) {
        57
    }
}

impl Zero for isize {
    open spec fn spec_zero() -> isize {
        0
    }

    fn zero() -> (r: isize) {
        0
    }

    fn is_zero(&self) -> (r: bool) {
        *self == 0
    }
}

impl One for isize {
    open spec fn spec_one() -> isize {
        1
    }

    fn one() -> (r: isize) {
        1
    }
}

/// Casts to `isize` truncate toward zero, so pi/180 becomes 0 and 180/pi becomes 57.
impl ScalarConst for isize {
    open spec fn spec_from_u32(n: u32) -> Option<isize> {
        if n as int <= isize::MAX {
            Some(n as isize)
        } else {
            None
        }
    }

    open spec fn spec_frac_pi_180() -> isize {
        0
    }

    open spec fn spec_frac_180_pi() -> isize {
        57
    }

    fn from_u32(n: u32) -> (r: Option<isize>) {
        if (n as u64) <= (isize::MAX as u64) {
            Some(n as isize)
        } else {
            None
        }
    }

    fn frac_pi_180() -> (r: isize) {
        0
    }

    fn frac_180_pi() -> (r: isize) {
        57
    }
}

impl Zero for usize {
    open spec fn spec_zero() -> usize {
        0
    }

    fn zero() -> (r: usize) {
        0
    }

    fn is_zero(&self) -> (r: bool) {
        *self == 0
    }
}

impl One for usize {
    open spec fn spec_one() -> usize {
        1
    }

    fn one() -> (r: usize) {
        1
    }
}

/// Casts to `usize` truncate toward zero, so pi/180 becomes 0 and 180/pi becomes 57.
impl ScalarConst for usize {
    open spec fn spec_from_u32(n: u32) -> Option<usize> {
        Some(n as usize)
    }

    open spec fn spec_frac_pi_180() -> usize {
        0
    }

    open spec fn spec_frac_180_pi() -> usize {
        57
    }

    fn from_u32(n: u32) -> (r: Option<usize>) {
        Some(n as usize)
    }

    fn frac_pi_180() -> (r: usize) {
        0
    }

    fn frac_180_pi() -> (r: usize) {
        57
    }
}

} // verus!
