use std::cmp::Ordering;
use std::ops::{Add, Div, Mul, Neg, Rem, Sub};
use vstd::prelude::*;
use vstd::std_specs::cmp::{PartialEqSpec, PartialOrdSpec};
use vstd::std_specs::ops::{AddSpec, DivSpec, MulSpec, NegSpec, RemSpec, SubSpec};

use crate::scalar::{factor, One, ScalarConst, Zero};
use super::mm::{MM, ToMM};
use super::m::{M, ToM};
use super::km::{KM, ToKM};

verus! {

/// Converts a value of the length units into centimeters.
///
/// Every length unit implements it, so a value in any of them can be given
/// where centimeters are sought.
pub trait ToCM: Sized {
    type Output;

    /// The conversion is defined for this value: the scalar's arithmetic
    /// follows its specification, it can hold the conversion factor, and the
    /// result does not overflow.
    spec fn to_cm_req(self) -> bool;

    /// This value in centimeters.
    spec fn spec_to_cm(self) -> CM<Self::Output>;

    /// Returns this value in centimeters, converting where needed.
    fn to_cm(self) -> (r: CM<Self::Output>)
        requires
            self.to_cm_req(),
        ensures
            r == self.spec_to_cm(),
    ;
}

/// A quantity in centimeters (a hundredth of a meter).
///
/// It combines only with other centimeters; any other unit must be converted
/// first. Every operator is that of the scalar it wraps.
#[derive(Copy, Clone, Debug)]
pub struct CM<T>(pub T);

impl<T: Add<Output = T>> Add for CM<T> {
    type Output = CM<T>;

    fn add(self, rhs: CM<T>) -> (r: CM<T>)
        ensures
            T::obeys_add_spec() ==> r == CM(self.0.add_spec(rhs.0)),
    {
        CM(self.0 + rhs.0)
    }
}

impl<T: Add<Output = T>> vstd::std_specs::ops::AddSpecImpl for CM<T> {
    open spec fn obeys_add_spec() -> bool {
        T::obeys_add_spec()
    }

    open spec fn add_req(self, rhs: CM<T>) -> bool {
        self.0.add_req(rhs.0)
    }

    open spec fn add_spec(self, rhs: CM<T>) -> CM<T> {
        CM(self.0.add_spec(rhs.0))
    }
}

impl<T: Sub<Output = T>> Sub for CM<T> {
    type Output = CM<T>;

    fn sub(self, rhs: CM<T>) -> (r: CM<T>)
        ensures
            T::obeys_sub_spec() ==> r == CM(self.0.sub_spec(rhs.0)),
    {
        CM(self.0 - rhs.0)
    }
}

impl<T: Sub<Output = T>> vstd::std_specs::ops::SubSpecImpl for CM<T> {
    open spec fn obeys_sub_spec() -> bool {
        T::obeys_sub_spec()
    }

    open spec fn sub_req(self, rhs: CM<T>) -> bool {
        self.0.sub_req(rhs.0)
    }

    open spec fn sub_spec(self, rhs: CM<T>) -> CM<T> {
        CM(self.0.sub_spec(rhs.0))
    }
}

impl<T: Mul<Output = T>> Mul for CM<T> {
    type Output = CM<T>;

    fn mul(self, rhs: CM<T>) -> (r: CM<T>)
        ensures
            T::obeys_mul_spec() ==> r == CM(self.0.mul_spec(rhs.0)),
    {
        CM(self.0 * rhs.0)
    }
}

impl<T: Mul<Output = T>> vstd::std_specs::ops::MulSpecImpl for CM<T> {
    open spec fn obeys_mul_spec() -> bool {
        T::obeys_mul_spec()
    }

    open spec fn mul_req(self, rhs: CM<T>) -> bool {
        self.0.mul_req(rhs.0)
    }

    open spec fn mul_spec(self, rhs: CM<T>) -> CM<T> {
        CM(self.0.mul_spec(rhs.0))
    }
}

impl<T: Div<Output = T>> Div for CM<T> {
    type Output = CM<T>;

    fn div(self, rhs: CM<T>) -> (r: CM<T>)
        ensures
            T::obeys_div_spec() ==> r == CM(self.0.div_spec(rhs.0)),
    {
        CM(self.0 / rhs.0)
    }
}

impl<T: Div<Output = T>> vstd::std_specs::ops::DivSpecImpl for CM<T> {
    open spec fn obeys_div_spec() -> bool {
        T::obeys_div_spec()
    }

    open spec fn div_req(self, rhs: CM<T>) -> bool {
        self.0.div_req(rhs.0)
    }

    open spec fn div_spec(self, rhs: CM<T>) -> CM<T> {
        CM(self.0.div_spec(rhs.0))
    }
}

impl<T: Rem<Output = T>> Rem for CM<T> {
    type Output = CM<T>;

    fn rem(self, rhs: CM<T>) -> (r: CM<T>)
        ensures
            T::obeys_rem_spec() ==> r == CM(self.0.rem_spec(rhs.0)),
    {
        CM(self.0 % rhs.0)
    }
}

impl<T: Rem<Output = T>> vstd::std_specs::ops::RemSpecImpl for CM<T> {
    open spec fn obeys_rem_spec() -> bool {
        T::obeys_rem_spec()
    }

    open spec fn rem_req(self, rhs: CM<T>) -> bool {
        self.0.rem_req(rhs.0)
    }

    open spec fn rem_spec(self, rhs: CM<T>) -> CM<T> {
        CM(self.0.rem_spec(rhs.0))
    }
}

impl<T: Neg<Output = T>> Neg for CM<T> {
    type Output = CM<T>;

    fn neg(self) -> (r: CM<T>)
        ensures
            T::obeys_neg_spec() ==> r == CM(self.0.neg_spec()),
    {
        CM(self.0.neg())
    }
}

impl<T: Neg<Output = T>> vstd::std_specs::ops::NegSpecImpl for CM<T> {
    open spec fn obeys_neg_spec() -> bool {
        T::obeys_neg_spec()
    }

    open spec fn neg_req(self) -> bool {
        self.0.neg_req()
    }

    open spec fn neg_spec(self) -> CM<T> {
        CM(self.0.neg_spec())
    }
}

impl<T: PartialEq> PartialEq for CM<T> {
    fn eq(&self, rhs: &CM<T>) -> (r: bool)
        ensures
            T::obeys_eq_spec() ==> r == self.0.eq_spec(&rhs.0),
    {
        self.0 == rhs.0
    }
}

impl<T: PartialEq> vstd::std_specs::cmp::PartialEqSpecImpl for CM<T> {
    open spec fn obeys_eq_spec() -> bool {
        T::obeys_eq_spec()
    }

    open spec fn eq_spec(&self, rhs: &CM<T>) -> bool {
        self.0.eq_spec(&rhs.0)
    }
}

impl<T: Eq> Eq for CM<T> {}

impl<T: PartialOrd> PartialOrd for CM<T> {
    fn partial_cmp(&self, other: &CM<T>) -> (r: Option<Ordering>)
        ensures
            T::obeys_partial_cmp_spec() ==> r == self.0.partial_cmp_spec(&other.0),
    {
        self.0.partial_cmp(&other.0)
    }
}

impl<T: PartialOrd> vstd::std_specs::cmp::PartialOrdSpecImpl for CM<T> {
    open spec fn obeys_partial_cmp_spec() -> bool {
        T::obeys_partial_cmp_spec()
    }

    open spec fn partial_cmp_spec(&self, other: &CM<T>) -> Option<Ordering> {
        self.0.partial_cmp_spec(&other.0)
    }
}

impl<T: Zero> Zero for CM<T> {
    open spec fn spec_zero() -> CM<T> {
        CM(T::spec_zero())
    }

    fn zero() -> (r: CM<T>) {
        CM(T::zero())
    }

    fn is_zero(&self) -> (r: bool) {
        self.0.is_zero()
    }
}

impl<T: One> One for CM<T> {
    open spec fn spec_one() -> CM<T> {
        CM(T::spec_one())
    }

    fn one() -> (r: CM<T>) {
        CM(T::one())
    }
}

impl<T: Mul<Output = T> + ScalarConst + Copy> ToMM for CM<T> {
    type Output = T;

    open spec fn to_mm_req(self) -> bool {
        &&& T::obeys_mul_spec()
        &&& T::spec_from_u32(10) is Some
        &&& self.0.mul_req(factor::<T>(10))
    }

    open spec fn spec_to_mm(self) -> MM<T> {
        MM(self.0.mul_spec(factor::<T>(10)))
    }

    /// Converts to millimeters: multiplies by 10.
    fn to_mm(self) -> (r: MM<T>) {
        let k = T::from_u32(10).unwrap();
        MM(self.0 * k)
    }
}

impl<T> ToCM for CM<T> {
    type Output = T;

    open spec fn to_cm_req(self) -> bool {
        true
    }

    open spec fn spec_to_cm(self) -> CM<T> {
        self
    }

    /// Returns the value unchanged.
    fn to_cm(self) -> (r: CM<T>) {
        self
    }
}

impl<T: Div<Output = T> + ScalarConst + Copy> ToM for CM<T> {
    type Output = T;

    open spec fn to_m_req(self) -> bool {
        &&& T::obeys_div_spec()
        &&& T::spec_from_u32(100) is Some
        &&& self.0.div_req(factor::<T>(100))
    }

    open spec fn spec_to_m(self) -> M<T> {
        M(self.0.div_spec(factor::<T>(100)))
    }

    /// Converts to meters: divides by 100.
    fn to_m(self) -> (r: M<T>) {
        let k = T::from_u32(100).unwrap();
        M(self.0 / k)
    }
}

impl<T: Div<Output = T> + ScalarConst + Copy> ToKM for CM<T> {
    type Output = T;

    open spec fn to_km_req(self) -> bool {
        &&& T::obeys_div_spec()
        &&& T::spec_from_u32(100000) is Some
        &&& self.0.div_req(factor::<T>(100000))
    }

    open spec fn spec_to_km(self) -> KM<T> {
        KM(self.0.div_spec(factor::<T>(100000)))
    }

    /// Converts to kilometers: divides by 100_000.
    fn to_km(self) -> (r: KM<T>) {
        let k = T::from_u32(100000).unwrap();
        KM(self.0 / k)
    }
}

} // verus!
