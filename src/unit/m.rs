use std::cmp::Ordering;
use std::ops::{Add, Div, Mul, Neg, Rem, Sub};
use vstd::prelude::*;
use vstd::std_specs::cmp::{PartialEqSpec, PartialOrdSpec};
use vstd::std_specs::ops::{AddSpec, DivSpec, MulSpec, NegSpec, RemSpec, SubSpec};

use crate::scalar::{factor, One, ScalarConst, Zero};
use super::mm::{MM, ToMM};
use super::cm::{CM, ToCM};
use super::km::{KM, ToKM};

verus! {

/// Converts a value of the length units into meters.
///
/// Every length unit implements it, so a value in any of them can be given
/// where meters are sought.
pub trait ToM: Sized {
    type Output;

    /// The conversion is defined for this value: the scalar's arithmetic
    /// follows its specification, it can hold the conversion factor, and the
    /// result does not overflow.
    spec fn to_m_req(self) -> bool;

    /// This value in meters.
    spec fn spec_to_m(self) -> M<Self::Output>;

    /// Returns this value in meters, converting where needed.
    fn to_m(self) -> (r: M<Self::Output>)
        requires
            self.to_m_req(),
        ensures
            r == self.spec_to_m(),
    ;
}

/// A quantity in meters (the SI unit of length).
///
/// It combines only with other meters; any other unit must be converted
/// first. Every operator is that of the scalar it wraps.
#[derive(Copy, Clone, Debug)]
pub struct M<T>(pub T);

impl<T: Add<Output = T>> Add for M<T> {
    type Output = M<T>;

    fn add(self, rhs: M<T>) -> (r: M<T>)
        ensures
            T::obeys_add_spec() ==> r == M(self.0.add_spec(rhs.0)),
    {
        M(self.0 + rhs.0)
    }
}

impl<T: Add<Output = T>> vstd::std_specs::ops::AddSpecImpl for M<T> {
    open spec fn obeys_add_spec() -> bool {
        T::obeys_add_spec()
    }

    open spec fn add_req(self, rhs: M<T>) -> bool {
        self.0.add_req(rhs.0)
    }

    open spec fn add_spec(self, rhs: M<T>) -> M<T> {
        M(self.0.add_spec(rhs.0))
    }
}

impl<T: Sub<Output = T>> Sub for M<T> {
    type Output = M<T>;

    fn sub(self, rhs: M<T>) -> (r: M<T>)
        ensures
            T::obeys_sub_spec() ==> r == M(self.0.sub_spec(rhs.0)),
    {
        M(self.0 - rhs.0)
    }
}

impl<T: Sub<Output = T>> vstd::std_specs::ops::SubSpecImpl for M<T> {
    open spec fn obeys_sub_spec() -> bool {
        T::obeys_sub_spec()
    }

    open spec fn sub_req(self, rhs: M<T>) -> bool {
        self.0.sub_req(rhs.0)
    }

    open spec fn sub_spec(self, rhs: M<T>) -> M<T> {
        M(self.0.sub_spec(rhs.0))
    }
}

impl<T: Mul<Output = T>> Mul for M<T> {
    type Output = M<T>;

    fn mul(self, rhs: M<T>) -> (r: M<T>)
        ensures
            T::obeys_mul_spec() ==> r == M(self.0.mul_spec(rhs.0)),
    {
        M(self.0 * rhs.0)
    }
}

impl<T: Mul<Output = T>> vstd::std_specs::ops::MulSpecImpl for M<T> {
    open spec fn obeys_mul_spec() -> bool {
        T::obeys_mul_spec()
    }

    open spec fn mul_req(self, rhs: M<T>) -> bool {
        self.0.mul_req(rhs.0)
    }

    open spec fn mul_spec(self, rhs: M<T>) -> M<T> {
        M(self.0.mul_spec(rhs.0))
    }
}

impl<T: Div<Output = T>> Div for M<T> {
    type Output = M<T>;

    fn div(self, rhs: M<T>) -> (r: M<T>)
        ensures
            T::obeys_div_spec() ==> r == M(self.0.div_spec(rhs.0)),
    {
        M(self.0 / rhs.0)
    }
}

impl<T: Div<Output = T>> vstd::std_specs::ops::DivSpecImpl for M<T> {
    open spec fn obeys_div_spec() -> bool {
        T::obeys_div_spec()
    }

    open spec fn div_req(self, rhs: M<T>) -> bool {
        self.0.div_req(rhs.0)
    }

    open spec fn div_spec(self, rhs: M<T>) -> M<T> {
        M(self.0.div_spec(rhs.0))
    }
}

impl<T: Rem<Output = T>> Rem for M<T> {
    type Output = M<T>;

    fn rem(self, rhs: M<T>) -> (r: M<T>)
        ensures
            T::obeys_rem_spec() ==> r == M(self.0.rem_spec(rhs.0)),
    {
        M(self.0 % rhs.0)
    }
}

impl<T: Rem<Output = T>> vstd::std_specs::ops::RemSpecImpl for M<T> {
    open spec fn obeys_rem_spec() -> bool {
        T::obeys_rem_spec()
    }

    open spec fn rem_req(self, rhs: M<T>) -> bool {
        self.0.rem_req(rhs.0)
    }

    open spec fn rem_spec(self, rhs: M<T>) -> M<T> {
        M(self.0.rem_spec(rhs.0))
    }
}

impl<T: Neg<Output = T>> Neg for M<T> {
    type Output = M<T>;

    fn neg(self) -> (r: M<T>)
        ensures
            T::obeys_neg_spec() ==> r == M(self.0.neg_spec()),
    {
        M(self.0.neg())
    }
}

impl<T: Neg<Output = T>> vstd::std_specs::ops::NegSpecImpl for M<T> {
    open spec fn obeys_neg_spec() -> bool {
        T::obeys_neg_spec()
    }

    open spec fn neg_req(self) -> bool {
        self.0.neg_req()
    }

    open spec fn neg_spec(self) -> M<T> {
        M(self.0.neg_spec())
    }
}

impl<T: PartialEq> PartialEq for M<T> {
    fn eq(&self, rhs: &M<T>) -> (r: bool)
        ensures
            T::obeys_eq_spec() ==> r == self.0.eq_spec(&rhs.0),
    {
        self.0 == rhs.0
    }
}

impl<T: PartialEq> vstd::std_specs::cmp::PartialEqSpecImpl for M<T> {
    open spec fn obeys_eq_spec() -> bool {
        T::obeys_eq_spec()
    }

    open spec fn eq_spec(&self, rhs: &M<T>) -> bool {
        self.0.eq_spec(&rhs.0)
    }
}

impl<T: Eq> Eq for M<T> {}

impl<T: PartialOrd> PartialOrd for M<T> {
    fn partial_cmp(&self, other: &M<T>) -> (r: Option<Ordering>)
        ensures
            T::obeys_partial_cmp_spec() ==> r == self.0.partial_cmp_spec(&other.0),
    {
        self.0.partial_cmp(&other.0)
    }
}

impl<T: PartialOrd> vstd::std_specs::cmp::PartialOrdSpecImpl for M<T> {
    open spec fn obeys_partial_cmp_spec() -> bool {
        T::obeys_partial_cmp_spec()
    }

    open spec fn partial_cmp_spec(&self, other: &M<T>) -> Option<Ordering> {
        self.0.partial_cmp_spec(&other.0)
    }
}

impl<T: Zero> Zero for M<T> {
    open spec fn spec_zero() -> M<T> {
        M(T::spec_zero())
    }

    fn zero() -> (r: M<T>) {
        M(T::zero())
    }

    fn is_zero(&self) -> (r: bool) {
        self.0.is_zero()
    }
}

impl<T: One> One for M<T> {
    open spec fn spec_one() -> M<T> {
        M(T::spec_one())
    }

    fn one() -> (r: M<T>) {
        M(T::one())
    }
}

impl<T: Mul<Output = T> + ScalarConst + Copy> ToMM for M<T> {
    type Output = T;

    open spec fn to_mm_req(self) -> bool {
        &&& T::obeys_mul_spec()
        &&& T::spec_from_u32(1000) is Some
        &&& self.0.mul_req(factor::<T>(1000))
    }

    open spec fn spec_to_mm(self) -> MM<T> {
        MM(self.0.mul_spec(factor::<T>(1000)))
    }

    /// Converts to millimeters: multiplies by 1_000.
    fn to_mm(self) -> (r: MM<T>) {
        let k = T::from_u32(1000).unwrap();
        MM(self.0 * k)
    }
}

impl<T: Mul<Output = T> + ScalarConst + Copy> ToCM for M<T> {
    type Output = T;

    open spec fn to_cm_req(self) -> bool {
        &&& T::obeys_mul_spec()
        &&& T::spec_from_u32(100) is Some
        &&& self.0.mul_req(factor::<T>(100))
    }

    open spec fn spec_to_cm(self) -> CM<T> {
        CM(self.0.mul_spec(factor::<T>(100)))
    }

    /// Converts to centimeters: multiplies by 100.
    fn to_cm(self) -> (r: CM<T>) {
        let k = T::from_u32(100).unwrap();
        CM(self.0 * k)
    }
}

impl<T> ToM for M<T> {
    type Output = T;

    open spec fn to_m_req(self) -> bool {
        true
    }

    open spec fn spec_to_m(self) -> M<T> {
        self
    }

    /// Returns the value unchanged.
    fn to_m(self) -> (r: M<T>) {
        self
    }
}

impl<T: Div<Output = T> + ScalarConst + Copy> ToKM for M<T> {
    type Output = T;

    open spec fn to_km_req(self) -> bool {
        &&& T::obeys_div_spec()
        &&& T::spec_from_u32(1000) is Some
        &&& self.0.div_req(factor::<T>(1000))
    }

    open spec fn spec_to_km(self) -> KM<T> {
        KM(self.0.div_spec(factor::<T>(1000)))
    }

    /// Converts to kilometers: divides by 1_000.
    fn to_km(self) -> (r: KM<T>) {
        let k = T::from_u32(1000).unwrap();
        KM(self.0 / k)
    }
}

} // verus!
