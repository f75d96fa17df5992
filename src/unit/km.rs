use std::cmp::Ordering;
use std::ops::{Add, Div, Mul, Neg, Rem, Sub};
use vstd::prelude::*;
use vstd::std_specs::cmp::{PartialEqSpec, PartialOrdSpec};
use vstd::std_specs::ops::{AddSpec, DivSpec, MulSpec, NegSpec, RemSpec, SubSpec};

use crate::scalar::{factor, One, ScalarConst, Zero};
use super::mm::{MM, ToMM};
use super::cm::{CM, ToCM};
use super::m::{M, ToM};

verus! {

/// Converts a value of the length units into kilometers.
///
/// Every length unit implements it, so a value in any of them can be given
/// where kilometers are sought.
pub trait ToKM: Sized {
    type Output;

    /// The conversion is defined for this value: the scalar's arithmetic
    /// follows its specification, it can hold the conversion factor, and the
    /// result does not overflow.
    spec fn to_km_req(self) -> bool;

    /// This value in kilometers.
    spec fn spec_to_km(self) -> KM<Self::Output>;

    /// Returns this value in kilometers, converting where needed.
    fn to_km(self) -> (r: KM<Self::Output>)
        requires
            self.to_km_req(),
        ensures
            r == self.spec_to_km(),
    ;
}

/// A quantity in kilometers (a thousand meters).
///
/// It combines only with other kilometers; any other unit must be converted
/// first. Every operator is that of the scalar it wraps.
#[derive(Copy, Clone, Debug)]
pub struct KM<T>(pub T);

impl<T: Add<Output = T>> Add for KM<T> {
    type Output = KM<T>;

    fn add(self, rhs: KM<T>) -> (r: KM<T>)
        ensures
            T::obeys_add_spec() ==> r == KM(self.0.add_spec(rhs.0)),
    {
        KM(self.0 + rhs.0)
    }
}

impl<T: Add<Output = T>> vstd::std_specs::ops::AddSpecImpl for KM<T> {
    open spec fn obeys_add_spec() -> bool {
        T::obeys_add_spec()
    }

    open spec fn add_req(self, rhs: KM<T>) -> bool {
        self.0.add_req(rhs.0)
    }

    open spec fn add_spec(self, rhs: KM<T>) -> KM<T> {
        KM(self.0.add_spec(rhs.0))
    }
}

impl<T: Sub<Output = T>> Sub for KM<T> {
    type Output = KM<T>;

    fn sub(self, rhs: KM<T>) -> (r: KM<T>)
        ensures
            T::obeys_sub_spec() ==> r == KM(self.0.sub_spec(rhs.0)),
    {
        KM(self.0 - rhs.0)
    }
}

impl<T: Sub<Output = T>> vstd::std_specs::ops::SubSpecImpl for KM<T> {
    open spec fn obeys_sub_spec() -> bool {
        T::obeys_sub_spec()
    }

    open spec fn sub_req(self, rhs: KM<T>) -> bool {
        self.0.sub_req(rhs.0)
    }

    open spec fn sub_spec(self, rhs: KM<T>) -> KM<T> {
        KM(self.0.sub_spec(rhs.0))
    }
}

impl<T: Mul<Output = T>> Mul for KM<T> {
    type Output = KM<T>;

    fn mul(self, rhs: KM<T>) -> (r: KM<T>)
        ensures
            T::obeys_mul_spec() ==> r == KM(self.0.mul_spec(rhs.0)),
    {
        KM(self.0 * rhs.0)
    }
}

impl<T: Mul<Output = T>> vstd::std_specs::ops::MulSpecImpl for KM<T> {
    open spec fn obeys_mul_spec() -> bool {
        T::obeys_mul_spec()
    }

    open spec fn mul_req(self, rhs: KM<T>) -> bool {
        self.0.mul_req(rhs.0)
    }

    open spec fn mul_spec(self, rhs: KM<T>) -> KM<T> {
        KM(self.0.mul_spec(rhs.0))
    }
}

impl<T: Div<Output = T>> Div for KM<T> {
    type Output = KM<T>;

    fn div(self, rhs: KM<T>) -> (r: KM<T>)
        ensures
            T::obeys_div_spec() ==> r == KM(self.0.div_spec(rhs.0)),
    {
        KM(self.0 / rhs.0)
    }
}

impl<T: Div<Output = T>> vstd::std_specs::ops::DivSpecImpl for KM<T> {
    open spec fn obeys_div_spec() -> bool {
        T::obeys_div_spec()
    }

    open spec fn div_req(self, rhs: KM<T>) -> bool {
        self.0.div_req(rhs.0)
    }

    open spec fn div_spec(self, rhs: KM<T>) -> KM<T> {
        KM(self.0.div_spec(rhs.0))
    }
}

impl<T: Rem<Output = T>> Rem for KM<T> {
    type Output = KM<T>;

    fn rem(self, rhs: KM<T>) -> (r: KM<T>)
        ensures
            T::obeys_rem_spec() ==> r == KM(self.0.rem_spec(rhs.0)),
    {
        KM(self.0 % rhs.0)
    }
}

impl<T: Rem<Output = T>> vstd::std_specs::ops::RemSpecImpl for KM<T> {
    open spec fn obeys_rem_spec() -> bool {
        T::obeys_rem_spec()
    }

    open spec fn rem_req(self, rhs: KM<T>) -> bool {
        self.0.rem_req(rhs.0)
    }

    open spec fn rem_spec(self, rhs: KM<T>) -> KM<T> {
        KM(self.0.rem_spec(rhs.0))
    }
}

impl<T: Neg<Output = T>> Neg for KM<T> {
    type Output = KM<T>;

    fn neg(self) -> (r: KM<T>)
        ensures
            T::obeys_neg_spec() ==> r == KM(self.0.neg_spec()),
    {
        KM(self.0.neg())
    }
}

impl<T: Neg<Output = T>> vstd::std_specs::ops::NegSpecImpl for KM<T> {
    open spec fn obeys_neg_spec() -> bool {
        T::obeys_neg_spec()
    }

    open spec fn neg_req(self) -> bool {
        self.0.neg_req()
    }

    open spec fn neg_spec(self) -> KM<T> {
        KM(self.0.neg_spec())
    }
}

impl<T: PartialEq> PartialEq for KM<T> {
    fn eq(&self, rhs: &KM<T>) -> (r: bool)
        ensures
            T::obeys_eq_spec() ==> r == self.0.eq_spec(&rhs.0),
    {
        self.0 == rhs.0
    }
}

impl<T: PartialEq> vstd::std_specs::cmp::PartialEqSpecImpl for KM<T> {
    open spec fn obeys_eq_spec() -> bool {
        T::obeys_eq_spec()
    }

    open spec fn eq_spec(&self, rhs: &KM<T>) -> bool {
        self.0.eq_spec(&rhs.0)
    }
}

impl<T: Eq> Eq for KM<T> {}

impl<T: PartialOrd> PartialOrd for KM<T> {
    fn partial_cmp(&self, other: &KM<T>) -> (r: Option<Ordering>)
        ensures
            T::obeys_partial_cmp_spec() ==> r == self.0.partial_cmp_spec(&other.0),
    {
        self.0.partial_cmp(&other.0)
    }
}

impl<T: PartialOrd> vstd::std_specs::cmp::PartialOrdSpecImpl for KM<T> {
    open spec fn obeys_partial_cmp_spec() -> bool {
        T::obeys_partial_cmp_spec()
    }

    open spec fn partial_cmp_spec(&self, other: &KM<T>) -> Option<Ordering> {
        self.0.partial_cmp_spec(&other.0)
    }
}

impl<T: Zero> Zero for KM<T> {
    open spec fn spec_zero() -> KM<T> {
        KM(T::spec_zero())
    }

    fn zero() -> (r: KM<T>) {
        KM(T::zero())
    }

    fn is_zero(&self) -> (r: bool) {
        self.0.is_zero()
    }
}

impl<T: One> One for KM<T> {
    open spec fn spec_one() -> KM<T> {
        KM(T::spec_one())
    }

    fn one() -> (r: KM<T>) {
        KM(T::one())
    }
}

impl<T: Mul<Output = T> + ScalarConst + Copy> ToMM for KM<T> {
    type Output = T;

    open spec fn to_mm_req(self) -> bool {
        &&& T::obeys_mul_spec()
        &&& T::spec_from_u32(1000000) is Some
        &&& self.0.mul_req(factor::<T>(1000000))
    }

    open spec fn spec_to_mm(self) -> MM<T> {
        MM(self.0.mul_spec(factor::<T>(1000000)))
    }

    /// Converts to millimeters: multiplies by 1_000_000.
    fn to_mm(self) -> (r: MM<T>) {
        let k = T::from_u32(1000000).unwrap();
        MM(self.0 * k)
    }
}

impl<T: Mul<Output = T> + ScalarConst + Copy> ToCM for KM<T> {
    type Output = T;

    open spec fn to_cm_req(self) -> bool {
        &&& T::obeys_mul_spec()
        &&& T::spec_from_u32(100000) is Some
        &&& self.0.mul_req(factor::<T>(100000))
    }

    open spec fn spec_to_cm(self) -> CM<T> {
        CM(self.0.mul_spec(factor::<T>(100000)))
    }

    /// Converts to centimeters: multiplies by 100_000.
    fn to_cm(self) -> (r: CM<T>) {
        let k = T::from_u32(100000).unwrap();
        CM(self.0 * k)
    }
}

impl<T: Mul<Output = T> + ScalarConst + Copy> ToM for KM<T> {
    type Output = T;

    open spec fn to_m_req(self) -> bool {
        &&& T::obeys_mul_spec()
        &&& T::spec_from_u32(1000) is Some
        &&& self.0.mul_req(factor::<T>(1000))
    }

    open spec fn spec_to_m(self) -> M<T> {
        M(self.0.mul_spec(factor::<T>(1000)))
    }

    /// Converts to meters: multiplies by 1_000.
    fn to_m(self) -> (r: M<T>) {
        let k = T::from_u32(1000).unwrap();
        M(self.0 * k)
    }
}

impl<T> ToKM for KM<T> {
    type Output = T;

    open spec fn to_km_req(self) -> bool {
        true
    }

    open spec fn spec_to_km(self) -> KM<T> {
        self
    }

    /// Returns the value unchanged.
    fn to_km(self) -> (r: KM<T>) {
        self
    }
}

} // verus!
