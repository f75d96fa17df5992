use std::cmp::Ordering;
use std::ops::{Add, Div, Mul, Neg, Rem, Sub};
use vstd::prelude::*;
use vstd::std_specs::cmp::{PartialEqSpec, PartialOrdSpec};
use vstd::std_specs::ops::{AddSpec, DivSpec, MulSpec, NegSpec, RemSpec, SubSpec};

use crate::scalar::{One, ScalarConst, Zero};
use super::deg::{Deg, ToDeg};

verus! {

/// Converts a value of the angle units into radians.
///
/// Every angle unit implements it, so a value in any of them can be given
/// where radians are sought.
pub trait ToRad: Sized {
    type Output;

    /// The conversion is defined for this value: the scalar's arithmetic
    /// follows its specification, it can hold the conversion factor, and the
    /// result does not overflow.
    spec fn to_rad_req(self) -> bool;

    /// This value in radians.
    spec fn spec_to_rad(self) -> Rad<Self::Output>;

    /// Returns this value in radians, converting where needed.
    fn to_rad(self) -> (r: Rad<Self::Output>)
        requires
            self.to_rad_req(),
        ensures
            r == self.spec_to_rad(),
    ;
}

/// A quantity in radians (the standard unit of plane angle).
///
/// It combines only with other radians; any other unit must be converted
/// first. Every operator is that of the scalar it wraps.
#[derive(Copy, Clone, Debug)]
pub struct Rad<T>(pub T);

impl<T: Add<Output = T>> Add for Rad<T> {
    type Output = Rad<T>;

    fn add(self, rhs: Rad<T>) -> (r: Rad<T>)
        ensures
            T::obeys_add_spec() ==> r == Rad(self.0.add_spec(rhs.0)),
    {
        Rad(self.0 + rhs.0)
    }
}

impl<T: Add<Output = T>> vstd::std_specs::ops::AddSpecImpl for Rad<T> {
    open spec fn obeys_add_spec() -> bool {
        T::obeys_add_spec()
    }

    open spec fn add_req(self, rhs: Rad<T>) -> bool {
        self.0.add_req(rhs.0)
    }

    open spec fn add_spec(self, rhs: Rad<T>) -> Rad<T> {
        Rad(self.0.add_spec(rhs.0))
    }
}

impl<T: Sub<Output = T>> Sub for Rad<T> {
    type Output = Rad<T>;

    fn sub(self, rhs: Rad<T>) -> (r: Rad<T>)
        ensures
            T::obeys_sub_spec() ==> r == Rad(self.0.sub_spec(rhs.0)),
    {
        Rad(self.0 - rhs.0)
    }
}

impl<T: Sub<Output = T>> vstd::std_specs::ops::SubSpecImpl for Rad<T> {
    open spec fn obeys_sub_spec() -> bool {
        T::obeys_sub_spec()
    }

    open spec fn sub_req(self, rhs: Rad<T>) -> bool {
        self.0.sub_req(rhs.0)
    }

    open spec fn sub_spec(self, rhs: Rad<T>) -> Rad<T> {
        Rad(self.0.sub_spec(rhs.0))
    }
}

impl<T: Mul<Output = T>> Mul for Rad<T> {
    type Output = Rad<T>;

    fn mul(self, rhs: Rad<T>) -> (r: Rad<T>)
        ensures
            T::obeys_mul_spec() ==> r == Rad(self.0.mul_spec(rhs.0)),
    {
        Rad(self.0 * rhs.0)
    }
}

impl<T: Mul<Output = T>> vstd::std_specs::ops::MulSpecImpl for Rad<T> {
    open spec fn obeys_mul_spec() -> bool {
        T::obeys_mul_spec()
    }

    open spec fn mul_req(self, rhs: Rad<T>) -> bool {
        self.0.mul_req(rhs.0)
    }

    open spec fn mul_spec(self, rhs: Rad<T>) -> Rad<T> {
        Rad(self.0.mul_spec(rhs.0))
    }
}

impl<T: Div<Output = T>> Div for Rad<T> {
    type Output = Rad<T>;

    fn div(self, rhs: Rad<T>) -> (r: Rad<T>)
        ensures
            T::obeys_div_spec() ==> r == Rad(self.0.div_spec(rhs.0)),
    {
        Rad(self.0 / rhs.0)
    }
}

impl<T: Div<Output = T>> vstd::std_specs::ops::DivSpecImpl for Rad<T> {
    open spec fn obeys_div_spec() -> bool {
        T::obeys_div_spec()
    }

    open spec fn div_req(self, rhs: Rad<T>) -> bool {
        self.0.div_req(rhs.0)
    }

    open spec fn div_spec(self, rhs: Rad<T>) -> Rad<T> {
        Rad(self.0.div_spec(rhs.0))
    }
}

impl<T: Rem<Output = T>> Rem for Rad<T> {
    type Output = Rad<T>;

    fn rem(self, rhs: Rad<T>) -> (r: Rad<T>)
        ensures
            T::obeys_rem_spec() ==> r == Rad(self.0.rem_spec(rhs.0)),
    {
        Rad(self.0 % rhs.0)
    }
}

impl<T: Rem<Output = T>> vstd::std_specs::ops::RemSpecImpl for Rad<T> {
    open spec fn obeys_rem_spec() -> bool {
        T::obeys_rem_spec()
    }

    open spec fn rem_req(self, rhs: Rad<T>) -> bool {
        self.0.rem_req(rhs.0)
    }

    open spec fn rem_spec(self, rhs: Rad<T>) -> Rad<T> {
        Rad(self.0.rem_spec(rhs.0))
    }
}

impl<T: Neg<Output = T>> Neg for Rad<T> {
    type Output = Rad<T>;

    fn neg(self) -> (r: Rad<T>)
        ensures
            T::obeys_neg_spec() ==> r == Rad(self.0.neg_spec()),
    {
        Rad(self.0.neg())
    }
}

impl<T: Neg<Output = T>> vstd::std_specs::ops::NegSpecImpl for Rad<T> {
    open spec fn obeys_neg_spec() -> bool {
        T::obeys_neg_spec()
    }

    open spec fn neg_req(self) -> bool {
        self.0.neg_req()
    }

    open spec fn neg_spec(self) -> Rad<T> {
        Rad(self.0.neg_spec())
    }
}

impl<T: PartialEq> PartialEq for Rad<T> {
    fn eq(&self, rhs: &Rad<T>) -> (r: bool)
        ensures
            T::obeys_eq_spec() ==> r == self.0.eq_spec(&rhs.0),
    {
        self.0 == rhs.0
    }
}

impl<T: PartialEq> vstd::std_specs::cmp::PartialEqSpecImpl for Rad<T> {
    open spec fn obeys_eq_spec() -> bool {
        T::obeys_eq_spec()
    }

    open spec fn eq_spec(&self, rhs: &Rad<T>) -> bool {
        self.0.eq_spec(&rhs.0)
    }
}

impl<T: Eq> Eq for Rad<T> {}

impl<T: PartialOrd> PartialOrd for Rad<T> {
    fn partial_cmp(&self, other: &Rad<T>) -> (r: Option<Ordering>)
        ensures
            T::obeys_partial_cmp_spec() ==> r == self.0.partial_cmp_spec(&other.0),
    {
        self.0.partial_cmp(&other.0)
    }
}

impl<T: PartialOrd> vstd::std_specs::cmp::PartialOrdSpecImpl for Rad<T> {
    open spec fn obeys_partial_cmp_spec() -> bool {
        T::obeys_partial_cmp_spec()
    }

    open spec fn partial_cmp_spec(&self, other: &Rad<T>) -> Option<Ordering> {
        self.0.partial_cmp_spec(&other.0)
    }
}

impl<T: Zero> Zero for Rad<T> {
    open spec fn spec_zero() -> Rad<T> {
        Rad(T::spec_zero())
    }

    fn zero() -> (r: Rad<T>) {
        Rad(T::zero())
    }

    fn is_zero(&self) -> (r: bool) {
        self.0.is_zero()
    }
}

impl<T: One> One for Rad<T> {
    open spec fn spec_one() -> Rad<T> {
        Rad(T::spec_one())
    }

    fn one() -> (r: Rad<T>) {
        Rad(T::one())
    }
}

impl<T> ToRad for Rad<T> {
    type Output = T;

    open spec fn to_rad_req(self) -> bool {
        true
    }

    open spec fn spec_to_rad(self) -> Rad<T> {
        self
    }

    /// Returns the value unchanged.
    fn to_rad(self) -> (r: Rad<T>) {
        self
    }
}

impl<T: Mul<Output = T> + ScalarConst + Copy> ToDeg for Rad<T> {
    type Output = T;

    open spec fn to_deg_req(self) -> bool {
        &&& T::obeys_mul_spec()
        &&& self.0.mul_req(T::spec_frac_180_pi())
    }

    open spec fn spec_to_deg(self) -> Deg<T> {
        Deg(self.0.mul_spec(T::spec_frac_180_pi()))
    }

    /// Converts to degrees: multiplies by 180/pi as the scalar type holds it.
    fn to_deg(self) -> (r: Deg<T>) {
        Deg(self.0 * T::frac_180_pi())
    }
}

} // verus!
