use std::cmp::Ordering;
use std::ops::{Add, Div, Mul, Neg, Rem, Sub};
use vstd::prelude::*;
use vstd::std_specs::cmp::{PartialEqSpec, PartialOrdSpec};
use vstd::std_specs::ops::{AddSpec, DivSpec, MulSpec, NegSpec, RemSpec, SubSpec};

use crate::scalar::{One, ScalarConst, Zero};
use super::rad::{Rad, ToRad};

verus! {

/// Converts a value of the angle units into degrees.
///
/// Every angle unit implements it, so a value in any of them can be given
/// where degrees are sought.
pub trait ToDeg: Sized {
    type Output;

    /// The conversion is defined for this value: the scalar's arithmetic
    /// follows its specification, it can hold the conversion factor, and the
    /// result does not overflow.
    spec fn to_deg_req(self) -> bool;

    /// This value in degrees.
    spec fn spec_to_deg(self) -> Deg<Self::Output>;

    /// Returns this value in degrees, converting where needed.
    fn to_deg(self) -> (r: Deg<Self::Output>)
        requires
            self.to_deg_req(),
        ensures
            r == self.spec_to_deg(),
    ;
}

/// A quantity in degrees (a 360th of a full turn).
///
/// It combines only with other degrees; any other unit must be converted
/// first. Every operator is that of the scalar it wraps.
#[derive(Copy, Clone, Debug)]
pub struct Deg<T>(pub T);

impl<T: Add<Output = T>> Add for Deg<T> {
    type Output = Deg<T>;

    fn add(self, rhs: Deg<T>) -> (r: Deg<T>)
        ensures
            T::obeys_add_spec() ==> r == Deg(self.0.add_spec(rhs.0)),
    {
        Deg(self.0 + rhs.0)
    }
}

impl<T: Add<Output = T>> vstd::std_specs::ops::AddSpecImpl for Deg<T> {
    open spec fn obeys_add_spec() -> bool {
        T::obeys_add_spec()
    }

    open spec fn add_req(self, rhs: Deg<T>) -> bool {
        self.0.add_req(rhs.0)
    }

    open spec fn add_spec(self, rhs: Deg<T>) -> Deg<T> {
        Deg(self.0.add_spec(rhs.0))
    }
}

impl<T: Sub<Output = T>> Sub for Deg<T> {
    type Output = Deg<T>;

    fn sub(self, rhs: Deg<T>) -> (r: Deg<T>)
        ensures
            T::obeys_sub_spec() ==> r == Deg(self.0.sub_spec(rhs.0)),
    {
        Deg(self.0 - rhs.0)
    }
}

impl<T: Sub<Output = T>> vstd::std_specs::ops::SubSpecImpl for Deg<T> {
    open spec fn obeys_sub_spec() -> bool {
        T::obeys_sub_spec()
    }

    open spec fn sub_req(self, rhs: Deg<T>) -> bool {
        self.0.sub_req(rhs.0)
    }

    open spec fn sub_spec(self, rhs: Deg<T>) -> Deg<T> {
        Deg(self.0.sub_spec(rhs.0))
    }
}

impl<T: Mul<Output = T>> Mul for Deg<T> {
    type Output = Deg<T>;

    fn mul(self, rhs: Deg<T>) -> (r: Deg<T>)
        ensures
            T::obeys_mul_spec() ==> r == Deg(self.0.mul_spec(rhs.0)),
    {
        Deg(self.0 * rhs.0)
    }
}

impl<T: Mul<Output = T>> vstd::std_specs::ops::MulSpecImpl for Deg<T> {
    open spec fn obeys_mul_spec() -> bool {
        T::obeys_mul_spec()
    }

    open spec fn mul_req(self, rhs: Deg<T>) -> bool {
        self.0.mul_req(rhs.0)
    }

    open spec fn mul_spec(self, rhs: Deg<T>) -> Deg<T> {
        Deg(self.0.mul_spec(rhs.0))
    }
}

impl<T: Div<Output = T>> Div for Deg<T> {
    type Output = Deg<T>;

    fn div(self, rhs: Deg<T>) -> (r: Deg<T>)
        ensures
            T::obeys_div_spec() ==> r == Deg(self.0.div_spec(rhs.0)),
    {
        Deg(self.0 / rhs.0)
    }
}

impl<T: Div<Output = T>> vstd::std_specs::ops::DivSpecImpl for Deg<T> {
    open spec fn obeys_div_spec() -> bool {
        T::obeys_div_spec()
    }

    open spec fn div_req(self, rhs: Deg<T>) -> bool {
        self.0.div_req(rhs.0)
    }

    open spec fn div_spec(self, rhs: Deg<T>) -> Deg<T> {
        Deg(self.0.div_spec(rhs.0))
    }
}

impl<T: Rem<Output = T>> Rem for Deg<T> {
    type Output = Deg<T>;

    fn rem(self, rhs: Deg<T>) -> (r: Deg<T>)
        ensures
            T::obeys_rem_spec() ==> r == Deg(self.0.rem_spec(rhs.0)),
    {
        Deg(self.0 % rhs.0)
    }
}

impl<T: Rem<Output = T>> vstd::std_specs::ops::RemSpecImpl for Deg<T> {
    open spec fn obeys_rem_spec() -> bool {
        T::obeys_rem_spec()
    }

    open spec fn rem_req(self, rhs: Deg<T>) -> bool {
        self.0.rem_req(rhs.0)
    }

    open spec fn rem_spec(self, rhs: Deg<T>) -> Deg<T> {
        Deg(self.0.rem_spec(rhs.0))
    }
}

impl<T: Neg<Output = T>> Neg for Deg<T> {
    type Output = Deg<T>;

    fn neg(self) -> (r: Deg<T>)
        ensures
            T::obeys_neg_spec() ==> r == Deg(self.0.neg_spec()),
    {
        Deg(self.0.neg())
    }
}

impl<T: Neg<Output = T>> vstd::std_specs::ops::NegSpecImpl for Deg<T> {
    open spec fn obeys_neg_spec() -> bool {
        T::obeys_neg_spec()
    }

    open spec fn neg_req(self) -> bool {
        self.0.neg_req()
    }

    open spec fn neg_spec(self) -> Deg<T> {
        Deg(self.0.neg_spec())
    }
}

impl<T: PartialEq> PartialEq for Deg<T> {
    fn eq(&self, rhs: &Deg<T>) -> (r: bool)
        ensures
            T::obeys_eq_spec() ==> r == self.0.eq_spec(&rhs.0),
    {
        self.0 == rhs.0
    }
}

impl<T: PartialEq> vstd::std_specs::cmp::PartialEqSpecImpl for Deg<T> {
    open spec fn obeys_eq_spec() -> bool {
        T::obeys_eq_spec()
    }

    open spec fn eq_spec(&self, rhs: &Deg<T>) -> bool {
        self.0.eq_spec(&rhs.0)
    }
}

impl<T: Eq> Eq for Deg<T> {}

impl<T: PartialOrd> PartialOrd for Deg<T> {
    fn partial_cmp(&self, other: &Deg<T>) -> (r: Option<Ordering>)
        ensures
            T::obeys_partial_cmp_spec() ==> r == self.0.partial_cmp_spec(&other.0),
    {
        self.0.partial_cmp(&other.0)
    }
}

impl<T: PartialOrd> vstd::std_specs::cmp::PartialOrdSpecImpl for Deg<T> {
    open spec fn obeys_partial_cmp_spec() -> bool {
        T::obeys_partial_cmp_spec()
    }

    open spec fn partial_cmp_spec(&self, other: &Deg<T>) -> Option<Ordering> {
        self.0.partial_cmp_spec(&other.0)
    }
}

impl<T: Zero> Zero for Deg<T> {
    open spec fn spec_zero() -> Deg<T> {
        Deg(T::spec_zero())
    }

    fn zero() -> (r: Deg<T>) {
        Deg(T::zero())
    }

    fn is_zero(&self) -> (r: bool) {
        self.0.is_zero()
    }
}

impl<T: One> One for Deg<T> {
    open spec fn spec_one() -> Deg<T> {
        Deg(T::spec_one())
    }

    fn one() -> (r: Deg<T>) {
        Deg(T::one())
    }
}

impl<T: Mul<Output = T> + ScalarConst + Copy> ToRad for Deg<T> {
    type Output = T;

    open spec fn to_rad_req(self) -> bool {
        &&& T::obeys_mul_spec()
        &&& self.0.mul_req(T::spec_frac_pi_180())
    }

    open spec fn spec_to_rad(self) -> Rad<T> {
        Rad(self.0.mul_spec(T::spec_frac_pi_180()))
    }

    /// Converts to radians: multiplies by pi/180 as the scalar type holds it.
    fn to_rad(self) -> (r: Rad<T>) {
        Rad(self.0 * T::frac_pi_180())
    }
}

impl<T> ToDeg for Deg<T> {
    type Output = T;

    open spec fn to_deg_req(self) -> bool {
        true
    }

    open spec fn spec_to_deg(self) -> Deg<T> {
        self
    }

    /// Returns the value unchanged.
    fn to_deg(self) -> (r: Deg<T>) {
        self
    }
}

} // verus!
