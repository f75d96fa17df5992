use std::cmp::Ordering;
use std::ops::{Add, Div, Mul, Neg, Sub};
use vstd::prelude::*;
use vstd::std_specs::cmp::{PartialEqSpec, PartialOrdIs, PartialOrdSpec};
use vstd::std_specs::ops::{AddSpec, DivSpec, MulSpec, NegSpec, SubSpec};

use crate::clamp::Clamp;
use crate::scalar::{greater, lerp, lerp_req, lesser, spec_lerp, One, Zero};

verus! {

/// A vector of four components (x, y, z, w) over the scalar type `T`.
///
/// Every operation returns a new vector; none changes one in place.
#[derive(Copy, Clone, Debug)]
pub struct Vec4<T>(pub T, pub T, pub T, pub T);

/// Yields the components of a `Vec4` in the order x, y, z, w.
pub struct Vec4Iterator<T> {
    v: Vec4<T>,
    index: usize,
}

impl<T> Vec4<T> {
    /// The components in order.
    pub open spec fn components(self) -> Seq<T> {
        seq![self.0, self.1, self.2, self.3]
    }
}

impl<T: Copy> Vec4<T> {
    /// Returns an iterator over the components in order. The vector is copied,
    /// so iterating again yields the same components.
    pub fn into_iter(self) -> (r: Vec4Iterator<T>)
        ensures
            r.remaining() == self.components(),
    {
        Vec4Iterator { v: self, index: 0 }
    }
}

impl<T> Vec4Iterator<T> {
    /// The components not yet yielded, in order.
    pub closed spec fn remaining(&self) -> Seq<T> {
        if self.index < 4 {
            self.v.components().skip(self.index as int)
        } else {
            Seq::empty()
        }
    }
}

impl<T: Copy> Vec4Iterator<T> {
    /// Yields the next component, or `None` once all four have been yielded.
    pub fn next(&mut self) -> (r: Option<T>)
        ensures
            old(self).remaining().len() == 0 ==> {
                &&& r is None
                &&& final(self).remaining() == old(self).remaining()
            },
            old(self).remaining().len() > 0 ==> {
                &&& r == Some(old(self).remaining()[0])
                &&& final(self).remaining() == old(self).remaining().drop_first()
            },
    {
        proof {
            if self.index < 4 {
                let s = self.v.components();
                assert(s.skip(self.index as int).drop_first() =~= s.skip(self.index as int + 1));
                assert(s.skip(4) =~= Seq::<T>::empty());
            }
        }
        if self.index == 0 {
            self.index = 1;
            Some(self.v.0)
        } else if self.index == 1 {
            self.index = 2;
            Some(self.v.1)
        } else if self.index == 2 {
            self.index = 3;
            Some(self.v.2)
        } else if self.index == 3 {
            self.index = 4;
            Some(self.v.3)
        } else {
            None
        }
    }
}

impl<T: Add<Output = T>> Add for Vec4<T> {
    type Output = Vec4<T>;

    /// Component-wise sum.
    fn add(self, rhs: Vec4<T>) -> (r: Vec4<T>)
        ensures
            T::obeys_add_spec() ==> r == Vec4(
                self.0.add_spec(rhs.0),
                self.1.add_spec(rhs.1),
                self.2.add_spec(rhs.2),
                self.3.add_spec(rhs.3),
            ),
    {
        Vec4(self.0 + rhs.0, self.1 + rhs.1, self.2 + rhs.2, self.3 + rhs.3)
    }
}

impl<T: Add<Output = T>> vstd::std_specs::ops::AddSpecImpl for Vec4<T> {
    open spec fn obeys_add_spec() -> bool {
        T::obeys_add_spec()
    }

    open spec fn add_req(self, rhs: Vec4<T>) -> bool {
        &&& self.0.add_req(rhs.0)
        &&& self.1.add_req(rhs.1)
        &&& self.2.add_req(rhs.2)
        &&& self.3.add_req(rhs.3)
    }

    open spec fn add_spec(self, rhs: Vec4<T>) -> Vec4<T> {
        Vec4(
            self.0.add_spec(rhs.0),
            self.1.add_spec(rhs.1),
            self.2.add_spec(rhs.2),
            self.3.add_spec(rhs.3),
        )
    }
}

impl<T: Add<Output = T> + Copy> Vec4<T> {
    /// Applies `+ rhs` to every component.
    pub fn add_scalar(self, rhs: T) -> (r: Vec4<T>)
        requires
            self.0.add_req(rhs),
            self.1.add_req(rhs),
            self.2.add_req(rhs),
            self.3.add_req(rhs),
        ensures
            T::obeys_add_spec() ==> r == Vec4(
                self.0.add_spec(rhs),
                self.1.add_spec(rhs),
                self.2.add_spec(rhs),
                self.3.add_spec(rhs),
            ),
    {
        Vec4(self.0 + rhs, self.1 + rhs, self.2 + rhs, self.3 + rhs)
    }
}

impl<T: Sub<Output = T>> Sub for Vec4<T> {
    type Output = Vec4<T>;

    /// Component-wise difference.
    fn sub(self, rhs: Vec4<T>) -> (r: Vec4<T>)
        ensures
            T::obeys_sub_spec() ==> r == Vec4(
                self.0.sub_spec(rhs.0),
                self.1.sub_spec(rhs.1),
                self.2.sub_spec(rhs.2),
                self.3.sub_spec(rhs.3),
            ),
    {
        Vec4(self.0 - rhs.0, self.1 - rhs.1, self.2 - rhs.2, self.3 - rhs.3)
    }
}

impl<T: Sub<Output = T>> vstd::std_specs::ops::SubSpecImpl for Vec4<T> {
    open spec fn obeys_sub_spec() -> bool {
        T::obeys_sub_spec()
    }

    open spec fn sub_req(self, rhs: Vec4<T>) -> bool {
        &&& self.0.sub_req(rhs.0)
        &&& self.1.sub_req(rhs.1)
        &&& self.2.sub_req(rhs.2)
        &&& self.3.sub_req(rhs.3)
    }

    open spec fn sub_spec(self, rhs: Vec4<T>) -> Vec4<T> {
        Vec4(
            self.0.sub_spec(rhs.0),
            self.1.sub_spec(rhs.1),
            self.2.sub_spec(rhs.2),
            self.3.sub_spec(rhs.3),
        )
    }
}

impl<T: Sub<Output = T> + Copy> Vec4<T> {
    /// Applies `- rhs` to every component.
    pub fn sub_scalar(self, rhs: T) -> (r: Vec4<T>)
        requires
            self.0.sub_req(rhs),
            self.1.sub_req(rhs),
            self.2.sub_req(rhs),
            self.3.sub_req(rhs),
        ensures
            T::obeys_sub_spec() ==> r == Vec4(
                self.0.sub_spec(rhs),
                self.1.sub_spec(rhs),
                self.2.sub_spec(rhs),
                self.3.sub_spec(rhs),
            ),
    {
        Vec4(self.0 - rhs, self.1 - rhs, self.2 - rhs, self.3 - rhs)
    }
}

impl<T: Mul<Output = T>> Mul for Vec4<T> {
    type Output = Vec4<T>;

    /// Component-wise product.
    fn mul(self, rhs: Vec4<T>) -> (r: Vec4<T>)
        ensures
            T::obeys_mul_spec() ==> r == Vec4(
                self.0.mul_spec(rhs.0),
                self.1.mul_spec(rhs.1),
                self.2.mul_spec(rhs.2),
                self.3.mul_spec(rhs.3),
            ),
    {
        Vec4(self.0 * rhs.0, self.1 * rhs.1, self.2 * rhs.2, self.3 * rhs.3)
    }
}

impl<T: Mul<Output = T>> vstd::std_specs::ops::MulSpecImpl for Vec4<T> {
    open spec fn obeys_mul_spec() -> bool {
        T::obeys_mul_spec()
    }

    open spec fn mul_req(self, rhs: Vec4<T>) -> bool {
        &&& self.0.mul_req(rhs.0)
        &&& self.1.mul_req(rhs.1)
        &&& self.2.mul_req(rhs.2)
        &&& self.3.mul_req(rhs.3)
    }

    open spec fn mul_spec(self, rhs: Vec4<T>) -> Vec4<T> {
        Vec4(
            self.0.mul_spec(rhs.0),
            self.1.mul_spec(rhs.1),
            self.2.mul_spec(rhs.2),
            self.3.mul_spec(rhs.3),
        )
    }
}

impl<T: Mul<Output = T> + Copy> Vec4<T> {
    /// Applies `* rhs` to every component.
    pub fn mul_scalar(self, rhs: T) -> (r: Vec4<T>)
        requires
            self.0.mul_req(rhs),
            self.1.mul_req(rhs),
            self.2.mul_req(rhs),
            self.3.mul_req(rhs),
        ensures
            T::obeys_mul_spec() ==> r == Vec4(
                self.0.mul_spec(rhs),
                self.1.mul_spec(rhs),
                self.2.mul_spec(rhs),
                self.3.mul_spec(rhs),
            ),
    {
        Vec4(self.0 * rhs, self.1 * rhs, self.2 * rhs, self.3 * rhs)
    }
}

impl<T: Div<Output = T>> Div for Vec4<T> {
    type Output = Vec4<T>;

    /// Component-wise quotient.
    fn div(self, rhs: Vec4<T>) -> (r: Vec4<T>)
        ensures
            T::obeys_div_spec() ==> r == Vec4(
                self.0.div_spec(rhs.0),
                self.1.div_spec(rhs.1),
                self.2.div_spec(rhs.2),
                self.3.div_spec(rhs.3),
            ),
    {
        Vec4(self.0 / rhs.0, self.1 / rhs.1, self.2 / rhs.2, self.3 / rhs.3)
    }
}

impl<T: Div<Output = T>> vstd::std_specs::ops::DivSpecImpl for Vec4<T> {
    open spec fn obeys_div_spec() -> bool {
        T::obeys_div_spec()
    }

    open spec fn div_req(self, rhs: Vec4<T>) -> bool {
        &&& self.0.div_req(rhs.0)
        &&& self.1.div_req(rhs.1)
        &&& self.2.div_req(rhs.2)
        &&& self.3.div_req(rhs.3)
    }

    open spec fn div_spec(self, rhs: Vec4<T>) -> Vec4<T> {
        Vec4(
            self.0.div_spec(rhs.0),
            self.1.div_spec(rhs.1),
            self.2.div_spec(rhs.2),
            self.3.div_spec(rhs.3),
        )
    }
}

impl<T: Div<Output = T> + Copy> Vec4<T> {
    /// Applies `/ rhs` to every component.
    pub fn div_scalar(self, rhs: T) -> (r: Vec4<T>)
        requires
            self.0.div_req(rhs),
            self.1.div_req(rhs),
            self.2.div_req(rhs),
            self.3.div_req(rhs),
        ensures
            T::obeys_div_spec() ==> r == Vec4(
                self.0.div_spec(rhs),
                self.1.div_spec(rhs),
                self.2.div_spec(rhs),
                self.3.div_spec(rhs),
            ),
    {
        Vec4(self.0 / rhs, self.1 / rhs, self.2 / rhs, self.3 / rhs)
    }
}

impl<T: Neg<Output = T>> Neg for Vec4<T> {
    type Output = Vec4<T>;

    /// Component-wise negation.
    fn neg(self) -> (r: Vec4<T>)
        ensures
            T::obeys_neg_spec() ==> r == Vec4(
                self.0.neg_spec(),
                self.1.neg_spec(),
                self.2.neg_spec(),
                self.3.neg_spec(),
            ),
    {
        Vec4(self.0.neg(), self.1.neg(), self.2.neg(), self.3.neg())
    }
}

impl<T: Neg<Output = T>> vstd::std_specs::ops::NegSpecImpl for Vec4<T> {
    open spec fn obeys_neg_spec() -> bool {
        T::obeys_neg_spec()
    }

    open spec fn neg_req(self) -> bool {
        &&& self.0.neg_req()
        &&& self.1.neg_req()
        &&& self.2.neg_req()
        &&& self.3.neg_req()
    }

    open spec fn neg_spec(self) -> Vec4<T> {
        Vec4(self.0.neg_spec(), self.1.neg_spec(), self.2.neg_spec(), self.3.neg_spec())
    }
}

impl<T: Clamp<Elem = T> + Copy> Clamp for Vec4<T> {
    type Elem = T;

    open spec fn spec_clamp(self, min: T, max: T) -> Vec4<T> {
        Vec4(
            self.0.spec_clamp(min, max),
            self.1.spec_clamp(min, max),
            self.2.spec_clamp(min, max),
            self.3.spec_clamp(min, max),
        )
    }

    /// Clamps every component to `[min, max]`.
    fn clamp(self, min: T, max: T) -> (r: Vec4<T>) {
        Vec4(
            self.0.clamp(min, max),
            self.1.clamp(min, max),
            self.2.clamp(min, max),
            self.3.clamp(min, max),
        )
    }
}

impl<T> AsRef<Vec4<T>> for Vec4<T> {
    fn as_ref(&self) -> (r: &Vec4<T>)
        ensures
            r == self,
    {
        self
    }
}

impl<T: PartialOrd> Vec4<T> {
    /// Tells whether some component of `self` is less than the same component
    /// of `other`.
    pub fn any_less(&self, other: Vec4<T>) -> (r: bool)
        ensures
            T::obeys_partial_cmp_spec() ==> r == (self.0.is_lt(&other.0)
                || self.1.is_lt(&other.1) || self.2.is_lt(&other.2) || self.3.is_lt(&other.3)),
    {
        self.0 < other.0 || self.1 < other.1 || self.2 < other.2 || self.3 < other.3
    }

    /// Tells whether some component of `self` is greater than the same
    /// component of `other`.
    pub fn any_greater(&self, other: Vec4<T>) -> (r: bool)
        ensures
            T::obeys_partial_cmp_spec() ==> r == (self.0.is_gt(&other.0)
                || self.1.is_gt(&other.1) || self.2.is_gt(&other.2) || self.3.is_gt(&other.3)),
    {
        self.0 > other.0 || self.1 > other.1 || self.2 > other.2 || self.3 > other.3
    }
}

impl<T: PartialEq> Vec4<T> {
    /// Every component equals the same component of `rhs`.
    pub open spec fn spec_eq(&self, rhs: &Vec4<T>) -> bool {
        &&& self.0.eq_spec(&rhs.0)
        &&& self.1.eq_spec(&rhs.1)
        &&& self.2.eq_spec(&rhs.2)
        &&& self.3.eq_spec(&rhs.3)
    }
}

impl<T: PartialEq> PartialEq for Vec4<T> {
    /// Exact component-wise equality; no tolerance is applied.
    fn eq(&self, rhs: &Vec4<T>) -> (r: bool)
        ensures
            T::obeys_eq_spec() ==> r == self.spec_eq(rhs),
    {
        self.0 == rhs.0 && self.1 == rhs.1 && self.2 == rhs.2 && self.3 == rhs.3
    }
}

impl<T: PartialEq> vstd::std_specs::cmp::PartialEqSpecImpl for Vec4<T> {
    open spec fn obeys_eq_spec() -> bool {
        T::obeys_eq_spec()
    }

    open spec fn eq_spec(&self, rhs: &Vec4<T>) -> bool {
        self.spec_eq(rhs)
    }
}

impl<T: PartialOrd> PartialOrd for Vec4<T> {
    /// The partial order of vectors: `Less` where every component is less,
    /// `Greater` where every component is greater, `Equal` where all are equal,
    /// and unordered otherwise.
    fn partial_cmp(&self, other: &Vec4<T>) -> (r: Option<Ordering>)
        ensures
            T::obeys_partial_cmp_spec() && T::obeys_eq_spec() ==> r == self.spec_partial_cmp(other),
    {
        if self.0 < other.0 && self.1 < other.1 && self.2 < other.2 && self.3 < other.3 {
            Some(Ordering::Less)
        } else if self.0 > other.0 && self.1 > other.1 && self.2 > other.2 && self.3 > other.3 {
            Some(Ordering::Greater)
        } else if self.eq(other) {
            Some(Ordering::Equal)
        } else {
            None
        }
    }
}

impl<T: PartialOrd> vstd::std_specs::cmp::PartialOrdSpecImpl for Vec4<T> {
    open spec fn obeys_partial_cmp_spec() -> bool {
        T::obeys_partial_cmp_spec() && T::obeys_eq_spec()
    }

    open spec fn partial_cmp_spec(&self, other: &Vec4<T>) -> Option<Ordering> {
        self.spec_partial_cmp(other)
    }
}

impl<T: PartialOrd> Vec4<T> {
    /// `Less` where every component is less, `Greater` where every component
    /// is greater, `Equal` where every component is equal, `None` otherwise.
    pub open spec fn spec_partial_cmp(&self, other: &Vec4<T>) -> Option<Ordering> {
        if self.0.is_lt(&other.0) && self.1.is_lt(&other.1) && self.2.is_lt(&other.2)
            && self.3.is_lt(&other.3) {
            Some(Ordering::Less)
        } else if self.0.is_gt(&other.0) && self.1.is_gt(&other.1) && self.2.is_gt(&other.2)
            && self.3.is_gt(&other.3) {
            Some(Ordering::Greater)
        } else if self.spec_eq(other) {
            Some(Ordering::Equal)
        } else {
            None
        }
    }
}

impl<T: PartialOrd> Vec4<T> {
    /// Returns the component-wise lesser of `self` and `other`.
    pub fn min(self, other: Vec4<T>) -> (r: Vec4<T>)
        ensures
            r.0 == self.0 || r.0 == other.0,
            r.1 == self.1 || r.1 == other.1,
            r.2 == self.2 || r.2 == other.2,
            r.3 == self.3 || r.3 == other.3,
            T::obeys_partial_cmp_spec() ==> r == Vec4(
                lesser(self.0, other.0),
                lesser(self.1, other.1),
                lesser(self.2, other.2),
                lesser(self.3, other.3),
            ),
    {
        let c0 = if self.0 < other.0 {
            self.0
        } else {
            other.0
        };
        let c1 = if self.1 < other.1 {
            self.1
        } else {
            other.1
        };
        let c2 = if self.2 < other.2 {
            self.2
        } else {
            other.2
        };
        let c3 = if self.3 < other.3 {
            self.3
        } else {
            other.3
        };
        Vec4(c0, c1, c2, c3)
    }

    /// Returns the component-wise greater of `self` and `other`.
    pub fn max(self, other: Vec4<T>) -> (r: Vec4<T>)
        ensures
            r.0 == self.0 || r.0 == other.0,
            r.1 == self.1 || r.1 == other.1,
            r.2 == self.2 || r.2 == other.2,
            r.3 == self.3 || r.3 == other.3,
            T::obeys_partial_cmp_spec() ==> r == Vec4(
                greater(self.0, other.0),
                greater(self.1, other.1),
                greater(self.2, other.2),
                greater(self.3, other.3),
            ),
    {
        let c0 = if self.0 > other.0 {
            self.0
        } else {
            other.0
        };
        let c1 = if self.1 > other.1 {
            self.1
        } else {
            other.1
        };
        let c2 = if self.2 > other.2 {
            self.2
        } else {
            other.2
        };
        let c3 = if self.3 > other.3 {
            self.3
        } else {
            other.3
        };
        Vec4(c0, c1, c2, c3)
    }
}

impl<T: Zero> Zero for Vec4<T> {
    open spec fn spec_zero() -> Vec4<T> {
        Vec4(T::spec_zero(), T::spec_zero(), T::spec_zero(), T::spec_zero())
    }

    /// The vector whose every component is zero.
    fn zero() -> (r: Vec4<T>) {
        Vec4(T::zero(), T::zero(), T::zero(), T::zero())
    }

    /// Tells whether every component is zero.
    fn is_zero(&self) -> (r: bool) {
        self.0.is_zero() && self.1.is_zero() && self.2.is_zero() && self.3.is_zero()
    }
}

impl<T: One> One for Vec4<T> {
    open spec fn spec_one() -> Vec4<T> {
        Vec4(T::spec_one(), T::spec_one(), T::spec_one(), T::spec_one())
    }

    /// The vector whose every component is one.
    fn one() -> (r: Vec4<T>) {
        Vec4(T::one(), T::one(), T::one(), T::one())
    }
}

impl<T: Add<Output = T> + Mul<Output = T> + Copy> Vec4<T> {
    /// The dot product can be computed: the scalar's arithmetic follows its
    /// specification and no product or partial sum overflows.
    pub open spec fn dot_req(self, b: Vec4<T>) -> bool {
        let p0 = self.0.mul_spec(b.0);
        let p1 = self.1.mul_spec(b.1);
        let p2 = self.2.mul_spec(b.2);
        let p3 = self.3.mul_spec(b.3);
        &&& T::obeys_add_spec()
        &&& T::obeys_mul_spec()
        &&& self.0.mul_req(b.0)
        &&& self.1.mul_req(b.1)
        &&& self.2.mul_req(b.2)
        &&& self.3.mul_req(b.3)
        &&& p0.add_req(p1)
        &&& p0.add_spec(p1).add_req(p2)
        &&& p0.add_spec(p1).add_spec(p2).add_req(p3)
    }

    /// The sum of the component-wise products, added left to right.
    pub open spec fn spec_dot(self, b: Vec4<T>) -> T {
        let p0 = self.0.mul_spec(b.0);
        let p1 = self.1.mul_spec(b.1);
        let p2 = self.2.mul_spec(b.2);
        let p3 = self.3.mul_spec(b.3);
        p0.add_spec(p1).add_spec(p2).add_spec(p3)
    }

    /// Returns the dot product of `self` and `b`.
    pub fn dot(self, b: Vec4<T>) -> (r: T)
        requires
            self.dot_req(b),
        ensures
            r == self.spec_dot(b),
    {
        self.0 * b.0 + self.1 * b.1 + self.2 * b.2 + self.3 * b.3
    }

    /// Returns the squared magnitude, the dot product of the vector with itself.
    pub fn length_sq(self) -> (r: T)
        requires
            self.dot_req(self),
        ensures
            r == self.spec_dot(self),
    {
        self.dot(self)
    }
}

impl<T: Add<Output = T> + Mul<Output = T> + Div<Output = T> + Copy> Vec4<T> {
    /// The factor by which `onto` is scaled in the projection of `self` onto it.
    pub open spec fn project_factor(self, onto: Vec4<T>) -> T {
        self.spec_dot(onto).div_spec(onto.spec_dot(onto))
    }

    /// The projection can be computed: both dot products can, the division is
    /// defined (so `onto` is not the zero vector of an integer type), and
    /// scaling `onto` does not overflow.
    pub open spec fn project_req(self, onto: Vec4<T>) -> bool {
        &&& self.dot_req(onto)
        &&& onto.dot_req(onto)
        &&& T::obeys_div_spec()
        &&& self.spec_dot(onto).div_req(onto.spec_dot(onto))
        &&& onto.0.mul_req(self.project_factor(onto))
        &&& onto.1.mul_req(self.project_factor(onto))
        &&& onto.2.mul_req(self.project_factor(onto))
        &&& onto.3.mul_req(self.project_factor(onto))
    }

    /// `onto` scaled by `dot(self, onto) / length_sq(onto)`.
    pub open spec fn spec_project(self, onto: Vec4<T>) -> Vec4<T> {
        Vec4(
            onto.0.mul_spec(self.project_factor(onto)),
            onto.1.mul_spec(self.project_factor(onto)),
            onto.2.mul_spec(self.project_factor(onto)),
            onto.3.mul_spec(self.project_factor(onto)),
        )
    }

    /// Returns the projection of `self` onto `other`.
    pub fn project(self, other: Vec4<T>) -> (r: Vec4<T>)
        requires
            self.project_req(other),
        ensures
            r == self.spec_project(other),
    {
        other.mul_scalar(self.dot(other) / other.length_sq())
    }
}

impl<T: One + Add<Output = T> + Sub<Output = T> + Mul<Output = T> + Copy> Vec4<T> {
    /// Returns the component-wise linear interpolation `(1 - t) * self + t * other`.
    pub fn lerp(self, other: Vec4<T>, t: T) -> (r: Vec4<T>)
        requires
            lerp_req(self.0, other.0, t),
            lerp_req(self.1, other.1, t),
            lerp_req(self.2, other.2, t),
            lerp_req(self.3, other.3, t),
        ensures
            r == Vec4(
                spec_lerp(self.0, other.0, t),
                spec_lerp(self.1, other.1, t),
                spec_lerp(self.2, other.2, t),
                spec_lerp(self.3, other.3, t),
            ),
    {
        Vec4(
            lerp(self.0, other.0, t),
            lerp(self.1, other.1, t),
            lerp(self.2, other.2, t),
            lerp(self.3, other.3, t),
        )
    }
}

} // verus!
