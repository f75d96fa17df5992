use std::cmp::Ordering;
use std::ops::{Add, Div, Mul, Neg, Sub};
use vstd::prelude::*;
use vstd::std_specs::cmp::{PartialEqSpec, PartialOrdIs, PartialOrdSpec};
use vstd::std_specs::ops::{AddSpec, DivSpec, MulSpec, NegSpec, SubSpec};

use crate::clamp::Clamp;
use crate::scalar::{greater, lerp, lerp_req, lesser, spec_lerp, One, Zero};

verus! {

/// A vector of three components (x, y, z) over the scalar type `T`.
///
/// Every operation returns a new vector; none changes one in place.
#[derive(Copy, Clone, Debug)]
pub struct Vec3<T>(pub T, pub T, pub T);

/// Yields the components of a `Vec3` in the order x, y, z.
pub struct Vec3Iterator<T> {
    v: Vec3<T>,
    index: usize,
}

impl<T> Vec3<T> {
    /// The components in order.
    pub open spec fn components(self) -> Seq<T> {
        seq![self.0, self.1, self.2]
    }
}

impl<T: Copy> Vec3<T> {
    /// Returns an iterator over the components in order. The vector is copied,
    /// so iterating again yields the same components.
    pub fn into_iter(self) -> (r: Vec3Iterator<T>)
        ensures
            r.remaining() == self.components(),
    {
        Vec3Iterator { v: self, index: 0 }
    }
}

impl<T> Vec3Iterator<T> {
    /// The components not yet yielded, in order.
    pub closed spec fn remaining(&self) -> Seq<T> {
        if self.index < 3 {
            self.v.components().skip(self.index as int)
        } else {
            Seq::empty()
        }
    }
}

impl<T: Copy> Vec3Iterator<T> {
    /// Yields the next component, or `None` once all three have been yielded.
    pub fn next(&mut self) -> (r: Option<T>)
        ensures
            old(self).remaining().len() == 0 ==> {
                &&& r is None
                &&& final(self).remaining() == old(self).remaining()
            },
            old(self).remaining().len() > 0 ==> {
                &&& r == Some(old(self).remaining()[0])
                &&& final(self).remaining() == old(self).remaining().drop_first()
            },
    {
        proof {
            if self.index < 3 {
                let s = self.v.components();
                assert(s.skip(self.index as int).drop_first() =~= s.skip(self.index as int + 1));
                assert(s.skip(3) =~= Seq::<T>::empty());
            }
        }
        if self.index == 0 {
            self.index = 1;
            Some(self.v.0)
        } else if self.index == 1 {
            self.index = 2;
            Some(self.v.1)
        } else if self.index == 2 {
            self.index = 3;
            Some(self.v.2)
        } else {
            None
        }
    }
}

impl<T: Add<Output = T>> Add for Vec3<T> {
    type Output = Vec3<T>;

    /// Component-wise sum.
    fn add(self, rhs: Vec3<T>) -> (r: Vec3<T>)
        ensures
            T::obeys_add_spec() ==> r == Vec3(
                self.0.add_spec(rhs.0),
                self.1.add_spec(rhs.1),
                self.2.add_spec(rhs.2),
            ),
    {
        Vec3(self.0 + rhs.0, self.1 + rhs.1, self.2 + rhs.2)
    }
}

impl<T: Add<Output = T>> vstd::std_specs::ops::AddSpecImpl for Vec3<T> {
    open spec fn obeys_add_spec() -> bool {
        T::obeys_add_spec()
    }

    open spec fn add_req(self, rhs: Vec3<T>) -> bool {
        &&& self.0.add_req(rhs.0)
        &&& self.1.add_req(rhs.1)
        &&& self.2.add_req(rhs.2)
    }

    open spec fn add_spec(self, rhs: Vec3<T>) -> Vec3<T> {
        Vec3(self.0.add_spec(rhs.0), self.1.add_spec(rhs.1), self.2.add_spec(rhs.2))
    }
}

impl<T: Add<Output = T> + Copy> Vec3<T> {
    /// Applies `+ rhs` to every component.
    pub fn add_scalar(self, rhs: T) -> (r: Vec3<T>)
        requires
            self.0.add_req(rhs),
            self.1.add_req(rhs),
            self.2.add_req(rhs),
        ensures
            T::obeys_add_spec() ==> r == Vec3(
                self.0.add_spec(rhs),
                self.1.add_spec(rhs),
                self.2.add_spec(rhs),
            ),
    {
        Vec3(self.0 + rhs, self.1 + rhs, self.2 + rhs)
    }
}

impl<T: Sub<Output = T>> Sub for Vec3<T> {
    type Output = Vec3<T>;

    /// Component-wise difference.
    fn sub(self, rhs: Vec3<T>) -> (r: Vec3<T>)
        ensures
            T::obeys_sub_spec() ==> r == Vec3(
                self.0.sub_spec(rhs.0),
                self.1.sub_spec(rhs.1),
                self.2.sub_spec(rhs.2),
            ),
    {
        Vec3(self.0 - rhs.0, self.1 - rhs.1, self.2 - rhs.2)
    }
}

impl<T: Sub<Output = T>> vstd::std_specs::ops::SubSpecImpl for Vec3<T> {
    open spec fn obeys_sub_spec() -> bool {
        T::obeys_sub_spec()
    }

    open spec fn sub_req(self, rhs: Vec3<T>) -> bool {
        &&& self.0.sub_req(rhs.0)
        &&& self.1.sub_req(rhs.1)
        &&& self.2.sub_req(rhs.2)
    }

    open spec fn sub_spec(self, rhs: Vec3<T>) -> Vec3<T> {
        Vec3(self.0.sub_spec(rhs.0), self.1.sub_spec(rhs.1), self.2.sub_spec(rhs.2))
    }
}

impl<T: Sub<Output = T> + Copy> Vec3<T> {
    /// Applies `- rhs` to every component.
    pub fn sub_scalar(self, rhs: T) -> (r: Vec3<T>)
        requires
            self.0.sub_req(rhs),
            self.1.sub_req(rhs),
            self.2.sub_req(rhs),
        ensures
            T::obeys_sub_spec() ==> r == Vec3(
                self.0.sub_spec(rhs),
                self.1.sub_spec(rhs),
                self.2.sub_spec(rhs),
            ),
    {
        Vec3(self.0 - rhs, self.1 - rhs, self.2 - rhs)
    }
}

impl<T: Mul<Output = T>> Mul for Vec3<T> {
    type Output = Vec3<T>;

    /// Component-wise product.
    fn mul(self, rhs: Vec3<T>) -> (r: Vec3<T>)
        ensures
            T::obeys_mul_spec() ==> r == Vec3(
                self.0.mul_spec(rhs.0),
                self.1.mul_spec(rhs.1),
                self.2.mul_spec(rhs.2),
            ),
    {
        Vec3(self.0 * rhs.0, self.1 * rhs.1, self.2 * rhs.2)
    }
}

impl<T: Mul<Output = T>> vstd::std_specs::ops::MulSpecImpl for Vec3<T> {
    open spec fn obeys_mul_spec() -> bool {
        T::obeys_mul_spec()
    }

    open spec fn mul_req(self, rhs: Vec3<T>) -> bool {
        &&& self.0.mul_req(rhs.0)
        &&& self.1.mul_req(rhs.1)
        &&& self.2.mul_req(rhs.2)
    }

    open spec fn mul_spec(self, rhs: Vec3<T>) -> Vec3<T> {
        Vec3(self.0.mul_spec(rhs.0), self.1.mul_spec(rhs.1), self.2.mul_spec(rhs.2))
    }
}

impl<T: Mul<Output = T> + Copy> Vec3<T> {
    /// Applies `* rhs` to every component.
    pub fn mul_scalar(self, rhs: T) -> (r: Vec3<T>)
        requires
            self.0.mul_req(rhs),
            self.1.mul_req(rhs),
            self.2.mul_req(rhs),
        ensures
            T::obeys_mul_spec() ==> r == Vec3(
                self.0.mul_spec(rhs),
                self.1.mul_spec(rhs),
                self.2.mul_spec(rhs),
            ),
    {
        Vec3(self.0 * rhs, self.1 * rhs, self.2 * rhs)
    }
}

impl<T: Div<Output = T>> Div for Vec3<T> {
    type Output = Vec3<T>;

    /// Component-wise quotient.
    fn div(self, rhs: Vec3<T>) -> (r: Vec3<T>)
        ensures
            T::obeys_div_spec() ==> r == Vec3(
                self.0.div_spec(rhs.0),
                self.1.div_spec(rhs.1),
                self.2.div_spec(rhs.2),
            ),
    {
        Vec3(self.0 / rhs.0, self.1 / rhs.1, self.2 / rhs.2)
    }
}

impl<T: Div<Output = T>> vstd::std_specs::ops::DivSpecImpl for Vec3<T> {
    open spec fn obeys_div_spec() -> bool {
        T::obeys_div_spec()
    }

    open spec fn div_req(self, rhs: Vec3<T>) -> bool {
        &&& self.0.div_req(rhs.0)
        &&& self.1.div_req(rhs.1)
        &&& self.2.div_req(rhs.2)
    }

    open spec fn div_spec(self, rhs: Vec3<T>) -> Vec3<T> {
        Vec3(self.0.div_spec(rhs.0), self.1.div_spec(rhs.1), self.2.div_spec(rhs.2))
    }
}

impl<T: Div<Output = T> + Copy> Vec3<T> {
    /// Applies `/ rhs` to every component.
    pub fn div_scalar(self, rhs: T) -> (r: Vec3<T>)
        requires
            self.0.div_req(rhs),
            self.1.div_req(rhs),
            self.2.div_req(rhs),
        ensures
            T::obeys_div_spec() ==> r == Vec3(
                self.0.div_spec(rhs),
                self.1.div_spec(rhs),
                self.2.div_spec(rhs),
            ),
    {
        Vec3(self.0 / rhs, self.1 / rhs, self.2 / rhs)
    }
}

impl<T: Neg<Output = T>> Neg for Vec3<T> {
    type Output = Vec3<T>;

    /// Component-wise negation.
    fn neg(self) -> (r: Vec3<T>)
        ensures
            T::obeys_neg_spec() ==> r == Vec3(
                self.0.neg_spec(),
                self.1.neg_spec(),
                self.2.neg_spec(),
            ),
    {
        Vec3(self.0.neg(), self.1.neg(), self.2.neg())
    }
}

impl<T: Neg<Output = T>> vstd::std_specs::ops::NegSpecImpl for Vec3<T> {
    open spec fn obeys_neg_spec() -> bool {
        T::obeys_neg_spec()
    }

    open spec fn neg_req(self) -> bool {
        &&& self.0.neg_req()
        &&& self.1.neg_req()
        &&& self.2.neg_req()
    }

    open spec fn neg_spec(self) -> Vec3<T> {
        Vec3(self.0.neg_spec(), self.1.neg_spec(), self.2.neg_spec())
    }
}

impl<T: Clamp<Elem = T> + Copy> Clamp for Vec3<T> {
    type Elem = T;

    open spec fn spec_clamp(self, min: T, max: T) -> Vec3<T> {
        Vec3(
            self.0.spec_clamp(min, max),
            self.1.spec_clamp(min, max),
            self.2.spec_clamp(min, max),
        )
    }

    /// Clamps every component to `[min, max]`.
    fn clamp(self, min: T, max: T) -> (r: Vec3<T>) {
        Vec3(self.0.clamp(min, max), self.1.clamp(min, max), self.2.clamp(min, max))
    }
}

impl<T> AsRef<Vec3<T>> for Vec3<T> {
    fn as_ref(&self) -> (r: &Vec3<T>)
        ensures
            r == self,
    {
        self
    }
}

impl<T: PartialOrd> Vec3<T> {
    /// Tells whether some component of `self` is less than the same component
    /// of `other`.
    pub fn any_less(&self, other: Vec3<T>) -> (r: bool)
        ensures
            T::obeys_partial_cmp_spec() ==> r == (self.0.is_lt(&other.0)
                || self.1.is_lt(&other.1) || self.2.is_lt(&other.2)),
    {
        self.0 < other.0 || self.1 < other.1 || self.2 < other.2
    }

    /// Tells whether some component of `self` is greater than the same
    /// component of `other`.
    pub fn any_greater(&self, other: Vec3<T>) -> (r: bool)
        ensures
            T::obeys_partial_cmp_spec() ==> r == (self.0.is_gt(&other.0)
                || self.1.is_gt(&other.1) || self.2.is_gt(&other.2)),
    {
        self.0 > other.0 || self.1 > other.1 || self.2 > other.2
    }
}

impl<T: PartialEq> Vec3<T> {
    /// Every component equals the same component of `rhs`.
    pub open spec fn spec_eq(&self, rhs: &Vec3<T>) -> bool {
        &&& self.0.eq_spec(&rhs.0)
        &&& self.1.eq_spec(&rhs.1)
        &&& self.2.eq_spec(&rhs.2)
    }
}

impl<T: PartialEq> PartialEq for Vec3<T> {
    /// Exact component-wise equality; no tolerance is applied.
    fn eq(&self, rhs: &Vec3<T>) -> (r: bool)
        ensures
            T::obeys_eq_spec() ==> r == self.spec_eq(rhs),
    {
        self.0 == rhs.0 && self.1 == rhs.1 && self.2 == rhs.2
    }
}

impl<T: PartialEq> vstd::std_specs::cmp::PartialEqSpecImpl for Vec3<T> {
    open spec fn obeys_eq_spec() -> bool {
        T::obeys_eq_spec()
    }

    open spec fn eq_spec(&self, rhs: &Vec3<T>) -> bool {
        self.spec_eq(rhs)
    }
}

impl<T: PartialOrd> PartialOrd for Vec3<T> {
    /// The partial order of vectors: `Less` where every component is less,
    /// `Greater` where every component is greater, `Equal` where all are equal,
    /// and unordered otherwise.
    fn partial_cmp(&self, other: &Vec3<T>) -> (r: Option<Ordering>)
        ensures
            T::obeys_partial_cmp_spec() && T::obeys_eq_spec() ==> r == self.spec_partial_cmp(other),
    {
        if self.0 < other.0 && self.1 < other.1 && self.2 < other.2 {
            Some(Ordering::Less)
        } else if self.0 > other.0 && self.1 > other.1 && self.2 > other.2 {
            Some(Ordering::Greater)
        } else if self.eq(other) {
            Some(Ordering::Equal)
        } else {
            None
        }
    }
}

impl<T: PartialOrd> vstd::std_specs::cmp::PartialOrdSpecImpl for Vec3<T> {
    open spec fn obeys_partial_cmp_spec() -> bool {
        T::obeys_partial_cmp_spec() && T::obeys_eq_spec()
    }

    open spec fn partial_cmp_spec(&self, other: &Vec3<T>) -> Option<Ordering> {
        self.spec_partial_cmp(other)
    }
}

impl<T: PartialOrd> Vec3<T> {
    /// `Less` where every component is less, `Greater` where every component
    /// is greater, `Equal` where every component is equal, `None` otherwise.
    pub open spec fn spec_partial_cmp(&self, other: &Vec3<T>) -> Option<Ordering> {
        if self.0.is_lt(&other.0) && self.1.is_lt(&other.1) && self.2.is_lt(&other.2) {
            Some(Ordering::Less)
        } else if self.0.is_gt(&other.0) && self.1.is_gt(&other.1) && self.2.is_gt(&other.2) {
            Some(Ordering::Greater)
        } else if self.spec_eq(other) {
            Some(Ordering::Equal)
        } else {
            None
        }
    }
}

impl<T: PartialOrd> Vec3<T> {
    /// Returns the component-wise lesser of `self` and `other`.
    pub fn min(self, other: Vec3<T>) -> (r: Vec3<T>)
        ensures
            r.0 == self.0 || r.0 == other.0,
            r.1 == self.1 || r.1 == other.1,
            r.2 == self.2 || r.2 == other.2,
            T::obeys_partial_cmp_spec() ==> r == Vec3(
                lesser(self.0, other.0),
                lesser(self.1, other.1),
                lesser(self.2, other.2),
            ),
    {
        let c0 = if self.0 < other.0 {
            self.0
        } else {
            other.0
        };
        let c1 = if self.1 < other.1 {
            self.1
        } else {
            other.1
        };
        let c2 = if self.2 < other.2 {
            self.2
        } else {
            other.2
        };
        Vec3(c0, c1, c2)
    }

    /// Returns the component-wise greater of `self` and `other`.
    pub fn max(self, other: Vec3<T>) -> (r: Vec3<T>)
        ensures
            r.0 == self.0 || r.0 == other.0,
            r.1 == self.1 || r.1 == other.1,
            r.2 == self.2 || r.2 == other.2,
            T::obeys_partial_cmp_spec() ==> r == Vec3(
                greater(self.0, other.0),
                greater(self.1, other.1),
                greater(self.2, other.2),
            ),
    {
        let c0 = if self.0 > other.0 {
            self.0
        } else {
            other.0
        };
        let c1 = if self.1 > other.1 {
            self.1
        } else {
            other.1
        };
        let c2 = if self.2 > other.2 {
            self.2
        } else {
            other.2
        };
        Vec3(c0, c1, c2)
    }
}

impl<T: Zero> Zero for Vec3<T> {
    open spec fn spec_zero() -> Vec3<T> {
        Vec3(T::spec_zero(), T::spec_zero(), T::spec_zero())
    }

    /// The vector whose every component is zero.
    fn zero() -> (r: Vec3<T>) {
        Vec3(T::zero(), T::zero(), T::zero())
    }

    /// Tells whether every component is zero.
    fn is_zero(&self) -> (r: bool) {
        self.0.is_zero() && self.1.is_zero() && self.2.is_zero()
    }
}

impl<T: One> One for Vec3<T> {
    open spec fn spec_one() -> Vec3<T> {
        Vec3(T::spec_one(), T::spec_one(), T::spec_one())
    }

    /// The vector whose every component is one.
    fn one() -> (r: Vec3<T>) {
        Vec3(T::one(), T::one(), T::one())
    }
}

impl<T: Add<Output = T> + Mul<Output = T> + Copy> Vec3<T> {
    /// The dot product can be computed: the scalar's arithmetic follows its
    /// specification and no product or partial sum overflows.
    pub open spec fn dot_req(self, b: Vec3<T>) -> bool {
        let p0 = self.0.mul_spec(b.0);
        let p1 = self.1.mul_spec(b.1);
        let p2 = self.2.mul_spec(b.2);
        &&& T::obeys_add_spec()
        &&& T::obeys_mul_spec()
        &&& self.0.mul_req(b.0)
        &&& self.1.mul_req(b.1)
        &&& self.2.mul_req(b.2)
        &&& p0.add_req(p1)
        &&& p0.add_spec(p1).add_req(p2)
    }

    /// The sum of the component-wise products, added left to right.
    pub open spec fn spec_dot(self, b: Vec3<T>) -> T {
        let p0 = self.0.mul_spec(b.0);
        let p1 = self.1.mul_spec(b.1);
        let p2 = self.2.mul_spec(b.2);
        p0.add_spec(p1).add_spec(p2)
    }

    /// Returns the dot product of `self` and `b`.
    pub fn dot(self, b: Vec3<T>) -> (r: T)
        requires
            self.dot_req(b),
        ensures
            r == self.spec_dot(b),
    {
        self.0 * b.0 + self.1 * b.1 + self.2 * b.2
    }

    /// Returns the squared magnitude, the dot product of the vector with itself.
    pub fn length_sq(self) -> (r: T)
        requires
            self.dot_req(self),
        ensures
            r == self.spec_dot(self),
    {
        self.dot(self)
    }
}

impl<T: Add<Output = T> + Mul<Output = T> + Div<Output = T> + Copy> Vec3<T> {
    /// The factor by which `onto` is scaled in the projection of `self` onto it.
    pub open spec fn project_factor(self, onto: Vec3<T>) -> T {
        self.spec_dot(onto).div_spec(onto.spec_dot(onto))
    }

    /// The projection can be computed: both dot products can, the division is
    /// defined (so `onto` is not the zero vector of an integer type), and
    /// scaling `onto` does not overflow.
    pub open spec fn project_req(self, onto: Vec3<T>) -> bool {
        &&& self.dot_req(onto)
        &&& onto.dot_req(onto)
        &&& T::obeys_div_spec()
        &&& self.spec_dot(onto).div_req(onto.spec_dot(onto))
        &&& onto.0.mul_req(self.project_factor(onto))
        &&& onto.1.mul_req(self.project_factor(onto))
        &&& onto.2.mul_req(self.project_factor(onto))
    }

    /// `onto` scaled by `dot(self, onto) / length_sq(onto)`.
    pub open spec fn spec_project(self, onto: Vec3<T>) -> Vec3<T> {
        Vec3(
            onto.0.mul_spec(self.project_factor(onto)),
            onto.1.mul_spec(self.project_factor(onto)),
            onto.2.mul_spec(self.project_factor(onto)),
        )
    }

    /// Returns the projection of `self` onto `other`.
    pub fn project(self, other: Vec3<T>) -> (r: Vec3<T>)
        requires
            self.project_req(other),
        ensures
            r == self.spec_project(other),
    {
        other.mul_scalar(self.dot(other) / other.length_sq())
    }
}

impl<T: One + Add<Output = T> + Sub<Output = T> + Mul<Output = T> + Copy> Vec3<T> {
    /// Returns the component-wise linear interpolation `(1 - t) * self + t * other`.
    pub fn lerp(self, other: Vec3<T>, t: T) -> (r: Vec3<T>)
        requires
            lerp_req(self.0, other.0, t),
            lerp_req(self.1, other.1, t),
            lerp_req(self.2, other.2, t),
        ensures
            r == Vec3(
                spec_lerp(self.0, other.0, t),
                spec_lerp(self.1, other.1, t),
                spec_lerp(self.2, other.2, t),
            ),
    {
        Vec3(lerp(self.0, other.0, t), lerp(self.1, other.1, t), lerp(self.2, other.2, t))
    }
}

} // verus!
