//! Triples of scalars, used as points, directions and colours, and rays.

use crate::scalar::Scalar;
use std::ops::Neg;
use vstd::prelude::*;
use vstd::std_specs::cmp::PartialEqSpecImpl;
use vstd::std_specs::ops::NegSpecImpl;

verus! {

/// Three scalars. Whether they are a point, a direction or a colour is up to
/// the code that holds them.
#[derive(Clone, Copy, Debug)]
pub struct Vec3(pub Scalar, pub Scalar, pub Scalar);

pub type Color = Vec3;

pub type Point = Vec3;

impl Vec3 {
    /// Equal component by component, as numbers: a NaN anywhere makes two
    /// vectors differ, and `-0.0` is `0.0`.
    pub open spec fn same_vector(self, other: Vec3) -> bool {
        &&& self.0.same_number(other.0)
        &&& self.1.same_number(other.1)
        &&& self.2.same_number(other.2)
    }

    /// Every component is a zero.
    pub open spec fn is_zero_spec(self) -> bool {
        self.0.is_zero_spec() && self.1.is_zero_spec() && self.2.is_zero_spec()
    }

    /// Every component with its sign bit flipped.
    pub open spec fn negated(self) -> Vec3 {
        Vec3(self.0.neg_spec(), self.1.neg_spec(), self.2.neg_spec())
    }

    /// `(0, 0, 0)`.
    pub fn zero() -> (v: Vec3)
        ensures
            v == Vec3(Scalar::of(0), Scalar::of(0), Scalar::of(0)),
    {
        Vec3(Scalar::zero(), Scalar::zero(), Scalar::zero())
    }

    /// The unit vector along a vector, from the vector's `length` and its
    /// `quotient` by that length: the quotient, unless the length is zero; then
    /// the zero vector.
    pub fn normalize_from(length: Scalar, quotient: Vec3) -> (unit: Vec3)
        ensures
            unit == if length.same_number(Scalar::of(0)) {
                Vec3(Scalar::of(0), Scalar::of(0), Scalar::of(0))
            } else {
                quotient
            },
    {
        if length != Scalar::zero() {
            quotient
        } else {
            Vec3::zero()
        }
    }

    pub fn is_zero(&self) -> (r: bool)
        ensures
            r == self.is_zero_spec(),
    {
        self.0.is_zero() && self.1.is_zero() && self.2.is_zero()
    }
}

impl PartialEq for Vec3 {
    fn eq(&self, other: &Vec3) -> (r: bool) {
        self.0 == other.0 && self.1 == other.1 && self.2 == other.2
    }
}

impl PartialEqSpecImpl for Vec3 {
    open spec fn obeys_eq_spec() -> bool {
        true
    }

    open spec fn eq_spec(&self, other: &Vec3) -> bool {
        self.same_vector(*other)
    }
}

impl Neg for Vec3 {
    type Output = Vec3;

    fn neg(self) -> (r: Vec3) {
        Vec3(self.0.neg(), self.1.neg(), self.2.neg())
    }
}

impl NegSpecImpl for Vec3 {
    open spec fn obeys_neg_spec() -> bool {
        true
    }

    open spec fn neg_req(self) -> bool {
        true
    }

    open spec fn neg_spec(self) -> Vec3 {
        self.negated()
    }
}

/// A half-line: the points `origin + t * direction`. The direction need not
/// have unit length.
#[derive(Clone, Copy, Debug)]
pub struct Ray {
    pub origin: Point,
    pub direction: Vec3,
}

impl Ray {
    pub fn new(origin: &Point, direction: &Vec3) -> (ray: Ray)
        ensures
            ray.origin == *origin,
            ray.direction == *direction,
    {
        Ray { origin: *origin, direction: *direction }
    }

    pub fn origin<'a>(&'a self) -> (origin: &'a Point)
        ensures
            *origin == self.origin,
    {
        &self.origin
    }

    pub fn direction<'a>(&'a self) -> (direction: &'a Vec3)
        ensures
            *direction == self.direction,
    {
        &self.direction
    }
}

} // verus!
