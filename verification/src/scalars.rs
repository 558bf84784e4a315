//! Leaves of an expression tree, and what a number type has to offer so that
//! expressions over it can be differentiated.
use crate::{Differentiate, Evaluate, Gradient};
use vstd::prelude::*;
use vstd::std_specs::ops::{AddSpecImpl, MulSpec, MulSpecImpl};

verus! {

/// A number type with a zero, an image of the machine integers, and integer
/// powers.
pub trait Scalar: Copy + std::ops::Mul<Output = Self> {
    /// The additive identity.
    spec fn zero_spec() -> Self;

    /// The number that stands for the integer `n`.
    spec fn from_int_spec(n: i32) -> Self;

    /// `self` raised to the power `n`.
    spec fn power_spec(self, n: i32) -> Self;

    /// Whether the type can carry out that power.
    spec fn power_req(self, n: i32) -> bool;

    /// Returns the additive identity.
    fn zero() -> (z: Self)
        ensures
            z == Self::zero_spec(),
    ;

    /// Returns the number that stands for `n`.
    fn from_int(n: i32) -> (v: Self)
        ensures
            v == Self::from_int_spec(n),
    ;

    /// Raises `self` to the power `n`.
    fn power(self, n: i32) -> (p: Self)
        requires
            self.power_req(n),
        ensures
            p == self.power_spec(n),
    ;

    /// Every number has a zeroth power, and it is one.
    proof fn power_zero_is_one(self)
        ensures
            self.power_req(0),
            self.power_spec(0) == Self::from_int_spec(1),
    ;

    /// Every number has a first power, and it is the number itself.
    proof fn power_one_is_self(self)
        ensures
            self.power_req(1),
            self.power_spec(1) == self,
    ;

    /// One times one can be computed, and it is one.
    proof fn one_times_one_is_one()
        ensures
            Self::from_int_spec(1).mul_req(Self::from_int_spec(1)),
            Self::from_int_spec(1).mul_spec(Self::from_int_spec(1)) == Self::from_int_spec(1),
    ;
}

/// A leaf of an expression tree: a constant.
#[derive(Debug, Clone, Copy, PartialEq, PartialOrd)]
pub struct Constant<V> {
    pub value: V,
}

impl<V> Constant<V> {
    /// A leaf that holds `value`.
    pub fn new(value: V) -> (leaf: Self)
        ensures
            leaf.value == value,
    {
        Self { value }
    }
}

impl<V: Copy> Constant<V> {
    /// The number the leaf holds.
    pub fn get(&self) -> (v: V)
        ensures
            v == self.value,
    {
        self.value
    }
}

impl<V: Copy> Evaluate for Constant<V> {
    type Value = V;

    open spec fn evaluate_spec(&self) -> V {
        self.value
    }

    open spec fn evaluate_req(&self) -> bool {
        true
    }

    /// A constant evaluates to the number it holds.
    fn evaluate(&self) -> (v: V) {
        self.get()
    }
}

impl<V: Scalar> Differentiate for Constant<V> {
    type Derivative = Constant<V>;

    open spec fn differentiate_spec(self) -> Constant<V> {
        Constant { value: V::zero_spec() }
    }

    open spec fn differentiate_req(self) -> bool {
        true
    }

    /// The derivative of a constant is the constant zero.
    fn differentiate(self) -> (d: Constant<V>) {
        Constant::new(V::zero())
    }
}

impl<V: Scalar> Gradient for Constant<V> {
    open spec fn gradient_spec(&self) -> V {
        V::zero_spec()
    }

    open spec fn gradient_req(&self) -> bool {
        true
    }

    /// The gradient of a constant is what its derivative evaluates to: zero.
    fn gradient(&self) -> (g: V) {
        self.differentiate().evaluate()
    }

    proof fn gradient_agrees_with_derivative(&self) {
    }
}

impl<V, U> std::ops::Add<U> for Constant<V> {
    type Output = crate::ops::Add<Self, U>;

    /// `leaf + rhs` builds the sum node.
    fn add(self, rhs: U) -> (node: Self::Output) {
        crate::ops::Add::new(self, rhs)
    }
}

impl<V, U> AddSpecImpl<U> for Constant<V> {
    open spec fn obeys_add_spec() -> bool {
        true
    }

    open spec fn add_req(self, rhs: U) -> bool {
        true
    }

    open spec fn add_spec(self, rhs: U) -> Self::Output {
        crate::ops::Add { lhs: self, rhs }
    }
}

impl<V, U> std::ops::Mul<U> for Constant<V> {
    type Output = crate::ops::Mul<Self, U>;

    /// `leaf * rhs` builds the product node.
    fn mul(self, rhs: U) -> (node: Self::Output) {
        crate::ops::Mul::new(self, rhs)
    }
}

impl<V, U> MulSpecImpl<U> for Constant<V> {
    open spec fn obeys_mul_spec() -> bool {
        true
    }

    open spec fn mul_req(self, rhs: U) -> bool {
        true
    }

    open spec fn mul_spec(self, rhs: U) -> Self::Output {
        crate::ops::Mul { lhs: self, rhs }
    }
}

} // verus!
