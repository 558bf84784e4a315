//! The combinators: sum, product and integer power, and the operators that
//! build them.
use crate::scalars::{Constant, Scalar};
use crate::{Differentiate, Evaluate, Gradient};
use vstd::prelude::*;
use vstd::std_specs::ops::{AddSpec, AddSpecImpl, MulSpec, MulSpecImpl};

verus! {

/// `powi` on every expression.
pub trait EvaluateExt: Evaluate + Sized {
    /// Builds the node that raises `self` to the power `n`.
    fn powi(self, n: i32) -> (node: Powi<Self>)
        ensures
            node == (Powi { operand: self, n }),
    {
        Powi::new(self, n)
    }
}

impl<T: Evaluate + Sized> EvaluateExt for T {

}

/// The sum of two expressions.
#[derive(Debug, Clone, Copy)]
pub struct Add<L, R> {
    pub lhs: L,
    pub rhs: R,
}

impl<L, R> Add<L, R> {
    /// The node `lhs + rhs`.
    pub fn new(lhs: L, rhs: R) -> (node: Self)
        ensures
            node == (Add { lhs, rhs }),
    {
        Self { lhs, rhs }
    }
}

impl<L, R> Evaluate for Add<L, R> where
    L: Evaluate,
    R: Evaluate,
    L::Value: std::ops::Add<R::Value>,
 {
    type Value = <L::Value as std::ops::Add<R::Value>>::Output;

    open spec fn evaluate_spec(&self) -> Self::Value {
        self.lhs.evaluate_spec().add_spec(self.rhs.evaluate_spec())
    }

    open spec fn evaluate_req(&self) -> bool {
        &&& self.lhs.evaluate_req()
        &&& self.rhs.evaluate_req()
        &&& <L::Value as AddSpec<R::Value>>::obeys_add_spec()
        &&& self.lhs.evaluate_spec().add_req(self.rhs.evaluate_spec())
    }

    /// A sum evaluates to the sum of what its operands evaluate to.
    fn evaluate(&self) -> (v: Self::Value) {
        self.lhs.evaluate() + self.rhs.evaluate()
    }
}

impl<L, R> Differentiate for Add<L, R> where
    L: Differentiate,
    R: Differentiate,
    L::Value: std::ops::Add<R::Value>,
 {
    type Derivative = Add<L::Derivative, R::Derivative>;

    open spec fn differentiate_spec(self) -> Self::Derivative {
        Add { lhs: self.lhs.differentiate_spec(), rhs: self.rhs.differentiate_spec() }
    }

    open spec fn differentiate_req(self) -> bool {
        self.lhs.differentiate_req() && self.rhs.differentiate_req()
    }

    /// Sum rule: the derivative of a sum is the sum of the derivatives.
    fn differentiate(self) -> (d: Self::Derivative) {
        Add::new(self.lhs.differentiate(), self.rhs.differentiate())
    }
}

impl<L, R> Gradient for Add<L, R> where
    L: Gradient,
    R: Gradient,
    L::Value: std::ops::Add<R::Value>,
 {
    open spec fn gradient_spec(&self) -> Self::Value {
        self.lhs.gradient_spec().add_spec(self.rhs.gradient_spec())
    }

    open spec fn gradient_req(&self) -> bool {
        &&& self.lhs.gradient_req()
        &&& self.rhs.gradient_req()
        &&& <L::Value as AddSpec<R::Value>>::obeys_add_spec()
        &&& self.lhs.gradient_spec().add_req(self.rhs.gradient_spec())
    }

    /// Sum rule: the gradient of a sum is the sum of the gradients.
    fn gradient(&self) -> (g: Self::Value) {
        proof {
            self.gradient_agrees_with_derivative();
        }
        self.lhs.gradient() + self.rhs.gradient()
    }

    proof fn gradient_agrees_with_derivative(&self) {
        self.lhs.gradient_agrees_with_derivative();
        self.rhs.gradient_agrees_with_derivative();
    }
}

/// The type of the number a product stands for.
pub type MulValue<L, R> = <Mul<L, R> as Evaluate>::Value;

/// The product of two expressions.
#[derive(Debug, Clone, Copy)]
pub struct Mul<L, R> {
    pub lhs: L,
    pub rhs: R,
}

impl<L, R> Mul<L, R> {
    /// The node `lhs * rhs`.
    pub fn new(lhs: L, rhs: R) -> (node: Self)
        ensures
            node == (Mul { lhs, rhs }),
    {
        Self { lhs, rhs }
    }
}

impl<L, R> Evaluate for Mul<L, R> where
    L: Evaluate,
    R: Evaluate,
    L::Value: std::ops::Mul<R::Value>,
 {
    type Value = <L::Value as std::ops::Mul<R::Value>>::Output;

    open spec fn evaluate_spec(&self) -> Self::Value {
        self.lhs.evaluate_spec().mul_spec(self.rhs.evaluate_spec())
    }

    open spec fn evaluate_req(&self) -> bool {
        &&& self.lhs.evaluate_req()
        &&& self.rhs.evaluate_req()
        &&& <L::Value as MulSpec<R::Value>>::obeys_mul_spec()
        &&& self.lhs.evaluate_spec().mul_req(self.rhs.evaluate_spec())
    }

    /// A product evaluates to the product of what its operands evaluate to.
    fn evaluate(&self) -> (v: Self::Value) {
        self.lhs.evaluate() * self.rhs.evaluate()
    }
}

impl<L, R> Differentiate for Mul<L, R> where
    L: Differentiate + Copy,
    R: Differentiate + Copy,
    L::Value: std::ops::Mul<R::Value>,
    MulValue<L, R>: std::ops::Add<MulValue<L, R>, Output = MulValue<L, R>>,
 {
    type Derivative = Add<Mul<L::Derivative, R>, Mul<L, R::Derivative>>;

    open spec fn differentiate_spec(self) -> Self::Derivative {
        Add {
            lhs: Mul { lhs: self.lhs.differentiate_spec(), rhs: self.rhs },
            rhs: Mul { lhs: self.lhs, rhs: self.rhs.differentiate_spec() },
        }
    }

    open spec fn differentiate_req(self) -> bool {
        self.lhs.differentiate_req() && self.rhs.differentiate_req()
    }

    /// Product rule: the derivative of `l * r` is `l' * r + l * r'`. Each
    /// operand is used twice, once as it is and once differentiated.
    fn differentiate(self) -> (d: Self::Derivative) {
        let lhs = Mul::new(self.lhs.differentiate(), self.rhs);
        let rhs = Mul::new(self.lhs, self.rhs.differentiate());
        Add::new(lhs, rhs)
    }
}

impl<L, R> Gradient for Mul<L, R> where
    L: Gradient + Copy,
    R: Gradient + Copy,
    L::Value: std::ops::Mul<R::Value>,
    MulValue<L, R>: std::ops::Add<MulValue<L, R>, Output = MulValue<L, R>>,
 {
    open spec fn gradient_spec(&self) -> Self::Value {
        self.lhs.gradient_spec().mul_spec(self.rhs.evaluate_spec()).add_spec(
            self.lhs.evaluate_spec().mul_spec(self.rhs.gradient_spec()),
        )
    }

    open spec fn gradient_req(&self) -> bool {
        &&& self.lhs.gradient_req()
        &&& self.rhs.gradient_req()
        &&& self.lhs.evaluate_req()
        &&& self.rhs.evaluate_req()
        &&& <L::Value as MulSpec<R::Value>>::obeys_mul_spec()
        &&& <MulValue<L, R> as AddSpec<MulValue<L, R>>>::obeys_add_spec()
        &&& self.lhs.gradient_spec().mul_req(self.rhs.evaluate_spec())
        &&& self.lhs.evaluate_spec().mul_req(self.rhs.gradient_spec())
        &&& self.lhs.gradient_spec().mul_spec(self.rhs.evaluate_spec()).add_req(
            self.lhs.evaluate_spec().mul_spec(self.rhs.gradient_spec()),
        )
    }

    /// Product rule: the gradient of `l * r` is
    /// `l.gradient() * r.evaluate() + l.evaluate() * r.gradient()`.
    fn gradient(&self) -> (g: Self::Value) {
        proof {
            self.gradient_agrees_with_derivative();
        }
        let lhs = self.lhs.gradient() * self.rhs.evaluate();
        let rhs = self.lhs.evaluate() * self.rhs.gradient();
        lhs + rhs
    }

    proof fn gradient_agrees_with_derivative(&self) {
        self.lhs.gradient_agrees_with_derivative();
        self.rhs.gradient_agrees_with_derivative();
    }
}

/// An expression raised to a fixed integer power.
#[derive(Debug, Clone, Copy)]
pub struct Powi<T> {
    pub operand: T,
    pub n: i32,
}

impl<T> Powi<T> {
    /// The node that raises `operand` to the power `n`.
    pub fn new(operand: T, n: i32) -> (node: Self)
        ensures
            node == (Powi { operand, n }),
    {
        Self { operand, n }
    }
}

impl<T> Evaluate for Powi<T> where T: Evaluate, T::Value: Scalar {
    type Value = T::Value;

    open spec fn evaluate_spec(&self) -> Self::Value {
        self.operand.evaluate_spec().power_spec(self.n)
    }

    open spec fn evaluate_req(&self) -> bool {
        &&& self.operand.evaluate_req()
        &&& self.operand.evaluate_spec().power_req(self.n)
    }

    /// A power evaluates to what its operand evaluates to, raised to `n`.
    fn evaluate(&self) -> (v: Self::Value) {
        self.operand.evaluate().power(self.n)
    }
}

impl<T> Differentiate for Powi<T> where T: Evaluate, T::Value: Scalar {
    type Derivative = Mul<Constant<T::Value>, Powi<T>>;

    open spec fn differentiate_spec(self) -> Self::Derivative {
        Mul {
            lhs: Constant { value: T::Value::from_int_spec(self.n) },
            rhs: Powi { operand: self.operand, n: (self.n - 1) as i32 },
        }
    }

    /// The exponent of the derivative, `n - 1`, has to be an `i32`.
    open spec fn differentiate_req(self) -> bool {
        self.n > i32::MIN
    }

    /// Power rule: the derivative of `x.powi(n)` is `n * x.powi(n - 1)`.
    fn differentiate(self) -> (d: Self::Derivative) {
        Constant::new(T::Value::from_int(self.n)) * self.operand.powi(self.n - 1)
    }
}

impl<T> Gradient for Powi<T> where T: Evaluate, T::Value: Scalar {
    open spec fn gradient_spec(&self) -> Self::Value {
        T::Value::from_int_spec(self.n).mul_spec(
            self.operand.evaluate_spec().power_spec((self.n - 1) as i32),
        )
    }

    open spec fn gradient_req(&self) -> bool {
        &&& self.n > i32::MIN
        &&& self.operand.evaluate_req()
        &&& self.operand.evaluate_spec().power_req((self.n - 1) as i32)
        &&& <T::Value as MulSpec<T::Value>>::obeys_mul_spec()
        &&& T::Value::from_int_spec(self.n).mul_req(
            self.operand.evaluate_spec().power_spec((self.n - 1) as i32),
        )
    }

    /// Power rule: the gradient of `x.powi(n)` is
    /// `n * x.evaluate().power(n - 1)`.
    fn gradient(&self) -> (g: Self::Value) {
        proof {
            self.gradient_agrees_with_derivative();
        }
        T::Value::from_int(self.n) * self.operand.evaluate().power(self.n - 1)
    }

    proof fn gradient_agrees_with_derivative(&self) {
        let d = self.differentiate_spec();
        assert(d.lhs.evaluate_spec() == T::Value::from_int_spec(self.n));
        assert(d.rhs.evaluate_spec() == self.operand.evaluate_spec().power_spec(
            (self.n - 1) as i32,
        ));
    }
}

impl<L, R, U> std::ops::Add<U> for Add<L, R> {
    type Output = Add<Self, U>;

    /// `sum + rhs` builds the sum node.
    fn add(self, rhs: U) -> (node: Self::Output) {
        Add::new(self, rhs)
    }
}

impl<L, R, U> AddSpecImpl<U> for Add<L, R> {
    open spec fn obeys_add_spec() -> bool {
        true
    }

    open spec fn add_req(self, rhs: U) -> bool {
        true
    }

    open spec fn add_spec(self, rhs: U) -> Self::Output {
        Add { lhs: self, rhs }
    }
}

impl<L, R, U> std::ops::Mul<U> for Add<L, R> {
    type Output = Mul<Self, U>;

    /// `sum * rhs` builds the product node.
    fn mul(self, rhs: U) -> (node: Self::Output) {
        Mul::new(self, rhs)
    }
}

impl<L, R, U> MulSpecImpl<U> for Add<L, R> {
    open spec fn obeys_mul_spec() -> bool {
        true
    }

    open spec fn mul_req(self, rhs: U) -> bool {
        true
    }

    open spec fn mul_spec(self, rhs: U) -> Self::Output {
        Mul { lhs: self, rhs }
    }
}

impl<L, R, U> std::ops::Add<U> for Mul<L, R> {
    type Output = Add<Self, U>;

    /// `product + rhs` builds the sum node.
    fn add(self, rhs: U) -> (node: Self::Output) {
        Add::new(self, rhs)
    }
}

impl<L, R, U> AddSpecImpl<U> for Mul<L, R> {
    open spec fn obeys_add_spec() -> bool {
        true
    }

    open spec fn add_req(self, rhs: U) -> bool {
        true
    }

    open spec fn add_spec(self, rhs: U) -> Self::Output {
        Add { lhs: self, rhs }
    }
}

impl<L, R, U> std::ops::Mul<U> for Mul<L, R> {
    type Output = Mul<Self, U>;

    /// `product * rhs` builds the product node.
    fn mul(self, rhs: U) -> (node: Self::Output) {
        Mul::new(self, rhs)
    }
}

impl<L, R, U> MulSpecImpl<U> for Mul<L, R> {
    open spec fn obeys_mul_spec() -> bool {
        true
    }

    open spec fn mul_req(self, rhs: U) -> bool {
        true
    }

    open spec fn mul_spec(self, rhs: U) -> Self::Output {
        Mul { lhs: self, rhs }
    }
}

impl<T, U> std::ops::Add<U> for Powi<T> {
    type Output = Add<Self, U>;

    /// `power + rhs` builds the sum node.
    fn add(self, rhs: U) -> (node: Self::Output) {
        Add::new(self, rhs)
    }
}

impl<T, U> AddSpecImpl<U> for Powi<T> {
    open spec fn obeys_add_spec() -> bool {
        true
    }

    open spec fn add_req(self, rhs: U) -> bool {
        true
    }

    open spec fn add_spec(self, rhs: U) -> Self::Output {
        Add { lhs: self, rhs }
    }
}

impl<T, U> std::ops::Mul<U> for Powi<T> {
    type Output = Mul<Self, U>;

    /// `power * rhs` builds the product node.
    fn mul(self, rhs: U) -> (node: Self::Output) {
        Mul::new(self, rhs)
    }
}

impl<T, U> MulSpecImpl<U> for Powi<T> {
    open spec fn obeys_mul_spec() -> bool {
        true
    }

    open spec fn mul_req(self, rhs: U) -> bool {
        true
    }

    open spec fn mul_spec(self, rhs: U) -> Self::Output {
        Mul { lhs: self, rhs }
    }
}

} // verus!
