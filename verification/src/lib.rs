//! A small kernel for differential calculus on expression trees.
//!
//! A tree is built bottom-up from constant leaves with `+`, `*` and `powi`.
//! Every node can be evaluated, can compute the value of its first derivative
//! directly, and can be turned into the tree of its derivative. The kernel is
//! generic in the number type: sums and products work over any values that
//! std's operators combine, powers over any [`scalars::Scalar`].
//!
//! Each operation comes with two specification functions, in the manner of
//! the operator specifications of `vstd`: `*_spec` says what it returns, and
//! `*_req` says when the number type can carry it out (for machine integers:
//! when nothing overflows).
use vstd::prelude::*;

pub mod integers;
pub mod laws;
pub mod ops;
pub mod scalars;

verus! {

/// An expression that stands for a number.
pub trait Evaluate {
    /// The type of that number.
    type Value;

    /// The number the expression stands for.
    spec fn evaluate_spec(&self) -> Self::Value;

    /// Whether the value type can carry out every step of the evaluation.
    spec fn evaluate_req(&self) -> bool;

    /// Computes the number the expression stands for.
    fn evaluate(&self) -> (v: Self::Value)
        requires
            self.evaluate_req(),
        ensures
            v == self.evaluate_spec(),
    ;
}

/// An expression whose derivative is again an expression.
pub trait Differentiate: Evaluate + Sized {
    /// The type of the derivative; it stands for a number of the same type.
    type Derivative: Evaluate<Value = Self::Value>;

    /// The derivative, as an expression.
    spec fn differentiate_spec(self) -> Self::Derivative;

    /// Whether the derivative can be built within machine limits.
    spec fn differentiate_req(self) -> bool;

    /// Consumes the expression and builds its derivative.
    fn differentiate(self) -> (d: Self::Derivative)
        requires
            self.differentiate_req(),
        ensures
            d == self.differentiate_spec(),
    ;
}

/// An expression that can compute the value of its derivative without
/// building the derivative.
pub trait Gradient: Differentiate {
    /// The number that the rules of differentiation give for the derivative.
    spec fn gradient_spec(&self) -> Self::Value;

    /// Whether the value type can carry out every step of that computation.
    spec fn gradient_req(&self) -> bool;

    /// Computes the value of the derivative: the number that the derivative,
    /// once built, evaluates to.
    fn gradient(&self) -> (g: Self::Value)
        requires
            self.gradient_req(),
        ensures
            g == self.gradient_spec(),
            g == self.differentiate_spec().evaluate_spec(),
    ;

    /// The two ways to the value of the derivative agree: what `gradient`
    /// computes is what the derivative evaluates to, and wherever `gradient`
    /// can be computed the derivative can be built and evaluated.
    proof fn gradient_agrees_with_derivative(&self)
        ensures
            self.gradient_spec() == self.differentiate_spec().evaluate_spec(),
            self.gradient_req() ==> self.differentiate_req()
                && self.differentiate_spec().evaluate_req(),
    ;
}

} // verus!
