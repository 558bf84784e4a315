//! What holds of every expression.
use crate::ops::Powi;
use crate::scalars::{Constant, Scalar};
use crate::{Differentiate, Evaluate, Gradient};
use vstd::prelude::*;
use vstd::std_specs::ops::MulSpec;

verus! {

/// Consistency: for every expression, the number that `gradient` computes is
/// the number that its derivative evaluates to; and wherever `gradient` can be
/// computed, the derivative can be built and evaluated.
pub proof fn lemma_gradient_is_value_of_derivative<E: Gradient>(e: E)
    ensures
        e.gradient_spec() == e.differentiate_spec().evaluate_spec(),
        e.gradient_req() ==> e.differentiate_req() && e.differentiate_spec().evaluate_req(),
{
    e.gradient_agrees_with_derivative();
}

/// What differentiating a constant `times` times gives.
pub open spec fn repeated_derivative<V: Scalar>(leaf: Constant<V>, times: nat) -> Constant<V>
    decreases times,
{
    if times == 0 {
        leaf
    } else {
        repeated_derivative(leaf.differentiate_spec(), (times - 1) as nat)
    }
}

/// Stability of zero: however often a constant is differentiated, if at all,
/// the result can be built and is the constant zero.
pub proof fn lemma_repeated_derivative_is_zero<V: Scalar>(leaf: Constant<V>, times: nat)
    ensures
        repeated_derivative(leaf, times) == if times == 0 {
            leaf
        } else {
            (Constant { value: V::zero_spec() })
        },
        repeated_derivative(leaf, times).differentiate_req(),
    decreases times,
{
    reveal_with_fuel(repeated_derivative, 2);
    if times > 1 {
        lemma_repeated_derivative_is_zero(leaf.differentiate_spec(), (times - 1) as nat);
    }
}

/// The zeroth power of every expression that can be evaluated can be
/// evaluated, to one.
pub proof fn lemma_zeroth_power_is_one<T>(x: T) where T: Evaluate, T::Value: Scalar
    ensures
        (Powi { operand: x, n: 0 }).evaluate_spec() == T::Value::from_int_spec(1),
        x.evaluate_req() ==> (Powi { operand: x, n: 0 }).evaluate_req(),
{
    x.evaluate_spec().power_zero_is_one();
}

/// The first power of every expression that can be evaluated can be
/// evaluated, to what the expression itself evaluates to; its derivative can
/// be built and evaluates to one.
pub proof fn lemma_first_power_is_operand<T>(x: T) where T: Evaluate, T::Value: Scalar
    ensures
        (Powi { operand: x, n: 1 }).evaluate_spec() == x.evaluate_spec(),
        x.evaluate_req() ==> (Powi { operand: x, n: 1 }).evaluate_req(),
        (Powi { operand: x, n: 1 }).differentiate_req(),
        (Powi { operand: x, n: 1 }).differentiate_spec().evaluate_spec()
            == T::Value::from_int_spec(1),
        x.evaluate_req() && <T::Value as MulSpec<T::Value>>::obeys_mul_spec() ==> (Powi {
            operand: x,
            n: 1,
        }).differentiate_spec().evaluate_req(),
{
    x.evaluate_spec().power_one_is_self();
    x.evaluate_spec().power_zero_is_one();
    T::Value::one_times_one_is_one();
    let d = (Powi { operand: x, n: 1 }).differentiate_spec();
    assert(d.lhs.evaluate_spec() == T::Value::from_int_spec(1));
    assert(d.rhs.evaluate_spec() == x.evaluate_spec().power_spec(0));
}

} // verus!
