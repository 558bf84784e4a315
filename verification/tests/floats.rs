//! The kernel over floating-point numbers: a scalar type defined here, on
//! `f64`, plugged into the generic combinators.
use autodiff::ops::{EvaluateExt, Powi};
use autodiff::scalars::{Constant, Scalar};
use autodiff::{Differentiate, Evaluate, Gradient};

#[derive(Debug, Clone, Copy, PartialEq, PartialOrd)]
struct F64(f64);

impl F64 {
    fn new(v: f64) -> Constant<F64> {
        Constant::new(F64(v))
    }
}

impl PartialEq<f64> for F64 {
    fn eq(&self, other: &f64) -> bool {
        self.0 == *other
    }
}

impl std::ops::Add for F64 {
    type Output = F64;

    fn add(self, rhs: F64) -> F64 {
        F64(self.0 + rhs.0)
    }
}

impl std::ops::Mul for F64 {
    type Output = F64;

    fn mul(self, rhs: F64) -> F64 {
        F64(self.0 * rhs.0)
    }
}

impl Scalar for F64 {
    fn zero_spec() -> F64 {
        F64(0.0)
    }

    fn from_int_spec(n: i32) -> F64 {
        F64(f64::from(n))
    }

    fn power_spec(self, n: i32) -> F64 {
        F64(self.0.powi(n))
    }

    fn power_req(self, _n: i32) -> bool {
        true
    }

    fn zero() -> F64 {
        F64(0.0)
    }

    fn from_int(n: i32) -> F64 {
        F64(f64::from(n))
    }

    fn power(self, n: i32) -> F64 {
        F64(self.0.powi(n))
    }

    fn power_zero_is_one(self) {}

    fn power_one_is_self(self) {}

    fn one_times_one_is_one() {}
}

#[test]
fn add_works() {
    let a = F64::new(2.0);
    let b = F64::new(5.0);
    let c = a + b;
    assert_eq!(c.evaluate(), 7.0);
    assert_eq!(c.gradient(), 0.0);
    assert_eq!(c.differentiate().evaluate(), 0.0);
}

#[test]
fn mul_works() {
    let a = F64::new(2.0);
    let b = F64::new(5.0);
    let c = F64::new(3.0);
    let d = (a + b) * c;
    assert_eq!(d.evaluate(), 21.0);
    assert_eq!(d.gradient(), 0.0);
    assert_eq!(d.differentiate().evaluate(), 0.0);
}

#[test]
fn powi_works() {
    let v = F64::new(2.0).powi(4);
    assert_eq!(v.evaluate(), 16.0);
    assert_eq!(v.gradient(), 32.0);
    assert_eq!(v.differentiate().evaluate(), 32.0);

    let a = F64::new(3.0);
    let b = F64::new(1.0);
    let c = F64::new(2.0);
    let d = a * (b + c).powi(3);
    assert_eq!(d.evaluate(), 81.0);
    assert_eq!(d.gradient(), 81.0);
    assert_eq!(d.differentiate().evaluate(), 81.0);
}

#[test]
fn float_leaf_keeps_its_value() {
    let a = F64::new(2.5);
    assert_eq!(a.get(), 2.5);
    assert_eq!(a.evaluate(), 2.5);
    assert_eq!(a.gradient(), 0.0);
    assert_eq!(a.differentiate(), F64::new(0.0));
}

#[test]
fn float_gradient_is_value_of_derivative() {
    let e = (F64::new(1.5) + F64::new(0.25)).powi(3) * (F64::new(4.0) * F64::new(0.5));
    assert_eq!(e.gradient(), e.differentiate().evaluate());
    let p = F64::new(0.5).powi(-2);
    assert_eq!(p.evaluate(), 4.0);
    assert_eq!(p.gradient(), -16.0);
    assert_eq!(p.differentiate().evaluate(), -16.0);
}

#[test]
fn float_zeroth_power() {
    let x = F64::new(7.25) + F64::new(-3.0);
    let p = x.powi(0);
    assert_eq!(p.evaluate(), 1.0);
    assert_eq!(p.gradient(), 0.0);
    assert_eq!(p.differentiate().evaluate(), 0.0);
    assert_eq!(F64::new(0.0).powi(0).evaluate(), 1.0);
}

#[test]
fn float_zeroth_power_at_zero_follows_float_rules() {
    let p = F64::new(0.0).powi(0);
    assert!(p.gradient().0.is_nan());
    assert!(p.differentiate().evaluate().0.is_nan());
}

#[test]
fn float_first_power() {
    let x = F64::new(7.25) * F64::new(2.0);
    let p = x.powi(1);
    assert_eq!(p.evaluate(), x.evaluate());
    assert_eq!(p.evaluate(), 14.5);
    assert_eq!(p.gradient(), 1.0);
    assert_eq!(p.differentiate().evaluate(), 1.0);
}

#[test]
fn float_power_rule_builds_scaled_lower_power() {
    let d = Powi::new(F64::new(2.0), 4).differentiate();
    assert_eq!(d.lhs, F64::new(4.0));
    assert_eq!(d.rhs.operand, F64::new(2.0));
    assert_eq!(d.rhs.n, 3);
}
