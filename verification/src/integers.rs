//! Machine integers as scalars: `i64`, with exact arithmetic as far as the
//! type reaches.
use crate::scalars::Scalar;
use vstd::arithmetic::power::{
    lemma0_pow,
    lemma1_pow,
    lemma_pow0,
    lemma_pow1,
    lemma_pow_increases,
    lemma_pow_strictly_increases,
    pow,
};
use vstd::prelude::*;

verus! {

/// The absolute value of an integer.
pub open spec fn magnitude(x: int) -> nat {
    if x < 0 {
        (-x) as nat
    } else {
        x as nat
    }
}

/// An integer power of an integer, as an integer. For an exponent that is not
/// negative it is the power itself. For a negative exponent `n` it is the
/// integer quotient of one by `x` to the power `-n`, as integer division gives
/// it: `x` itself for the bases 1 and -1 with odd `n`, 1 for them with even
/// `n`, and 0 for every larger base (for base 0 there is none).
pub open spec fn integer_power(x: int, n: int) -> int {
    if n >= 0 {
        pow(x, n as nat)
    } else {
        1int / pow(x, (-n) as nat)
    }
}

/// The magnitude of a power is the power of the magnitude.
pub proof fn lemma_magnitude_of_pow(x: int, e: nat)
    ensures
        magnitude(pow(x, e)) == pow(magnitude(x) as int, e),
    decreases e,
{
    reveal(pow);
    if e > 0 {
        lemma_magnitude_of_pow(x, (e - 1) as nat);
        let p = pow(x, (e - 1) as nat);
        assert(magnitude(x * p) == magnitude(x) * magnitude(p)) by (nonlinear_arith);
    }
}

/// If a power fits in an `i64`, so does every power of the same base with a
/// smaller exponent.
pub proof fn lemma_smaller_power_fits(x: int, k: nat, n: nat)
    requires
        k <= n,
        i64::MIN <= pow(x, n) <= i64::MAX,
    ensures
        i64::MIN <= pow(x, k) <= i64::MAX,
{
    lemma_magnitude_of_pow(x, k);
    lemma_magnitude_of_pow(x, n);
    if k < n {
        if magnitude(x) == 0 {
            if k == 0 {
                lemma_pow0(x);
            } else {
                lemma0_pow(k);
            }
        } else if magnitude(x) == 1 {
            lemma1_pow(k);
        } else {
            lemma_pow_strictly_increases(magnitude(x), k, n);
        }
    }
}

/// The powers of -1 alternate between 1 and -1.
pub proof fn lemma_pow_of_minus_one(e: nat)
    ensures
        pow(-1, e) == if e % 2 == 0 {
            1int
        } else {
            -1int
        },
    decreases e,
{
    reveal(pow);
    if e > 0 {
        lemma_pow_of_minus_one((e - 1) as nat);
    }
}

/// What integer division makes of a negative power.
pub proof fn lemma_negative_power(x: int, n: int)
    requires
        n < 0,
        x != 0,
    ensures
        integer_power(x, n) == if x == 1 {
            1int
        } else if x == -1 {
            if n % 2 == 0 {
                1int
            } else {
                -1int
            }
        } else {
            0int
        },
{
    let e = (-n) as nat;
    let d = pow(x, e);
    if x == 1 {
        lemma1_pow(e);
    } else if x == -1 {
        lemma_pow_of_minus_one(e);
        assert(1int / -1int == -1int);
    } else {
        lemma_magnitude_of_pow(x, e);
        lemma_pow1(magnitude(x) as int);
        lemma_pow_increases(magnitude(x), 1, e);
        assert(d >= 2 || d <= -2);
        assert(1int / d == 0) by (nonlinear_arith)
            requires
                d >= 2 || d <= -2,
        ;
    }
}

impl Scalar for i64 {
    open spec fn zero_spec() -> i64 {
        0
    }

    open spec fn from_int_spec(n: i32) -> i64 {
        n as i64
    }

    open spec fn power_spec(self, n: i32) -> i64 {
        integer_power(self as int, n as int) as i64
    }

    /// A power with an exponent that is not negative has to fit in an `i64`;
    /// one with a negative exponent needs a base other than zero.
    open spec fn power_req(self, n: i32) -> bool {
        if n >= 0 {
            i64::MIN <= pow(self as int, n as nat) <= i64::MAX
        } else {
            self != 0
        }
    }

    fn zero() -> (z: i64) {
        0
    }

    fn from_int(n: i32) -> (v: i64) {
        n as i64
    }

    fn power(self, n: i32) -> (p: i64) {
        if n < 0 {
            proof {
                lemma_negative_power(self as int, n as int);
            }
            if self == 1 {
                1
            } else if self == -1 {
                let e: i64 = -(n as i64);
                if e % 2 == 0 {
                    1
                } else {
                    -1
                }
            } else {
                0
            }
        } else {
            let mut acc: i64 = 1;
            let mut i: i32 = 0;
            proof {
                lemma_pow0(self as int);
            }
            while i < n
                invariant
                    0 <= i <= n,
                    acc == pow(self as int, i as nat),
                    i64::MIN <= pow(self as int, n as nat) <= i64::MAX,
                decreases n - i,
            {
                proof {
                    reveal(pow);
                    lemma_smaller_power_fits(self as int, (i + 1) as nat, n as nat);
                    assert(pow(self as int, (i + 1) as nat) == self * pow(self as int, i as nat));
                    assert(self * acc == acc * self) by (nonlinear_arith);
                }
                acc = acc * self;
                i = i + 1;
            }
            acc
        }
    }

    proof fn power_zero_is_one(self) {
        lemma_pow0(self as int);
    }

    proof fn power_one_is_self(self) {
        lemma_pow1(self as int);
    }

    proof fn one_times_one_is_one() {
        assert(1i64 * 1i64 == 1) by (nonlinear_arith);
    }
}

} // verus!
