use vstd::prelude::*;
use vstd::arithmetic::div_mod::{lemma_basic_div, lemma_div_multiples_vanish_quotient};
use vstd::arithmetic::mul::lemma_mul_strictly_positive;
use crate::error::CurveError;

verus! {

/// Curve values (the integral of the price curve, a currency amount) are
/// fixed-point numbers with this many decimals.
pub const VALUE_DECIMALS: u8 = 12;

/// Raw token supply has this many decimals: one whole token is `10^8` raw
/// units, and the curve's variable is the supply in whole tokens.
pub const SUPPLY_DECIMALS: u8 = 8;

/// A sample of the logistic curve `y = a / (1 + exp(-(b·x + c)))` at a raw
/// supply, as evaluated by the host: `integral` is
/// `(a/b)·ln(exp(b·x + c) + 1)` and `spot_price` is `y`, both with
/// `VALUE_DECIMALS` decimals, where `x` is `supply / 10^SUPPLY_DECIMALS`.
#[derive(Debug, Clone, Copy, PartialEq, Eq, Structural)]
pub struct CurveSample {
    pub supply: u128,
    pub integral: u128,
    pub spot_price: u128,
}

/// The price of an asset's smallest unit: `multiplier / 10^decimals`
/// currency units.
#[derive(Debug, Clone, Copy, PartialEq, Eq, Structural)]
pub struct UnitPrice {
    pub multiplier: u128,
    pub decimals: u8,
}

pub open spec fn pow10(n: nat) -> nat
    decreases n,
{
    if n == 0 {
        1
    } else {
        10 * pow10((n - 1) as nat)
    }
}

pub proof fn lemma_pow10_positive(n: nat)
    ensures
        pow10(n) > 0,
    decreases n,
{
    if n > 0 {
        lemma_pow10_positive((n - 1) as nat);
    }
}

pub proof fn lemma_pow10_add(a: nat, b: nat)
    ensures
        pow10(a + b) == pow10(a) * pow10(b),
    decreases a,
{
    if a > 0 {
        let a1 = (a - 1) as nat;
        lemma_pow10_add(a1, b);
        assert(a1 + b + 1 == a + b);
        assert(pow10(a + b) == 10 * pow10(a1 + b));
        assert(pow10(a) == 10 * pow10(a1));
        assert(10 * (pow10(a1) * pow10(b)) == (10 * pow10(a1)) * pow10(b)) by (nonlinear_arith);
    } else {
        assert(pow10(0) == 1);
        assert(a + b == b);
    }
}

pub proof fn lemma_pow10_twelve()
    ensures
        pow10(12) == 1_000_000_000_000,
{
    reveal_with_fuel(pow10, 13);
}

/// `10^n`, where it fits a `u128`.
pub fn checked_pow10(n: u8) -> (r: Option<u128>)
    ensures
        pow10(n as nat) <= u128::MAX ==> r == Some(pow10(n as nat) as u128),
        pow10(n as nat) > u128::MAX ==> r is None,
{
    let mut acc: u128 = 1;
    let mut i: u8 = 0;
    while i < n
        invariant
            i <= n,
            acc == pow10(i as nat),
        decreases n - i,
    {
        match acc.checked_mul(10) {
            Some(v) => {
                acc = v;
            },
            None => {
                proof {
                    lemma_pow10_add(i as nat, (n - i) as nat);
                    lemma_pow10_positive((n - i - 1) as nat);
                    assert(pow10((n - i) as nat) == 10 * pow10((n - i - 1) as nat));
                    assert(pow10(n as nat) == acc * pow10((n - i) as nat));
                    assert(acc * 10 <= acc * pow10((n - i) as nat)) by (nonlinear_arith)
                        requires
                            pow10((n - i) as nat) >= 10,
                    {}
                }
                return None;
            },
        }
        i = i + 1;
    }
    Some(acc)
}

/// The number of smallest units of an asset worth the curve value `value`
/// at `price`, rounded down.
pub open spec fn amount_for_value(value: nat, price: UnitPrice) -> nat {
    (value * pow10(price.decimals as nat)) / (price.multiplier as nat * pow10(VALUE_DECIMALS as nat))
}

/// What `value_to_amount` gives: a price of zero is refused, and so is a
/// value whose scaled form `value · 10^(decimals - VALUE_DECIMALS)` does not
/// fit a `u128`.
pub open spec fn value_to_amount_result(value: nat, price: UnitPrice) -> Result<u128, CurveError> {
    if price.multiplier == 0 {
        Err(CurveError::ConfigurationError)
    } else if price.decimals >= VALUE_DECIMALS && value * pow10(
        (price.decimals - VALUE_DECIMALS) as nat,
    ) > u128::MAX {
        Err(CurveError::Overflow)
    } else {
        Ok(amount_for_value(value, price) as u128)
    }
}

/// Converts the curve value `value` into smallest units of an asset priced
/// at `price`, rounding down.
pub fn value_to_amount(value: u128, price: UnitPrice) -> (r: Result<u128, CurveError>)
    ensures
        r == value_to_amount_result(value as nat, price),
        r matches Ok(a) ==> a as nat == amount_for_value(value as nat, price),
{
    if price.multiplier == 0 {
        return Err(CurveError::ConfigurationError);
    }
    let m = price.multiplier;
    let d = price.decimals;
    let ghost v = value as nat;
    proof {
        lemma_pow10_positive(d as nat);
        lemma_pow10_positive(VALUE_DECIMALS as nat);
    }
    if d >= VALUE_DECIMALS {
        let ghost e = (d - VALUE_DECIMALS) as nat;
        proof {
            lemma_pow10_add(e, VALUE_DECIMALS as nat);
            lemma_pow10_positive(e);
        }
        let p = match checked_pow10(d - VALUE_DECIMALS) {
            Some(p) => p,
            None => {
                proof {
                    assert(pow10(e) <= v * pow10(e) || v == 0) by (nonlinear_arith)
                        requires
                            pow10(e) > 0,
                    {}
                }
                if value == 0 {
                    proof {
                        assert(v * pow10(d as nat) == 0);
                        assert(0nat / (m as nat * pow10(VALUE_DECIMALS as nat)) == 0) by {
                            lemma_mul_strictly_positive(m as int, pow10(VALUE_DECIMALS as nat) as int);
                            lemma_basic_div(0, m as int * pow10(VALUE_DECIMALS as nat) as int);
                        }
                        assert(v * pow10(e) == 0);
                    }
                    return Ok(0);
                }
                return Err(CurveError::Overflow);
            },
        };
        let scaled = match value.checked_mul(p) {
            Some(s) => s,
            None => {
                return Err(CurveError::Overflow);
            },
        };
        proof {
            let t = pow10(VALUE_DECIMALS as nat) as int;
            let a = (v * pow10(e)) as int;
            lemma_div_multiples_vanish_quotient(t, a, m as int);
            assert(v * pow10(d as nat) == t * a) by (nonlinear_arith)
                requires
                    pow10(d as nat) == pow10(e) * t,
                    a == v * pow10(e),
            {}
            assert(m as int * t == t * m as int) by (nonlinear_arith);
        }
        Ok(scaled / m)
    } else {
        let ghost e = (VALUE_DECIMALS - d) as nat;
        let p = match checked_pow10(VALUE_DECIMALS - d) {
            Some(p) => p,
            None => {
                proof {
                    lemma_pow10_add(e, d as nat);
                    lemma_pow10_positive(d as nat);
                    lemma_pow10_twelve();
                    assert(pow10(e) <= pow10(e) * pow10(d as nat)) by (nonlinear_arith)
                        requires
                            pow10(d as nat) > 0,
                    {}
                }
                return Err(CurveError::Overflow);
            },
        };
        proof {
            lemma_pow10_add(d as nat, e);
            lemma_pow10_positive(e);
        }
        match m.checked_mul(p) {
            Some(divisor) => {
                proof {
                    let t = pow10(d as nat) as int;
                    assert(divisor > 0) by (nonlinear_arith)
                        requires
                            divisor == m * pow10(e),
                            m > 0,
                            pow10(e) > 0,
                    {}
                    lemma_div_multiples_vanish_quotient(t, v as int, divisor as int);
                    assert(m as int * pow10(VALUE_DECIMALS as nat) == t * divisor) by (
                    nonlinear_arith)
                        requires
                            pow10(VALUE_DECIMALS as nat) == t * pow10(e),
                            divisor == m * pow10(e),
                    {}
                    assert(v * pow10(d as nat) == pow10(d as nat) * v) by (nonlinear_arith);
                }
                Ok(value / divisor)
            },
            None => {
                proof {
                    let t = pow10(d as nat) as int;
                    let big = m as int * pow10(e) as int;
                    assert(big > 0) by (nonlinear_arith)
                        requires
                            big == m * pow10(e),
                            m > 0,
                            pow10(e) > 0,
                    {}
                    lemma_div_multiples_vanish_quotient(t, v as int, big);
                    assert(m as int * pow10(VALUE_DECIMALS as nat) == t * big) by (nonlinear_arith)
                        requires
                            pow10(VALUE_DECIMALS as nat) == t * pow10(e),
                            big == m * pow10(e),
                    {}
                    assert(v * pow10(d as nat) == pow10(d as nat) * v) by (nonlinear_arith);
                    lemma_basic_div(v as int, big);
                }
                Ok(0)
            },
        }
    }
}

} // verus!
