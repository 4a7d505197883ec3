//! Overflow-checked fixed-point arithmetic.
//!
//! All money and token quantities are unsigned 64-bit integers in minor
//! units. Every addition, subtraction and multiplication is checked and
//! fails with `MathError::Overflow` when it leaves the u64 range; division
//! by zero fails with `MathError::DivisionByZero`. Basis-point scaling
//! widens to u128 before dividing and always rounds down (floor), a
//! deliberate policy that favors the fee receivers over the trader.

use vstd::prelude::*;

use crate::constants::BPS_DENOMINATOR;
use crate::errors::MathError;
use vstd::arithmetic::div_mod::{
    lemma_div_is_ordered, lemma_div_multiples_vanish, lemma_div_pos_is_pos,
    lemma_fundamental_div_mod, lemma_mod_division_less_than_divisor,
};
use vstd::arithmetic::mul::{
    lemma_mul_inequality, lemma_mul_is_commutative, lemma_mul_is_distributive_add,
    lemma_mul_nonnegative, lemma_mul_upper_bound,
};

verus! {

/// The basis-point share of a value: `value * bps / 10_000`, rounded down.
pub open spec fn bps_of(value: int, bps: int) -> int {
    (value * bps) / (BPS_DENOMINATOR as int)
}

/// Floors of two basis-point shares of the same value fit together inside
/// the value whenever the two shares sum to at most 10_000 basis points.
pub proof fn lemma_bps_shares_fit(value: int, bps_a: int, bps_b: int)
    requires
        0 <= value,
        0 <= bps_a,
        0 <= bps_b,
        bps_a + bps_b <= BPS_DENOMINATOR,
    ensures
        0 <= bps_of(value, bps_a),
        0 <= bps_of(value, bps_b),
        bps_of(value, bps_a) + bps_of(value, bps_b) <= value,
{
    let b = BPS_DENOMINATOR as int;
    let qa = (value * bps_a) / b;
    let qb = (value * bps_b) / b;
    lemma_div_pos_is_pos(value * bps_a, b);
    lemma_div_pos_is_pos(value * bps_b, b);
    lemma_fundamental_div_mod(value * bps_a, b);
    lemma_fundamental_div_mod(value * bps_b, b);
    lemma_mod_division_less_than_divisor(value * bps_a, b);
    lemma_mod_division_less_than_divisor(value * bps_b, b);
    lemma_mul_is_distributive_add(value, bps_a, bps_b);
    lemma_mul_inequality(bps_a + bps_b, b, value);
    lemma_mul_is_commutative(bps_a + bps_b, value);
    lemma_mul_is_commutative(b, value);
    assert(b * qa + b * qb <= value * b);
    lemma_mul_is_distributive_add(b, qa, qb);
    assert(b * (qa + qb) <= b * value) by {
        lemma_mul_is_commutative(value, b);
    }
    assert(qa + qb <= value) by (nonlinear_arith)
        requires
            b > 0,
            b * (qa + qb) <= b * value,
    ;
}

/// A widened product scaled down by a divisor at least as large as one
/// factor stays within the other factor: `(a * b) / d <= b` when
/// `0 < a <= d`. This is what keeps a constant-product quote inside the
/// curve's reserves.
pub proof fn lemma_mul_div_le(a: int, b: int, d: int)
    requires
        0 <= b,
        0 < a <= d,
    ensures
        0 <= (a * b) / d <= b,
{
    lemma_mul_nonnegative(a, b);
    lemma_div_pos_is_pos(a * b, d);
    lemma_mul_inequality(a, d, b);
    lemma_div_is_ordered(a * b, d * b, d);
    lemma_mul_is_commutative(d, b);
    lemma_div_multiples_vanish(b, d);
}

/// Checked addition: `Ok(a + b)` exactly when the sum fits in a u64,
/// `Err(Overflow)` otherwise.
pub fn checked_add(a: u64, b: u64) -> (r: Result<u64, MathError>)
    ensures
        a + b <= u64::MAX ==> r == Ok::<u64, MathError>((a + b) as u64),
        a + b > u64::MAX ==> r == Err::<u64, MathError>(MathError::Overflow),
{
    match a.checked_add(b) {
        Some(s) => Ok(s),
        None => Err(MathError::Overflow),
    }
}

/// Checked subtraction: `Ok(a - b)` exactly when `a >= b`,
/// `Err(Overflow)` otherwise (unsigned underflow).
pub fn checked_sub(a: u64, b: u64) -> (r: Result<u64, MathError>)
    ensures
        a >= b ==> r == Ok::<u64, MathError>((a - b) as u64),
        a < b ==> r == Err::<u64, MathError>(MathError::Overflow),
{
    match a.checked_sub(b) {
        Some(s) => Ok(s),
        None => Err(MathError::Overflow),
    }
}

/// Checked multiplication: `Ok(a * b)` exactly when the product fits in a
/// u64, `Err(Overflow)` otherwise.
pub fn checked_mul(a: u64, b: u64) -> (r: Result<u64, MathError>)
    ensures
        a * b <= u64::MAX ==> r == Ok::<u64, MathError>((a * b) as u64),
        a * b > u64::MAX ==> r == Err::<u64, MathError>(MathError::Overflow),
{
    match a.checked_mul(b) {
        Some(p) => Ok(p),
        None => Err(MathError::Overflow),
    }
}

/// Checked division, rounding down: `Ok(a / b)` whenever `b > 0`,
/// `Err(DivisionByZero)` when `b == 0`.
pub fn checked_div(a: u64, b: u64) -> (r: Result<u64, MathError>)
    ensures
        b > 0 ==> r == Ok::<u64, MathError>((a as int / b as int) as u64),
        b == 0 ==> r == Err::<u64, MathError>(MathError::DivisionByZero),
{
    if b == 0 {
        Err(MathError::DivisionByZero)
    } else {
        Ok(a / b)
    }
}

/// Basis-point scaling with a widened intermediate: `value * bps / 10_000`
/// computed in u128 and rounded down. `Err(Overflow)` exactly when the
/// scaled result does not fit back into a u64, which can only happen for
/// shares above 10_000 basis points.
pub fn bps_mul(value: u64, bps: u16) -> (r: Result<u64, MathError>)
    ensures
        bps_of(value as int, bps as int) <= u64::MAX
            ==> r == Ok::<u64, MathError>(bps_of(value as int, bps as int) as u64),
        bps_of(value as int, bps as int) > u64::MAX
            ==> r == Err::<u64, MathError>(MathError::Overflow),
{
    proof {
        lemma_mul_upper_bound(value as int, u64::MAX as int, bps as int, u16::MAX as int);
    }
    let wide: u128 = (value as u128) * (bps as u128);
    let scaled: u128 = wide / (BPS_DENOMINATOR as u128);
    if scaled > u64::MAX as u128 {
        Err(MathError::Overflow)
    } else {
        Ok(scaled as u64)
    }
}

} // verus!
