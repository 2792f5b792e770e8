//! Fixed-point rate arithmetic: converting a trade amount into the
//! complementary amount, given a cached rate normalized to the reference
//! denomination.

use vstd::prelude::*;

verus! {

use crate::types::AdapterError;
use vstd::arithmetic::div_mod::{
    lemma_div_is_ordered, lemma_div_multiples_vanish, lemma_fundamental_div_mod,
    lemma_mod_division_less_than_divisor,
};
use vstd::arithmetic::mul::{lemma_mul_is_commutative, lemma_mul_nonnegative};

/// The reference denomination: 100 units of the base asset in its smallest
/// (6-decimal) denomination. A cached rate says how many units of the output
/// asset are returned per `REFERENCE_AMOUNT` units of the input asset.
pub const REFERENCE_AMOUNT: u64 = 100_000_000;

/// The exact-in output: `floor(amount * rate / REFERENCE_AMOUNT)`.
pub open spec fn exact_in_output(amount: int, rate: int) -> int {
    (amount * rate) / (REFERENCE_AMOUNT as int)
}

/// The exact-out input: `ceil(amount * REFERENCE_AMOUNT / rate)`, written in
/// the `(x + rate - 1) / rate` form. Meaningful for `rate > 0`.
pub open spec fn exact_out_input(amount: int, rate: int) -> int {
    (amount * (REFERENCE_AMOUNT as int) + rate - 1) / rate
}

/// Exact-in conversion: how much output a given input amount buys at `rate`.
/// Succeeds exactly when the mathematical result fits in 64 bits.
pub fn calculate_exact_in(amount: u64, rate: u64) -> (result: Result<u64, AdapterError>)
    ensures
        match result {
            Ok(out) => out == exact_in_output(amount as int, rate as int),
            Err(e) => e == AdapterError::ArithmeticOverflow
                && exact_in_output(amount as int, rate as int) > u64::MAX,
        },
{
    let amount_wide: u128 = amount as u128;
    let rate_wide: u128 = rate as u128;
    assert(amount_wide * rate_wide <= u128::MAX) by (nonlinear_arith)
        requires
            amount_wide <= u64::MAX,
            rate_wide <= u64::MAX,
    ;
    let product: u128 = amount_wide * rate_wide;
    let out_amount: u128 = product / (REFERENCE_AMOUNT as u128);
    if out_amount > u64::MAX as u128 {
        Err(AdapterError::ArithmeticOverflow)
    } else {
        Ok(out_amount as u64)
    }
}

/// Exact-out conversion: how much input is needed so that at least `amount`
/// of output is produced at `rate`. Rounds up, so the caller never supplies
/// too little. Fails on a zero rate, and when the rounded-up input does not
/// fit in 64 bits.
pub fn calculate_exact_out(amount: u64, rate: u64) -> (result: Result<u64, AdapterError>)
    ensures
        rate == 0 ==> result == Err::<u64, AdapterError>(AdapterError::RateUnavailable),
        rate > 0 ==> match result {
            Ok(inp) => inp == exact_out_input(amount as int, rate as int),
            Err(e) => e == AdapterError::ArithmeticOverflow
                && exact_out_input(amount as int, rate as int) > u64::MAX,
        },
{
    if rate == 0 {
        return Err(AdapterError::RateUnavailable);
    }
    let amount_wide: u128 = amount as u128;
    let rate_wide: u128 = rate as u128;
    assert(amount_wide * (REFERENCE_AMOUNT as u128) <= (u64::MAX as u128) * (REFERENCE_AMOUNT as u128))
        by (nonlinear_arith)
        requires
            amount_wide <= u64::MAX,
    ;
    let product: u128 = amount_wide * (REFERENCE_AMOUNT as u128);
    let rounded: u128 = product + (rate_wide - 1);
    let in_amount: u128 = rounded / rate_wide;
    if in_amount > u64::MAX as u128 {
        Err(AdapterError::ArithmeticOverflow)
    } else {
        Ok(in_amount as u64)
    }
}

/// Law: the rounded-up exact-out input is always sufficient — feeding it
/// back through the exact-in conversion at the same rate returns at least
/// the amount that was asked for.
pub proof fn lemma_exact_out_covers(amount: int, rate: int)
    requires
        0 <= amount,
        0 < rate,
    ensures
        exact_in_output(exact_out_input(amount, rate), rate) >= amount,
{
    let refv = REFERENCE_AMOUNT as int;
    let x = amount * refv + rate - 1;
    let q = exact_out_input(amount, rate);
    lemma_mul_nonnegative(amount, refv);
    lemma_fundamental_div_mod(x, rate);
    lemma_mod_division_less_than_divisor(x, rate);
    assert(rate * q == x - x % rate);
    assert(rate * q >= amount * refv);
    lemma_mul_is_commutative(rate, q);
    lemma_div_is_ordered(amount * refv, q * rate, refv);
    lemma_mul_is_commutative(amount, refv);
    lemma_div_multiples_vanish(amount, refv);
    assert((amount * refv) / refv == amount);
}

/// Law: a round trip — converting an amount with one direction's rate and
/// converting the result back with the other direction's — never gains, and
/// loses at most one rounding step per conversion. The bound is stated
/// multiplicatively: the loss times the reference denomination stays below
/// `rate_back + REFERENCE_AMOUNT`, so it is proportional to the rounding
/// error, not to the amount. The two rates are assumed consistent: their
/// product is the square of the reference denomination.
pub proof fn lemma_round_trip(amount: int, rate_there: int, rate_back: int)
    requires
        0 <= amount,
        0 < rate_there,
        0 < rate_back,
        rate_there * rate_back == (REFERENCE_AMOUNT as int) * (REFERENCE_AMOUNT as int),
    ensures
        exact_in_output(exact_in_output(amount, rate_there), rate_back) <= amount,
        (amount - exact_in_output(exact_in_output(amount, rate_there), rate_back)) * (
        REFERENCE_AMOUNT as int) < rate_back + REFERENCE_AMOUNT,
{
    let refv = REFERENCE_AMOUNT as int;
    let y = exact_in_output(amount, rate_there);
    let z = exact_in_output(y, rate_back);
    lemma_mul_nonnegative(amount, rate_there);
    lemma_fundamental_div_mod(amount * rate_there, refv);
    lemma_mod_division_less_than_divisor(amount * rate_there, refv);
    let m1 = (amount * rate_there) % refv;
    assert(refv * y == amount * rate_there - m1);
    assert(y >= 0) by (nonlinear_arith)
        requires
            refv * y == amount * rate_there - m1,
            amount * rate_there >= 0,
            0 <= m1 < refv,
            refv > 0,
    ;
    lemma_mul_nonnegative(y, rate_back);
    lemma_fundamental_div_mod(y * rate_back, refv);
    lemma_mod_division_less_than_divisor(y * rate_back, refv);
    let m2 = (y * rate_back) % refv;
    assert(refv * z == y * rate_back - m2);
    assert(refv * (y * rate_back) == amount * (refv * refv) - m1 * rate_back) by (nonlinear_arith)
        requires
            refv * y == amount * rate_there - m1,
            rate_there * rate_back == refv * refv,
    ;
    assert((amount - z) * (refv * refv) == m1 * rate_back + m2 * refv) by (nonlinear_arith)
        requires
            refv * z == y * rate_back - m2,
            refv * (y * rate_back) == amount * (refv * refv) - m1 * rate_back,
    ;
    assert(z <= amount) by (nonlinear_arith)
        requires
            (amount - z) * (refv * refv) == m1 * rate_back + m2 * refv,
            0 <= m1,
            0 <= m2,
            rate_back > 0,
            refv > 0,
    ;
    assert((amount - z) * (refv * refv) < refv * (rate_back + refv)) by (nonlinear_arith)
        requires
            (amount - z) * (refv * refv) == m1 * rate_back + m2 * refv,
            0 <= m1 < refv,
            0 <= m2 < refv,
            rate_back > 0,
            refv > 0,
    ;
    assert((amount - z) * refv < rate_back + refv) by (nonlinear_arith)
        requires
            (amount - z) * (refv * refv) < refv * (rate_back + refv),
            refv > 0,
    ;
}

} // verus!
