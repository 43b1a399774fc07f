//! The pricing function of the pool, and its diagnostic ratio metric.
//!
//! All money-bearing arithmetic is checked: a product or sum that would
//! exceed the numeric range makes the computation fail, never wrap.

use vstd::arithmetic::div_mod::lemma_div_is_ordered;
use vstd::arithmetic::mul::lemma_mul_inequality;
use vstd::prelude::*;

use crate::errors::SwapError;

verus! {

/// The payout for depositing `d` of one token into a pool that holds
/// `b_in` of it and `b_out` of the counter token:
/// `floor(d * b_out / (b_in + d))`.
///
/// This is a constant-sum-style approximation: it does not remove the
/// payout from `b_out` before dividing, unlike a full constant-product
/// curve.  That is a deliberate modeling choice of the pool, not an
/// oversight.
pub open spec fn target_amount(d: int, b_in: int, b_out: int) -> int
    recommends
        b_in + d > 0,
{
    (d * b_out) / (b_in + d)
}

/// What `compute_target` returns, for every input: the deposit must be
/// strictly below the pool's balance of the deposited token, and both the
/// product and the sum of the formula must fit the numeric range.
pub open spec fn spec_compute_target(d: u128, b_in: u128, b_out: u128) -> Result<u128, SwapError> {
    if d >= b_in {
        Err(SwapError::InvariantViolation)
    } else if d * b_out > u128::MAX || b_in + d > u128::MAX {
        Err(SwapError::ArithmeticOverflow)
    } else {
        Ok(target_amount(d as int, b_in as int, b_out as int) as u128)
    }
}

/// The payout owed for a deposit of `deposit`, priced against the pool's
/// balances `balance_in` (of the deposited token) and `balance_out` (of
/// the counter token).
pub fn compute_target(deposit: u128, balance_in: u128, balance_out: u128) -> (r: Result<
    u128,
    SwapError,
>)
    ensures
        r == spec_compute_target(deposit, balance_in, balance_out),
{
    if deposit >= balance_in {
        return Err(SwapError::InvariantViolation);
    }
    let m = deposit.checked_mul(balance_out);
    let n = balance_in.checked_add(deposit);
    match (m, n) {
        (Some(m), Some(n)) => Ok(m / n),
        _ => Err(SwapError::ArithmeticOverflow),
    }
}

/// What `compute_pool_ratio` returns, for every input.
pub open spec fn spec_compute_pool_ratio(balance_a: u128, balance_b: u128) -> Result<
    u128,
    SwapError,
> {
    if balance_a * balance_b > u128::MAX {
        Err(SwapError::ArithmeticOverflow)
    } else {
        Ok((balance_a * balance_b) as u128)
    }
}

/// The diagnostic pool-ratio metric: the product of the pool's two
/// balances.  Purely informational; not used for pricing.
pub fn compute_pool_ratio(balance_a: u128, balance_b: u128) -> (r: Result<u128, SwapError>)
    ensures
        r == spec_compute_pool_ratio(balance_a, balance_b),
{
    match balance_a.checked_mul(balance_b) {
        Some(p) => Ok(p),
        None => Err(SwapError::ArithmeticOverflow),
    }
}

/// A deposit of zero is paid zero: for every pool with a positive balance
/// of the deposited token, the target computation succeeds and returns 0.
pub proof fn lemma_target_zero_deposit(b_in: u128, b_out: u128)
    requires
        b_in > 0,
    ensures
        spec_compute_target(0, b_in, b_out) == Ok::<u128, SwapError>(0),
{
    assert(0 * b_out == 0);
    assert(target_amount(0, b_in as int, b_out as int) == 0) by {
        vstd::arithmetic::div_mod::lemma_div_of0(b_in as int);
    }
}

/// For a fixed deposit and a fixed balance of the deposited token, the
/// payout is non-decreasing in the pool's balance of the counter token:
/// whenever both computations succeed, a larger `b_out` pays at least as
/// much.
pub proof fn lemma_target_monotone_in_balance_out(d: u128, b_in: u128, b_out1: u128, b_out2: u128)
    requires
        d < b_in,
        b_out1 <= b_out2,
        d * b_out2 <= u128::MAX,
        b_in + d <= u128::MAX,
    ensures
        spec_compute_target(d, b_in, b_out1) matches Ok(t1) && spec_compute_target(
            d,
            b_in,
            b_out2,
        ) matches Ok(t2) && t1 <= t2,
{
    lemma_mul_inequality(b_out1 as int, b_out2 as int, d as int);
    assert(b_out1 * d == d * b_out1) by {
        vstd::arithmetic::mul::lemma_mul_is_commutative(b_out1 as int, d as int);
    }
    assert(b_out2 * d == d * b_out2) by {
        vstd::arithmetic::mul::lemma_mul_is_commutative(b_out2 as int, d as int);
    }
    lemma_div_is_ordered(d * b_out1, d * b_out2, b_in + d);
}

} // verus!
