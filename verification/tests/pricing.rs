//! Tests of the pricing function and the diagnostic ratio metric.

use defi_swap::{compute_pool_ratio, compute_target, SwapError};

#[test]
fn target_scenario_a() {
    // bIn = 1000, bOut = 2000, deposit = 100: floor(100 * 2000 / 1100) = 181.
    assert_eq!(compute_target(100, 1000, 2000), Ok(181));
}

#[test]
fn target_zero_deposit_pays_zero() {
    assert_eq!(compute_target(0, 1000, 2000), Ok(0));
    assert_eq!(compute_target(0, 1, 0), Ok(0));
    assert_eq!(compute_target(0, u128::MAX, u128::MAX), Ok(0));
}

#[test]
fn target_deposit_equal_to_balance_violates_invariant() {
    // d == bIn exactly: the formula is undefined, the call fails.
    assert_eq!(compute_target(1000, 1000, 2000), Err(SwapError::InvariantViolation));
}

#[test]
fn target_deposit_above_balance_violates_invariant() {
    assert_eq!(compute_target(1001, 1000, 2000), Err(SwapError::InvariantViolation));
    assert_eq!(compute_target(u128::MAX, 1, 5), Err(SwapError::InvariantViolation));
    assert_eq!(compute_target(0, 0, 2000), Err(SwapError::InvariantViolation));
}

#[test]
fn target_product_overflow_fails_closed() {
    // d * bOut exceeds the range: checked multiply fails, nothing wraps.
    let d = 1u128 << 100;
    let b_in = (1u128 << 100) + 1;
    let b_out = 1u128 << 100;
    assert_eq!(compute_target(d, b_in, b_out), Err(SwapError::ArithmeticOverflow));
}

#[test]
fn target_sum_overflow_fails_closed() {
    // bIn + d exceeds the range even though d * bOut does not.
    let d = u128::MAX - 1;
    let b_in = u128::MAX;
    let b_out = 1u128;
    assert_eq!(compute_target(d, b_in, b_out), Err(SwapError::ArithmeticOverflow));
}

#[test]
fn target_invariant_checked_before_overflow() {
    // A deposit at least the pool balance is reported as the invariant
    // violation even where the product would also overflow.
    assert_eq!(
        compute_target(u128::MAX, u128::MAX, u128::MAX),
        Err(SwapError::InvariantViolation)
    );
}

#[test]
fn target_monotone_in_counter_balance() {
    // For fixed d and bIn the payout never shrinks as bOut grows.
    let t1 = compute_target(10, 100, 200).unwrap();
    let t2 = compute_target(10, 100, 300).unwrap();
    let t3 = compute_target(10, 100, 301).unwrap();
    assert!(t1 <= t2 && t2 <= t3);
    assert_eq!(t1, 18);
    assert_eq!(t2, 27);
}

#[test]
fn target_largest_successful_inputs() {
    // The largest product that still fits: d = 1, bOut = MAX.
    assert_eq!(compute_target(1, 2, u128::MAX), Ok(u128::MAX / 3));
}

#[test]
fn pool_ratio_exact_product() {
    assert_eq!(compute_pool_ratio(6, 7), Ok(42));
    assert_eq!(compute_pool_ratio(0, u128::MAX), Ok(0));
    assert_eq!(compute_pool_ratio(1, u128::MAX), Ok(u128::MAX));
}

#[test]
fn pool_ratio_overflow_fails_closed() {
    let b = 1u128 << 64;
    assert_eq!(compute_pool_ratio(b, b), Err(SwapError::ArithmeticOverflow));
    assert_eq!(compute_pool_ratio(2, u128::MAX), Err(SwapError::ArithmeticOverflow));
}
