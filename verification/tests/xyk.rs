//! Tests of the constant-product calculator.

use cpamm::types::RoundDirection;
use cpamm::xyk::calculate_initial_swap_pool_amount;
use cpamm::xyk::pool_tokens_to_trading_tokens;
use cpamm::xyk::swap;

fn check_pool_token_rate(
    token_a: u64,
    token_b: u64,
    deposit: u64,
    supply: u64,
    expected_a: u64,
    expected_b: u64,
) {
    let results = pool_tokens_to_trading_tokens(
        deposit,
        supply,
        token_a,
        token_b,
        RoundDirection::Ceiling,
    )
    .unwrap();
    assert_eq!(results.token_a_amount, expected_a);
    assert_eq!(results.token_b_amount, expected_b);
}

#[test]
fn trading_token_conversion() {
    check_pool_token_rate(2, 49, 5, 10, 1, 25);
    check_pool_token_rate(100, 202, 5, 101, 5, 10);
    check_pool_token_rate(5, 501, 2, 10, 1, 101);
}

#[test]
fn fail_trading_token_conversion() {
    let results = pool_tokens_to_trading_tokens(u64::MAX, 100, u64::MAX, 0, RoundDirection::Floor);
    assert!(results.is_none());
    let results = pool_tokens_to_trading_tokens(u64::MAX, 10, 0, u64::MAX, RoundDirection::Floor);
    assert!(results.is_none());
}

fn test_truncation(
    source_amount: u64,
    swap_source_amount: u64,
    swap_destination_amount: u64,
    expected_source_amount_swapped: u64,
    expected_destination_amount_swapped: u64,
) {
    let invariant = swap_source_amount * swap_destination_amount;
    let result = swap(source_amount, swap_source_amount, swap_destination_amount).unwrap();
    assert_eq!(result.source_amount_swapped, expected_source_amount_swapped);
    assert_eq!(
        result.destination_amount_swapped,
        expected_destination_amount_swapped
    );
    let new_invariant = (swap_source_amount + result.source_amount_swapped)
        * (swap_destination_amount - result.destination_amount_swapped);
    assert!(new_invariant >= invariant);
}

#[test]
fn constant_product_swap_rounding() {
    // much too small
    assert!(swap(10, 70_000_000_000, 4_000_000).is_none()); // spot: 10 * 4m / 70b = 0

    let tests: &[(u64, u64, u64, u64, u64)] = &[
        (10, 4_000_000, 70_000_000_000, 10, 174_999), // spot: 10 * 70b / ~4m = 174,999.99
        (20, 30_000 - 20, 10_000, 18, 6), // spot: 20 * 1 / 3.000 = 6.6667 (source can be 18 to get 6 dest.)
        (19, 30_000 - 20, 10_000, 18, 6), // spot: 19 * 1 / 2.999 = 6.3334 (source can be 18 to get 6 dest.)
        (18, 30_000 - 20, 10_000, 18, 6), // spot: 18 * 1 / 2.999 = 6.0001
        (10, 20_000, 30_000, 10, 14),     // spot: 10 * 3 / 2.0010 = 14.99
        (10, 20_000 - 9, 30_000, 10, 14), // spot: 10 * 3 / 2.0001 = 14.999
        (10, 20_000 - 10, 30_000, 10, 15), // spot: 10 * 3 / 2.0000 = 15
        (100, 60_000, 30_000, 99, 49), // spot: 100 * 3 / 6.001 = 49.99 (source can be 99 to get 49 dest.)
        (99, 60_000, 30_000, 99, 49),  // spot: 99 * 3 / 6.001 = 49.49
        (98, 60_000, 30_000, 97, 48), // spot: 98 * 3 / 6.001 = 48.99 (source can be 97 to get 48 dest.)
    ];
    for (
        source_amount,
        swap_source_amount,
        swap_destination_amount,
        expected_source_amount,
        expected_destination_amount,
    ) in tests.iter()
    {
        test_truncation(
            *source_amount,
            *swap_source_amount,
            *swap_destination_amount,
            *expected_source_amount,
            *expected_destination_amount,
        );
    }
}

#[test]
fn swap_legs_are_never_zero() {
    // a successful swap moves at least one token on each leg
    let result = swap(18, 30_000 - 20, 10_000).unwrap();
    assert!(result.source_amount_swapped > 0);
    assert!(result.destination_amount_swapped > 0);
    // a swap whose source leg would round to zero yields nothing
    assert!(swap(10, 70_000_000_000, 4_000_000).is_none());
}

#[test]
fn swap_invariant_never_decreases_large_values() {
    // the product of the reserves never decreases, even at the width limit
    let ss: u64 = u64::MAX;
    let ds: u64 = u64::MAX;
    let result = swap(1_000_000, ss, ds).unwrap();
    let old_invariant = (ss as u128) * (ds as u128);
    let new_invariant = (ss as u128 + result.source_amount_swapped as u128)
        * (ds as u128 - result.destination_amount_swapped as u128);
    assert!(new_invariant >= old_invariant);
}

#[test]
fn initial_pool_amount_is_integer_sqrt() {
    assert_eq!(calculate_initial_swap_pool_amount(4, 9), Some(6));
    assert_eq!(calculate_initial_swap_pool_amount(10, 10), Some(10));
    assert_eq!(calculate_initial_swap_pool_amount(7, 5), Some(5));
    assert_eq!(calculate_initial_swap_pool_amount(0, 5), Some(0));
    assert_eq!(
        calculate_initial_swap_pool_amount(u64::MAX, u64::MAX),
        Some(u64::MAX)
    );
    assert_eq!(
        calculate_initial_swap_pool_amount(1, u64::MAX),
        Some(4_294_967_295)
    );
}

#[test]
fn trading_tokens_floor_vs_ceiling() {
    // floor leaves the inexact share down; ceiling bumps it, but never bumps
    // a zero
    let floor = pool_tokens_to_trading_tokens(5, 10, 2, 49, RoundDirection::Floor).unwrap();
    assert_eq!((floor.token_a_amount, floor.token_b_amount), (1, 24));
    let ceil = pool_tokens_to_trading_tokens(5, 10, 2, 49, RoundDirection::Ceiling).unwrap();
    assert_eq!((ceil.token_a_amount, ceil.token_b_amount), (1, 25));
    let tiny = pool_tokens_to_trading_tokens(1, 10, 5, 49, RoundDirection::Ceiling).unwrap();
    assert_eq!(tiny.token_a_amount, 0);
    assert_eq!(tiny.token_b_amount, 5);
}

#[test]
fn trading_tokens_zero_supply_fails() {
    assert!(pool_tokens_to_trading_tokens(5, 0, 10, 10, RoundDirection::Floor).is_none());
    assert!(pool_tokens_to_trading_tokens(5, 0, 10, 10, RoundDirection::Ceiling).is_none());
}

#[test]
fn deposit_value_per_share_never_decreases() {
    // (reserveA + tokenA) * supply >= reserveA * (supply + shareAmount)
    let cases: &[(u64, u64, u64, u64)] = &[
        (5, 10, 2, 49),
        (5, 101, 100, 202),
        (2, 10, 5, 501),
        (999, 1_000, 123_456_789, 987_654_321),
    ];
    for (pool_tokens, supply, reserve_a, reserve_b) in cases.iter() {
        let r = pool_tokens_to_trading_tokens(
            *pool_tokens,
            *supply,
            *reserve_a,
            *reserve_b,
            RoundDirection::Ceiling,
        )
        .unwrap();
        assert!(r.token_a_amount > 0 && r.token_b_amount > 0);
        assert!(
            (*reserve_a as u128 + r.token_a_amount as u128) * (*supply as u128)
                >= (*reserve_a as u128) * (*supply as u128 + *pool_tokens as u128)
        );
        assert!(
            (*reserve_b as u128 + r.token_b_amount as u128) * (*supply as u128)
                >= (*reserve_b as u128) * (*supply as u128 + *pool_tokens as u128)
        );
    }
}

#[test]
fn withdraw_value_per_share_never_decreases() {
    // (reserveA - tokenA) * supply >= reserveA * (supply - shareAmount)
    let cases: &[(u64, u64, u64, u64)] = &[
        (5, 10, 2, 49),
        (100, 101, 100, 202),
        (2, 10, 5, 501),
        (999, 1_000, 123_456_789, 987_654_321),
    ];
    for (pool_tokens, supply, reserve_a, reserve_b) in cases.iter() {
        let r = pool_tokens_to_trading_tokens(
            *pool_tokens,
            *supply,
            *reserve_a,
            *reserve_b,
            RoundDirection::Floor,
        )
        .unwrap();
        assert!(
            (*reserve_a as u128 - r.token_a_amount as u128) * (*supply as u128)
                >= (*reserve_a as u128) * (*supply as u128 - *pool_tokens as u128)
        );
        assert!(
            (*reserve_b as u128 - r.token_b_amount as u128) * (*supply as u128)
                >= (*reserve_b as u128) * (*supply as u128 - *pool_tokens as u128)
        );
    }
}
