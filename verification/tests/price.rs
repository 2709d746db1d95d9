//! Tests of the price accumulator.

use cpamm::state::SwapPriceInfo;
use cpamm::types::ErrorCode;

const PRECISION: u128 = 1_000_000_000_000_000_000;

fn fresh(last_update_ts: i64) -> SwapPriceInfo {
    SwapPriceInfo {
        last_update_ts,
        price_0_cumulative_last: 0,
        price_1_cumulative_last: 0,
    }
}

#[test]
fn update_accumulates_scaled_prices() {
    let mut info = fresh(100);
    info.update_cumulative_price_info(1, 2, 103).unwrap();
    // price of token 0 is reserve_1 / reserve_0, scaled by 10^18, times the
    // three elapsed seconds; symmetrically for token 1
    assert_eq!(info.price_0_cumulative_last, 2 * PRECISION * 3);
    assert_eq!(info.price_1_cumulative_last, (PRECISION / 2) * 3);
    assert_eq!(info.last_update_ts, 103);
}

#[test]
fn update_twice_with_no_elapsed_time_changes_nothing() {
    let mut info = fresh(100);
    info.update_cumulative_price_info(5, 7, 200).unwrap();
    let after_first = info;
    info.update_cumulative_price_info(5, 7, 200).unwrap();
    assert_eq!(info, after_first);
}

#[test]
fn update_with_zero_reserve_changes_nothing() {
    let mut info = fresh(100);
    info.update_cumulative_price_info(0, 7, 200).unwrap();
    assert_eq!(info, fresh(100));
    info.update_cumulative_price_info(7, 0, 200).unwrap();
    assert_eq!(info, fresh(100));
}

#[test]
fn update_with_clock_regression_changes_nothing() {
    let mut info = fresh(100);
    info.update_cumulative_price_info(5, 7, 99).unwrap();
    assert_eq!(info, fresh(100));
}

#[test]
fn update_wraps_on_accumulator_overflow() {
    // wrap-on-overflow addition is a deliberate property of the oracle: a
    // consumer reads differences modulo the accumulator width
    let mut info = SwapPriceInfo {
        last_update_ts: 0,
        price_0_cumulative_last: u128::MAX,
        price_1_cumulative_last: u128::MAX - 1,
    };
    info.update_cumulative_price_info(1, 1, 1).unwrap();
    // each side gains exactly 10^18
    assert_eq!(info.price_0_cumulative_last, PRECISION - 1);
    assert_eq!(info.price_1_cumulative_last, PRECISION - 2);
    assert_eq!(info.last_update_ts, 1);
}

#[test]
fn update_fails_on_elapsed_overflow() {
    let mut info = fresh(i64::MIN);
    let before = info;
    let r = info.update_cumulative_price_info(1, 1, i64::MAX);
    assert_eq!(r, Err(ErrorCode::IntegerOverflow));
    assert_eq!(info, before);
}

#[test]
fn update_fails_on_increment_overflow() {
    // a huge price ratio times a huge elapsed time does not fit 128 bits
    let mut info = fresh(0);
    let before = info;
    let r = info.update_cumulative_price_info(1, u64::MAX, i64::MAX);
    assert_eq!(r, Err(ErrorCode::IntegerOverflow));
    assert_eq!(info, before);
}
