//! Tests of the fee engine.

use cpamm::fees::KBPS_PER_WHOLE;
use cpamm::fees::initial_fees;
use cpamm::state::SwapFees;
use cpamm::types::ErrorCode;

#[test]
fn validate_accepts_rates_up_to_whole() {
    let fees = SwapFees {
        trade_fee_kbps: KBPS_PER_WHOLE,
        withdraw_fee_kbps: 0,
        admin_trade_fee_kbps: 123,
        admin_withdraw_fee_kbps: KBPS_PER_WHOLE,
    };
    assert!(fees.validate().is_ok());
    assert!(initial_fees().validate().is_ok());
}

#[test]
fn validate_rejects_rates_over_whole() {
    let mut fees = initial_fees();
    fees.withdraw_fee_kbps = KBPS_PER_WHOLE + 1;
    assert_eq!(fees.validate(), Err(ErrorCode::InvalidFee));
    let mut fees = initial_fees();
    fees.admin_trade_fee_kbps = u64::MAX;
    assert_eq!(fees.validate(), Err(ErrorCode::InvalidFee));
}

#[test]
fn trade_fees_exact_values() {
    // fee = floor(amount * rate / 10_000_000); the admin fee is a fee on the
    // fee, not on the raw amount
    let fees = initial_fees();
    let (trade_fee, admin_trade_fee) = fees.compute_trade_fees(1_000_000).unwrap();
    assert_eq!(trade_fee, 3_000); // 1_000_000 * 30_000 / 10_000_000
    assert_eq!(admin_trade_fee, 480); // 3_000 * 1_600_000 / 10_000_000
    let (trade_fee, admin_trade_fee) = fees.compute_trade_fees(174_999).unwrap();
    assert_eq!(trade_fee, 524); // floor(174_999 * 0.003)
    assert_eq!(admin_trade_fee, 83); // floor(524 * 0.16)
}

#[test]
fn withdraw_fees_exact_values() {
    let fees = SwapFees {
        trade_fee_kbps: 0,
        withdraw_fee_kbps: 5_000_000, // 50%
        admin_trade_fee_kbps: 0,
        admin_withdraw_fee_kbps: 2_000_000, // 20% of the fee
    };
    let (withdraw_fee, admin_withdraw_fee) = fees.compute_withdraw_fees(1_001).unwrap();
    assert_eq!(withdraw_fee, 500);
    assert_eq!(admin_withdraw_fee, 100);
    // the initial configuration charges no withdraw fee at all
    assert_eq!(initial_fees().compute_withdraw_fees(123_456), Some((0, 0)));
}

#[test]
fn fees_fail_only_on_narrowing() {
    // with a rate over 100% (rejected by validate) the wide quotient can
    // exceed 64 bits, and the computation reports the overflow
    let fees = SwapFees {
        trade_fee_kbps: u64::MAX,
        withdraw_fee_kbps: u64::MAX,
        admin_trade_fee_kbps: 0,
        admin_withdraw_fee_kbps: 0,
    };
    assert!(fees.compute_trade_fees(u64::MAX).is_none());
    assert!(fees.compute_withdraw_fees(u64::MAX).is_none());
    // with valid rates the computation never fails, even at the width limit
    let fees = SwapFees {
        trade_fee_kbps: KBPS_PER_WHOLE,
        withdraw_fee_kbps: KBPS_PER_WHOLE,
        admin_trade_fee_kbps: KBPS_PER_WHOLE,
        admin_withdraw_fee_kbps: KBPS_PER_WHOLE,
    };
    assert_eq!(fees.compute_trade_fees(u64::MAX), Some((u64::MAX, u64::MAX)));
    assert_eq!(
        fees.compute_withdraw_fees(u64::MAX),
        Some((u64::MAX, u64::MAX))
    );
}

#[test]
fn fees_monotonic_and_bounded() {
    let fees = initial_fees();
    let mut last = (0, 0);
    for amount in [0u64, 1, 333, 1_000, 33_334, 1_000_000, u64::MAX / 2, u64::MAX] {
        let (fee, admin_fee) = fees.compute_trade_fees(amount).unwrap();
        // non-decreasing in the traded amount
        assert!(fee >= last.0);
        assert!(admin_fee >= last.1);
        // never exceeding the input amount while rates are valid
        assert!(fee <= amount);
        assert!(admin_fee <= fee);
        last = (fee, admin_fee);
    }
}
