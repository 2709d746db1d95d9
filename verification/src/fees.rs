//! The fee engine: trade and withdrawal fees, each with an admin-retained
//! sub-portion, from a fixed-point rate configuration.

use vstd::prelude::*;
use vstd::arithmetic::div_mod::lemma_div_is_ordered;
use vstd::arithmetic::div_mod::lemma_div_multiples_vanish;
use vstd::arithmetic::div_mod::lemma_div_pos_is_pos;
use vstd::arithmetic::mul::lemma_mul_inequality;
use vstd::arithmetic::mul::lemma_mul_nonnegative;
use crate::math::mul_div_u64;
use crate::state::SwapFees;
use crate::types::ErrorCode;

verus! {

/// Thousands of basis points in 100%.
pub const KBPS_PER_WHOLE: u64 = 10_000_000;

/// The fee taken from `amount` at the fixed-point rate `rate_kbps`:
/// `floor(amount · rate_kbps / 10,000,000)`.
pub open spec fn fee_amount(amount: int, rate_kbps: int) -> int {
    amount * rate_kbps / (KBPS_PER_WHOLE as int)
}

/// A fee and its admin-retained sub-portion.  The admin part is a fee **on
/// the fee**, not on the raw amount.  `None` when either narrowing to a
/// `u64` fails, which cannot happen while the rates are valid.
pub open spec fn fee_pair_spec(amount: u64, rate_kbps: u64, admin_rate_kbps: u64) -> Option<(u64, u64)> {
    let fee = fee_amount(amount as int, rate_kbps as int);
    if fee > u64::MAX {
        None
    } else {
        let admin_fee = fee_amount(fee, admin_rate_kbps as int);
        if admin_fee > u64::MAX {
            None
        } else {
            Some((fee as u64, admin_fee as u64))
        }
    }
}

impl SwapFees {
    /// Whether every rate is at most 100%.
    pub open spec fn is_valid(&self) -> bool {
        &&& self.trade_fee_kbps <= KBPS_PER_WHOLE
        &&& self.withdraw_fee_kbps <= KBPS_PER_WHOLE
        &&& self.admin_trade_fee_kbps <= KBPS_PER_WHOLE
        &&& self.admin_withdraw_fee_kbps <= KBPS_PER_WHOLE
    }

    /// Validates the fees: every rate must be at most 100%.  Violating
    /// configurations are rejected here, at configuration time, never at
    /// trade time.
    pub fn validate(&self) -> (r: Result<(), ErrorCode>)
        ensures
            r is Ok <==> self.is_valid(),
            !self.is_valid() ==> r == Err::<(), ErrorCode>(ErrorCode::InvalidFee),
    {
        if self.trade_fee_kbps <= KBPS_PER_WHOLE && self.withdraw_fee_kbps <= KBPS_PER_WHOLE
            && self.admin_trade_fee_kbps <= KBPS_PER_WHOLE
            && self.admin_withdraw_fee_kbps <= KBPS_PER_WHOLE {
            Ok(())
        } else {
            Err(ErrorCode::InvalidFee)
        }
    }

    /// Compute the trade fee and the admin trade fee from the destination
    /// amount swapped.
    pub fn compute_trade_fees(&self, destination_amount_swapped: u64) -> (r: Option<(u64, u64)>)
        ensures
            r == fee_pair_spec(
                destination_amount_swapped,
                self.trade_fee_kbps,
                self.admin_trade_fee_kbps,
            ),
    {
        let trade_fee = match mul_div_u64(
            destination_amount_swapped,
            self.trade_fee_kbps,
            KBPS_PER_WHOLE,
        ) {
            None => return None,
            Some(v) => v,
        };
        let admin_trade_fee = match mul_div_u64(trade_fee, self.admin_trade_fee_kbps, KBPS_PER_WHOLE) {
            None => return None,
            Some(v) => v,
        };
        Some((trade_fee, admin_trade_fee))
    }

    /// Compute the withdraw fee and the admin withdraw fee from the
    /// withdrawal amount, with the same composition as the trade fees.
    pub fn compute_withdraw_fees(&self, withdrawal_amount: u64) -> (r: Option<(u64, u64)>)
        ensures
            r == fee_pair_spec(
                withdrawal_amount,
                self.withdraw_fee_kbps,
                self.admin_withdraw_fee_kbps,
            ),
    {
        let withdraw_fee = match mul_div_u64(withdrawal_amount, self.withdraw_fee_kbps, KBPS_PER_WHOLE) {
            None => return None,
            Some(v) => v,
        };
        let admin_withdraw_fee = match mul_div_u64(
            withdraw_fee,
            self.admin_withdraw_fee_kbps,
            KBPS_PER_WHOLE,
        ) {
            None => return None,
            Some(v) => v,
        };
        Some((withdraw_fee, admin_withdraw_fee))
    }
}

/// The fee configuration of newly created pools.
pub fn initial_fees() -> (r: SwapFees)
    ensures
        r == (SwapFees {
            trade_fee_kbps: 30_000,
            withdraw_fee_kbps: 0,
            admin_trade_fee_kbps: 1_600_000,
            admin_withdraw_fee_kbps: 10_000_000,
        }),
        r.is_valid(),
{
    SwapFees {
        trade_fee_kbps: 30_000,
        withdraw_fee_kbps: 0,
        admin_trade_fee_kbps: 1_600_000,
        admin_withdraw_fee_kbps: 10_000_000,
    }
}

/// A fee never decreases when the amount it is taken from grows.
pub proof fn lemma_fee_amount_monotonic(a1: int, a2: int, rate_kbps: int)
    requires
        0 <= a1 <= a2,
        0 <= rate_kbps,
    ensures
        fee_amount(a1, rate_kbps) <= fee_amount(a2, rate_kbps),
{
    lemma_mul_inequality(a1, a2, rate_kbps);
    lemma_div_is_ordered(a1 * rate_kbps, a2 * rate_kbps, KBPS_PER_WHOLE as int);
}

/// A fee at a rate of at most 100% never exceeds the amount it is taken from.
pub proof fn lemma_fee_amount_bounded(amount: int, rate_kbps: int)
    requires
        0 <= amount,
        0 <= rate_kbps <= KBPS_PER_WHOLE,
    ensures
        0 <= fee_amount(amount, rate_kbps) <= amount,
{
    let k = KBPS_PER_WHOLE as int;
    lemma_mul_nonnegative(amount, rate_kbps);
    lemma_div_pos_is_pos(amount * rate_kbps, k);
    lemma_mul_inequality(rate_kbps, k, amount);
    lemma_div_is_ordered(amount * rate_kbps, k * amount, k);
    lemma_div_multiples_vanish(amount, k);
}

/// Both components of a fee pair are monotonically non-decreasing in the
/// amount the fee is taken from.
pub proof fn lemma_fee_pair_monotonic(rate_kbps: int, admin_rate_kbps: int, a1: int, a2: int)
    requires
        0 <= a1 <= a2,
        0 <= rate_kbps,
        0 <= admin_rate_kbps,
    ensures
        fee_amount(a1, rate_kbps) <= fee_amount(a2, rate_kbps),
        fee_amount(fee_amount(a1, rate_kbps), admin_rate_kbps)
            <= fee_amount(fee_amount(a2, rate_kbps), admin_rate_kbps),
{
    lemma_fee_amount_monotonic(a1, a2, rate_kbps);
    lemma_mul_nonnegative(a1, rate_kbps);
    lemma_div_pos_is_pos(a1 * rate_kbps, KBPS_PER_WHOLE as int);
    lemma_fee_amount_monotonic(fee_amount(a1, rate_kbps), fee_amount(a2, rate_kbps), admin_rate_kbps);
}

/// With valid rates a fee pair always narrows: the fee never exceeds the
/// amount, and the admin portion never exceeds the fee.
pub proof fn lemma_fee_pair_bounded(amount: u64, rate_kbps: u64, admin_rate_kbps: u64)
    requires
        rate_kbps <= KBPS_PER_WHOLE,
        admin_rate_kbps <= KBPS_PER_WHOLE,
    ensures
        fee_pair_spec(amount, rate_kbps, admin_rate_kbps) matches Some(p) && p.0 <= amount
            && p.1 <= p.0,
{
    lemma_fee_amount_bounded(amount as int, rate_kbps as int);
    lemma_fee_amount_bounded(fee_amount(amount as int, rate_kbps as int), admin_rate_kbps as int);
}

} // verus!
