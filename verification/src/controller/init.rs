//! Creation of a new pool's state.

use vstd::prelude::*;
use vstd::arithmetic::mul::lemma_mul_inequality;
use crate::fees::initial_fees;
use crate::math::lemma_sqrt_floor_bounds;
use crate::math::sqrt_floor;
use crate::state::PoolState;
use crate::state::SwapCumulativeStats;
use crate::state::SwapFees;
use crate::state::SwapPriceInfo;
use crate::state::zeroed_stats;
use crate::types::ErrorCode;
use crate::xyk::MINIMUM_LIQUIDITY;
use crate::xyk::calculate_initial_swap_pool_amount;

verus! {

/// The state of a new pool created at time `now` with the given initial
/// reserves, or the error that rejects it.  Both reserves must be nonzero;
/// the initial share issuance is the geometric mean of the reserves and must
/// reach the minimum liquidity floor; the statistics start at zero, the
/// price accumulators at zero with the creation timestamp, and the fees at
/// the initial configuration.
pub open spec fn new_swap_spec(reserve_0: u64, reserve_1: u64, now: i64) -> Result<
    PoolState,
    ErrorCode,
> {
    if reserve_0 == 0 || reserve_1 == 0 {
        Err(ErrorCode::NewSwapMustHaveNonZeroSupply)
    } else {
        let initial_liquidity = sqrt_floor(reserve_0 * reserve_1);
        if initial_liquidity < MINIMUM_LIQUIDITY {
            Err(ErrorCode::InitialLiquidityTooLow)
        } else {
            Ok(PoolState {
                token_0_reserve: reserve_0,
                token_1_reserve: reserve_1,
                pool_mint_supply: initial_liquidity as u64,
                fees: SwapFees {
                    trade_fee_kbps: 30_000,
                    withdraw_fee_kbps: 0,
                    admin_trade_fee_kbps: 1_600_000,
                    admin_withdraw_fee_kbps: 10_000_000,
                },
                cumulative_stats: zeroed_stats(),
                price_info: SwapPriceInfo {
                    last_update_ts: now,
                    price_0_cumulative_last: 0,
                    price_1_cumulative_last: 0,
                },
            })
        }
    }
}

/// A new pool starts with its share supply at or above the minimum
/// liquidity floor.
pub proof fn lemma_new_swap_meets_liquidity_floor(reserve_0: u64, reserve_1: u64, now: i64)
    requires
        new_swap_spec(reserve_0, reserve_1, now) is Ok,
    ensures
        new_swap_spec(reserve_0, reserve_1, now)->Ok_0.pool_mint_supply >= MINIMUM_LIQUIDITY,
{
    lemma_mul_inequality(reserve_0 as int, u64::MAX as int, reserve_1 as int);
    lemma_mul_inequality(reserve_1 as int, u64::MAX as int, u64::MAX as int);
    lemma_sqrt_floor_bounds(reserve_0 * reserve_1);
}

/// Creates the state of a new pool from its initial reserves, at time `now`.
/// Mints the geometric mean of the reserves as the initial share issuance to
/// the first depositor, rejecting empty reserves and pools too small to keep
/// the minimum liquidity.
pub fn new_swap(reserve_0: u64, reserve_1: u64, now: i64) -> (r: Result<PoolState, ErrorCode>)
    ensures
        r == new_swap_spec(reserve_0, reserve_1, now),
{
    if reserve_0 == 0 || reserve_1 == 0 {
        return Err(ErrorCode::NewSwapMustHaveNonZeroSupply);
    }
    let initial_liquidity = match calculate_initial_swap_pool_amount(reserve_0, reserve_1) {
        None => return Err(ErrorCode::IntegerOverflow),
        Some(v) => v,
    };
    if initial_liquidity < MINIMUM_LIQUIDITY {
        return Err(ErrorCode::InitialLiquidityTooLow);
    }
    Ok(PoolState {
        token_0_reserve: reserve_0,
        token_1_reserve: reserve_1,
        pool_mint_supply: initial_liquidity,
        fees: initial_fees(),
        cumulative_stats: SwapCumulativeStats::zeroed(),
        price_info: SwapPriceInfo {
            last_update_ts: now,
            price_0_cumulative_last: 0,
            price_1_cumulative_last: 0,
        },
    })
}

} // verus!
