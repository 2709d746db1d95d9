//! The deposit instruction controller.

use vstd::prelude::*;
use crate::price_info::price_update_spec;
use crate::state::PoolState;
use crate::state::track_deposit_spec;
use crate::types::ErrorCode;
use crate::types::RoundDirection;
use crate::types::TradingTokenResult;
use crate::xyk::lemma_deposit_value_per_share;
use crate::xyk::pool_tokens_to_trading_tokens;
use crate::xyk::trading_tokens_spec;

verus! {

/// Arguments of a deposit: the exact amount of pool shares to mint, and the
/// most of each token the depositor is willing to pay for them.
#[derive(Clone, Copy, Debug, PartialEq, Eq, Structural)]
pub struct DepositArgs {
    /// Amount of pool shares to mint.
    pub pool_token_amount: u64,
    /// Upper bound on the token-0 amount charged.
    pub maximum_amount_in_0: u64,
    /// Upper bound on the token-1 amount charged.
    pub maximum_amount_in_1: u64,
}

/// The pool state and charged amounts after a deposit, or the error that
/// aborts it.  A zero share amount is a no-op that still advances the price
/// accumulator and charges nothing (`None` outcome).  The charged amounts
/// are rounded up, join the reserves, and the requested shares join the
/// supply.
pub open spec fn deposit_spec(p: PoolState, args: DepositArgs, now: i64) -> Result<
    (PoolState, Option<TradingTokenResult>),
    ErrorCode,
> {
    match price_update_spec(p.price_info, p.token_0_reserve, p.token_1_reserve, now) {
        None => Err(ErrorCode::IntegerOverflow),
        Some(new_price) => {
            if p.pool_mint_supply == 0 {
                Err(ErrorCode::InvariantViolated)
            } else if args.pool_token_amount == 0 {
                Ok((PoolState { price_info: new_price, ..p }, None))
            } else if args.maximum_amount_in_0 == 0 {
                Err(ErrorCode::InvariantViolated)
            } else if args.maximum_amount_in_1 == 0 {
                Err(ErrorCode::InvariantViolated)
            } else {
                match trading_tokens_spec(
                    args.pool_token_amount,
                    p.pool_mint_supply,
                    p.token_0_reserve,
                    p.token_1_reserve,
                    RoundDirection::Ceiling,
                ) {
                    None => Err(ErrorCode::IntegerOverflow),
                    Some(res) => {
                        if res.token_a_amount > args.maximum_amount_in_0 {
                            Err(ErrorCode::ExceededSlippage)
                        } else if res.token_a_amount == 0 {
                            Err(ErrorCode::InsufficientLiquidity)
                        } else if res.token_b_amount > args.maximum_amount_in_1 {
                            Err(ErrorCode::ExceededSlippage)
                        } else if res.token_b_amount == 0 {
                            Err(ErrorCode::InsufficientLiquidity)
                        } else if p.token_0_reserve + res.token_a_amount > u64::MAX
                            || p.token_1_reserve + res.token_b_amount > u64::MAX
                            || p.pool_mint_supply + args.pool_token_amount > u64::MAX {
                            Err(ErrorCode::IntegerOverflow)
                        } else {
                            match track_deposit_spec(
                                p.cumulative_stats,
                                args.pool_token_amount,
                                res.token_a_amount,
                                res.token_b_amount,
                            ) {
                                None => Err(ErrorCode::IntegerOverflow),
                                Some(stats) => Ok(
                                    (
                                        PoolState {
                                            token_0_reserve: (p.token_0_reserve
                                                + res.token_a_amount) as u64,
                                            token_1_reserve: (p.token_1_reserve
                                                + res.token_b_amount) as u64,
                                            pool_mint_supply: (p.pool_mint_supply
                                                + args.pool_token_amount) as u64,
                                            fees: p.fees,
                                            cumulative_stats: stats,
                                            price_info: new_price,
                                        },
                                        Some(res),
                                    ),
                                ),
                            }
                        }
                    },
                }
            }
        },
    }
}

/// A successful deposit never decreases the value per share: per side,
/// (cross-multiplied) `newReserve / newSupply ≥ reserve / supply`.
pub proof fn lemma_deposit_op_preserves_value_per_share(
    p: PoolState,
    args: DepositArgs,
    now: i64,
    p2: PoolState,
    charged: TradingTokenResult,
)
    requires
        deposit_spec(p, args, now) == Ok::<(PoolState, Option<TradingTokenResult>), ErrorCode>(
            (p2, Some(charged)),
        ),
    ensures
        p2.token_0_reserve * p.pool_mint_supply >= p.token_0_reserve * p2.pool_mint_supply,
        p2.token_1_reserve * p.pool_mint_supply >= p.token_1_reserve * p2.pool_mint_supply,
{
    lemma_deposit_value_per_share(
        args.pool_token_amount,
        p.pool_mint_supply,
        p.token_0_reserve,
        charged.token_a_amount as int,
    );
    lemma_deposit_value_per_share(
        args.pool_token_amount,
        p.pool_mint_supply,
        p.token_1_reserve,
        charged.token_b_amount as int,
    );
}

/// A deposit never lowers the share supply, so it keeps the pool above any
/// floor the supply already meets.
pub proof fn lemma_deposit_never_lowers_supply(p: PoolState, args: DepositArgs, now: i64)
    requires
        deposit_spec(p, args, now) is Ok,
    ensures
        deposit_spec(p, args, now)->Ok_0.0.pool_mint_supply >= p.pool_mint_supply,
{
}

/// Deposit.  Updates the price accumulator from the pre-deposit reserves,
/// charges the rounded-up proportional amounts for the requested shares
/// within the caller's bounds, and applies the movements, or fails with the
/// state untouched.  A zero share amount returns `None` and changes nothing
/// but the price accumulator.
pub fn deposit(pool: &mut PoolState, args: DepositArgs, now: i64) -> (r: Result<
    Option<TradingTokenResult>,
    ErrorCode,
>)
    ensures
        match r {
            Ok(o) => deposit_spec(*old(pool), args, now) == Ok::<
                (PoolState, Option<TradingTokenResult>),
                ErrorCode,
            >((*final(pool), o)),
            Err(e) => deposit_spec(*old(pool), args, now) == Err::<
                (PoolState, Option<TradingTokenResult>),
                ErrorCode,
            >(e) && *final(pool) == *old(pool),
        },
{
    // update cumulative price info before the short circuit, so the numbers
    // are accurate
    let mut price_info = pool.price_info;
    match price_info.update_cumulative_price_info(pool.token_0_reserve, pool.token_1_reserve, now) {
        Err(e) => return Err(e),
        Ok(()) => {},
    }
    if pool.pool_mint_supply == 0 {
        return Err(ErrorCode::InvariantViolated);
    }
    if args.pool_token_amount == 0 {
        pool.price_info = price_info;
        return Ok(None);
    }
    if args.maximum_amount_in_0 == 0 {
        return Err(ErrorCode::InvariantViolated);
    }
    if args.maximum_amount_in_1 == 0 {
        return Err(ErrorCode::InvariantViolated);
    }
    let res = match pool_tokens_to_trading_tokens(
        args.pool_token_amount,
        pool.pool_mint_supply,
        pool.token_0_reserve,
        pool.token_1_reserve,
        RoundDirection::Ceiling,
    ) {
        None => return Err(ErrorCode::IntegerOverflow),
        Some(v) => v,
    };
    if res.token_a_amount > args.maximum_amount_in_0 {
        return Err(ErrorCode::ExceededSlippage);
    }
    if res.token_a_amount == 0 {
        return Err(ErrorCode::InsufficientLiquidity);
    }
    if res.token_b_amount > args.maximum_amount_in_1 {
        return Err(ErrorCode::ExceededSlippage);
    }
    if res.token_b_amount == 0 {
        return Err(ErrorCode::InsufficientLiquidity);
    }
    // the charged tokens join the reserves and the shares join the supply
    let new_reserve_0 = match pool.token_0_reserve.checked_add(res.token_a_amount) {
        None => return Err(ErrorCode::IntegerOverflow),
        Some(v) => v,
    };
    let new_reserve_1 = match pool.token_1_reserve.checked_add(res.token_b_amount) {
        None => return Err(ErrorCode::IntegerOverflow),
        Some(v) => v,
    };
    let new_supply = match pool.pool_mint_supply.checked_add(args.pool_token_amount) {
        None => return Err(ErrorCode::IntegerOverflow),
        Some(v) => v,
    };
    let mut stats = pool.cumulative_stats;
    match stats.track_cumulative_deposit_volume(
        args.pool_token_amount,
        res.token_a_amount,
        res.token_b_amount,
    ) {
        Err(e) => return Err(e),
        Ok(()) => {},
    }
    pool.token_0_reserve = new_reserve_0;
    pool.token_1_reserve = new_reserve_1;
    pool.pool_mint_supply = new_supply;
    pool.cumulative_stats = stats;
    pool.price_info = price_info;
    Ok(Some(res))
}

} // verus!
