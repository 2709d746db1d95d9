//! The withdraw instruction controller.

use vstd::prelude::*;
use vstd::arithmetic::mul::lemma_mul_inequality;
use crate::fees::fee_pair_spec;
use crate::fees::lemma_fee_pair_bounded;
use crate::price_info::price_update_spec;
use crate::state::PoolState;
use crate::state::SwapFees;
use crate::state::track_withdraw_spec;
use crate::types::ErrorCode;
use crate::types::RoundDirection;
use crate::xyk::MINIMUM_LIQUIDITY;
use crate::xyk::lemma_withdraw_value_per_share;
use crate::xyk::pool_tokens_to_trading_tokens;
use crate::xyk::trading_token_amount;
use crate::xyk::trading_tokens_spec;

verus! {

/// Arguments of a withdrawal: the amount of pool shares to redeem and the
/// least of each token the withdrawer will accept.
#[derive(Clone, Copy, Debug, PartialEq, Eq, Structural)]
pub struct WithdrawArgs {
    /// Amount of pool shares to redeem.
    pub amount_in: u64,
    /// Lower bound on the token-0 amount paid out.
    pub minimum_amount_out_0: u64,
    /// Lower bound on the token-1 amount paid out.
    pub minimum_amount_out_1: u64,
}

/// Every balance movement of a successful withdrawal.  Per side, the user
/// receives the gross amount less the withdraw fee; the admin part of the
/// fee leaves the reserve too; the rest of the fee stays in the reserve.
#[derive(Clone, Copy, Debug, PartialEq, Eq, Structural)]
pub struct WithdrawOutcome {
    /// Gross token-0 amount priced out of the reserve.
    pub token_0_amount: u64,
    /// Gross token-1 amount priced out of the reserve.
    pub token_1_amount: u64,
    /// Withdraw fee on the token-0 amount.
    pub withdraw_fee_0: u64,
    /// Admin part of the token-0 withdraw fee.
    pub admin_withdraw_fee_0: u64,
    /// Withdraw fee on the token-1 amount.
    pub withdraw_fee_1: u64,
    /// Admin part of the token-1 withdraw fee.
    pub admin_withdraw_fee_1: u64,
}

/// One side of a withdrawal payout: the new reserve and the fee pair.  The
/// reserve pays the user `amount - fee` and the admin its part of the fee;
/// the rest of the fee stays in the reserve.  `None` when a fee does not
/// narrow or the reserve cannot cover the payouts.
pub open spec fn withdraw_side_spec(amount: u64, reserve: u64, fees: SwapFees) -> Option<
    (u64, u64, u64),
>
    recommends
        amount <= reserve,
{
    match fee_pair_spec(amount, fees.withdraw_fee_kbps, fees.admin_withdraw_fee_kbps) {
        None => None,
        Some(f) => {
            if f.0 > amount {
                None
            } else if f.1 > reserve - amount + f.0 {
                None
            } else {
                Some(((reserve - amount + f.0 - f.1) as u64, f.0, f.1))
            }
        },
    }
}

/// The pool state and outcome after a withdrawal, or the error that aborts
/// it.  A zero share amount is a no-op that still advances the price
/// accumulator (`None` outcome).  Each gross amount is the rounded-down
/// proportional share, capped by the reserve; the redeemed shares leave the
/// supply, which must stay at or above the minimum liquidity floor.
pub open spec fn withdraw_spec(p: PoolState, args: WithdrawArgs, now: i64) -> Result<
    (PoolState, Option<WithdrawOutcome>),
    ErrorCode,
> {
    match price_update_spec(p.price_info, p.token_0_reserve, p.token_1_reserve, now) {
        None => Err(ErrorCode::IntegerOverflow),
        Some(new_price) => {
            if args.amount_in == 0 {
                Ok((PoolState { price_info: new_price, ..p }, None))
            } else {
                match trading_tokens_spec(
                    args.amount_in,
                    p.pool_mint_supply,
                    p.token_0_reserve,
                    p.token_1_reserve,
                    RoundDirection::Floor,
                ) {
                    None => Err(ErrorCode::IntegerOverflow),
                    Some(res) => {
                        let t0 = if p.token_0_reserve < res.token_a_amount {
                            p.token_0_reserve
                        } else {
                            res.token_a_amount
                        };
                        let t1 = if p.token_1_reserve < res.token_b_amount {
                            p.token_1_reserve
                        } else {
                            res.token_b_amount
                        };
                        if t0 == 0 {
                            Err(ErrorCode::InsufficientLiquidity)
                        } else if t1 == 0 {
                            Err(ErrorCode::InsufficientLiquidity)
                        } else if t0 < args.minimum_amount_out_0 {
                            Err(ErrorCode::ExceededSlippage)
                        } else if t1 < args.minimum_amount_out_1 {
                            Err(ErrorCode::ExceededSlippage)
                        } else if args.amount_in > p.pool_mint_supply {
                            Err(ErrorCode::IntegerOverflow)
                        } else {
                            match withdraw_side_spec(t0, p.token_0_reserve, p.fees) {
                                None => Err(ErrorCode::IntegerOverflow),
                                Some(s0) => match withdraw_side_spec(t1, p.token_1_reserve, p.fees) {
                                    None => Err(ErrorCode::IntegerOverflow),
                                    Some(s1) => match track_withdraw_spec(
                                        p.cumulative_stats,
                                        args.amount_in,
                                        t0,
                                        t1,
                                    ) {
                                        None => Err(ErrorCode::IntegerOverflow),
                                        Some(stats) => {
                                            if p.pool_mint_supply - args.amount_in
                                                < MINIMUM_LIQUIDITY {
                                                Err(ErrorCode::InsufficientLiquidityPostWithdrawal)
                                            } else {
                                                Ok(
                                                    (
                                                        PoolState {
                                                            token_0_reserve: s0.0,
                                                            token_1_reserve: s1.0,
                                                            pool_mint_supply: (p.pool_mint_supply
                                                                - args.amount_in) as u64,
                                                            fees: p.fees,
                                                            cumulative_stats: stats,
                                                            price_info: new_price,
                                                        },
                                                        Some(WithdrawOutcome {
                                                            token_0_amount: t0,
                                                            token_1_amount: t1,
                                                            withdraw_fee_0: s0.1,
                                                            admin_withdraw_fee_0: s0.2,
                                                            withdraw_fee_1: s1.1,
                                                            admin_withdraw_fee_1: s1.2,
                                                        }),
                                                    ),
                                                )
                                            }
                                        },
                                    },
                                },
                            }
                        }
                    },
                }
            }
        },
    }
}

/// A successful withdrawal never decreases the value per share for the
/// remaining holders: per side, the rounded-down payout alone preserves it,
/// and the holders' share of the withdraw fee only adds to the reserve.
/// (With the fee rates valid, the admin part never exceeds the fee.)
pub proof fn lemma_withdraw_op_preserves_value_per_share(
    p: PoolState,
    args: WithdrawArgs,
    now: i64,
    p2: PoolState,
    o: WithdrawOutcome,
)
    requires
        p.fees.is_valid(),
        withdraw_spec(p, args, now) == Ok::<(PoolState, Option<WithdrawOutcome>), ErrorCode>(
            (p2, Some(o)),
        ),
    ensures
        p2.token_0_reserve * p.pool_mint_supply >= p.token_0_reserve * p2.pool_mint_supply,
        p2.token_1_reserve * p.pool_mint_supply >= p.token_1_reserve * p2.pool_mint_supply,
{
    let res = trading_tokens_spec(
        args.amount_in,
        p.pool_mint_supply,
        p.token_0_reserve,
        p.token_1_reserve,
        RoundDirection::Floor,
    )->0;
    lemma_withdraw_side_value_per_share(
        p,
        args,
        p.token_0_reserve,
        res.token_a_amount,
        o.token_0_amount,
        p2.token_0_reserve,
    );
    lemma_withdraw_side_value_per_share(
        p,
        args,
        p.token_1_reserve,
        res.token_b_amount,
        o.token_1_amount,
        p2.token_1_reserve,
    );
}

/// A withdrawal that pays anything out keeps the share supply at or above
/// the minimum liquidity floor; a no-op withdrawal leaves the supply as it
/// was.  Together with the floor at creation and deposits never lowering the
/// supply, the floor holds for the pool's whole lifetime.
pub proof fn lemma_withdraw_keeps_liquidity_floor(p: PoolState, args: WithdrawArgs, now: i64)
    requires
        withdraw_spec(p, args, now) is Ok,
    ensures
        ({
            let (p2, o) = withdraw_spec(p, args, now)->Ok_0;
            match o {
                Some(_) => p2.pool_mint_supply >= MINIMUM_LIQUIDITY,
                None => p2.pool_mint_supply == p.pool_mint_supply,
            }
        }),
{
}

/// One side of the value-per-share argument: the capped, rounded-down payout
/// `t` keeps `(reserve - t) · supply ≥ reserve · (supply - shares)`, and the
/// new reserve is at least `reserve - t` because with valid rates the fee
/// retained for the holders covers the admin part.
proof fn lemma_withdraw_side_value_per_share(
    p: PoolState,
    args: WithdrawArgs,
    reserve: u64,
    floor_amount: u64,
    t: u64,
    new_reserve: u64,
)
    requires
        p.fees.is_valid(),
        p.pool_mint_supply > 0,
        args.amount_in <= p.pool_mint_supply,
        floor_amount == trading_token_amount(
            args.amount_in,
            reserve,
            p.pool_mint_supply,
            RoundDirection::Floor,
        ),
        t == if reserve < floor_amount { reserve } else { floor_amount },
        withdraw_side_spec(t, reserve, p.fees) matches Some(s) && new_reserve == s.0,
    ensures
        new_reserve * p.pool_mint_supply >= reserve * (p.pool_mint_supply - args.amount_in),
{
    let supply = p.pool_mint_supply;
    lemma_withdraw_value_per_share(args.amount_in, supply, reserve, floor_amount as int);
    lemma_fee_pair_bounded(t, p.fees.withdraw_fee_kbps, p.fees.admin_withdraw_fee_kbps);
    assert(t == floor_amount);
    assert(new_reserve >= reserve - t);
    lemma_mul_inequality(reserve - t, new_reserve as int, supply as int);
}

/// One side of a withdrawal payout, executed.
fn withdraw_side(amount: u64, reserve: u64, fees: &SwapFees) -> (r: Result<(u64, u64, u64), ErrorCode>)
    requires
        amount <= reserve,
    ensures
        match withdraw_side_spec(amount, reserve, *fees) {
            Some(s) => r == Ok::<(u64, u64, u64), ErrorCode>(s),
            None => r == Err::<(u64, u64, u64), ErrorCode>(ErrorCode::IntegerOverflow),
        },
{
    let (withdraw_fee, admin_withdraw_fee) = match fees.compute_withdraw_fees(amount) {
        None => return Err(ErrorCode::IntegerOverflow),
        Some(v) => v,
    };
    if withdraw_fee > amount {
        return Err(ErrorCode::IntegerOverflow);
    }
    let after_user: u64 = reserve - amount + withdraw_fee;
    let new_reserve = match after_user.checked_sub(admin_withdraw_fee) {
        None => return Err(ErrorCode::IntegerOverflow),
        Some(v) => v,
    };
    Ok((new_reserve, withdraw_fee, admin_withdraw_fee))
}

/// Withdraw.  Updates the price accumulator from the pre-withdrawal
/// reserves, pays out the rounded-down proportional amounts less fees,
/// burns the redeemed shares, and applies the movements, or fails with the
/// state untouched.  A zero share amount returns `None` and changes nothing
/// but the price accumulator.
pub fn withdraw(pool: &mut PoolState, args: WithdrawArgs, now: i64) -> (r: Result<
    Option<WithdrawOutcome>,
    ErrorCode,
>)
    ensures
        match r {
            Ok(o) => withdraw_spec(*old(pool), args, now) == Ok::<
                (PoolState, Option<WithdrawOutcome>),
                ErrorCode,
            >((*final(pool), o)),
            Err(e) => withdraw_spec(*old(pool), args, now) == Err::<
                (PoolState, Option<WithdrawOutcome>),
                ErrorCode,
            >(e) && *final(pool) == *old(pool),
        },
{
    // update cumulative price info before the short circuit, so the numbers
    // are accurate
    let mut price_info = pool.price_info;
    match price_info.update_cumulative_price_info(pool.token_0_reserve, pool.token_1_reserve, now) {
        Err(e) => return Err(e),
        Ok(()) => {},
    }
    // skip the withdrawal if nothing is being withdrawn
    if args.amount_in == 0 {
        pool.price_info = price_info;
        return Ok(None);
    }
    let res = match pool_tokens_to_trading_tokens(
        args.amount_in,
        pool.pool_mint_supply,
        pool.token_0_reserve,
        pool.token_1_reserve,
        RoundDirection::Floor,
    ) {
        None => return Err(ErrorCode::IntegerOverflow),
        Some(v) => v,
    };
    let token_0_amount = if pool.token_0_reserve < res.token_a_amount {
        pool.token_0_reserve
    } else {
        res.token_a_amount
    };
    let token_1_amount = if pool.token_1_reserve < res.token_b_amount {
        pool.token_1_reserve
    } else {
        res.token_b_amount
    };
    // the payout must be at least one of each token
    if token_0_amount == 0 {
        return Err(ErrorCode::InsufficientLiquidity);
    }
    if token_1_amount == 0 {
        return Err(ErrorCode::InsufficientLiquidity);
    }
    // ensure we are meeting the slippage bounds
    if token_0_amount < args.minimum_amount_out_0 {
        return Err(ErrorCode::ExceededSlippage);
    }
    if token_1_amount < args.minimum_amount_out_1 {
        return Err(ErrorCode::ExceededSlippage);
    }
    // burn the redeemed shares
    let new_supply = match pool.pool_mint_supply.checked_sub(args.amount_in) {
        None => return Err(ErrorCode::IntegerOverflow),
        Some(v) => v,
    };
    let (new_reserve_0, withdraw_fee_0, admin_withdraw_fee_0) = match withdraw_side(
        token_0_amount,
        pool.token_0_reserve,
        &pool.fees,
    ) {
        Err(e) => return Err(e),
        Ok(v) => v,
    };
    let (new_reserve_1, withdraw_fee_1, admin_withdraw_fee_1) = match withdraw_side(
        token_1_amount,
        pool.token_1_reserve,
        &pool.fees,
    ) {
        Err(e) => return Err(e),
        Ok(v) => v,
    };
    let mut stats = pool.cumulative_stats;
    match stats.track_cumulative_withdraw_volume(args.amount_in, token_0_amount, token_1_amount) {
        Err(e) => return Err(e),
        Ok(()) => {},
    }
    // the pool must keep its minimum liquidity unless it dissolves
    if new_supply < MINIMUM_LIQUIDITY {
        return Err(ErrorCode::InsufficientLiquidityPostWithdrawal);
    }
    pool.token_0_reserve = new_reserve_0;
    pool.token_1_reserve = new_reserve_1;
    pool.pool_mint_supply = new_supply;
    pool.cumulative_stats = stats;
    pool.price_info = price_info;
    Ok(Some(WithdrawOutcome {
        token_0_amount,
        token_1_amount,
        withdraw_fee_0,
        admin_withdraw_fee_0,
        withdraw_fee_1,
        admin_withdraw_fee_1,
    }))
}

} // verus!
