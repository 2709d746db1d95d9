//! The swap instruction controller.

use vstd::prelude::*;
use crate::fees::fee_pair_spec;
use crate::fees::lemma_fee_pair_bounded;
use crate::price_info::price_update_spec;
use crate::state::PoolState;
use crate::state::track_swap_spec;
use crate::types::ErrorCode;
use crate::xyk::lemma_swap_preserves_invariant;
use crate::xyk::swap_spec;

verus! {

/// Arguments of a swap.  The minimum acceptable output is the caller's
/// slippage guard: the caller compares it against the computed outcome and
/// aborts the operation when violated; the core does not read it.
#[derive(Clone, Copy, Debug, PartialEq, Eq, Structural)]
pub struct SwapArgs {
    /// Amount of input tokens offered.
    pub amount_in: u64,
    /// Caller-checked lower bound on the net output amount.
    pub minimum_amount_out: u64,
}

/// Every balance movement of a successful swap.
#[derive(Clone, Copy, Debug, PartialEq, Eq, Structural)]
pub struct SwapOutcome {
    /// Amount of source tokens the user pays into the input reserve.
    pub source_amount_swapped: u64,
    /// Gross amount of destination tokens the swap prices out.
    pub destination_amount_swapped: u64,
    /// Total trade fee, taken out of the gross destination amount.
    pub trade_fee: u64,
    /// Portion of the trade fee paid from the output reserve to the admin;
    /// the rest of the fee stays in the reserve for the holders.
    pub admin_trade_fee: u64,
    /// Net amount paid from the output reserve to the user: the gross
    /// destination amount less the trade fee.
    pub amount_to_user: u64,
}

/// The pool state and outcome after a swap of `amount_in` input tokens, or
/// the error that aborts it.  The input reserve grows by the source amount;
/// the output reserve pays the user's net amount and the admin fee and keeps
/// the holders' share of the fee; the statistics record the gross volumes.
pub open spec fn swap_op_spec(
    p: PoolState,
    input_is_token_0: bool,
    amount_in: u64,
    now: i64,
) -> Result<(PoolState, SwapOutcome), ErrorCode> {
    match price_update_spec(p.price_info, p.token_0_reserve, p.token_1_reserve, now) {
        None => Err(ErrorCode::IntegerOverflow),
        Some(new_price) => {
            let input_reserve = if input_is_token_0 { p.token_0_reserve } else { p.token_1_reserve };
            let output_reserve = if input_is_token_0 { p.token_1_reserve } else { p.token_0_reserve };
            match swap_spec(amount_in, input_reserve, output_reserve) {
                None => Err(ErrorCode::IntegerOverflow),
                Some(res) => match fee_pair_spec(
                    res.destination_amount_swapped,
                    p.fees.trade_fee_kbps,
                    p.fees.admin_trade_fee_kbps,
                ) {
                    None => Err(ErrorCode::IntegerOverflow),
                    Some(f) => {
                        if f.0 > res.destination_amount_swapped {
                            Err(ErrorCode::IntegerOverflow)
                        } else if input_reserve + res.source_amount_swapped > u64::MAX {
                            Err(ErrorCode::IntegerOverflow)
                        } else if f.1 > output_reserve - res.destination_amount_swapped + f.0 {
                            Err(ErrorCode::IntegerOverflow)
                        } else {
                            let new_input = (input_reserve + res.source_amount_swapped) as u64;
                            let new_output = (output_reserve - res.destination_amount_swapped + f.0
                                - f.1) as u64;
                            match track_swap_spec(
                                p.cumulative_stats,
                                input_is_token_0,
                                res.source_amount_swapped,
                                res.destination_amount_swapped,
                                f.0,
                            ) {
                                None => Err(ErrorCode::IntegerOverflow),
                                Some(stats) => Ok(
                                    (
                                        PoolState {
                                            token_0_reserve: if input_is_token_0 {
                                                new_input
                                            } else {
                                                new_output
                                            },
                                            token_1_reserve: if input_is_token_0 {
                                                new_output
                                            } else {
                                                new_input
                                            },
                                            pool_mint_supply: p.pool_mint_supply,
                                            fees: p.fees,
                                            cumulative_stats: stats,
                                            price_info: new_price,
                                        },
                                        SwapOutcome {
                                            source_amount_swapped: res.source_amount_swapped,
                                            destination_amount_swapped: res.destination_amount_swapped,
                                            trade_fee: f.0,
                                            admin_trade_fee: f.1,
                                            amount_to_user: (res.destination_amount_swapped
                                                - f.0) as u64,
                                        },
                                    ),
                                ),
                            }
                        }
                    },
                },
            }
        },
    }
}

/// A successful swap never decreases the pool's constant product: the swap
/// legs alone preserve it, and the holders' share of the trade fee only adds
/// to the output reserve.
pub proof fn lemma_swap_op_preserves_invariant(
    p: PoolState,
    input_is_token_0: bool,
    amount_in: u64,
    now: i64,
    p2: PoolState,
    o: SwapOutcome,
)
    requires
        p.fees.is_valid(),
        swap_op_spec(p, input_is_token_0, amount_in, now) == Ok::<(PoolState, SwapOutcome), ErrorCode>(
            (p2, o),
        ),
    ensures
        p2.token_0_reserve * p2.token_1_reserve >= p.token_0_reserve * p.token_1_reserve,
{
    let input_reserve = if input_is_token_0 { p.token_0_reserve } else { p.token_1_reserve };
    let output_reserve = if input_is_token_0 { p.token_1_reserve } else { p.token_0_reserve };
    lemma_swap_preserves_invariant(amount_in, input_reserve, output_reserve);
    let v = swap_spec(amount_in, input_reserve, output_reserve)->0;
    lemma_fee_pair_bounded(
        v.destination_amount_swapped,
        p.fees.trade_fee_kbps,
        p.fees.admin_trade_fee_kbps,
    );
    let f = fee_pair_spec(
        v.destination_amount_swapped,
        p.fees.trade_fee_kbps,
        p.fees.admin_trade_fee_kbps,
    )->0;
    let new_input = input_reserve + v.source_amount_swapped;
    let new_output = output_reserve - v.destination_amount_swapped + f.0 - f.1;
    assert(new_output >= output_reserve - v.destination_amount_swapped);
    assert(new_input * new_output >= input_reserve * output_reserve) by (nonlinear_arith)
        requires
            0 <= input_reserve,
            0 < new_input,
            new_output >= output_reserve - v.destination_amount_swapped,
            new_input * (output_reserve - v.destination_amount_swapped) >= input_reserve
                * output_reserve,
    ;
    assert(p2.token_0_reserve * p2.token_1_reserve == new_input * new_output) by (nonlinear_arith)
        requires
            (p2.token_0_reserve == new_input && p2.token_1_reserve == new_output) || (
            p2.token_0_reserve == new_output && p2.token_1_reserve == new_input),
    ;
    assert(p.token_0_reserve * p.token_1_reserve == input_reserve * output_reserve)
        by (nonlinear_arith)
        requires
            (p.token_0_reserve == input_reserve && p.token_1_reserve == output_reserve) || (
            p.token_0_reserve == output_reserve && p.token_1_reserve == input_reserve),
    ;
}

/// Swap.  Updates the price accumulator from the pre-trade reserves, computes
/// the swap legs and the trade fees, and applies all balance movements, or
/// fails with the state untouched.  Comparing the outcome against
/// `args.minimum_amount_out` is the caller's responsibility.
pub fn swap(pool: &mut PoolState, input_is_token_0: bool, args: SwapArgs, now: i64) -> (r: Result<
    SwapOutcome,
    ErrorCode,
>)
    ensures
        match r {
            Ok(o) => swap_op_spec(*old(pool), input_is_token_0, args.amount_in, now)
                == Ok::<(PoolState, SwapOutcome), ErrorCode>((*final(pool), o)),
            Err(e) => swap_op_spec(*old(pool), input_is_token_0, args.amount_in, now)
                == Err::<(PoolState, SwapOutcome), ErrorCode>(e) && *final(pool) == *old(pool),
        },
{
    // update cumulative price info; it must see the pre-mutation reserves
    let mut price_info = pool.price_info;
    match price_info.update_cumulative_price_info(pool.token_0_reserve, pool.token_1_reserve, now) {
        Err(e) => return Err(e),
        Ok(()) => {},
    }
    let (input_reserve, output_reserve) = if input_is_token_0 {
        (pool.token_0_reserve, pool.token_1_reserve)
    } else {
        (pool.token_1_reserve, pool.token_0_reserve)
    };
    // compute the swap
    let res = match crate::xyk::swap(args.amount_in, input_reserve, output_reserve) {
        None => return Err(ErrorCode::IntegerOverflow),
        Some(v) => v,
    };
    let (trade_fee, admin_trade_fee) = match pool.fees.compute_trade_fees(
        res.destination_amount_swapped,
    ) {
        None => return Err(ErrorCode::IntegerOverflow),
        Some(v) => v,
    };
    let amount_to_user = match res.destination_amount_swapped.checked_sub(trade_fee) {
        None => return Err(ErrorCode::IntegerOverflow),
        Some(v) => v,
    };
    // the user's tokens join the input reserve
    let new_input_reserve = match input_reserve.checked_add(res.source_amount_swapped) {
        None => return Err(ErrorCode::IntegerOverflow),
        Some(v) => v,
    };
    // the output reserve pays the user and the admin fee and keeps the
    // holders' share of the trade fee
    let after_payout: u64 = output_reserve - res.destination_amount_swapped + trade_fee;
    let new_output_reserve = match after_payout.checked_sub(admin_trade_fee) {
        None => return Err(ErrorCode::IntegerOverflow),
        Some(v) => v,
    };
    let mut stats = pool.cumulative_stats;
    match stats.track_cumulative_swap_volume(
        input_is_token_0,
        res.source_amount_swapped,
        res.destination_amount_swapped,
        trade_fee,
    ) {
        Err(e) => return Err(e),
        Ok(()) => {},
    }
    if input_is_token_0 {
        pool.token_0_reserve = new_input_reserve;
        pool.token_1_reserve = new_output_reserve;
    } else {
        pool.token_1_reserve = new_input_reserve;
        pool.token_0_reserve = new_output_reserve;
    }
    pool.cumulative_stats = stats;
    pool.price_info = price_info;
    Ok(SwapOutcome {
        source_amount_swapped: res.source_amount_swapped,
        destination_amount_swapped: res.destination_amount_swapped,
        trade_fee,
        admin_trade_fee,
        amount_to_user,
    })
}

} // verus!
