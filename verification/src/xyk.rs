//! The constant product invariant calculator: swap outputs that never
//! decrease the product of the reserves, initial share issuance, and the
//! proportional conversion between pool shares and trading tokens.

use vstd::prelude::*;
use vstd::arithmetic::div_mod::lemma_div_is_ordered;
use vstd::arithmetic::div_mod::lemma_div_multiples_vanish;
use vstd::arithmetic::div_mod::lemma_div_pos_is_pos;
use vstd::arithmetic::div_mod::lemma_fundamental_div_mod;
use vstd::arithmetic::div_mod::lemma_mod_division_less_than_divisor;
use vstd::arithmetic::mul::lemma_mul_inequality;
use vstd::arithmetic::mul::lemma_mul_nonnegative;
use crate::math::ceil_div_adjust;
use crate::math::checked_ceil_div_u128;
use crate::math::integer_sqrt;
use crate::math::lemma_ceil_div_adjust_bounds;
use crate::math::sqrt_floor;
use crate::types::RoundDirection;
use crate::types::SwapResult;
use crate::types::TradingTokenResult;

verus! {

/// Minimum liquidity owned by the pool so that the reserves cannot be
/// completely withdrawn unless the pool dissolves.
pub const MINIMUM_LIQUIDITY: u64 = 1_000;

/// Initial amount of pool tokens for a new pool: the geometric mean of the
/// two initial reserves, that is the floor of the square root of their
/// product.  The 64×64-bit product always fits the 128-bit intermediate and
/// its root always narrows back to 64 bits, so for 64-bit reserves the
/// calculation never fails.
pub fn calculate_initial_swap_pool_amount(amount_a: u64, amount_b: u64) -> (r: Option<u64>)
    ensures
        r matches Some(v) && v == sqrt_floor(amount_a * amount_b),
{
    proof {
        lemma_mul_inequality(amount_a as int, u64::MAX as int, amount_b as int);
        lemma_mul_inequality(amount_b as int, u64::MAX as int, u64::MAX as int);
    }
    let product: u128 = (amount_a as u128) * (amount_b as u128);
    Some(integer_sqrt(product))
}

/// All results of a constant-product swap.  The invariant is the product of
/// the two reserves; the source reserve grows by the amount offered; the
/// destination reserve becomes the adjusted ceiling quotient, so that the
/// product of the new reserves never falls below the invariant; and a swap
/// in which either leg would be zero yields nothing.
pub open spec fn swap_spec(
    source_amount: u64,
    swap_source_amount: u64,
    swap_destination_amount: u64,
) -> Option<SwapResult> {
    let invariant_k = swap_source_amount * swap_destination_amount;
    let new_source = swap_source_amount + source_amount;
    match ceil_div_adjust(invariant_k, new_source) {
        None => None,
        Some(p) => {
            let source_swapped = p.1 - swap_source_amount;
            let destination_swapped = swap_destination_amount - p.0;
            if source_swapped <= 0 || source_swapped > u64::MAX {
                None
            } else if p.0 > u64::MAX {
                None
            } else if destination_swapped <= 0 {
                None
            } else {
                Some(SwapResult {
                    source_amount_swapped: source_swapped as u64,
                    destination_amount_swapped: destination_swapped as u64,
                })
            }
        },
    }
}

/// A successful swap never decreases the product of the reserves: any
/// integer-truncation error favors the pool, never the trader.  The source
/// leg never exceeds the amount offered, and both legs move at least one
/// token.
pub proof fn lemma_swap_preserves_invariant(
    source_amount: u64,
    swap_source_amount: u64,
    swap_destination_amount: u64,
)
    requires
        swap_spec(source_amount, swap_source_amount, swap_destination_amount) is Some,
    ensures
        ({
            let v = swap_spec(source_amount, swap_source_amount, swap_destination_amount)->0;
            &&& (swap_source_amount + v.source_amount_swapped) * (swap_destination_amount
                - v.destination_amount_swapped) >= swap_source_amount * swap_destination_amount
            &&& 0 < v.source_amount_swapped <= source_amount
            &&& 0 < v.destination_amount_swapped < swap_destination_amount
        }),
{
    let invariant_k = swap_source_amount * swap_destination_amount;
    let new_source = swap_source_amount + source_amount;
    lemma_mul_nonnegative(swap_source_amount as int, swap_destination_amount as int);
    lemma_ceil_div_adjust_bounds(invariant_k, new_source);
    let p = ceil_div_adjust(invariant_k, new_source)->0;
    let v = swap_spec(source_amount, swap_source_amount, swap_destination_amount)->0;
    assert(swap_source_amount + v.source_amount_swapped == p.1);
    assert(swap_destination_amount - v.destination_amount_swapped == p.0);
    assert((swap_source_amount + v.source_amount_swapped) * (swap_destination_amount
        - v.destination_amount_swapped) >= swap_source_amount * swap_destination_amount)
        by (nonlinear_arith)
        requires
            swap_source_amount + v.source_amount_swapped == p.1,
            swap_destination_amount - v.destination_amount_swapped == p.0,
            p.0 * p.1 >= swap_source_amount * swap_destination_amount,
    ;
}

/// Constant product swap: trade `source_amount` against the pool of
/// `swap_source_amount` and `swap_destination_amount`.
///
/// This is guaranteed to work for all values such that:
///  - `1 <= swap_source_amount * swap_destination_amount <= u128::MAX`
///  - `1 <= source_amount <= u64::MAX`
///
/// On success the post-trade product of the reserves never falls below the
/// pre-trade product: truncation error always favors the pool, never the
/// trader.
pub fn swap(
    source_amount: u64,
    swap_source_amount: u64,
    swap_destination_amount: u64,
) -> (r: Option<SwapResult>)
    ensures
        r == swap_spec(source_amount, swap_source_amount, swap_destination_amount),
        r matches Some(v) ==> {
            &&& (swap_source_amount + v.source_amount_swapped) * (swap_destination_amount
                - v.destination_amount_swapped) >= swap_source_amount * swap_destination_amount
            &&& 0 < v.source_amount_swapped <= source_amount
            &&& 0 < v.destination_amount_swapped < swap_destination_amount
        },
{
    proof {
        lemma_mul_inequality(swap_source_amount as int, u64::MAX as int, swap_destination_amount as int);
        lemma_mul_inequality(swap_destination_amount as int, u64::MAX as int, u64::MAX as int);
    }
    let invariant_k: u128 = (swap_source_amount as u128) * (swap_destination_amount as u128);
    let new_source: u128 = (swap_source_amount as u128) + (source_amount as u128);
    let (new_destination_reserve, new_source_reserve) = match checked_ceil_div_u128(
        invariant_k,
        new_source,
    ) {
        None => return None,
        Some(p) => p,
    };
    if new_source_reserve < swap_source_amount as u128 {
        return None;
    }
    let source_wide: u128 = new_source_reserve - (swap_source_amount as u128);
    if source_wide > u64::MAX as u128 {
        return None;
    }
    let source_amount_swapped: u64 = source_wide as u64;
    if source_amount_swapped == 0 {
        return None;
    }
    if new_destination_reserve > u64::MAX as u128 {
        return None;
    }
    let new_destination: u64 = new_destination_reserve as u64;
    if new_destination > swap_destination_amount {
        return None;
    }
    let destination_amount_swapped: u64 = swap_destination_amount - new_destination;
    if destination_amount_swapped == 0 {
        return None;
    }
    proof {
        lemma_swap_preserves_invariant(source_amount, swap_source_amount, swap_destination_amount);
    }
    Some(SwapResult { source_amount_swapped, destination_amount_swapped })
}

/// One side's trading-token amount for `pool_tokens` pool shares: the
/// proportional amount `pool_tokens · reserve / supply` rounded down, rounded
/// up only when rounding up is requested, the division is inexact, and the
/// floor itself is nonzero.  A floor of zero is deliberately not bumped to
/// one, so a negligible deposit is left at zero for the caller to reject
/// rather than silently overcharged.
pub open spec fn trading_token_amount(
    pool_tokens: u64,
    reserve: u64,
    supply: u64,
    round_direction: RoundDirection,
) -> int
    recommends
        supply > 0,
{
    let f = pool_tokens * reserve / (supply as int);
    if round_direction is Ceiling && (pool_tokens * reserve) % (supply as int) != 0 && f != 0 {
        f + 1
    } else {
        f
    }
}

/// Both sides' trading-token amounts; `None` when the share supply is zero
/// or either amount does not fit in a `u64`.
pub open spec fn trading_tokens_spec(
    pool_tokens: u64,
    pool_token_supply: u64,
    swap_token_a_amount: u64,
    swap_token_b_amount: u64,
    round_direction: RoundDirection,
) -> Option<TradingTokenResult> {
    if pool_token_supply == 0 {
        None
    } else {
        let a = trading_token_amount(pool_tokens, swap_token_a_amount, pool_token_supply, round_direction);
        let b = trading_token_amount(pool_tokens, swap_token_b_amount, pool_token_supply, round_direction);
        if a > u64::MAX || b > u64::MAX {
            None
        } else {
            Some(TradingTokenResult { token_a_amount: a as u64, token_b_amount: b as u64 })
        }
    }
}

/// Get the amount of trading tokens for the given amount of pool tokens,
/// provided the total trading tokens and supply of pool tokens: a simple
/// ratio calculation per side, rounded in the given direction.  Fails when
/// the share supply is zero or an amount does not fit in 64 bits.
pub fn pool_tokens_to_trading_tokens(
    pool_tokens: u64,
    pool_token_supply: u64,
    swap_token_a_amount: u64,
    swap_token_b_amount: u64,
    round_direction: RoundDirection,
) -> (r: Option<TradingTokenResult>)
    ensures
        r == trading_tokens_spec(
            pool_tokens,
            pool_token_supply,
            swap_token_a_amount,
            swap_token_b_amount,
            round_direction,
        ),
{
    if pool_token_supply == 0 {
        return None;
    }
    proof {
        lemma_mul_inequality(pool_tokens as int, u64::MAX as int, swap_token_a_amount as int);
        lemma_mul_inequality(pool_tokens as int, u64::MAX as int, swap_token_b_amount as int);
        lemma_mul_inequality(swap_token_a_amount as int, u64::MAX as int, u64::MAX as int);
        lemma_mul_inequality(swap_token_b_amount as int, u64::MAX as int, u64::MAX as int);
    }
    let supply: u128 = pool_token_supply as u128;
    let wide_a: u128 = (pool_tokens as u128) * (swap_token_a_amount as u128);
    let floor_a: u128 = wide_a / supply;
    if floor_a > u64::MAX as u128 {
        return None;
    }
    let mut token_a_amount: u64 = floor_a as u64;
    let wide_b: u128 = (pool_tokens as u128) * (swap_token_b_amount as u128);
    let floor_b: u128 = wide_b / supply;
    if floor_b > u64::MAX as u128 {
        return None;
    }
    let mut token_b_amount: u64 = floor_b as u64;
    match round_direction {
        RoundDirection::Floor => {},
        RoundDirection::Ceiling => {
            if wide_a % supply > 0 && token_a_amount > 0 {
                token_a_amount = match token_a_amount.checked_add(1) {
                    None => return None,
                    Some(v) => v,
                };
            }
            if wide_b % supply > 0 && token_b_amount > 0 {
                token_b_amount = match token_b_amount.checked_add(1) {
                    None => return None,
                    Some(v) => v,
                };
            }
        },
    }
    Some(TradingTokenResult { token_a_amount, token_b_amount })
}

/// For a valid deposit the value per share never decreases.  Charging the
/// rounded-up amount for a nonzero share purchase means the depositor pays
/// at least the exact proportional cost, so (cross-multiplied)
/// `newReserve / newSupply ≥ reserve / supply` per side.
pub proof fn lemma_deposit_value_per_share(pool_tokens: u64, supply: u64, reserve: u64, amount: int)
    requires
        supply > 0,
        amount == trading_token_amount(pool_tokens, reserve, supply, RoundDirection::Ceiling),
        amount > 0,
    ensures
        (reserve + amount) * supply >= reserve * (supply + pool_tokens),
{
    let s = supply as int;
    let r = reserve as int;
    let pt = pool_tokens as int;
    lemma_mul_nonnegative(pt, r);
    lemma_fundamental_div_mod(pt * r, s);
    lemma_mod_division_less_than_divisor(pt * r, s);
    let f = pt * r / s;
    let rem = (pt * r) % s;
    if rem == 0 {
        assert(amount * s == pt * r) by (nonlinear_arith)
            requires
                amount == f,
                pt * r == s * f + rem,
                rem == 0,
        ;
    } else {
        assert(amount * s > pt * r) by (nonlinear_arith)
            requires
                amount == f + 1,
                pt * r == s * f + rem,
                rem < s,
        ;
    }
    assert((r + amount) * s >= r * (s + pt)) by (nonlinear_arith)
        requires
            amount * s >= pt * r,
    ;
}

/// For a valid withdrawal the value per share for the remaining holders
/// never decreases.  Paying out the rounded-down amount means the withdrawer
/// never receives more than the exact proportional share, so
/// (cross-multiplied) `newReserve / newSupply ≥ reserve / supply` per side.
pub proof fn lemma_withdraw_value_per_share(pool_tokens: u64, supply: u64, reserve: u64, amount: int)
    requires
        supply > 0,
        pool_tokens <= supply,
        amount == trading_token_amount(pool_tokens, reserve, supply, RoundDirection::Floor),
    ensures
        0 <= amount <= reserve,
        (reserve - amount) * supply >= reserve * (supply - pool_tokens),
{
    let s = supply as int;
    let r = reserve as int;
    let pt = pool_tokens as int;
    lemma_mul_nonnegative(pt, r);
    lemma_fundamental_div_mod(pt * r, s);
    lemma_mod_division_less_than_divisor(pt * r, s);
    lemma_div_pos_is_pos(pt * r, s);
    // amount <= reserve because the withdrawn shares are at most the supply
    lemma_mul_inequality(pt, s, r);
    lemma_div_is_ordered(pt * r, s * r, s);
    lemma_div_multiples_vanish(r, s);
    assert((r - amount) * s >= r * (s - pt)) by (nonlinear_arith)
        requires
            amount == pt * r / s,
            pt * r == s * amount + (pt * r) % s,
            0 <= (pt * r) % s,
    ;
}

} // verus!
