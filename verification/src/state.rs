//! Numeric pool state: the fee configuration, cumulative statistics, the
//! price-accumulator storage, and the aggregate state of one pool instance.

use vstd::prelude::*;
use crate::types::ErrorCode;

verus! {

/// Fees associated with a pool.  Each rate is a fixed-point fraction in
/// thousands of basis points (10,000,000 = 100%).
#[derive(Clone, Copy, Debug, Default, PartialEq, Eq, Structural)]
pub struct SwapFees {
    /// Trade fee, thousands of bps.
    pub trade_fee_kbps: u64,
    /// Withdraw fee, thousands of bps.
    pub withdraw_fee_kbps: u64,
    /// Proportion of the trade fee sent to the admin, thousands of bps.
    pub admin_trade_fee_kbps: u64,
    /// Proportion of the withdraw fee sent to the admin, thousands of bps.
    pub admin_withdraw_fee_kbps: u64,
}

/// Cumulative statistics on one side of the pool.  Mutated additively after
/// every successful operation; never decremented; never reset.
#[derive(Clone, Copy, Debug, Default, PartialEq, Eq, Structural)]
pub struct SwapCumulativeTokenStats {
    /// Total input volume the pool has ever swapped in for this token.
    pub total_input_volume: u128,
    /// Total output volume the pool has ever swapped out for this token.
    pub total_output_volume: u128,
    /// Total deposits ever made into the pool for this token.
    pub total_deposit_volume: u128,
    /// Total withdrawals ever made from the pool for this token.
    pub total_withdraw_volume: u128,
    /// Total trade fees collected for this token, both the holders' part and
    /// the admin part.
    pub total_trade_fees: u64,
}

/// Cumulative statistics about the pool.
#[derive(Clone, Copy, Debug, Default, PartialEq, Eq, Structural)]
pub struct SwapCumulativeStats {
    /// Stats for token 0.
    pub token_0: SwapCumulativeTokenStats,
    /// Stats for token 1.
    pub token_1: SwapCumulativeTokenStats,
    /// Total number of pool shares ever minted.
    pub total_lp_minted: u128,
    /// Total number of pool shares ever redeemed for the underlying tokens.
    pub total_lp_redeemed: u128,
}

/// Price information about a pool: the last update timestamp and the two
/// cumulative price accumulators.
#[derive(Clone, Copy, Debug, Default, PartialEq, Eq, Structural)]
pub struct SwapPriceInfo {
    /// Last time the state was updated.
    pub last_update_ts: i64,
    /// Cumulative price of token 0, wrapping on overflow.
    pub price_0_cumulative_last: u128,
    /// Cumulative price of token 1, wrapping on overflow.
    pub price_1_cumulative_last: u128,
}

/// The complete numeric state of one pool instance.
#[derive(Clone, Copy, Debug, PartialEq, Eq, Structural)]
pub struct PoolState {
    /// Reserve balance of token 0.
    pub token_0_reserve: u64,
    /// Reserve balance of token 1.
    pub token_1_reserve: u64,
    /// Total outstanding pool shares.
    pub pool_mint_supply: u64,
    /// Fee configuration.
    pub fees: SwapFees,
    /// Cumulative statistics about the pool.
    pub cumulative_stats: SwapCumulativeStats,
    /// Price accumulator state.
    pub price_info: SwapPriceInfo,
}

/// The all-zero statistics of a freshly created pool.
pub open spec fn zeroed_stats() -> SwapCumulativeStats {
    SwapCumulativeStats {
        token_0: SwapCumulativeTokenStats {
            total_input_volume: 0,
            total_output_volume: 0,
            total_deposit_volume: 0,
            total_withdraw_volume: 0,
            total_trade_fees: 0,
        },
        token_1: SwapCumulativeTokenStats {
            total_input_volume: 0,
            total_output_volume: 0,
            total_deposit_volume: 0,
            total_withdraw_volume: 0,
            total_trade_fees: 0,
        },
        total_lp_minted: 0,
        total_lp_redeemed: 0,
    }
}

/// The statistics after a swap of `src` input tokens for `dst` output tokens
/// with a total trade fee of `fee` is recorded, or `None` when a running
/// total would exceed its width.
pub open spec fn track_swap_spec(
    s: SwapCumulativeStats,
    input_is_token_0: bool,
    src: u64,
    dst: u64,
    fee: u64,
) -> Option<SwapCumulativeStats> {
    let t_in = if input_is_token_0 { s.token_0 } else { s.token_1 };
    let t_out = if input_is_token_0 { s.token_1 } else { s.token_0 };
    if t_in.total_input_volume + src > u128::MAX || t_out.total_output_volume + dst > u128::MAX
        || t_out.total_trade_fees + fee > u64::MAX {
        None
    } else {
        let new_in = SwapCumulativeTokenStats {
            total_input_volume: (t_in.total_input_volume + src) as u128,
            ..t_in
        };
        let new_out = SwapCumulativeTokenStats {
            total_output_volume: (t_out.total_output_volume + dst) as u128,
            total_trade_fees: (t_out.total_trade_fees + fee) as u64,
            ..t_out
        };
        if input_is_token_0 {
            Some(SwapCumulativeStats { token_0: new_in, token_1: new_out, ..s })
        } else {
            Some(SwapCumulativeStats { token_0: new_out, token_1: new_in, ..s })
        }
    }
}

/// The statistics after a deposit of `pool_token_amount` shares against
/// `token_0_amount` and `token_1_amount` tokens is recorded.
pub open spec fn track_deposit_spec(
    s: SwapCumulativeStats,
    pool_token_amount: u64,
    token_0_amount: u64,
    token_1_amount: u64,
) -> Option<SwapCumulativeStats> {
    if s.total_lp_minted + pool_token_amount > u128::MAX
        || s.token_0.total_deposit_volume + token_0_amount > u128::MAX
        || s.token_1.total_deposit_volume + token_1_amount > u128::MAX {
        None
    } else {
        Some(SwapCumulativeStats {
            total_lp_minted: (s.total_lp_minted + pool_token_amount) as u128,
            token_0: SwapCumulativeTokenStats {
                total_deposit_volume: (s.token_0.total_deposit_volume + token_0_amount) as u128,
                ..s.token_0
            },
            token_1: SwapCumulativeTokenStats {
                total_deposit_volume: (s.token_1.total_deposit_volume + token_1_amount) as u128,
                ..s.token_1
            },
            ..s
        })
    }
}

/// The statistics after a withdrawal of `pool_token_amount` shares paying out
/// `token_0_amount` and `token_1_amount` tokens is recorded.
pub open spec fn track_withdraw_spec(
    s: SwapCumulativeStats,
    pool_token_amount: u64,
    token_0_amount: u64,
    token_1_amount: u64,
) -> Option<SwapCumulativeStats> {
    if s.total_lp_redeemed + pool_token_amount > u128::MAX
        || s.token_0.total_withdraw_volume + token_0_amount > u128::MAX
        || s.token_1.total_withdraw_volume + token_1_amount > u128::MAX {
        None
    } else {
        Some(SwapCumulativeStats {
            total_lp_redeemed: (s.total_lp_redeemed + pool_token_amount) as u128,
            token_0: SwapCumulativeTokenStats {
                total_withdraw_volume: (s.token_0.total_withdraw_volume + token_0_amount) as u128,
                ..s.token_0
            },
            token_1: SwapCumulativeTokenStats {
                total_withdraw_volume: (s.token_1.total_withdraw_volume + token_1_amount) as u128,
                ..s.token_1
            },
            ..s
        })
    }
}

impl SwapCumulativeStats {
    /// The statistics of a freshly created pool: every total at zero.
    pub fn zeroed() -> (r: SwapCumulativeStats)
        ensures
            r == zeroed_stats(),
    {
        SwapCumulativeStats {
            token_0: SwapCumulativeTokenStats {
                total_input_volume: 0,
                total_output_volume: 0,
                total_deposit_volume: 0,
                total_withdraw_volume: 0,
                total_trade_fees: 0,
            },
            token_1: SwapCumulativeTokenStats {
                total_input_volume: 0,
                total_output_volume: 0,
                total_deposit_volume: 0,
                total_withdraw_volume: 0,
                total_trade_fees: 0,
            },
            total_lp_minted: 0,
            total_lp_redeemed: 0,
        }
    }

    /// Records the volumes of a successful swap: input volume on the input
    /// side, output volume and the collected trade fee on the output side.
    /// On overflow of a running total nothing is recorded.
    pub fn track_cumulative_swap_volume(
        &mut self,
        input_is_token_0: bool,
        source_amount_swapped: u64,
        destination_amount_swapped: u64,
        trade_fee: u64,
    ) -> (r: Result<(), ErrorCode>)
        ensures
            match track_swap_spec(
                *old(self),
                input_is_token_0,
                source_amount_swapped,
                destination_amount_swapped,
                trade_fee,
            ) {
                Some(s) => r is Ok && *final(self) == s,
                None => r == Err::<(), ErrorCode>(ErrorCode::IntegerOverflow)
                    && *final(self) == *old(self),
            },
    {
        let (in_vol, out_vol, out_fees) = if input_is_token_0 {
            (
                self.token_0.total_input_volume,
                self.token_1.total_output_volume,
                self.token_1.total_trade_fees,
            )
        } else {
            (
                self.token_1.total_input_volume,
                self.token_0.total_output_volume,
                self.token_0.total_trade_fees,
            )
        };
        let new_in_vol = match in_vol.checked_add(source_amount_swapped as u128) {
            None => return Err(ErrorCode::IntegerOverflow),
            Some(v) => v,
        };
        let new_out_vol = match out_vol.checked_add(destination_amount_swapped as u128) {
            None => return Err(ErrorCode::IntegerOverflow),
            Some(v) => v,
        };
        let new_out_fees = match out_fees.checked_add(trade_fee) {
            None => return Err(ErrorCode::IntegerOverflow),
            Some(v) => v,
        };
        if input_is_token_0 {
            self.token_0.total_input_volume = new_in_vol;
            self.token_1.total_output_volume = new_out_vol;
            self.token_1.total_trade_fees = new_out_fees;
        } else {
            self.token_1.total_input_volume = new_in_vol;
            self.token_0.total_output_volume = new_out_vol;
            self.token_0.total_trade_fees = new_out_fees;
        }
        Ok(())
    }

    /// Records the volumes of a successful deposit.  On overflow of a
    /// running total nothing is recorded.
    pub fn track_cumulative_deposit_volume(
        &mut self,
        pool_token_amount: u64,
        token_0_amount: u64,
        token_1_amount: u64,
    ) -> (r: Result<(), ErrorCode>)
        ensures
            match track_deposit_spec(*old(self), pool_token_amount, token_0_amount, token_1_amount) {
                Some(s) => r is Ok && *final(self) == s,
                None => r == Err::<(), ErrorCode>(ErrorCode::IntegerOverflow)
                    && *final(self) == *old(self),
            },
    {
        let new_minted = match self.total_lp_minted.checked_add(pool_token_amount as u128) {
            None => return Err(ErrorCode::IntegerOverflow),
            Some(v) => v,
        };
        let new_vol_0 = match self.token_0.total_deposit_volume.checked_add(token_0_amount as u128) {
            None => return Err(ErrorCode::IntegerOverflow),
            Some(v) => v,
        };
        let new_vol_1 = match self.token_1.total_deposit_volume.checked_add(token_1_amount as u128) {
            None => return Err(ErrorCode::IntegerOverflow),
            Some(v) => v,
        };
        self.total_lp_minted = new_minted;
        self.token_0.total_deposit_volume = new_vol_0;
        self.token_1.total_deposit_volume = new_vol_1;
        Ok(())
    }

    /// Records the volumes of a successful withdrawal.  On overflow of a
    /// running total nothing is recorded.
    pub fn track_cumulative_withdraw_volume(
        &mut self,
        pool_token_amount: u64,
        token_0_amount: u64,
        token_1_amount: u64,
    ) -> (r: Result<(), ErrorCode>)
        ensures
            match track_withdraw_spec(*old(self), pool_token_amount, token_0_amount, token_1_amount) {
                Some(s) => r is Ok && *final(self) == s,
                None => r == Err::<(), ErrorCode>(ErrorCode::IntegerOverflow)
                    && *final(self) == *old(self),
            },
    {
        let new_redeemed = match self.total_lp_redeemed.checked_add(pool_token_amount as u128) {
            None => return Err(ErrorCode::IntegerOverflow),
            Some(v) => v,
        };
        let new_vol_0 = match self.token_0.total_withdraw_volume.checked_add(token_0_amount as u128) {
            None => return Err(ErrorCode::IntegerOverflow),
            Some(v) => v,
        };
        let new_vol_1 = match self.token_1.total_withdraw_volume.checked_add(token_1_amount as u128) {
            None => return Err(ErrorCode::IntegerOverflow),
            Some(v) => v,
        };
        self.total_lp_redeemed = new_redeemed;
        self.token_0.total_withdraw_volume = new_vol_0;
        self.token_1.total_withdraw_volume = new_vol_1;
        Ok(())
    }
}

} // verus!
