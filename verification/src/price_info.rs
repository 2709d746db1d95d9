//! The cumulative time-weighted average price accumulator, following the
//! classical on-chain oracle pattern: each side's accumulator grows by the
//! scaled spot price times the elapsed time, wrapping on overflow, and a
//! consumer samples it at two points and takes the difference modulo the
//! accumulator width.

use vstd::prelude::*;
use vstd::arithmetic::mul::lemma_mul_inequality;
use vstd::wrapping::u128_specs;
use crate::state::SwapPriceInfo;
use crate::types::ErrorCode;

verus! {

/// The fixed-point scale of a price: every spot price is multiplied by 10^18
/// before the integer division.
pub const PRICE_PRECISION: u128 = 1_000_000_000_000_000_000;

/// What one accumulator gains per elapsed second: the opposite reserve,
/// scaled by 10^18, divided by this side's reserve; the whole times the
/// elapsed seconds.
pub open spec fn price_increment(other_reserve: u64, this_reserve: u64, elapsed: int) -> int
    recommends
        this_reserve > 0,
{
    (other_reserve * PRICE_PRECISION / (this_reserve as int)) * elapsed
}

/// The accumulator state after an update at time `now` with the pre-mutation
/// reserves.  The update is a no-op on a clock regression or a zero reserve;
/// it is undefined (`None`) when the elapsed seconds overflow the signed
/// 64-bit subtraction or a side's increment does not fit in 128 bits.  The
/// accumulator additions themselves wrap on overflow by design.
pub open spec fn price_update_spec(
    p: SwapPriceInfo,
    reserve_0: u64,
    reserve_1: u64,
    now: i64,
) -> Option<SwapPriceInfo> {
    if p.last_update_ts > now || reserve_0 == 0 || reserve_1 == 0 {
        Some(p)
    } else if now - p.last_update_ts > i64::MAX {
        None
    } else {
        let elapsed = now - p.last_update_ts;
        let inc_0 = price_increment(reserve_1, reserve_0, elapsed);
        let inc_1 = price_increment(reserve_0, reserve_1, elapsed);
        if inc_0 > u128::MAX || inc_1 > u128::MAX {
            None
        } else {
            Some(SwapPriceInfo {
                last_update_ts: now,
                price_0_cumulative_last: u128_specs::wrapping_add(
                    p.price_0_cumulative_last,
                    inc_0 as u128,
                ),
                price_1_cumulative_last: u128_specs::wrapping_add(
                    p.price_1_cumulative_last,
                    inc_1 as u128,
                ),
            })
        }
    }
}

/// One side's accumulator increment: the opposite reserve scaled by 10^18,
/// divided by this side's reserve, times the elapsed seconds.  The scaling
/// multiplication never overflows 128 bits; the final multiplication can,
/// and then yields `None`.
fn add_cumulative_price_info(other_reserve: u64, this_reserve: u64, time_elapsed: u64) -> (r:
    Option<u128>)
    requires
        this_reserve > 0,
    ensures
        ({
            let inc = price_increment(other_reserve, this_reserve, time_elapsed as int);
            if inc > u128::MAX {
                r is None
            } else {
                r == Some(inc as u128)
            }
        }),
{
    proof {
        lemma_mul_inequality(other_reserve as int, u64::MAX as int, PRICE_PRECISION as int);
    }
    let scaled: u128 = (other_reserve as u128) * PRICE_PRECISION;
    (scaled / (this_reserve as u128)).checked_mul(time_elapsed as u128)
}

impl SwapPriceInfo {
    /// Updates the cumulative price information from the reserves as they
    /// stand *before* the triggering operation mutates them, at time `now`.
    /// No-op when the clock ran backwards or a reserve is zero; fails, and
    /// leaves the state unchanged, when the elapsed time or an increment
    /// overflows its width.
    pub fn update_cumulative_price_info(
        &mut self,
        reserve_0: u64,
        reserve_1: u64,
        now: i64,
    ) -> (r: Result<(), ErrorCode>)
        ensures
            match price_update_spec(*old(self), reserve_0, reserve_1, now) {
                Some(p) => r is Ok && *final(self) == p,
                None => r == Err::<(), ErrorCode>(ErrorCode::IntegerOverflow)
                    && *final(self) == *old(self),
            },
    {
        if self.last_update_ts > now || reserve_0 == 0 || reserve_1 == 0 {
            return Ok(());
        }
        let time_elapsed: u64 = match now.checked_sub(self.last_update_ts) {
            None => return Err(ErrorCode::IntegerOverflow),
            Some(e) => e as u64,
        };
        let price_0_add: u128 = match add_cumulative_price_info(reserve_1, reserve_0, time_elapsed) {
            None => return Err(ErrorCode::IntegerOverflow),
            Some(v) => v,
        };
        let price_1_add: u128 = match add_cumulative_price_info(reserve_0, reserve_1, time_elapsed) {
            None => return Err(ErrorCode::IntegerOverflow),
            Some(v) => v,
        };
        self.price_0_cumulative_last = self.price_0_cumulative_last.wrapping_add(price_0_add);
        self.price_1_cumulative_last = self.price_1_cumulative_last.wrapping_add(price_1_add);
        self.last_update_ts = now;
        Ok(())
    }
}

/// A consumer that samples an accumulator before and after an update
/// recovers the increment as the difference modulo the accumulator width:
/// the wrap-around loses nothing.
pub proof fn lemma_accumulator_delta(base: u128, increment: u128)
    ensures
        u128_specs::wrapping_sub(u128_specs::wrapping_add(base, increment), base) == increment,
{
}

/// Updating a second time with the same timestamp leaves the state unchanged:
/// zero seconds have elapsed, so both accumulators gain zero.
pub proof fn lemma_price_update_idempotent(
    p: SwapPriceInfo,
    p2: SwapPriceInfo,
    reserve_0: u64,
    reserve_1: u64,
    now: i64,
)
    requires
        price_update_spec(p, reserve_0, reserve_1, now) == Some(p2),
    ensures
        price_update_spec(p2, reserve_0, reserve_1, now) == Some(p2),
{
    if p.last_update_ts > now || reserve_0 == 0 || reserve_1 == 0 {
        assert(p2 == p);
    } else {
        assert(p2.last_update_ts == now);
        let inc_0 = price_increment(reserve_1, reserve_0, 0);
        let inc_1 = price_increment(reserve_0, reserve_1, 0);
        assert(inc_0 == 0);
        assert(inc_1 == 0);
    }
}

} // verus!
