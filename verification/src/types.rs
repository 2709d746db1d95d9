//! Result types, the rounding-direction selector, and the error taxonomy.

use vstd::prelude::*;

verus! {

/// The direction to round. Used for pool token to trading token conversions to
/// avoid losing value on any deposit or withdrawal.
#[derive(Clone, Copy, Debug, PartialEq, Eq, Structural)]
pub enum RoundDirection {
    /// Round the value down towards zero.
    Floor,
    /// Round the value up, away from zero.
    Ceiling,
}

/// Encodes all results of swapping from a source token to a destination token.
#[derive(Clone, Copy, Debug, PartialEq, Eq, Structural)]
pub struct SwapResult {
    /// Amount of source token swapped.
    pub source_amount_swapped: u64,
    /// Amount of destination token swapped.
    pub destination_amount_swapped: u64,
}

/// Encodes results of depositing or withdrawing both sides at once.
#[derive(Clone, Copy, Debug, PartialEq, Eq, Structural)]
pub struct TradingTokenResult {
    /// Amount of token A.
    pub token_a_amount: u64,
    /// Amount of token B.
    pub token_b_amount: u64,
}

/// Typed failures of the pool operations.  Every failure aborts the triggering
/// operation in full: no partial state mutation is ever observable.
#[derive(Clone, Copy, Debug, PartialEq, Eq, Structural)]
pub enum ErrorCode {
    /// Computed deposit or withdrawal amount violates the caller-supplied bound.
    ExceededSlippage,
    /// A computed deposit or withdrawal token amount is zero.
    InsufficientLiquidity,
    /// A withdrawal would leave the pool share supply below the minimum floor.
    InsufficientLiquidityPostWithdrawal,
    /// A new pool must start with nonzero reserves on both sides.
    NewSwapMustHaveNonZeroSupply,
    /// The initial share issuance would be below the minimum liquidity floor.
    InitialLiquidityTooLow,
    /// A fee rate exceeds 100%.
    InvalidFee,
    /// A checked arithmetic step exceeded its integer width, or a computed
    /// swap leg was zero.
    IntegerOverflow,
    /// A caller-supplied argument violates a documented precondition of the
    /// operation (zero share supply, or a zero deposit bound).
    InvariantViolated,
}

} // verus!
