//! Accounting core of a constant-product liquidity pool.
//!
//! The library computes swap outputs that preserve the constant-product
//! invariant, converts between pool shares and underlying token amounts with
//! directional rounding, computes tiered trading and withdrawal fees from a
//! fixed-point rate configuration, and maintains a cumulative time-weighted
//! average price accumulator.  Every routine is a pure, deterministic
//! computation over fixed-width integers; rounding directions and overflow
//! boundaries are part of each contract.

pub mod controller;
pub mod fees;
pub mod math;
pub mod price_info;
pub mod state;
pub mod types;
pub mod xyk;
