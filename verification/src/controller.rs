//! The operation controllers: each one is a pure transition on the numeric
//! pool state.  It updates the price accumulator from the pre-mutation
//! reserves, computes the operation's amounts and fees, and applies every
//! balance movement, or fails with a typed error and leaves the state
//! untouched.  The surrounding service layer performs the actual token
//! transfers the returned outcome describes.

pub mod deposit;
pub mod init;
pub mod swap;
pub mod withdraw;
