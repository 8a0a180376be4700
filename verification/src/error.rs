//! The ways in which an operation on the ledger can fail.

use vstd::prelude::*;

verus! {

/// Why a stake or unstake was refused. A refused operation leaves the ledger
/// as it found it.
#[derive(Clone, Copy, Debug, PartialEq, Eq, Structural)]
pub enum StakingError {
    /// The amount was zero.
    InvalidAmount,
    /// A balance or the total would exceed the largest amount.
    ArithmeticOverflow,
    /// The total would fall below zero: the ledger is corrupt.
    ArithmeticUnderflow,
    /// The participant's balance is smaller than the amount to unstake.
    InsufficientBalance,
    /// The host could not move the value into or out of escrow.
    TransferFailed,
}

/// The host's report that a transfer of native value did not happen.
#[derive(Clone, Copy, Debug, PartialEq, Eq, Structural)]
pub struct TransferError {}

} // verus!
