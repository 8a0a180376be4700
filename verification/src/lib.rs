//! Accounting core of a liquid-staking contract: a ledger of staked balances
//! with a running total, and the stake and unstake operations that keep the
//! total equal to the sum of the balances.
//!
//! The ledger is an explicit store that every operation takes by reference.
//! Native value moves only through the host: an operation hands back what
//! is to be transferred and is closed with the host's report on it.

pub mod amount;
pub mod error;
pub mod install;
pub mod laws;
pub mod ledger;
pub mod participant;
pub mod staking;
pub mod state;

pub use crate::amount::Amount;
pub use crate::error::{StakingError, TransferError};
pub use crate::install::{call, Installation};
pub use crate::ledger::Ledger;
pub use crate::participant::Participant;
pub use crate::staking::{settle_stake, settle_unstake, stake, unstake, Deposit, Withdrawal};
