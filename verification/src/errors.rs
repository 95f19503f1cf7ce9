//! The failures that a staking operation reports to its caller.

use vstd::prelude::*;

verus! {

/// Why a staking operation was refused.
#[derive(Debug, PartialEq, Eq)]
pub enum StakingError {
    /// A failure outside the fixed kinds, with its message.
    Custom(String),
    /// Adding the staked amount to the ledger's total would leave the
    /// 128-bit range.
    OverFlow,
    /// Kept for the token-moving shell; the ledger never reports it.
    NotApproved,
    /// The token transfer that belongs to the operation did not succeed.
    TransferFail,
    /// Kept for the token-moving shell; the ledger never reports it.
    LowLiquidity,
    /// The account has nothing staked.
    StakeNotFound,
    /// The stake is still inside its lock-in period.
    LockinPeriodNotEnded,
}

} // verus!
