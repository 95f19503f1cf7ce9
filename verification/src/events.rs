//! The records that the ledger hands back for publication.

use ink::primitives::AccountId;
use vstd::prelude::*;

verus! {

/// `user` added `amount` to their stake.
#[derive(Debug, Clone, Copy, PartialEq, Eq)]
pub struct Stake {
    pub user: AccountId,
    pub amount: u128,
}

/// `user` withdrew `amount` of their stake (the reward is not included).
#[derive(Debug, Clone, Copy, PartialEq, Eq)]
pub struct Unstake {
    pub user: AccountId,
    pub amount: u128,
}

/// `user` was credited `reward`.
#[derive(Debug, Clone, Copy, PartialEq, Eq)]
pub struct Claim {
    pub user: AccountId,
    pub reward: u128,
}

} // verus!
