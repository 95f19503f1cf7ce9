//! The ledger as a mathematical value, and each operation as a function from
//! one ledger to the next. The executable engine is specified against these.

use crate::data::UserStakeData;
use crate::errors::StakingError;
use crate::reward::accrued;
use ink::primitives::AccountId;
use vstd::prelude::*;

verus! {

/// The record of an account that the ledger has never written.
pub open spec fn zero_record() -> UserStakeData {
    UserStakeData { amount: 0, deposit_time: 0, unlock_time: 0, claimed_reward: 0 }
}

/// The whole state of the staking ledger.
pub struct Ledger {
    pub user_data: Map<AccountId, UserStakeData>,
    pub has_staked: Map<AccountId, bool>,
    pub owner: Option<AccountId>,
    pub stakers: Seq<AccountId>,
    pub total_staked: u128,
    pub total_rewards: u128,
    pub duration_time: u64,
    pub reward_rate: u64,
    pub pending_reward: Map<AccountId, u128>,
}

/// `a - b`, held at zero where `b` is the larger.
pub open spec fn floor_sub(a: int, b: int) -> int {
    if a >= b {
        a - b
    } else {
        0
    }
}

impl Ledger {
    /// The ledger without an owner, with nothing staked and every setting
    /// at zero.
    pub open spec fn zero() -> Ledger {
        Ledger {
            user_data: Map::empty(),
            has_staked: Map::empty(),
            owner: None,
            stakers: Seq::empty(),
            total_staked: 0,
            total_rewards: 0,
            duration_time: 0,
            reward_rate: 0,
            pending_reward: Map::empty(),
        }
    }

    /// The ledger right after construction: nothing staked, a lock-in of
    /// 1000 ms and a reward rate of 1200.
    pub open spec fn fresh(owner: AccountId) -> Ledger {
        Ledger {
            user_data: Map::empty(),
            has_staked: Map::empty(),
            owner: Some(owner),
            stakers: Seq::empty(),
            total_staked: 0,
            total_rewards: 0,
            duration_time: 1000,
            reward_rate: 1200,
            pending_reward: Map::empty(),
        }
    }

    /// The record of `user`; the zero record where none was written.
    pub open spec fn record(self, user: AccountId) -> UserStakeData {
        if self.user_data.contains_key(user) {
            self.user_data[user]
        } else {
            zero_record()
        }
    }

    /// The reward carried over for `user`; zero where none was written.
    pub open spec fn pending(self, user: AccountId) -> u128 {
        if self.pending_reward.contains_key(user) {
            self.pending_reward[user]
        } else {
            0
        }
    }

    /// Whether `user` has ever staked.
    pub open spec fn staked_flag(self, user: AccountId) -> bool {
        self.has_staked.contains_key(user) && self.has_staked[user]
    }

    /// The reward of `amount` for `user` at time `now`.
    ///
    /// While the recorded unlock time lies ahead, the reward is proportional
    /// to the time since the deposit, and the carried-over reward is added.
    /// From the unlock time on it is the reward of one full lock-in period,
    /// however much time has passed.
    pub open spec fn reward(self, user: AccountId, amount: u128, now: u64) -> int {
        let record = self.record(user);
        if record.unlock_time > now {
            let elapsed = floor_sub(now as int, record.deposit_time as int) as u64;
            accrued(amount, self.reward_rate, elapsed) + self.pending(user)
        } else {
            accrued(amount, self.reward_rate, self.duration_time)
        }
    }

    /// The reward is within the 128-bit range.
    pub open spec fn reward_defined(self, user: AccountId, amount: u128, now: u64) -> bool {
        self.reward(user, amount, now) <= u128::MAX
    }

    /// Staking `amount` would take the total out of the 128-bit range.
    pub open spec fn stake_overflows(self, amount: u128) -> bool {
        self.total_staked + amount > u128::MAX
    }

    /// Every number that a stake computes is within its range, unless the
    /// stake is refused for overflow of the total.
    pub open spec fn stake_defined(self, user: AccountId, amount: u128, now: u64) -> bool {
        !self.stake_overflows(amount) ==> {
            &&& self.record(user).amount + amount <= u128::MAX
            &&& now + self.duration_time <= u64::MAX
            &&& self.pending(user) + self.reward(user, amount, now) <= u128::MAX
        }
    }

    /// The ledger after `user` stakes `amount` at time `now`.
    ///
    /// A stake that would overflow the total changes nothing. Otherwise the
    /// total and the principal grow by `amount`, the lock-in period starts
    /// anew, and the reward of the added `amount`, computed against the
    /// record as it was, is added to the carried-over reward.
    pub open spec fn after_stake(self, user: AccountId, amount: u128, now: u64) -> Ledger {
        if self.stake_overflows(amount) {
            self
        } else {
            let record = self.record(user);
            Ledger {
                total_staked: (self.total_staked + amount) as u128,
                user_data: self.user_data.insert(
                    user,
                    UserStakeData {
                        amount: (record.amount + amount) as u128,
                        deposit_time: now,
                        unlock_time: (now + self.duration_time) as u64,
                        claimed_reward: record.claimed_reward,
                    },
                ),
                pending_reward: self.pending_reward.insert(
                    user,
                    (self.pending(user) + self.reward(user, amount, now)) as u128,
                ),
                has_staked: self.has_staked.insert(user, true),
                ..self
            }
        }
    }

    /// The reward that a withdrawal or a claim credits: the reward of the
    /// whole principal plus the carried-over reward.
    pub open spec fn payable(self, user: AccountId, now: u64) -> int {
        self.reward(user, self.record(user).amount, now) + self.pending(user)
    }

    /// Crediting the payable reward keeps every counter within its range.
    pub open spec fn credit_defined(self, user: AccountId, now: u64) -> bool {
        &&& self.reward_defined(user, self.record(user).amount, now)
        &&& self.payable(user, now) <= u128::MAX
        &&& self.total_rewards + self.payable(user, now) <= u128::MAX
        &&& self.record(user).claimed_reward + self.payable(user, now) <= u128::MAX
    }

    /// Why a withdrawal at time `now` is refused, if it is.
    pub open spec fn unstake_refusal(self, user: AccountId, now: u64) -> Option<StakingError> {
        if self.record(user).amount == 0 {
            Some(StakingError::StakeNotFound)
        } else if now < self.record(user).unlock_time {
            Some(StakingError::LockinPeriodNotEnded)
        } else {
            None
        }
    }

    /// Every number that a withdrawal computes is within its range.
    pub open spec fn unstake_defined(self, user: AccountId, now: u64) -> bool {
        self.unstake_refusal(user, now) is None ==> self.credit_defined(user, now)
    }

    /// The ledger after `user` asks to withdraw `amount` at time `now`.
    ///
    /// The total drops by `amount`, held at zero, whether or not the
    /// withdrawal is then refused. A withdrawal that goes through credits the
    /// payable reward, clears the carried-over reward and lowers the
    /// principal by `amount`, held at zero.
    pub open spec fn after_unstake(self, user: AccountId, amount: u128, now: u64) -> Ledger {
        let total_staked = floor_sub(self.total_staked as int, amount as int) as u128;
        if self.unstake_refusal(user, now) is Some {
            Ledger { total_staked, ..self }
        } else {
            let record = self.record(user);
            let credit = self.payable(user, now);
            Ledger {
                total_staked,
                total_rewards: (self.total_rewards + credit) as u128,
                pending_reward: self.pending_reward.insert(user, 0),
                user_data: self.user_data.insert(
                    user,
                    UserStakeData {
                        amount: floor_sub(record.amount as int, amount as int) as u128,
                        claimed_reward: (record.claimed_reward + credit) as u128,
                        ..record
                    },
                ),
                ..self
            }
        }
    }

    /// Why a claim is refused, if it is.
    pub open spec fn claim_refusal(self, user: AccountId) -> Option<StakingError> {
        if self.record(user).amount == 0 {
            Some(StakingError::StakeNotFound)
        } else {
            None
        }
    }

    /// Every number that a claim computes is within its range.
    pub open spec fn claim_defined(self, user: AccountId, now: u64) -> bool {
        self.claim_refusal(user) is None ==> self.credit_defined(user, now)
    }

    /// The ledger after `user` claims at time `now`.
    ///
    /// A refused claim changes nothing. Otherwise the payable reward is
    /// credited, the carried-over reward is cleared and the accrual starts
    /// anew at `now`; the principal and the total stay.
    pub open spec fn after_claim(self, user: AccountId, now: u64) -> Ledger {
        if self.claim_refusal(user) is Some {
            self
        } else {
            let record = self.record(user);
            let credit = self.payable(user, now);
            Ledger {
                total_rewards: (self.total_rewards + credit) as u128,
                pending_reward: self.pending_reward.insert(user, 0),
                user_data: self.user_data.insert(
                    user,
                    UserStakeData {
                        deposit_time: now,
                        claimed_reward: (record.claimed_reward + credit) as u128,
                        ..record
                    },
                ),
                ..self
            }
        }
    }
}

} // verus!
