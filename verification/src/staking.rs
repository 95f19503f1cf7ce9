//! The staking service as its callers see it: one ledger, the token it
//! stakes, and one entry point per request.
//!
//! Each entry point takes the acting account and the current time, and says
//! what is to be paid and published; moving tokens and publishing events are
//! left to the caller.

use crate::account::same_account;
use crate::data::{StakingData, StakingEvent, Timestamp, UserStakeData};
use crate::errors::StakingError;
use crate::events::{Claim, Stake, Unstake};
use crate::model::{floor_sub, Ledger};
use ink::primitives::AccountId;
use vstd::prelude::*;

verus! {

impl Ledger {
    /// When the lock-in of the user's last deposit ends under the lock-in
    /// duration that is configured now.
    pub open spec fn end_time(self, user: AccountId) -> int {
        self.record(user).deposit_time + self.duration_time
    }

    /// Every number that a withdrawal request computes is within its range:
    /// those of the ledger's withdrawal, and the sum to pay out.
    pub open spec fn withdraw_defined(self, user: AccountId, amount: u128, now: u64) -> bool {
        &&& self.unstake_defined(user, now)
        &&& self.unstake_refusal(user, now) is None ==> amount + self.payable(user, now)
            <= u128::MAX
    }
}

/// The staking service.
pub struct Staking {
    /// The ledger.
    pub data: StakingData,
    /// The account of the token that is staked and paid out.
    pub token_contract: AccountId,
}

impl View for Staking {
    type V = Ledger;

    open spec fn view(&self) -> Ledger {
        self.data@
    }
}

impl Staking {
    /// A service with a fresh ledger owned by `owner`.
    pub fn new(owner: AccountId, token_contract: AccountId) -> (service: Self)
        ensures
            service@ == Ledger::fresh(owner),
            service.token_contract == token_contract,
    {
        Staking { data: StakingData::new(owner), token_contract }
    }

    /// Whether [`Self::stake`] may be called on these arguments.
    pub fn stake_is_defined(&self, caller: AccountId, amount: u128, now: Timestamp) -> (ok: bool)
        ensures
            ok == self@.stake_defined(caller, amount, now),
    {
        self.data.stake_is_defined(caller, amount, now)
    }

    /// Records that `caller` staked `amount`, which the caller of this
    /// function has already moved into the service's account.
    pub fn stake(&mut self, caller: AccountId, amount: u128, now: Timestamp) -> (res: Result<
        Vec<StakingEvent>,
        StakingError,
    >)
        requires
            old(self)@.stake_defined(caller, amount, now),
        ensures
            final(self)@ == old(self)@.after_stake(caller, amount, now),
            final(self).token_contract == old(self).token_contract,
            old(self)@.stake_overflows(amount) ==> res == Err::<Vec<StakingEvent>, StakingError>(
                StakingError::OverFlow,
            ),
            !old(self)@.stake_overflows(amount) ==> res is Ok && res->Ok_0@ == seq![
                StakingEvent::Stake(Stake { user: caller, amount }),
            ],
    {
        self.data.internal_stake(caller, amount, now)
    }

    /// Whether [`Self::withdraw`] may be called on these arguments.
    pub fn withdraw_is_defined(&self, caller: AccountId, amount: u128, now: Timestamp) -> (ok:
        bool)
        ensures
            ok == self@.withdraw_defined(caller, amount, now),
    {
        if !self.data.unstake_is_defined(caller, now) {
            return false;
        }
        let record = self.data.get_user_data_by_account(caller);
        if record.amount == 0 || now < record.unlock_time {
            return true;
        }
        let reward: u128 = self.data.calculate_reward(caller, record.amount, now);
        let credit: u128 = reward + self.data.get_pending_reward(caller);
        amount.checked_add(credit).is_some()
    }

    /// `caller` withdraws `amount` of their stake.
    ///
    /// On success the first component is what the service now owes the
    /// caller in one transfer: `amount` plus the credited reward.
    pub fn withdraw(&mut self, caller: AccountId, amount: u128, now: Timestamp) -> (res: Result<
        (u128, Vec<StakingEvent>),
        StakingError,
    >)
        requires
            old(self)@.withdraw_defined(caller, amount, now),
        ensures
            final(self)@ == old(self)@.after_unstake(caller, amount, now),
            final(self).token_contract == old(self).token_contract,
            match res {
                Ok((payout, events)) => {
                    &&& old(self)@.unstake_refusal(caller, now) is None
                    &&& payout == amount + old(self)@.payable(caller, now)
                    &&& events@ == seq![StakingEvent::Unstake(Unstake { user: caller, amount })]
                },
                Err(e) => old(self)@.unstake_refusal(caller, now) == Some(e),
            },
    {
        match self.data.internal_unstake(caller, amount, now) {
            Ok((total_reward, events)) => Ok((amount + total_reward, events)),
            Err(e) => Err(e),
        }
    }

    /// Whether [`Self::claim_reward`] may be called on these arguments.
    pub fn claim_is_defined(&self, caller: AccountId, now: Timestamp) -> (ok: bool)
        ensures
            ok == self@.claim_defined(caller, now),
    {
        self.data.claim_is_defined(caller, now)
    }

    /// `caller` claims their reward. On success the first component is what
    /// the service now owes the caller.
    pub fn claim_reward(&mut self, caller: AccountId, now: Timestamp) -> (res: Result<
        (u128, Vec<StakingEvent>),
        StakingError,
    >)
        requires
            old(self)@.claim_defined(caller, now),
        ensures
            final(self)@ == old(self)@.after_claim(caller, now),
            final(self).token_contract == old(self).token_contract,
            match res {
                Ok((payout, events)) => {
                    &&& old(self)@.claim_refusal(caller) is None
                    &&& payout == old(self)@.payable(caller, now)
                    &&& events@ == seq![StakingEvent::Claim(Claim { user: caller, reward: payout })]
                },
                Err(e) => old(self)@.claim_refusal(caller) == Some(e),
            },
    {
        self.data.internal_claim(caller, now)
    }

    /// Whether `caller` is the owner recorded at construction.
    pub fn is_owner(&self, caller: AccountId) -> (yes: bool)
        ensures
            yes == (self@.owner == Some(caller)),
    {
        match &self.data.owner {
            Some(owner) => same_account(owner, &caller),
            None => false,
        }
    }

    /// The owner sets the lock-in duration for all later stakes and reward
    /// computations. Unlock times that are already recorded stay.
    pub fn set_lock_time(&mut self, caller: AccountId, period: Timestamp)
        requires
            old(self)@.owner == Some(caller),
        ensures
            final(self)@ == (Ledger { duration_time: period, ..old(self)@ }),
            final(self).token_contract == old(self).token_contract,
    {
        self.data.duration_time = period;
    }

    /// The running total of what is staked.
    pub fn get_total_staked(&self) -> (total: u128)
        ensures
            total == self@.total_staked,
    {
        self.data.get_total_staked()
    }

    /// Every reward ever credited, over all accounts.
    pub fn get_total_reward(&self) -> (total: u128)
        ensures
            total == self@.total_rewards,
    {
        self.data.get_total_reward()
    }

    /// The record of `user`; the zero record where none was written.
    pub fn get_user_data(&self, user: AccountId) -> (record: UserStakeData)
        ensures
            record == self@.record(user),
    {
        self.data.get_user_data_by_account(user)
    }

    /// The reward of the user's whole principal at `now`.
    pub fn get_user_reward(&self, user: AccountId, now: Timestamp) -> (reward: u128)
        requires
            self@.reward_defined(user, self@.record(user).amount, now),
        ensures
            reward == self@.reward(user, self@.record(user).amount, now),
    {
        self.data.get_user_reward(user, now)
    }

    /// A copy of the list of stakers.
    pub fn get_all_stakers(&self) -> (stakers: Vec<AccountId>)
        ensures
            stakers@ == self@.stakers,
    {
        self.data.get_all_stakers()
    }

    /// When the user's reward started to accrue.
    pub fn start_time(&self, user: AccountId) -> (start: Timestamp)
        ensures
            start == self@.record(user).deposit_time,
    {
        let user_data = self.get_user_data(user);
        user_data.deposit_time
    }

    /// The lock-in duration that is configured now.
    pub fn duration_time(&self) -> (duration: Timestamp)
        ensures
            duration == self@.duration_time,
    {
        self.data.duration_time
    }

    /// The start time of `user` plus the lock-in duration.
    pub fn end_time(&self, user: AccountId) -> (end: Timestamp)
        requires
            self@.end_time(user) <= u64::MAX,
        ensures
            end == self@.end_time(user),
    {
        self.start_time(user) + self.duration_time()
    }

    /// How long after `now` the end time of `user` lies; zero once it has
    /// passed.
    pub fn time_remaining(&self, user: AccountId, now: Timestamp) -> (left: Timestamp)
        requires
            self@.end_time(user) <= u64::MAX,
        ensures
            left == floor_sub(self@.end_time(user), now as int),
    {
        let end: Timestamp = self.end_time(user);
        if now < end {
            end - now
        } else {
            0
        }
    }
}

} // verus!
