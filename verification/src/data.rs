//! The accounting engine: the ledger's state and its transitions.

use crate::errors::StakingError;
use crate::events::{Claim, Stake, Unstake};
use crate::model::{zero_record, Ledger};
use crate::reward::accrue;
use crate::store::AccountMap;
use ink::primitives::AccountId;
use vstd::prelude::*;

verus! {

/// Points in time, in milliseconds.
pub type Timestamp = u64;

/// Milliseconds in a year of 365 days.
pub const ONE_YEAR_IN_MILLISECONDS: u128 = 31536000000;

/// What the ledger records for one account.
#[derive(Debug, PartialEq, Eq, Clone, Copy)]
pub struct UserStakeData {
    /// The principal that is staked now.
    pub amount: u128,
    /// When the reward started to accrue: the last stake or claim.
    pub deposit_time: Timestamp,
    /// The earliest time at which the stake may be withdrawn.
    pub unlock_time: Timestamp,
    /// Every reward ever credited to the account.
    pub claimed_reward: u128,
}

impl Default for UserStakeData {
    fn default() -> (record: Self)
        ensures
            record == zero_record(),
    {
        UserStakeData { amount: 0, deposit_time: 0, unlock_time: 0, claimed_reward: 0 }
    }
}

/// What happened in a transition, for the caller to publish.
#[derive(Debug, Clone, Copy, PartialEq, Eq)]
pub enum StakingEvent {
    Stake(Stake),
    Unstake(Unstake),
    Claim(Claim),
}

fn stake_event(user: AccountId, amount: u128) -> (event: StakingEvent)
    ensures
        event == StakingEvent::Stake(Stake { user, amount }),
{
    StakingEvent::Stake(Stake { user, amount })
}

fn unstake_event(user: AccountId, amount: u128) -> (event: StakingEvent)
    ensures
        event == StakingEvent::Unstake(Unstake { user, amount }),
{
    StakingEvent::Unstake(Unstake { user, amount })
}

fn claim_event(user: AccountId, reward: u128) -> (event: StakingEvent)
    ensures
        event == StakingEvent::Claim(Claim { user, reward }),
{
    StakingEvent::Claim(Claim { user, reward })
}

/// The staking ledger.
#[derive(Debug)]
pub struct StakingData {
    /// The record of each account that has one.
    pub user_data: AccountMap<UserStakeData>,
    /// The accounts that have ever staked.
    pub has_staked: AccountMap<bool>,
    /// Who may change the lock-in duration.
    pub owner: Option<AccountId>,
    /// A list of stakers; no transition writes it.
    pub stakers: Vec<AccountId>,
    /// The running total of what is staked.
    pub total_staked: u128,
    /// Every reward ever credited, over all accounts.
    pub total_rewards: u128,
    /// The lock-in duration of later stakes.
    pub duration_time: Timestamp,
    /// The reward rate.
    pub reward_rate: u64,
    /// The reward carried over for each account, until it is credited.
    pub pending_reward: AccountMap<u128>,
}

impl View for StakingData {
    type V = Ledger;

    open spec fn view(&self) -> Ledger {
        Ledger {
            user_data: self.user_data@,
            has_staked: self.has_staked@,
            owner: self.owner,
            stakers: self.stakers@,
            total_staked: self.total_staked,
            total_rewards: self.total_rewards,
            duration_time: self.duration_time,
            reward_rate: self.reward_rate,
            pending_reward: self.pending_reward@,
        }
    }
}

impl Default for StakingData {
    fn default() -> (data: Self)
        ensures
            data@ == Ledger::zero(),
    {
        StakingData {
            user_data: AccountMap::new(),
            has_staked: AccountMap::new(),
            owner: None,
            stakers: Vec::new(),
            total_staked: 0,
            total_rewards: 0,
            duration_time: 0,
            reward_rate: 0,
            pending_reward: AccountMap::new(),
        }
    }
}

impl StakingData {
    /// A ledger with nothing staked, owned by `owner`, with a lock-in of
    /// 1000 ms and a reward rate of 1200.
    pub fn new(owner: AccountId) -> (data: Self)
        ensures
            data@ == Ledger::fresh(owner),
    {
        StakingData {
            user_data: AccountMap::new(),
            has_staked: AccountMap::new(),
            owner: Some(owner),
            stakers: Vec::new(),
            total_staked: 0,
            total_rewards: 0,
            duration_time: 1000,
            reward_rate: 1200,
            pending_reward: AccountMap::new(),
        }
    }

    /// Only finitely many accounts have a record.
    pub proof fn lemma_finite(&self)
        ensures
            self@.user_data.dom().finite(),
    {
        self.user_data.lemma_finite();
    }

    /// The running total of what is staked.
    pub fn get_total_staked(&self) -> (total: u128)
        ensures
            total == self@.total_staked,
    {
        self.total_staked
    }

    /// Every reward ever credited, over all accounts.
    pub fn get_total_reward(&self) -> (total: u128)
        ensures
            total == self@.total_rewards,
    {
        self.total_rewards
    }

    /// The reward of the user's whole principal at `current_time`.
    pub fn get_user_reward(&self, user: AccountId, current_time: Timestamp) -> (reward: u128)
        requires
            self@.reward_defined(user, self@.record(user).amount, current_time),
        ensures
            reward == self@.reward(user, self@.record(user).amount, current_time),
    {
        let user_stake_data = self.get_user_data_by_account(user);
        self.calculate_reward(user, user_stake_data.amount, current_time)
    }

    /// Whether `user` has ever staked.
    pub fn is_staked(&self, user: AccountId) -> (staked: bool)
        ensures
            staked == self@.staked_flag(user),
    {
        match self.has_staked.get(user) {
            Some(flag) => flag,
            None => false,
        }
    }

    /// The record of `user`; the zero record where none was written.
    pub fn get_user_data_by_account(&self, user: AccountId) -> (record: UserStakeData)
        ensures
            record == self@.record(user),
    {
        match self.user_data.get(user) {
            Some(record) => record,
            None => UserStakeData::default(),
        }
    }

    /// The reward carried over for `user`; zero where none was written.
    pub fn get_pending_reward(&self, user: AccountId) -> (pending: u128)
        ensures
            pending == self@.pending(user),
    {
        match self.pending_reward.get(user) {
            Some(pending) => pending,
            None => 0,
        }
    }

    /// A copy of the list of stakers.
    pub fn get_all_stakers(&self) -> (stakers: Vec<AccountId>)
        ensures
            stakers@ == self@.stakers,
    {
        let mut stakers: Vec<AccountId> = Vec::new();
        let mut i: usize = 0;
        while i < self.stakers.len()
            invariant
                i <= self.stakers@.len(),
                stakers@ == self.stakers@.take(i as int),
            decreases self.stakers@.len() - i,
        {
            stakers.push(self.stakers[i]);
            proof {
                assert(self.stakers@.take(i + 1) =~= self.stakers@.take(i as int).push(
                    self.stakers@[i as int],
                ));
            }
            i += 1;
        }
        proof {
            assert(self.stakers@.take(i as int) =~= self.stakers@);
        }
        stakers
    }

    /// Whether [`Self::calculate_reward`] may be called on these arguments.
    pub fn reward_is_defined(&self, user: AccountId, amount: u128, current_time: Timestamp) -> (ok:
        bool)
        ensures
            ok == self@.reward_defined(user, amount, current_time),
    {
        let user_data = self.get_user_data_by_account(user);
        if user_data.unlock_time > current_time {
            let time: u64 = current_time.saturating_sub(user_data.deposit_time);
            let reward: u128 = accrue(amount, self.reward_rate, time);
            reward.checked_add(self.get_pending_reward(user)).is_some()
        } else {
            proof {
                crate::reward::lemma_accrued_bounds(amount, self.reward_rate, self.duration_time);
            }
            true
        }
    }

    /// The reward of `amount` for `user` at `current_time`, by the two-regime
    /// formula of [`Ledger::reward`]. Nothing is changed.
    pub fn calculate_reward(&self, user: AccountId, amount: u128, current_time: Timestamp) -> (reward:
        u128)
        requires
            self@.reward_defined(user, amount, current_time),
        ensures
            reward == self@.reward(user, amount, current_time),
    {
        let user_data = self.get_user_data_by_account(user);
        if user_data.unlock_time > current_time {
            let time: u64 = current_time.saturating_sub(user_data.deposit_time);
            let reward: u128 = accrue(amount, self.reward_rate, time);
            let pending_reward: u128 = self.get_pending_reward(user);
            reward + pending_reward
        } else {
            accrue(amount, self.reward_rate, self.duration_time)
        }
    }
}

impl StakingData {
    /// Whether [`Self::internal_stake`] may be called on these arguments.
    pub fn stake_is_defined(&self, user: AccountId, amount: u128, current_time: Timestamp) -> (ok:
        bool)
        ensures
            ok == self@.stake_defined(user, amount, current_time),
    {
        if self.total_staked.checked_add(amount).is_none() {
            return true;
        }
        let record = self.get_user_data_by_account(user);
        if record.amount.checked_add(amount).is_none() {
            return false;
        }
        if current_time.checked_add(self.duration_time).is_none() {
            return false;
        }
        if !self.reward_is_defined(user, amount, current_time) {
            proof {
                crate::reward::lemma_accrued_bounds(amount, self.reward_rate, self.duration_time);
            }
            return false;
        }
        let reward: u128 = self.calculate_reward(user, amount, current_time);
        self.get_pending_reward(user).checked_add(reward).is_some()
    }

    /// `user` stakes `amount` at `current_time`.
    ///
    /// Fails with `OverFlow`, and changes nothing, exactly when the total
    /// would leave the 128-bit range. Otherwise the ledger becomes
    /// [`Ledger::after_stake`] and one `Stake` event is handed back.
    pub fn internal_stake(&mut self, user: AccountId, amount: u128, current_time: Timestamp) -> (res:
        Result<Vec<StakingEvent>, StakingError>)
        requires
            old(self)@.stake_defined(user, amount, current_time),
        ensures
            final(self)@ == old(self)@.after_stake(user, amount, current_time),
            old(self)@.stake_overflows(amount) ==> res == Err::<Vec<StakingEvent>, StakingError>(
                StakingError::OverFlow,
            ) && final(self)@ == old(self)@,
            !old(self)@.stake_overflows(amount) ==> res is Ok && res->Ok_0@ == seq![
                StakingEvent::Stake(Stake { user, amount }),
            ],
    {
        let new_total_staked: u128 = match self.total_staked.checked_add(amount) {
            Some(total) => total,
            None => {
                return Err(StakingError::OverFlow);
            },
        };
        let mut user_stake_data = self.get_user_data_by_account(user);
        let reward: u128 = self.calculate_reward(user, amount, current_time);
        let pending_reward: u128 = self.get_pending_reward(user);

        self.total_staked = new_total_staked;
        user_stake_data.amount = user_stake_data.amount + amount;
        user_stake_data.deposit_time = current_time;
        user_stake_data.unlock_time = current_time + self.duration_time;

        self.pending_reward.insert(user, pending_reward + reward);
        self.user_data.insert(user, user_stake_data);
        self.has_staked.insert(user, true);

        let mut events: Vec<StakingEvent> = Vec::new();
        events.push(stake_event(user, amount));
        Ok(events)
    }

    /// Whether [`Self::internal_unstake`] and [`Self::internal_claim`] can
    /// credit what is payable to `user` at `current_time`.
    fn credit_is_defined(&self, user: AccountId, current_time: Timestamp) -> (ok: bool)
        ensures
            ok == self@.credit_defined(user, current_time),
    {
        let record = self.get_user_data_by_account(user);
        if !self.reward_is_defined(user, record.amount, current_time) {
            return false;
        }
        let reward: u128 = self.calculate_reward(user, record.amount, current_time);
        match reward.checked_add(self.get_pending_reward(user)) {
            None => false,
            Some(credit) => self.total_rewards.checked_add(credit).is_some()
                && record.claimed_reward.checked_add(credit).is_some(),
        }
    }

    /// Whether [`Self::internal_unstake`] may be called on these arguments.
    pub fn unstake_is_defined(&self, user: AccountId, current_time: Timestamp) -> (ok: bool)
        ensures
            ok == self@.unstake_defined(user, current_time),
    {
        let record = self.get_user_data_by_account(user);
        if record.amount == 0 || current_time < record.unlock_time {
            true
        } else {
            self.credit_is_defined(user, current_time)
        }
    }

    /// `user` asks to withdraw `amount` at `current_time`.
    ///
    /// The total drops by `amount` (held at zero) in every case. The call
    /// then fails with `StakeNotFound` exactly when the user's principal is
    /// zero, and with `LockinPeriodNotEnded` exactly when it is not zero
    /// and `current_time` is before the unlock time. Otherwise it hands back
    /// the credited reward and one `Unstake` event. The ledger becomes
    /// [`Ledger::after_unstake`].
    pub fn internal_unstake(
        &mut self,
        user: AccountId,
        amount: u128,
        current_time: Timestamp,
    ) -> (res: Result<(u128, Vec<StakingEvent>), StakingError>)
        requires
            old(self)@.unstake_defined(user, current_time),
        ensures
            final(self)@ == old(self)@.after_unstake(user, amount, current_time),
            match res {
                Ok((total_reward, events)) => {
                    &&& old(self)@.unstake_refusal(user, current_time) is None
                    &&& total_reward == old(self)@.payable(user, current_time)
                    &&& events@ == seq![StakingEvent::Unstake(Unstake { user, amount })]
                },
                Err(e) => old(self)@.unstake_refusal(user, current_time) == Some(e),
            },
    {
        self.total_staked = self.total_staked.saturating_sub(amount);

        let mut user_stake_data = self.get_user_data_by_account(user);
        if user_stake_data.amount == 0 {
            return Err(StakingError::StakeNotFound);
        }
        if current_time < user_stake_data.unlock_time {
            return Err(StakingError::LockinPeriodNotEnded);
        }
        let pending_reward_amount: u128 = self.get_pending_reward(user);
        let current_amount: u128 = user_stake_data.amount;
        let reward: u128 = self.calculate_reward(user, current_amount, current_time);
        let total_reward: u128 = reward + pending_reward_amount;

        self.total_rewards = self.total_rewards + total_reward;
        self.pending_reward.insert(user, 0);
        user_stake_data.amount = user_stake_data.amount.saturating_sub(amount);
        user_stake_data.claimed_reward = user_stake_data.claimed_reward + total_reward;
        self.user_data.insert(user, user_stake_data);

        let mut events: Vec<StakingEvent> = Vec::new();
        events.push(unstake_event(user, amount));
        Ok((total_reward, events))
    }

    /// Whether [`Self::internal_claim`] may be called on these arguments.
    pub fn claim_is_defined(&self, user: AccountId, current_time: Timestamp) -> (ok: bool)
        ensures
            ok == self@.claim_defined(user, current_time),
    {
        let record = self.get_user_data_by_account(user);
        if record.amount == 0 {
            true
        } else {
            self.credit_is_defined(user, current_time)
        }
    }

    /// `user` claims their reward at `current_time`.
    ///
    /// Fails with `StakeNotFound`, and changes nothing, exactly when the
    /// user's principal is zero. Otherwise it hands back the credited reward
    /// and one `Claim` event that carries it. The ledger becomes
    /// [`Ledger::after_claim`].
    pub fn internal_claim(&mut self, user: AccountId, current_time: Timestamp) -> (res: Result<
        (u128, Vec<StakingEvent>),
        StakingError,
    >)
        requires
            old(self)@.claim_defined(user, current_time),
        ensures
            final(self)@ == old(self)@.after_claim(user, current_time),
            match res {
                Ok((total_reward, events)) => {
                    &&& old(self)@.claim_refusal(user) is None
                    &&& total_reward == old(self)@.payable(user, current_time)
                    &&& events@ == seq![
                        StakingEvent::Claim(Claim { user, reward: total_reward }),
                    ]
                },
                Err(e) => old(self)@.claim_refusal(user) == Some(e),
            },
    {
        let mut user_stake_data = self.get_user_data_by_account(user);
        if user_stake_data.amount == 0 {
            return Err(StakingError::StakeNotFound);
        }
        let pending_reward_amount: u128 = self.get_pending_reward(user);
        let reward: u128 = self.calculate_reward(user, user_stake_data.amount, current_time);
        let total_reward: u128 = reward + pending_reward_amount;

        self.total_rewards = self.total_rewards + total_reward;
        user_stake_data.deposit_time = current_time;
        user_stake_data.claimed_reward = user_stake_data.claimed_reward + total_reward;
        self.user_data.insert(user, user_stake_data);
        self.pending_reward.insert(user, 0);

        let mut events: Vec<StakingEvent> = Vec::new();
        events.push(claim_event(user, total_reward));
        Ok((total_reward, events))
    }
}

} // verus!
