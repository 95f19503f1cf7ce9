use ink::primitives::AccountId;
use staking::data::{StakingData, StakingEvent, UserStakeData};
use staking::errors::StakingError;
use staking::events::{Claim, Stake, Unstake};

fn account(tag: u8) -> AccountId {
    AccountId::from([tag; 32])
}

fn ledger() -> StakingData {
    StakingData::new(account(0))
}

fn sum_of_amounts(data: &StakingData, users: &[AccountId]) -> u128 {
    let mut sum = 0u128;
    for user in users {
        sum += data.get_user_data_by_account(*user).amount;
    }
    sum
}

#[test]
fn new_ledger_is_empty() {
    let data = ledger();
    assert_eq!(data.get_total_staked(), 0);
    assert_eq!(data.get_total_reward(), 0);
    assert_eq!(data.duration_time, 1000);
    assert_eq!(data.reward_rate, 1200);
    assert_eq!(data.owner, Some(account(0)));
    assert_eq!(data.get_all_stakers(), Vec::<AccountId>::new());
    assert!(!data.is_staked(account(1)));
    assert_eq!(data.get_pending_reward(account(1)), 0);
    assert_eq!(
        data.get_user_data_by_account(account(1)),
        UserStakeData { amount: 0, deposit_time: 0, unlock_time: 0, claimed_reward: 0 }
    );
}

#[test]
fn default_ledger_has_no_owner_and_no_settings() {
    let data = StakingData::default();
    assert_eq!(data.owner, None);
    assert_eq!(data.duration_time, 0);
    assert_eq!(data.reward_rate, 0);
    assert_eq!(data.get_total_staked(), 0);
    assert_eq!(data.get_total_reward(), 0);
    assert_eq!(data.get_all_stakers(), Vec::<AccountId>::new());
    assert_eq!(data.get_user_data_by_account(account(1)), UserStakeData::default());
    assert_eq!(data.get_pending_reward(account(1)), 0);
    assert!(!data.is_staked(account(1)));
}

#[test]
fn default_record_is_zero() {
    assert_eq!(
        UserStakeData::default(),
        UserStakeData { amount: 0, deposit_time: 0, unlock_time: 0, claimed_reward: 0 }
    );
}

#[test]
fn stake_updates_total_record_and_flag() {
    let mut data = ledger();
    let user = account(1);
    assert!(data.stake_is_defined(user, 1_000_000_000_000, 50));
    let events = data.internal_stake(user, 1_000_000_000_000, 50);
    assert_eq!(
        events,
        Ok(vec![StakingEvent::Stake(Stake { user, amount: 1_000_000_000_000 })])
    );
    assert_eq!(data.get_total_staked(), 1_000_000_000_000);
    assert_eq!(
        data.get_user_data_by_account(user),
        UserStakeData {
            amount: 1_000_000_000_000,
            deposit_time: 50,
            unlock_time: 1050,
            claimed_reward: 0,
        }
    );
    assert!(data.is_staked(user));
    assert!(!data.is_staked(account(2)));
    // The record that the reward is computed against is the zero record,
    // whose unlock time has passed: one full period on the added amount.
    assert_eq!(data.get_pending_reward(user), 380_517);
    assert_eq!(data.get_all_stakers(), Vec::<AccountId>::new());
}

#[test]
fn claim_while_locked_scenario() {
    let mut data = ledger();
    let user = account(1);
    assert_eq!(data.reward_rate, 1200);
    assert_eq!(data.duration_time, 1000);
    assert!(data.internal_stake(user, 1_000_000, 0).is_ok());
    assert_eq!(data.get_pending_reward(user), 0);

    assert!(data.claim_is_defined(user, 500));
    let claimed = data.internal_claim(user, 500);
    // 1_000_000 * 1200 * 500 / (31_536_000_000 * 100), rounded down.
    let reward = 1_000_000u128 * 1200 * 500 / (31_536_000_000u128 * 100);
    assert_eq!(reward, 0);
    assert_eq!(
        claimed,
        Ok((reward, vec![StakingEvent::Claim(Claim { user, reward })]))
    );
    let record = data.get_user_data_by_account(user);
    assert_eq!(record.claimed_reward, reward);
    assert_eq!(data.get_pending_reward(user), 0);
    assert_eq!(record.deposit_time, 500);
    assert_eq!(record.unlock_time, 1000);
    assert_eq!(record.amount, 1_000_000);
    assert_eq!(data.get_total_staked(), 1_000_000);
    assert_eq!(data.get_total_reward(), reward);
}

#[test]
fn claim_while_locked_counts_elapsed_time_and_pending() {
    let mut data = ledger();
    let user = account(1);
    assert!(data.internal_stake(user, 1_000_000_000, 0).is_ok());
    assert_eq!(data.get_pending_reward(user), 380);
    // Elapsed 500 ms gives 190; the carried-over 380 is part of the reward
    // while locked and is added once more when it is credited.
    assert_eq!(data.calculate_reward(user, 1_000_000_000, 500), 190 + 380);
    let claimed = data.internal_claim(user, 500);
    assert_eq!(
        claimed,
        Ok((950, vec![StakingEvent::Claim(Claim { user, reward: 950 })]))
    );
    let record = data.get_user_data_by_account(user);
    assert_eq!(record.claimed_reward, 950);
    assert_eq!(record.deposit_time, 500);
    assert_eq!(record.amount, 1_000_000_000);
    assert_eq!(data.get_pending_reward(user), 0);
    assert_eq!(data.get_total_reward(), 950);
    // The accrual clock restarted: 100 ms later only 100 ms count.
    assert_eq!(data.calculate_reward(user, 1_000_000_000, 600), 38);
}

#[test]
fn claim_without_stake_fails() {
    let mut data = ledger();
    assert!(data.claim_is_defined(account(1), 10));
    assert_eq!(data.internal_claim(account(1), 10), Err(StakingError::StakeNotFound));
    assert_eq!(data.get_total_reward(), 0);
    assert_eq!(data.get_user_data_by_account(account(1)), UserStakeData::default());
}

#[test]
fn unstake_before_any_stake_fails() {
    let mut data = ledger();
    assert!(data.unstake_is_defined(account(1), 0));
    assert_eq!(data.internal_unstake(account(1), 0, 0), Err(StakingError::StakeNotFound));
    assert_eq!(data.internal_unstake(account(1), 5, 10_000), Err(StakingError::StakeNotFound));
    assert_eq!(data.get_user_data_by_account(account(1)), UserStakeData::default());
}

#[test]
fn unstake_after_full_withdrawal_fails() {
    let mut data = ledger();
    let user = account(1);
    assert!(data.internal_stake(user, 100, 0).is_ok());
    assert!(data.internal_unstake(user, 100, 1000).is_ok());
    assert_eq!(data.get_user_data_by_account(user).amount, 0);
    assert_eq!(data.internal_unstake(user, 1, 2000), Err(StakingError::StakeNotFound));
    assert!(data.is_staked(user));
}

#[test]
fn lock_in_is_enforced() {
    let mut data = ledger();
    let user = account(1);
    assert!(data.internal_stake(user, 1_000_000_000_000, 200).is_ok());
    assert_eq!(data.get_user_data_by_account(user).unlock_time, 1200);
    assert_eq!(
        data.internal_unstake(user, 0, 1199),
        Err(StakingError::LockinPeriodNotEnded)
    );
    assert_eq!(data.internal_unstake(user, 0, 0), Err(StakingError::LockinPeriodNotEnded));
    assert_eq!(data.get_user_data_by_account(user).amount, 1_000_000_000_000);
    assert_eq!(data.get_pending_reward(user), 380_517);
    let done = data.internal_unstake(user, 400_000_000_000, 1200);
    assert_eq!(
        done,
        Ok((
            380_517 + 380_517,
            vec![StakingEvent::Unstake(Unstake { user, amount: 400_000_000_000 })]
        ))
    );
}

#[test]
fn unstake_credits_full_period_and_pending() {
    let mut data = ledger();
    let user = account(1);
    assert!(data.internal_stake(user, 1_000_000_000_000, 0).is_ok());
    assert!(data.unstake_is_defined(user, 5000));
    let done = data.internal_unstake(user, 250_000_000_000, 5000);
    assert_eq!(
        done,
        Ok((
            761_034,
            vec![StakingEvent::Unstake(Unstake { user, amount: 250_000_000_000 })]
        ))
    );
    assert_eq!(
        data.get_user_data_by_account(user),
        UserStakeData {
            amount: 750_000_000_000,
            deposit_time: 0,
            unlock_time: 1000,
            claimed_reward: 761_034,
        }
    );
    assert_eq!(data.get_pending_reward(user), 0);
    assert_eq!(data.get_total_reward(), 761_034);
    assert_eq!(data.get_total_staked(), 750_000_000_000);
}

#[test]
fn unstake_more_than_staked_floors_at_zero() {
    let mut data = ledger();
    let user = account(1);
    assert!(data.internal_stake(user, 100, 0).is_ok());
    assert!(data.internal_stake(account(2), 50, 0).is_ok());
    let done = data.internal_unstake(user, 120, 1000);
    assert_eq!(
        done,
        Ok((0, vec![StakingEvent::Unstake(Unstake { user, amount: 120 })]))
    );
    assert_eq!(data.get_user_data_by_account(user).amount, 0);
    assert_eq!(data.get_total_staked(), 30);
    assert_eq!(data.get_user_data_by_account(account(2)).amount, 50);
}

#[test]
fn refused_unstake_still_lowers_the_total() {
    let mut data = ledger();
    let user = account(1);
    assert!(data.internal_stake(user, 100, 0).is_ok());
    assert_eq!(data.internal_unstake(user, 30, 999), Err(StakingError::LockinPeriodNotEnded));
    assert_eq!(data.get_total_staked(), 70);
    assert_eq!(data.get_user_data_by_account(user).amount, 100);
    assert_eq!(data.internal_unstake(account(2), 500, 999), Err(StakingError::StakeNotFound));
    assert_eq!(data.get_total_staked(), 0);
    assert_eq!(data.get_user_data_by_account(user).amount, 100);
}

#[test]
fn reward_regime_boundary() {
    let mut data = ledger();
    let user = account(1);
    assert!(data.internal_stake(user, 1_000_000_000_000, 0).is_ok());
    let record = data.get_user_data_by_account(user);
    assert_eq!(record.unlock_time, 1000);
    assert_eq!(data.get_pending_reward(user), 380_517);
    // One millisecond before the unlock time: 999 ms elapsed, plus pending.
    assert!(data.reward_is_defined(user, 1_000_000_000_000, 999));
    assert_eq!(data.calculate_reward(user, 1_000_000_000_000, 999), 380_136 + 380_517);
    // At the unlock time and ever after: one full period, pending left out.
    assert_eq!(data.calculate_reward(user, 1_000_000_000_000, 1000), 380_517);
    assert_eq!(data.calculate_reward(user, 1_000_000_000_000, 1_000_000), 380_517);
    assert_eq!(data.get_user_reward(user, 999), 760_653);
    assert_eq!(data.get_user_reward(user, 1000), 380_517);
    // Nothing was changed by asking.
    assert_eq!(data.get_pending_reward(user), 380_517);
    assert_eq!(data.get_user_data_by_account(user), record);
}

#[test]
fn reward_before_deposit_time_counts_no_time() {
    let mut data = ledger();
    let user = account(1);
    assert!(data.internal_stake(user, 1_000_000_000_000, 700).is_ok());
    assert_eq!(data.calculate_reward(user, 1_000_000_000_000, 100), 380_517);
    assert_eq!(data.calculate_reward(user, 1_000_000_000_000, 700), 380_517);
    assert_eq!(data.calculate_reward(user, 1_000_000_000_000, 1000), 114_155 + 380_517);
}

#[test]
fn staking_twice_accumulates_pending_reward() {
    let mut data = ledger();
    let user = account(1);
    assert!(data.internal_stake(user, 1_000_000_000_000, 0).is_ok());
    assert_eq!(data.get_pending_reward(user), 380_517);
    // Second stake while locked: 400 ms on the added amount, plus the
    // pending reward, added to the pending reward.
    assert!(data.internal_stake(user, 500_000_000_000, 400).is_ok());
    assert_eq!(data.get_pending_reward(user), 380_517 + 76_103 + 380_517);
    assert_eq!(
        data.get_user_data_by_account(user),
        UserStakeData {
            amount: 1_500_000_000_000,
            deposit_time: 400,
            unlock_time: 1400,
            claimed_reward: 0,
        }
    );
    assert_eq!(data.get_total_staked(), 1_500_000_000_000);
}

#[test]
fn staking_twice_after_unlock_adds_full_period() {
    let mut data = ledger();
    let user = account(1);
    assert!(data.internal_stake(user, 1_000_000_000_000, 0).is_ok());
    assert!(data.internal_stake(user, 500_000_000_000, 1000).is_ok());
    assert_eq!(data.get_pending_reward(user), 380_517 + 190_258);
    assert_eq!(data.get_user_data_by_account(user).unlock_time, 2000);
}

#[test]
fn overflow_guard_changes_nothing() {
    let mut data = ledger();
    let user = account(1);
    data.duration_time = 0;
    assert!(data.internal_stake(user, u128::MAX - 5, 10).is_ok());
    let record = data.get_user_data_by_account(user);
    let pending = data.get_pending_reward(user);
    assert!(data.stake_is_defined(account(2), 6, 20));
    assert_eq!(data.internal_stake(account(2), 6, 20), Err(StakingError::OverFlow));
    assert_eq!(data.get_total_staked(), u128::MAX - 5);
    assert_eq!(data.get_total_reward(), 0);
    assert_eq!(data.get_user_data_by_account(user), record);
    assert_eq!(data.get_pending_reward(user), pending);
    assert_eq!(data.get_user_data_by_account(account(2)), UserStakeData::default());
    assert_eq!(data.get_pending_reward(account(2)), 0);
    assert!(!data.is_staked(account(2)));
    assert_eq!(data.internal_stake(user, u128::MAX, 20), Err(StakingError::OverFlow));
    assert_eq!(data.get_user_data_by_account(user), record);
    assert!(data.internal_stake(account(2), 5, 20).is_ok());
    assert_eq!(data.get_total_staked(), u128::MAX);
}

#[test]
fn stake_is_undefined_where_a_later_sum_leaves_its_range() {
    let mut data = ledger();
    let user = account(1);
    // The unlock time would not fit.
    assert!(!data.stake_is_defined(user, 1, u64::MAX));
    assert!(data.stake_is_defined(user, 1, u64::MAX - 1000));
    // The principal would not fit although the total does.
    assert!(data.internal_stake(user, u128::MAX - 5, 0).is_ok());
    assert_eq!(data.internal_unstake(account(2), u128::MAX, 0), Err(StakingError::StakeNotFound));
    assert_eq!(data.get_total_staked(), 0);
    assert!(!data.stake_is_defined(user, 6, 0));
    assert!(data.stake_is_defined(user, 5, 0));
}

#[test]
fn credit_is_undefined_where_the_reward_ledger_would_overflow() {
    let mut data = ledger();
    let user = account(1);
    assert!(data.internal_stake(user, 1_000_000_000_000, 0).is_ok());
    data.total_rewards = u128::MAX - 761_033;
    assert!(!data.unstake_is_defined(user, 1000));
    assert!(!data.claim_is_defined(user, 1000));
    // While locked the withdrawal is refused before anything is credited.
    assert!(data.unstake_is_defined(user, 999));
    data.total_rewards = u128::MAX - 761_034;
    assert!(data.unstake_is_defined(user, 1000));
    assert!(data.claim_is_defined(user, 1000));
    assert_eq!(
        data.internal_claim(user, 1000),
        Ok((761_034, vec![StakingEvent::Claim(Claim { user, reward: 761_034 })]))
    );
    assert_eq!(data.get_total_reward(), u128::MAX);
}

#[test]
fn reward_is_undefined_where_pending_does_not_fit() {
    let mut data = ledger();
    let user = account(1);
    assert!(data.internal_stake(user, 1_000_000_000_000, 0).is_ok());
    data.pending_reward.insert(user, u128::MAX - 190_257);
    assert!(!data.reward_is_defined(user, 1_000_000_000_000, 500));
    assert!(data.reward_is_defined(user, 1_000_000_000_000, 499));
    assert!(data.reward_is_defined(user, 1_000_000_000_000, 1000));
}

#[test]
fn total_equals_sum_of_amounts_over_stakes_and_balanced_unstakes() {
    let mut data = ledger();
    let users = [account(1), account(2), account(3)];
    assert_eq!(data.get_total_staked(), sum_of_amounts(&data, &users));
    assert!(data.internal_stake(users[0], 700, 0).is_ok());
    assert_eq!(data.get_total_staked(), sum_of_amounts(&data, &users));
    assert!(data.internal_stake(users[1], 300, 10).is_ok());
    assert!(data.internal_stake(users[0], 50, 20).is_ok());
    assert!(data.internal_stake(users[2], 1, 30).is_ok());
    assert_eq!(data.get_total_staked(), 1051);
    assert_eq!(data.get_total_staked(), sum_of_amounts(&data, &users));
    assert!(data.internal_unstake(users[1], 300, 1010).is_ok());
    assert_eq!(data.get_total_staked(), sum_of_amounts(&data, &users));
    assert!(data.internal_unstake(users[0], 200, 1020).is_ok());
    assert_eq!(data.get_total_staked(), 551);
    assert_eq!(data.get_total_staked(), sum_of_amounts(&data, &users));
    // Refused, but for nothing: still balanced.
    assert_eq!(data.internal_unstake(users[1], 0, 1020), Err(StakingError::StakeNotFound));
    assert_eq!(data.get_total_staked(), sum_of_amounts(&data, &users));
    assert!(data.internal_claim(users[0], 1030).is_ok());
    assert_eq!(data.get_total_staked(), sum_of_amounts(&data, &users));
}

#[test]
fn reward_ledger_never_shrinks() {
    let mut data = ledger();
    let users = [account(1), account(2)];
    let mut total = data.get_total_reward();
    let mut claimed = [0u128; 2];
    let mut check = |data: &StakingData| {
        assert!(data.get_total_reward() >= total);
        total = data.get_total_reward();
        for (i, user) in users.iter().enumerate() {
            let now = data.get_user_data_by_account(*user).claimed_reward;
            assert!(now >= claimed[i]);
            claimed[i] = now;
        }
    };
    assert!(data.internal_stake(users[0], 1_000_000_000_000, 0).is_ok());
    check(&data);
    assert!(data.internal_stake(users[1], 2_000_000_000_000, 100).is_ok());
    check(&data);
    assert!(data.internal_claim(users[0], 500).is_ok());
    check(&data);
    assert!(data.internal_unstake(users[0], 5, 600).is_err());
    check(&data);
    assert!(data.internal_unstake(users[1], 1_000_000_000_000, 1100).is_ok());
    check(&data);
    assert!(data.internal_stake(users[0], 10, 1200).is_ok());
    check(&data);
    assert!(data.internal_claim(users[1], 5000).is_ok());
    check(&data);
    assert_eq!(
        data.get_total_reward(),
        data.get_user_data_by_account(users[0]).claimed_reward
            + data.get_user_data_by_account(users[1]).claimed_reward
    );
}

#[test]
fn lock_time_change_leaves_recorded_unlock_times() {
    let mut data = ledger();
    let user = account(1);
    assert!(data.internal_stake(user, 1_000_000_000_000, 0).is_ok());
    data.duration_time = 2000;
    assert_eq!(data.get_user_data_by_account(user).unlock_time, 1000);
    // Past the recorded unlock time the new duration sets the reward.
    assert_eq!(data.calculate_reward(user, 1_000_000_000_000, 1000), 761_035);
    assert!(data.internal_stake(account(2), 1, 100).is_ok());
    assert_eq!(data.get_user_data_by_account(account(2)).unlock_time, 2100);
}
