//! What holds of the ledger across its operations.

use crate::errors::StakingError;
use crate::data::UserStakeData;
use crate::model::{floor_sub, Ledger};
use crate::reward::{accrued, lemma_accrued_bounds};
use ink::primitives::AccountId;
use vstd::prelude::*;

verus! {

/// The sum of the principals of all records.
pub open spec fn sum_amounts(records: Map<AccountId, UserStakeData>) -> int
    decreases records.dom().len(),
    when records.dom().finite()
{
    if records.dom().len() == 0 {
        0
    } else {
        let user = records.dom().choose();
        records[user].amount + sum_amounts(records.remove(user))
    }
}

/// The sum of all principals splits into one account's principal and the sum
/// over the others.
pub proof fn lemma_sum_split(records: Map<AccountId, UserStakeData>, user: AccountId)
    requires
        records.dom().finite(),
        records.contains_key(user),
    ensures
        sum_amounts(records) == records[user].amount + sum_amounts(records.remove(user)),
    decreases records.dom().len(),
{
    let picked = records.dom().choose();
    if picked != user {
        let without_picked = records.remove(picked);
        let without_user = records.remove(user);
        lemma_sum_split(without_picked, user);
        lemma_sum_split(without_user, picked);
        assert(without_picked.remove(user) =~= without_user.remove(picked));
    }
}

/// Writing one record changes the sum by the change of that account's
/// principal.
pub proof fn lemma_sum_insert(
    records: Map<AccountId, UserStakeData>,
    user: AccountId,
    record: UserStakeData,
)
    requires
        records.dom().finite(),
    ensures
        sum_amounts(records.insert(user, record)) == sum_amounts(records) + record.amount - (
        if records.contains_key(user) {
            records[user].amount as int
        } else {
            0
        }),
{
    let written = records.insert(user, record);
    lemma_sum_split(written, user);
    assert(written.remove(user) =~= records.remove(user));
    if records.contains_key(user) {
        lemma_sum_split(records, user);
    } else {
        assert(records.remove(user) =~= records);
    }
}

/// No principal exceeds the sum of all principals.
pub proof fn lemma_sum_bounds(records: Map<AccountId, UserStakeData>, user: AccountId)
    requires
        records.dom().finite(),
    ensures
        0 <= sum_amounts(records),
        records.contains_key(user) ==> records[user].amount <= sum_amounts(records),
    decreases records.dom().len(),
{
    if records.dom().len() > 0 {
        let picked = records.dom().choose();
        lemma_sum_bounds(records.remove(picked), user);
        if records.contains_key(user) {
            lemma_sum_split(records, user);
            lemma_sum_bounds(records.remove(user), user);
        }
    }
}

impl Ledger {
    /// The total equals the sum of all principals.
    pub open spec fn conserved(self) -> bool {
        self.user_data.dom().finite() && self.total_staked == sum_amounts(self.user_data)
    }

    /// A withdrawal that takes the same amount off the total and off the
    /// principal: one that goes through for no more than the principal (or
    /// for more, of the only account with a principal), or one that is
    /// refused while it asks for nothing or the total is zero.
    pub open spec fn unstake_balanced(self, user: AccountId, amount: u128, now: u64) -> bool {
        if self.unstake_refusal(user, now) is Some {
            amount == 0 || self.total_staked == 0
        } else {
            amount <= self.record(user).amount || self.total_staked == self.record(user).amount
        }
    }
}

/// A freshly made ledger is conserved.
pub proof fn lemma_fresh_conserved(owner: AccountId)
    ensures
        Ledger::fresh(owner).conserved(),
{
}

/// In a conserved ledger no principal exceeds the total, so a stake that
/// keeps the total in range keeps the principal in range.
pub proof fn lemma_conserved_principal(s: Ledger, user: AccountId)
    requires
        s.conserved(),
    ensures
        s.record(user).amount <= s.total_staked,
{
    lemma_sum_bounds(s.user_data, user);
}

/// A stake keeps the total equal to the sum of all principals, whether it
/// goes through or is refused.
pub proof fn lemma_stake_conserves(s: Ledger, user: AccountId, amount: u128, now: u64)
    requires
        s.conserved(),
        s.stake_defined(user, amount, now),
    ensures
        s.after_stake(user, amount, now).conserved(),
{
    if !s.stake_overflows(amount) {
        let after = s.after_stake(user, amount, now);
        lemma_sum_insert(s.user_data, user, after.user_data[user]);
    }
}

/// From a conserved ledger, a withdrawal leaves the total equal to the sum
/// of all principals exactly when it is balanced.
pub proof fn lemma_unstake_conserves(s: Ledger, user: AccountId, amount: u128, now: u64)
    requires
        s.conserved(),
        s.unstake_defined(user, now),
    ensures
        s.after_unstake(user, amount, now).conserved() <==> s.unstake_balanced(user, amount, now),
{
    let after = s.after_unstake(user, amount, now);
    lemma_sum_bounds(s.user_data, user);
    if s.unstake_refusal(user, now) is None {
        lemma_sum_insert(s.user_data, user, after.user_data[user]);
    }
}

/// A claim leaves the total and every principal as they were.
pub proof fn lemma_claim_conserves(s: Ledger, user: AccountId, now: u64)
    requires
        s.conserved(),
        s.claim_defined(user, now),
    ensures
        s.after_claim(user, now).conserved(),
{
    if s.claim_refusal(user) is None {
        let after = s.after_claim(user, now);
        lemma_sum_insert(s.user_data, user, after.user_data[user]);
    }
}

/// The reward ledger did not shrink from `before` to `after`: neither the
/// total of the credited rewards nor any account's credited reward.
pub open spec fn rewards_grew(before: Ledger, after: Ledger) -> bool {
    &&& before.total_rewards <= after.total_rewards
    &&& forall|user: AccountId|
        before.record(user).claimed_reward <= (#[trigger] after.record(user)).claimed_reward
}

/// A stake lowers no credited reward.
pub proof fn lemma_stake_rewards_grow(s: Ledger, user: AccountId, amount: u128, now: u64)
    requires
        s.stake_defined(user, amount, now),
    ensures
        rewards_grew(s, s.after_stake(user, amount, now)),
{
}

/// A withdrawal lowers no credited reward.
pub proof fn lemma_unstake_rewards_grow(s: Ledger, user: AccountId, amount: u128, now: u64)
    requires
        s.unstake_defined(user, now),
    ensures
        rewards_grew(s, s.after_unstake(user, amount, now)),
{
    lemma_payable_bounds(s, user, now);
}

/// A claim lowers no credited reward.
pub proof fn lemma_claim_rewards_grow(s: Ledger, user: AccountId, now: u64)
    requires
        s.claim_defined(user, now),
    ensures
        rewards_grew(s, s.after_claim(user, now)),
{
    lemma_payable_bounds(s, user, now);
}

/// What is payable is never negative.
pub proof fn lemma_payable_bounds(s: Ledger, user: AccountId, now: u64)
    ensures
        0 <= s.reward(user, s.record(user).amount, now),
        0 <= s.payable(user, now),
{
    let record = s.record(user);
    lemma_accrued_bounds(record.amount, s.reward_rate, s.duration_time);
    lemma_accrued_bounds(
        record.amount,
        s.reward_rate,
        floor_sub(now as int, record.deposit_time as int) as u64,
    );
}

/// One call of the engine.
pub enum Operation {
    Stake { user: AccountId, amount: u128, now: u64 },
    Unstake { user: AccountId, amount: u128, now: u64 },
    Claim { user: AccountId, now: u64 },
}

impl Ledger {
    /// Every number that the operation computes is within its range.
    pub open spec fn defined(self, op: Operation) -> bool {
        match op {
            Operation::Stake { user, amount, now } => self.stake_defined(user, amount, now),
            Operation::Unstake { user, amount, now } => self.unstake_defined(user, now),
            Operation::Claim { user, now } => self.claim_defined(user, now),
        }
    }

    /// The ledger after the operation.
    pub open spec fn apply(self, op: Operation) -> Ledger {
        match op {
            Operation::Stake { user, amount, now } => self.after_stake(user, amount, now),
            Operation::Unstake { user, amount, now } => self.after_unstake(user, amount, now),
            Operation::Claim { user, now } => self.after_claim(user, now),
        }
    }

    /// The operation takes the same amount off the total and off a
    /// principal; only a withdrawal can fail to.
    pub open spec fn balanced(self, op: Operation) -> bool {
        match op {
            Operation::Unstake { user, amount, now } => self.unstake_balanced(user, amount, now),
            _ => true,
        }
    }

    /// The ledger after the operations, first to last.
    pub open spec fn run(self, ops: Seq<Operation>) -> Ledger
        decreases ops.len(),
    {
        if ops.len() == 0 {
            self
        } else {
            self.apply(ops[0]).run(ops.drop_first())
        }
    }

    /// Each operation is defined on the ledger that it meets.
    pub open spec fn run_defined(self, ops: Seq<Operation>) -> bool
        decreases ops.len(),
    {
        ops.len() > 0 ==> self.defined(ops[0]) && self.apply(ops[0]).run_defined(ops.drop_first())
    }

    /// Each operation is balanced on the ledger that it meets.
    pub open spec fn run_balanced(self, ops: Seq<Operation>) -> bool
        decreases ops.len(),
    {
        ops.len() > 0 ==> self.balanced(ops[0]) && self.apply(ops[0]).run_balanced(
            ops.drop_first(),
        )
    }
}

/// After any sequence of stakes, balanced withdrawals and claims on a
/// conserved ledger, the total equals the sum of all principals.
pub proof fn lemma_run_conserves(s: Ledger, ops: Seq<Operation>)
    requires
        s.conserved(),
        s.run_defined(ops),
        s.run_balanced(ops),
    ensures
        s.run(ops).conserved(),
    decreases ops.len(),
{
    if ops.len() > 0 {
        match ops[0] {
            Operation::Stake { user, amount, now } => lemma_stake_conserves(s, user, amount, now),
            Operation::Unstake { user, amount, now } => lemma_unstake_conserves(
                s,
                user,
                amount,
                now,
            ),
            Operation::Claim { user, now } => lemma_claim_conserves(s, user, now),
        }
        lemma_run_conserves(s.apply(ops[0]), ops.drop_first());
    }
}

/// Over any sequence of operations neither the total of the credited
/// rewards nor any account's credited reward shrinks.
pub proof fn lemma_run_rewards_grow(s: Ledger, ops: Seq<Operation>)
    requires
        s.run_defined(ops),
    ensures
        rewards_grew(s, s.run(ops)),
    decreases ops.len(),
{
    if ops.len() > 0 {
        let next = s.apply(ops[0]);
        match ops[0] {
            Operation::Stake { user, amount, now } => lemma_stake_rewards_grow(
                s,
                user,
                amount,
                now,
            ),
            Operation::Unstake { user, amount, now } => lemma_unstake_rewards_grow(
                s,
                user,
                amount,
                now,
            ),
            Operation::Claim { user, now } => lemma_claim_rewards_grow(s, user, now),
        }
        lemma_run_rewards_grow(next, ops.drop_first());
        let last = s.run(ops);
        assert forall|user: AccountId|
            s.record(user).claimed_reward <= (#[trigger] last.record(user)).claimed_reward by {
            assert(s.record(user).claimed_reward <= next.record(user).claimed_reward);
        }
    }
}

/// A withdrawal by an account with a principal is
/// refused with `LockinPeriodNotEnded` exactly when it comes before the
/// unlock time, and no withdrawal at or after the unlock time is refused for
/// that reason.
pub proof fn lemma_lock_in(s: Ledger, user: AccountId, now: u64)
    ensures
        s.record(user).amount != 0 ==> (s.unstake_refusal(user, now) == Some(
            StakingError::LockinPeriodNotEnded,
        ) <==> now < s.record(user).unlock_time),
        s.record(user).amount != 0 && now >= s.record(user).unlock_time ==> s.unstake_refusal(
            user,
            now,
        ) is None,
        s.record(user).amount == 0 ==> s.unstake_refusal(user, now) == Some(
            StakingError::StakeNotFound,
        ),
{
}

/// A withdrawal that goes through is paid the reward of one full lock-in
/// period on the whole principal, plus what was carried over.
pub proof fn lemma_unstake_pays_full_period(s: Ledger, user: AccountId, now: u64)
    requires
        s.unstake_refusal(user, now) is None,
    ensures
        s.payable(user, now) == accrued(s.record(user).amount, s.reward_rate, s.duration_time)
            + s.pending(user),
{
}

/// One millisecond before the unlock time the reward
/// is proportional to the time since the deposit, with the carried-over
/// reward on top; at the unlock time it is the reward of one full period.
pub proof fn lemma_regime_boundary(s: Ledger, user: AccountId, amount: u128)
    requires
        s.record(user).unlock_time > 0,
    ensures
        s.reward(user, amount, (s.record(user).unlock_time - 1) as u64) == accrued(
            amount,
            s.reward_rate,
            floor_sub(s.record(user).unlock_time - 1, s.record(user).deposit_time as int) as u64,
        ) + s.pending(user),
        s.reward(user, amount, s.record(user).unlock_time) == accrued(
            amount,
            s.reward_rate,
            s.duration_time,
        ),
{
}

/// After two stakes in a row the carried-over
/// reward holds what was carried before, the reward added by the first
/// stake, and the reward added by the second, which is computed on the
/// ledger that the first stake left.
pub proof fn lemma_stake_twice_accumulates(
    s: Ledger,
    user: AccountId,
    first: u128,
    at_first: u64,
    second: u128,
    at_second: u64,
)
    requires
        s.stake_defined(user, first, at_first),
        !s.stake_overflows(first),
        s.after_stake(user, first, at_first).stake_defined(user, second, at_second),
        !s.after_stake(user, first, at_first).stake_overflows(second),
    ensures
        ({
            let middle = s.after_stake(user, first, at_first);
            let last = middle.after_stake(user, second, at_second);
            &&& middle.pending(user) == s.pending(user) + s.reward(user, first, at_first)
            &&& last.pending(user) == s.pending(user) + s.reward(user, first, at_first)
                + middle.reward(user, second, at_second)
            &&& last.pending(user) >= s.pending(user) + s.reward(user, first, at_first)
            &&& at_second < at_first + s.duration_time ==> middle.reward(
                user,
                second,
                at_second,
            ) >= middle.pending(user)
        }),
{
    let middle = s.after_stake(user, first, at_first);
    lemma_accrued_bounds(first, s.reward_rate, s.duration_time);
    lemma_accrued_bounds(
        first,
        s.reward_rate,
        floor_sub(at_first as int, s.record(user).deposit_time as int) as u64,
    );
    lemma_accrued_bounds(second, middle.reward_rate, middle.duration_time);
    lemma_accrued_bounds(
        second,
        middle.reward_rate,
        floor_sub(at_second as int, middle.record(user).deposit_time as int) as u64,
    );
}

/// On a ledger where nobody has staked, every withdrawal is refused with
/// `StakeNotFound`.
pub proof fn lemma_unstake_before_stake(owner: AccountId, user: AccountId, now: u64)
    ensures
        Ledger::fresh(owner).unstake_refusal(user, now) == Some(StakingError::StakeNotFound),
        Ledger::fresh(owner).claim_refusal(user) == Some(StakingError::StakeNotFound),
{
}

/// A stake that would take the total out of the 128-bit range is defined
/// whatever its other arguments are, and leaves the ledger as it was.
pub proof fn lemma_stake_overflow_changes_nothing(
    s: Ledger,
    user: AccountId,
    amount: u128,
    now: u64,
)
    requires
        s.total_staked + amount > u128::MAX,
    ensures
        s.stake_defined(user, amount, now),
        s.after_stake(user, amount, now) == s,
{
}

} // verus!
