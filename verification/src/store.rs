//! The ledger store: a finite mapping from accounts to values.
//!
//! Reading an account that was never written finds nothing; callers decide
//! which value stands for "nothing" (the zero of the value's type).

use crate::account::same_account;
use ink::primitives::AccountId;
use vstd::prelude::*;

verus! {

/// The mapping that a list of entries stands for. Where an account occurs
/// more than once, its first entry counts.
spec fn entries_map<V>(entries: Seq<(AccountId, V)>) -> Map<AccountId, V>
    decreases entries.len(),
{
    if entries.len() == 0 {
        Map::empty()
    } else {
        entries_map(entries.drop_first()).insert(entries[0].0, entries[0].1)
    }
}

/// No entry before position `upto` belongs to `key`.
spec fn absent_before<V>(entries: Seq<(AccountId, V)>, key: AccountId, upto: int) -> bool {
    forall|j: int| 0 <= j < upto && j < entries.len() ==> (#[trigger] entries[j]).0 != key
}

/// A list of entries stands for a mapping with a finite domain.
proof fn lemma_entries_map_finite<V>(entries: Seq<(AccountId, V)>)
    ensures
        entries_map(entries).dom().finite(),
    decreases entries.len(),
{
    if entries.len() > 0 {
        lemma_entries_map_finite(entries.drop_first());
    }
}

/// An account without an entry is outside the mapping.
proof fn lemma_entries_map_absent<V>(entries: Seq<(AccountId, V)>, key: AccountId)
    requires
        absent_before(entries, key, entries.len() as int),
    ensures
        !entries_map(entries).contains_key(key),
    decreases entries.len(),
{
    if entries.len() > 0 {
        let rest = entries.drop_first();
        assert forall|j: int| 0 <= j < rest.len() implies (#[trigger] rest[j]).0 != key by {
            assert(rest[j] == entries[j + 1]);
        }
        lemma_entries_map_absent(rest, key);
        assert(entries[0].0 != key);
    }
}

/// The first entry of an account holds the value that the mapping gives it.
proof fn lemma_entries_map_first<V>(entries: Seq<(AccountId, V)>, key: AccountId, i: int)
    requires
        0 <= i < entries.len(),
        entries[i].0 == key,
        absent_before(entries, key, i),
    ensures
        entries_map(entries).contains_key(key),
        entries_map(entries)[key] == entries[i].1,
    decreases i,
{
    if i > 0 {
        let rest = entries.drop_first();
        assert forall|j: int| 0 <= j < i - 1 && j < rest.len() implies (#[trigger] rest[j]).0
            != key by {
            assert(rest[j] == entries[j + 1]);
        }
        assert(rest[i - 1] == entries[i]);
        lemma_entries_map_first(rest, key, i - 1);
        assert(entries[0].0 != key);
    }
}

/// Appending an entry for an account that has none adds it to the mapping.
proof fn lemma_entries_map_push<V>(entries: Seq<(AccountId, V)>, key: AccountId, value: V)
    requires
        absent_before(entries, key, entries.len() as int),
    ensures
        entries_map(entries.push((key, value))) == entries_map(entries).insert(key, value),
    decreases entries.len(),
{
    let grown = entries.push((key, value));
    if entries.len() == 0 {
        assert(grown.drop_first() =~= entries);
        assert(entries_map(grown) =~= entries_map(entries).insert(key, value));
    } else {
        let rest = entries.drop_first();
        assert forall|j: int| 0 <= j < rest.len() implies (#[trigger] rest[j]).0 != key by {
            assert(rest[j] == entries[j + 1]);
        }
        lemma_entries_map_push(rest, key, value);
        assert(grown.drop_first() =~= rest.push((key, value)));
        assert(grown[0] == entries[0]);
        assert(entries[0].0 != key);
        assert(entries_map(grown) =~= entries_map(entries).insert(key, value));
    }
}

/// Overwriting the first entry of an account overwrites its value in the
/// mapping.
proof fn lemma_entries_map_update<V>(
    entries: Seq<(AccountId, V)>,
    key: AccountId,
    value: V,
    i: int,
)
    requires
        0 <= i < entries.len(),
        entries[i].0 == key,
        absent_before(entries, key, i),
    ensures
        entries_map(entries.update(i, (key, value))) == entries_map(entries).insert(key, value),
    decreases i,
{
    let changed = entries.update(i, (key, value));
    let rest = entries.drop_first();
    if i == 0 {
        assert(changed.drop_first() =~= rest);
        assert(entries_map(changed) =~= entries_map(entries).insert(key, value));
    } else {
        assert forall|j: int| 0 <= j < i - 1 && j < rest.len() implies (#[trigger] rest[j]).0
            != key by {
            assert(rest[j] == entries[j + 1]);
        }
        assert(rest[i - 1] == entries[i]);
        lemma_entries_map_update(rest, key, value, i - 1);
        assert(changed.drop_first() =~= rest.update(i - 1, (key, value)));
        assert(changed[0] == entries[0]);
        assert(entries[0].0 != key);
        assert(entries_map(changed) =~= entries_map(entries).insert(key, value));
    }
}

/// A finite mapping from accounts to values of type `V`.
#[derive(Debug)]
pub struct AccountMap<V> {
    entries: Vec<(AccountId, V)>,
}

impl<V> View for AccountMap<V> {
    type V = Map<AccountId, V>;

    closed spec fn view(&self) -> Map<AccountId, V> {
        entries_map(self.entries@)
    }
}

impl<V: Copy> AccountMap<V> {
    /// The mapping that holds no account.
    pub fn new() -> (m: Self)
        ensures
            m@ == Map::<AccountId, V>::empty(),
    {
        AccountMap { entries: Vec::new() }
    }

    /// Only finitely many accounts have a value.
    pub proof fn lemma_finite(&self)
        ensures
            self@.dom().finite(),
    {
        lemma_entries_map_finite(self.entries@);
    }

    /// The position of the first entry of `key`, or the number of entries
    /// where it has none.
    fn position(&self, key: &AccountId) -> (i: usize)
        ensures
            i <= self.entries@.len(),
            absent_before(self.entries@, *key, i as int),
            i < self.entries@.len() ==> self.entries@[i as int].0 == *key,
    {
        let mut i: usize = 0;
        while i < self.entries.len()
            invariant
                i <= self.entries@.len(),
                absent_before(self.entries@, *key, i as int),
            decreases self.entries@.len() - i,
        {
            if same_account(&self.entries[i].0, key) {
                return i;
            }
            i += 1;
        }
        i
    }

    /// The value stored for `key`, if any.
    pub fn get(&self, key: AccountId) -> (found: Option<V>)
        ensures
            found == if self@.contains_key(key) {
                Some(self@[key])
            } else {
                None
            },
    {
        let i: usize = self.position(&key);
        if i < self.entries.len() {
            proof {
                lemma_entries_map_first(self.entries@, key, i as int);
            }
            Some(self.entries[i].1)
        } else {
            proof {
                lemma_entries_map_absent(self.entries@, key);
            }
            None
        }
    }

    /// Whether a value is stored for `key`.
    pub fn contains(&self, key: AccountId) -> (present: bool)
        ensures
            present == self@.contains_key(key),
    {
        let i: usize = self.position(&key);
        proof {
            if i < self.entries@.len() {
                lemma_entries_map_first(self.entries@, key, i as int);
            } else {
                lemma_entries_map_absent(self.entries@, key);
            }
        }
        i < self.entries.len()
    }

    /// Stores `value` for `key`, replacing what was stored before.
    pub fn insert(&mut self, key: AccountId, value: V)
        ensures
            final(self)@ == old(self)@.insert(key, value),
    {
        let i: usize = self.position(&key);
        if i < self.entries.len() {
            proof {
                lemma_entries_map_update(self.entries@, key, value, i as int);
            }
            self.entries.set(i, (key, value));
        } else {
            proof {
                lemma_entries_map_push(self.entries@, key, value);
            }
            self.entries.push((key, value));
        }
    }
}

} // verus!
