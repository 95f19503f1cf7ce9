//! The identity of a user.

use ink::primitives::AccountId;
use vstd::prelude::*;

verus! {

/// The 32-byte account identifier of the default ink! environment. The
/// ledger never looks inside it; it only tells two accounts apart.
#[verifier::external_type_specification]
#[verifier::external_body]
pub struct ExAccountId(ink::primitives::AccountId);

/// Calls `==` of `ink::primitives::AccountId`, which compares the 32 bytes
/// that the identifier wraps. Believed without proof: the call answers `true`
/// exactly when both arguments are the same account.
#[verifier::external_body]
pub(crate) fn same_account(a: &AccountId, b: &AccountId) -> (same: bool)
    ensures
        same == (*a == *b),
{
    a == b
}

} // verus!
