//! The reward arithmetic: a rate applied to an amount over a span of
//! milliseconds, scaled down by a year of milliseconds and by 100.

use crate::data::ONE_YEAR_IN_MILLISECONDS;
use vstd::prelude::*;

verus! {

/// The divisor of every reward: a year of milliseconds times the percentage
/// scale.
pub open spec fn reward_divisor() -> int {
    ONE_YEAR_IN_MILLISECONDS * 100
}

/// The product of two naturals, held at the largest 128-bit value where it
/// would exceed it.
pub open spec fn saturating_product(a: int, b: int) -> int {
    if a * b > u128::MAX {
        u128::MAX as int
    } else {
        a * b
    }
}

/// The reward that `amount` earns at `rate` over `time` milliseconds:
/// `amount * rate * time / (ONE_YEAR_IN_MILLISECONDS * 100)`, rounded down,
/// where each product saturates at the 128-bit maximum.
pub open spec fn accrued(amount: u128, rate: u64, time: u64) -> int {
    saturating_product(saturating_product(amount as int, rate as int), time as int)
        / reward_divisor()
}

/// `a * b`, saturating at `u128::MAX`.
pub fn saturating_mul(a: u128, b: u128) -> (product: u128)
    ensures
        product == saturating_product(a as int, b as int),
{
    match a.checked_mul(b) {
        Some(product) => product,
        None => u128::MAX,
    }
}

/// Computes [`accrued`].
pub fn accrue(amount: u128, rate: u64, time: u64) -> (reward: u128)
    ensures
        reward == accrued(amount, rate, time),
{
    let scaled: u128 = saturating_mul(saturating_mul(amount, rate as u128), time as u128);
    scaled / (ONE_YEAR_IN_MILLISECONDS * 100u128)
}

/// A reward never exceeds the saturated product it is cut from.
pub proof fn lemma_accrued_bounds(amount: u128, rate: u64, time: u64)
    ensures
        0 <= accrued(amount, rate, time) <= u128::MAX,
        rate == 0 || time == 0 || amount == 0 ==> accrued(amount, rate, time) == 0,
{
    let first = saturating_product(amount as int, rate as int);
    assert(0 <= first <= u128::MAX) by (nonlinear_arith)
        requires
            first == saturating_product(amount as int, rate as int),
            0 <= amount,
            0 <= rate,
    ;
    let second = saturating_product(first, time as int);
    assert(0 <= second <= u128::MAX) by (nonlinear_arith)
        requires
            second == saturating_product(first, time as int),
            0 <= first,
            0 <= time,
    ;
    assert(rate == 0 || time == 0 || amount == 0 ==> second == 0) by (nonlinear_arith)
        requires
            second == saturating_product(first, time as int),
            first == saturating_product(amount as int, rate as int),
    ;
    assert(reward_divisor() == 3153600000000);
    assert(0 <= second / 3153600000000 <= second);
}

} // verus!
