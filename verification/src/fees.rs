//! The early-withdrawal fee rule: a flat percentage of principal, rounded
//! down, charged only when a stake closes before its lock period has elapsed.

use vstd::prelude::*;
use vstd::arithmetic::div_mod::{lemma_div_is_ordered, lemma_div_multiples_vanish};
use vstd::arithmetic::mul::lemma_mul_inequality;
use crate::stake::Stake;

verus! {

/// The fee retained when a stake of `amount` is withdrawn early under a fee
/// percentage of `fee_percent`: floor(amount * fee_percent / 100). Rounding
/// is always downward, in the staker's favor.
pub open spec fn early_fee(amount: u64, fee_percent: u8) -> int {
    (amount * fee_percent) / 100
}

/// The fee charged when the stake `st` is closed at time `now`: the early fee
/// before the stake's end time, nothing at or after it.
pub open spec fn fee_at(st: Stake, fee_percent: u8, now: i64) -> int {
    if now < st.end_time() {
        early_fee(st.amount, fee_percent)
    } else {
        0
    }
}

/// Since the fee percentage is at most 100, the rounded-down fee never
/// exceeds the principal.
pub proof fn lemma_early_fee_le_amount(amount: u64, fee_percent: u8)
    requires
        fee_percent <= 100,
    ensures
        0 <= early_fee(amount, fee_percent) <= amount,
{
    lemma_mul_inequality(fee_percent as int, 100, amount as int);
    lemma_div_is_ordered(amount * fee_percent, amount * 100, 100);
    lemma_div_multiples_vanish(amount as int, 100);
}

/// Computes the early-withdrawal fee, widening to 128 bits so the
/// intermediate product cannot overflow before it is divided back down.
pub fn compute_early_fee(amount: u64, fee_percent: u8) -> (fee: u64)
    requires
        fee_percent <= 100,
    ensures
        fee == early_fee(amount, fee_percent),
        fee <= amount,
{
    proof {
        lemma_early_fee_le_amount(amount, fee_percent);
    }
    let wide: u128 = (amount as u128) * (fee_percent as u128) / 100;
    wide as u64
}

} // verus!
