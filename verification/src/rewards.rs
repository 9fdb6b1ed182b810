//! The reward engine: a pure function from principal, rate and elapsed time
//! to the accrued reward.

use vstd::prelude::*;

use crate::state::UserAccount;

verus! {

/// Seconds in the accounting year the annual rate is spread over.
pub const SECONDS_PER_YEAR: u64 = 31_536_000;

/// The reward owed for holding `principal` at `apy` percent per year from
/// `from` to `to`: the yearly reward `principal * apy / 100` is floored,
/// scaled by the elapsed seconds and floored again. No reward accrues for
/// partial-second remainders.
pub open spec fn reward_amount(principal: u64, apy: u64, from: int, to: int) -> int {
    ((principal * apy) / 100) * (to - from) / (SECONDS_PER_YEAR as int)
}

/// The reward a position has accrued but not yet claimed at time `now`.
pub open spec fn accrued_reward(user: UserAccount, now: i64) -> int {
    reward_amount(user.staked_amount, user.apy, user.reward_start_time as int, now as int)
}

/// Computes `reward_amount` on machine integers. The caller guarantees the
/// window is not reversed and the reward fits the counter width; inside
/// those bounds the 128-bit intermediates cannot overflow.
pub fn calculate_rewards(amount: u64, apy: u64, start: i64, end: i64) -> (r: u64)
    requires
        start <= end,
        reward_amount(amount, apy, start as int, end as int) <= u64::MAX,
    ensures
        r == reward_amount(amount, apy, start as int, end as int),
{
    let duration: u128 = ((end as i128) - (start as i128)) as u128;
    proof {
        assert((amount as int) * (apy as int) <= (u64::MAX as int) * (u64::MAX as int))
            by (nonlinear_arith)
            requires
                amount <= u64::MAX,
                apy <= u64::MAX,
        ;
    }
    let yearly_rewards: u128 = (amount as u128) * (apy as u128) / 100;
    proof {
        let prod = (yearly_rewards as int) * (duration as int);
        vstd::arithmetic::mul::lemma_mul_nonnegative(yearly_rewards as int, duration as int);
        vstd::arithmetic::div_mod::lemma_fundamental_div_mod(prod, SECONDS_PER_YEAR as int);
        assert(prod / (SECONDS_PER_YEAR as int) <= u64::MAX);
        assert(prod <= (SECONDS_PER_YEAR as int) * (u64::MAX as int) + (SECONDS_PER_YEAR as int));
    }
    let rewards: u128 = yearly_rewards * duration / (SECONDS_PER_YEAR as u128);
    rewards as u64
}

} // verus!
