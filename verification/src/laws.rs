//! Laws of the staking ledger: properties that relate the transitions to
//! one another, proved once and for all inputs.

use vstd::prelude::*;

use crate::ops::{claim_result, stake_result, unstake_allowed, unstake_result};
use crate::rewards::{accrued_reward, reward_amount};
use crate::state::{position_wf, CustomError, StakingAccount, UserAccount};

verus! {

/// Over an empty window no reward accrues, whatever the principal and rate.
pub proof fn lemma_reward_zero_elapsed(principal: u64, apy: u64, t: int)
    ensures
        reward_amount(principal, apy, t, t) == 0,
{
}

/// A window that is not reversed never accrues a negative reward: flooring
/// may cost the participant a fraction, but the engine never charges one.
pub proof fn lemma_reward_nonnegative(principal: u64, apy: u64, from: int, to: int)
    requires
        from <= to,
    ensures
        reward_amount(principal, apy, from, to) >= 0,
{
    vstd::arithmetic::mul::lemma_mul_nonnegative(principal as int, apy as int);
    vstd::arithmetic::div_mod::lemma_div_pos_is_pos(
        (principal as int) * (apy as int),
        100,
    );
    let yearly = ((principal as int) * (apy as int)) / 100;
    vstd::arithmetic::mul::lemma_mul_nonnegative(yearly, to - from);
    vstd::arithmetic::div_mod::lemma_div_pos_is_pos(
        yearly * (to - from),
        crate::rewards::SECONDS_PER_YEAR as int,
    );
}

/// A stake followed by an immediate claim pays zero and leaves both the
/// pool (its reward balance included) and the freshly opened position
/// exactly as the stake left them.
pub proof fn lemma_stake_then_immediate_claim(
    pool: StakingAccount,
    user: UserAccount,
    amount: u64,
    now: i64,
)
    requires
        stake_result(pool, user, amount, now) is Ok,
    ensures
        ({
            let (p1, u1) = stake_result(pool, user, amount, now)->Ok_0;
            claim_result(p1, u1, now) == Ok::<(StakingAccount, UserAccount, u64), CustomError>(
                (p1, u1, 0u64),
            )
        }),
{
    let u1 = stake_result(pool, user, amount, now)->Ok_0.1;
    lemma_reward_zero_elapsed(u1.staked_amount, u1.apy, now as int);
}

/// Round trip on the pool's aggregate principal: a stake raises
/// `total_staked` by exactly the staked amount, and a later full unstake
/// of that position lowers it by exactly the same amount, whatever reward
/// was paid alongside.
pub proof fn lemma_stake_unstake_round_trip(
    pool: StakingAccount,
    user: UserAccount,
    amount: u64,
    now: i64,
    later: i64,
)
    requires
        pool.total_staked + amount <= u64::MAX,
        stake_result(pool, user, amount, now) is Ok,
        ({
            let (p1, u1) = stake_result(pool, user, amount, now)->Ok_0;
            unstake_result(p1, u1, later) is Ok
        }),
    ensures
        ({
            let (p1, u1) = stake_result(pool, user, amount, now)->Ok_0;
            let (p2, u2, payout) = unstake_result(p1, u1, later)->Ok_0;
            &&& p1.total_staked == pool.total_staked + amount
            &&& p2.total_staked == pool.total_staked
            &&& u2.staked_amount == 0
        }),
{
}

/// Unstaking an open position before its lock period has elapsed always
/// fails with `LockPeriodNotOver`, whatever the pool holds.
pub proof fn lemma_unstake_locked_fails(pool: StakingAccount, user: UserAccount, now: i64)
    requires
        user.staked_amount > 0,
        now < user.stake_start_time + user.lock_duration,
    ensures
        unstake_result(pool, user, now) == Err::<(StakingAccount, UserAccount, u64), CustomError>(
            CustomError::LockPeriodNotOver,
        ),
{
}

/// Staking before the pool's window opens always fails with
/// `StakingNotStarted`.
pub proof fn lemma_stake_before_window_fails(
    pool: StakingAccount,
    user: UserAccount,
    amount: u64,
    now: i64,
)
    requires
        now < pool.start_time,
    ensures
        stake_result(pool, user, amount, now) == Err::<(StakingAccount, UserAccount), CustomError>(
            CustomError::StakingNotStarted,
        ),
{
}

/// Staking after the pool's window has closed always fails with
/// `StakingEnded`; a time before the window is reported as not started
/// first.
pub proof fn lemma_stake_after_window_fails(
    pool: StakingAccount,
    user: UserAccount,
    amount: u64,
    now: i64,
)
    requires
        now >= pool.start_time,
        now > pool.end_time,
    ensures
        stake_result(pool, user, amount, now) == Err::<(StakingAccount, UserAccount), CustomError>(
            CustomError::StakingEnded,
        ),
{
}

/// A claim succeeds exactly when the reward pool covers the accrued
/// reward; success is never owed beyond the pool's earmarked balance.
pub proof fn lemma_claim_success_iff_covered(pool: StakingAccount, user: UserAccount, now: i64)
    ensures
        claim_result(pool, user, now) is Ok <==> accrued_reward(user, now) <= pool.reward_pool,
{
}

/// An unstake succeeds exactly when the position is open, its lock period
/// has elapsed, and the reward pool covers the accrued reward.
pub proof fn lemma_unstake_success_iff(pool: StakingAccount, user: UserAccount, now: i64)
    ensures
        unstake_result(pool, user, now) is Ok <==> unstake_allowed(user, now) && accrued_reward(
            user,
            now,
        ) <= pool.reward_pool,
{
}

/// A claim pays out exactly what it deducts: the reward leaving the pool's
/// earmarked balance is the amount the participant is owed.
pub proof fn lemma_claim_conserves_tokens(pool: StakingAccount, user: UserAccount, now: i64)
    requires
        user.reward_start_time <= now,
        claim_result(pool, user, now) is Ok,
    ensures
        ({
            let (p2, u2, payout) = claim_result(pool, user, now)->Ok_0;
            &&& payout == accrued_reward(user, now)
            &&& p2.reward_pool + payout == pool.reward_pool
            &&& p2.total_staked == pool.total_staked
        }),
{
    lemma_reward_nonnegative(
        user.staked_amount,
        user.apy,
        user.reward_start_time as int,
        now as int,
    );
}

/// An unstake pays out exactly what it deducts: the principal leaves the
/// aggregate stake, the reward leaves the earmarked balance, and their sum
/// is the single movement the participant is owed.
pub proof fn lemma_unstake_conserves_tokens(pool: StakingAccount, user: UserAccount, now: i64)
    requires
        user.reward_start_time <= now,
        user.staked_amount <= pool.total_staked,
        accrued_reward(user, now) + user.staked_amount <= u64::MAX,
        unstake_result(pool, user, now) is Ok,
    ensures
        ({
            let (p2, u2, payout) = unstake_result(pool, user, now)->Ok_0;
            &&& payout == user.staked_amount + accrued_reward(user, now)
            &&& p2.total_staked + user.staked_amount == pool.total_staked
            &&& p2.reward_pool + accrued_reward(user, now) == pool.reward_pool
        }),
{
    lemma_reward_nonnegative(
        user.staked_amount,
        user.apy,
        user.reward_start_time as int,
        now as int,
    );
}

/// A successful stake of a positive amount opens a well-formed position.
pub proof fn lemma_stake_preserves_position_wf(
    pool: StakingAccount,
    user: UserAccount,
    amount: u64,
    now: i64,
)
    requires
        amount > 0,
        stake_result(pool, user, amount, now) is Ok,
    ensures
        position_wf(stake_result(pool, user, amount, now)->Ok_0.1),
{
}

/// A successful claim keeps the position well-formed: an open position
/// stays open with its clock restarted, a closed one is untouched.
pub proof fn lemma_claim_preserves_position_wf(pool: StakingAccount, user: UserAccount, now: i64)
    requires
        position_wf(user),
        claim_result(pool, user, now) is Ok,
    ensures
        position_wf(claim_result(pool, user, now)->Ok_0.1),
{
}

/// A successful unstake fully closes the position: principal and reward
/// clock are both zeroed, so the record is well-formed and may be staked
/// again.
pub proof fn lemma_unstake_closes_position(pool: StakingAccount, user: UserAccount, now: i64)
    requires
        unstake_result(pool, user, now) is Ok,
    ensures
        unstake_result(pool, user, now)->Ok_0.1.staked_amount == 0,
        unstake_result(pool, user, now)->Ok_0.1.reward_start_time == 0,
        position_wf(unstake_result(pool, user, now)->Ok_0.1),
{
}

} // verus!
