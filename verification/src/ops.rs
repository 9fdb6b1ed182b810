//! The operation handlers: time-gated state transitions over one pool and
//! one position.
//!
//! Each handler is specified against a spec-level transition function that
//! pins down, for every input, whether the operation succeeds, which error it
//! fails with otherwise, and the exact successor state. A failed operation
//! never mutates either account. Handlers that owe the participant a payout
//! return the amount; the host performs the transfer and must discard the
//! mutated state if the transfer fails.

use vstd::prelude::*;

use crate::rewards::{accrued_reward, calculate_rewards};
use crate::state::{CustomError, StakingAccount, StakingParams, UserAccount};

verus! {

/// Whether a stake of any amount is accepted at time `now`: the staking
/// window is open and the caller's position is closed.
pub open spec fn stake_allowed(pool: StakingAccount, user: UserAccount, now: i64) -> bool {
    &&& pool.start_time <= now
    &&& now <= pool.end_time
    &&& user.staked_amount == 0
}

/// Whether a withdrawal is accepted at time `now`: the position is open and
/// its lock period has elapsed.
pub open spec fn unstake_allowed(user: UserAccount, now: i64) -> bool {
    &&& user.staked_amount > 0
    &&& now >= user.stake_start_time + user.lock_duration
}

/// The stake transition: the first violated precondition names the error;
/// on success the position opens with the pool's current terms snapshotted
/// and the pool's aggregate principal grows by `amount`.
pub open spec fn stake_result(
    pool: StakingAccount,
    user: UserAccount,
    amount: u64,
    now: i64,
) -> Result<(StakingAccount, UserAccount), CustomError> {
    if now < pool.start_time {
        Err(CustomError::StakingNotStarted)
    } else if now > pool.end_time {
        Err(CustomError::StakingEnded)
    } else if user.staked_amount != 0 {
        Err(CustomError::AlreadyStaked)
    } else {
        Ok((
            StakingAccount { total_staked: (pool.total_staked + amount) as u64, ..pool },
            UserAccount {
                staked_amount: amount,
                stake_start_time: now,
                reward_start_time: now,
                lock_duration: pool.lock_duration,
                apy: pool.apy,
                ..user
            },
        ))
    }
}

/// The claim transition: the accrued reward is paid out of the reward pool,
/// which must cover it, and the reward clock of an open position restarts
/// at `now`. A closed position accrues nothing, so claiming on it is a
/// no-op success paying zero.
pub open spec fn claim_result(
    pool: StakingAccount,
    user: UserAccount,
    now: i64,
) -> Result<(StakingAccount, UserAccount, u64), CustomError> {
    let reward = accrued_reward(user, now);
    if pool.reward_pool < reward {
        Err(CustomError::InsufficientRewardPool)
    } else {
        Ok((
            StakingAccount { reward_pool: (pool.reward_pool - reward) as u64, ..pool },
            UserAccount {
                reward_start_time: if user.staked_amount > 0 {
                    now
                } else {
                    user.reward_start_time
                },
                ..user
            },
            reward as u64,
        ))
    }
}

/// The unstake transition: an open position past its lock period is paid
/// its principal plus the accrued reward in one movement, the pool's
/// counters shrink accordingly, and the position fully closes. The stake
/// start time is left as a historical trace.
pub open spec fn unstake_result(
    pool: StakingAccount,
    user: UserAccount,
    now: i64,
) -> Result<(StakingAccount, UserAccount, u64), CustomError> {
    if user.staked_amount == 0 {
        Err(CustomError::NothingStaked)
    } else if now < user.stake_start_time + user.lock_duration {
        Err(CustomError::LockPeriodNotOver)
    } else {
        let reward = accrued_reward(user, now);
        if pool.reward_pool < reward {
            Err(CustomError::InsufficientRewardPool)
        } else {
            Ok((
                StakingAccount {
                    total_staked: (pool.total_staked - user.staked_amount) as u64,
                    reward_pool: (pool.reward_pool - reward) as u64,
                    ..pool
                },
                UserAccount { staked_amount: 0, reward_start_time: 0, ..user },
                (user.staked_amount + reward) as u64,
            ))
        }
    }
}

/// Creates a pool owned by `owner` with the given terms and empty counters.
pub fn initialize(owner: u64, staking_params: &StakingParams) -> (pool: StakingAccount)
    ensures
        pool == (StakingAccount {
            owner,
            apy: staking_params.apy,
            lock_duration: staking_params.lock_duration,
            start_time: staking_params.start_time,
            end_time: staking_params.end_time,
            total_staked: 0,
            reward_pool: 0,
        }),
{
    StakingAccount {
        owner,
        apy: staking_params.apy,
        lock_duration: staking_params.lock_duration,
        start_time: staking_params.start_time,
        end_time: staking_params.end_time,
        total_staked: 0,
        reward_pool: 0,
    }
}

/// Opens the caller's position with `amount` of principal at time `now`.
/// On success the host owes a transfer of `amount` from the participant to
/// the pool's custody; on failure nothing changed and nothing is owed.
pub fn stake(
    pool: &mut StakingAccount,
    user: &mut UserAccount,
    amount: u64,
    now: i64,
) -> (r: Result<(), CustomError>)
    requires
        stake_allowed(*old(pool), *old(user), now) ==> old(pool).total_staked + amount
            <= u64::MAX,
    ensures
        match stake_result(*old(pool), *old(user), amount, now) {
            Ok(next) => r is Ok && *final(pool) == next.0 && *final(user) == next.1,
            Err(e) => r == Err::<(), CustomError>(e) && *final(pool) == *old(pool) && *final(user) == *old(
                user,
            ),
        },
{
    if now < pool.start_time {
        return Err(CustomError::StakingNotStarted);
    }
    if now > pool.end_time {
        return Err(CustomError::StakingEnded);
    }
    if user.staked_amount != 0 {
        return Err(CustomError::AlreadyStaked);
    }
    user.staked_amount = amount;
    user.stake_start_time = now;
    user.reward_start_time = now;
    user.lock_duration = pool.lock_duration;
    user.apy = pool.apy;
    pool.total_staked = pool.total_staked + amount;
    Ok(())
}

/// Pays out the reward accrued since the position's reward clock started
/// and restarts that clock at `now`. Returns the amount the host owes the
/// participant from the pool's custody; on failure nothing changed and
/// nothing is owed.
pub fn claim_rewards(
    pool: &mut StakingAccount,
    user: &mut UserAccount,
    now: i64,
) -> (r: Result<u64, CustomError>)
    requires
        old(user).reward_start_time <= now,
        accrued_reward(*old(user), now) <= u64::MAX,
    ensures
        match claim_result(*old(pool), *old(user), now) {
            Ok(next) => r == Ok::<u64, CustomError>(next.2) && *final(pool) == next.0 && *final(user)
                == next.1,
            Err(e) => r == Err::<u64, CustomError>(e) && *final(pool) == *old(pool) && *final(user) == *old(
                user,
            ),
        },
{
    let rewards = calculate_rewards(user.staked_amount, user.apy, user.reward_start_time, now);
    if pool.reward_pool < rewards {
        return Err(CustomError::InsufficientRewardPool);
    }
    pool.reward_pool = pool.reward_pool - rewards;
    if user.staked_amount > 0 {
        user.reward_start_time = now;
    }
    Ok(rewards)
}

/// Closes the caller's position once its lock period is over, paying
/// principal plus accrued reward in one movement. Returns the amount the
/// host owes the participant from the pool's custody; on failure nothing
/// changed and nothing is owed. The caller keeps the pool's aggregate
/// principal consistent: it covers every open position.
pub fn unstake(
    pool: &mut StakingAccount,
    user: &mut UserAccount,
    now: i64,
) -> (r: Result<u64, CustomError>)
    requires
        old(user).staked_amount <= old(pool).total_staked,
        unstake_allowed(*old(user), now) ==> old(user).reward_start_time <= now,
        unstake_allowed(*old(user), now) ==> accrued_reward(*old(user), now) + old(
            user,
        ).staked_amount <= u64::MAX,
    ensures
        match unstake_result(*old(pool), *old(user), now) {
            Ok(next) => r == Ok::<u64, CustomError>(next.2) && *final(pool) == next.0 && *final(user)
                == next.1,
            Err(e) => r == Err::<u64, CustomError>(e) && *final(pool) == *old(pool) && *final(user) == *old(
                user,
            ),
        },
{
    if user.staked_amount == 0 {
        return Err(CustomError::NothingStaked);
    }
    if (now as i128) < (user.stake_start_time as i128) + (user.lock_duration as i128) {
        return Err(CustomError::LockPeriodNotOver);
    }
    let rewards = calculate_rewards(user.staked_amount, user.apy, user.reward_start_time, now);
    if pool.reward_pool < rewards {
        return Err(CustomError::InsufficientRewardPool);
    }
    let payout = user.staked_amount + rewards;
    pool.total_staked = pool.total_staked - user.staked_amount;
    pool.reward_pool = pool.reward_pool - rewards;
    user.staked_amount = 0;
    user.reward_start_time = 0;
    Ok(payout)
}

/// Overwrites the pool's rate and window terms. Counters, ownership and
/// every already-open position's snapshotted terms are untouched; the host
/// has verified that the caller is the pool owner before this runs.
pub fn update_staking_params(pool: &mut StakingAccount, staking_params: &StakingParams)
    ensures
        *final(pool) == (StakingAccount {
            apy: staking_params.apy,
            lock_duration: staking_params.lock_duration,
            start_time: staking_params.start_time,
            end_time: staking_params.end_time,
            ..*old(pool)
        }),
{
    pool.apy = staking_params.apy;
    pool.lock_duration = staking_params.lock_duration;
    pool.start_time = staking_params.start_time;
    pool.end_time = staking_params.end_time;
}

/// Credits `amount` of freshly funded reward to the pool. The host owes the
/// matching transfer from the funder into the pool's custody.
pub fn add_rewards(pool: &mut StakingAccount, amount: u64)
    requires
        old(pool).reward_pool + amount <= u64::MAX,
    ensures
        *final(pool) == (StakingAccount { reward_pool: (old(pool).reward_pool + amount) as u64, ..*old(
            pool,
        ) }),
{
    pool.reward_pool = pool.reward_pool + amount;
}

} // verus!
