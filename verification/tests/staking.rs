use staking_ledger::ops::{
    add_rewards, claim_rewards, initialize, stake, unstake, update_staking_params,
};
use staking_ledger::rewards::calculate_rewards;
use staking_ledger::state::{CustomError, StakingAccount, StakingParams, UserAccount};

fn open_pool(apy: u64, lock_duration: i64, start_time: i64, end_time: i64) -> StakingAccount {
    initialize(
        1,
        &StakingParams {
            apy,
            lock_duration,
            start_time,
            end_time,
        },
    )
}

#[test]
fn reward_zero_elapsed_is_zero() {
    assert_eq!(calculate_rewards(1000, 10, 500, 500), 0);
    assert_eq!(calculate_rewards(u64::MAX, u64::MAX, -3, -3), 0);
}

#[test]
fn reward_one_full_year() {
    // 10% of 1000 over exactly one year.
    assert_eq!(calculate_rewards(1000, 10, 0, 31_536_000), 100);
}

#[test]
fn reward_floors_yearly_and_elapsed() {
    // Yearly reward floors first: 999 * 10 / 100 = 99.
    assert_eq!(calculate_rewards(999, 10, 0, 31_536_000), 99);
    // Half a year of 100 per year.
    assert_eq!(calculate_rewards(1000, 10, 0, 15_768_000), 50);
    // One second accrues less than one token and floors to zero.
    assert_eq!(calculate_rewards(1000, 10, 0, 1), 0);
    // A window not aligned to the epoch gives the same elapsed-time reward.
    assert_eq!(
        calculate_rewards(1000, 10, 7_000_000, 7_000_000 + 31_536_000),
        100
    );
}

#[test]
fn reward_large_principal_no_overflow() {
    // A principal near the counter width times a full year stays exact.
    let principal = u64::MAX / 2;
    let expected = (((principal as u128) * 2 / 100) * 31_536_000 / 31_536_000) as u64;
    assert_eq!(calculate_rewards(principal, 2, 0, 31_536_000), expected);
}

#[test]
fn initialize_sets_terms_and_empty_counters() {
    let pool = open_pool(12, 3600, 100, 200);
    assert_eq!(pool.owner, 1);
    assert_eq!(pool.apy, 12);
    assert_eq!(pool.lock_duration, 3600);
    assert_eq!(pool.start_time, 100);
    assert_eq!(pool.end_time, 200);
    assert_eq!(pool.total_staked, 0);
    assert_eq!(pool.reward_pool, 0);
}

#[test]
fn stake_opens_position_and_grows_pool() {
    let mut pool = open_pool(12, 3600, 100, 200);
    let mut user = UserAccount::new(9);
    assert_eq!(stake(&mut pool, &mut user, 500, 150), Ok(()));
    assert_eq!(pool.total_staked, 500);
    assert_eq!(user.staked_amount, 500);
    assert_eq!(user.stake_start_time, 150);
    assert_eq!(user.reward_start_time, 150);
    // Pool terms are snapshotted into the position.
    assert_eq!(user.lock_duration, 3600);
    assert_eq!(user.apy, 12);
}

#[test]
fn stake_before_window_fails() {
    let mut pool = open_pool(12, 3600, 100, 200);
    let mut user = UserAccount::new(9);
    let pool_before = pool;
    let user_before = user;
    assert_eq!(
        stake(&mut pool, &mut user, 500, 99),
        Err(CustomError::StakingNotStarted)
    );
    assert_eq!(pool, pool_before);
    assert_eq!(user, user_before);
}

#[test]
fn stake_after_window_fails() {
    let mut pool = open_pool(12, 3600, 100, 200);
    let mut user = UserAccount::new(9);
    let pool_before = pool;
    let user_before = user;
    assert_eq!(
        stake(&mut pool, &mut user, 500, 201),
        Err(CustomError::StakingEnded)
    );
    assert_eq!(pool, pool_before);
    assert_eq!(user, user_before);
}

#[test]
fn stake_on_open_position_fails() {
    let mut pool = open_pool(12, 0, 100, 200);
    let mut user = UserAccount::new(9);
    assert_eq!(stake(&mut pool, &mut user, 500, 150), Ok(()));
    let pool_before = pool;
    let user_before = user;
    assert_eq!(
        stake(&mut pool, &mut user, 1, 160),
        Err(CustomError::AlreadyStaked)
    );
    assert_eq!(pool, pool_before);
    assert_eq!(user, user_before);
}

#[test]
fn claim_with_zero_elapsed_pays_nothing() {
    let mut pool = open_pool(12, 0, 100, 200);
    let mut user = UserAccount::new(9);
    add_rewards(&mut pool, 1000);
    assert_eq!(stake(&mut pool, &mut user, 500, 150), Ok(()));
    let pool_before = pool;
    let user_before = user;
    assert_eq!(claim_rewards(&mut pool, &mut user, 150), Ok(0));
    assert_eq!(pool, pool_before);
    assert_eq!(user, user_before);
}

#[test]
fn claim_on_closed_position_is_a_noop() {
    let mut pool = open_pool(12, 0, 100, 200);
    let mut user = UserAccount::new(9);
    add_rewards(&mut pool, 1000);
    let pool_before = pool;
    let user_before = user;
    assert_eq!(claim_rewards(&mut pool, &mut user, 170), Ok(0));
    assert_eq!(pool, pool_before);
    assert_eq!(user, user_before);
}

#[test]
fn one_year_claim_scenario() {
    let mut pool = open_pool(10, 0, 0, 1_000_000);
    let mut user = UserAccount::new(9);
    add_rewards(&mut pool, 100);
    assert_eq!(stake(&mut pool, &mut user, 1000, 0), Ok(()));
    // Exactly one year later: 10% of 1000.
    assert_eq!(claim_rewards(&mut pool, &mut user, 31_536_000), Ok(100));
    assert_eq!(pool.reward_pool, 0);
    assert_eq!(user.reward_start_time, 31_536_000);
    // A second immediate claim accrues nothing.
    assert_eq!(claim_rewards(&mut pool, &mut user, 31_536_000), Ok(0));
    assert_eq!(pool.reward_pool, 0);
}

#[test]
fn claim_fails_when_reward_pool_short() {
    let mut pool = open_pool(10, 0, 0, 1_000_000);
    let mut user = UserAccount::new(9);
    add_rewards(&mut pool, 50);
    assert_eq!(stake(&mut pool, &mut user, 1000, 0), Ok(()));
    let pool_before = pool;
    let user_before = user;
    // The accrued reward of 100 exceeds the 50 earmarked.
    assert_eq!(
        claim_rewards(&mut pool, &mut user, 31_536_000),
        Err(CustomError::InsufficientRewardPool)
    );
    assert_eq!(pool, pool_before);
    assert_eq!(user, user_before);
}

#[test]
fn unstake_fails_when_reward_pool_short() {
    let mut pool = open_pool(10, 0, 0, 1_000_000);
    let mut user = UserAccount::new(9);
    add_rewards(&mut pool, 50);
    assert_eq!(stake(&mut pool, &mut user, 1000, 0), Ok(()));
    let pool_before = pool;
    let user_before = user;
    assert_eq!(
        unstake(&mut pool, &mut user, 31_536_000),
        Err(CustomError::InsufficientRewardPool)
    );
    assert_eq!(pool, pool_before);
    assert_eq!(user, user_before);
}

#[test]
fn unstake_before_lock_elapses_fails() {
    let mut pool = open_pool(10, 3600, 0, 1_000_000);
    let mut user = UserAccount::new(9);
    assert_eq!(stake(&mut pool, &mut user, 1000, 100), Ok(()));
    let pool_before = pool;
    let user_before = user;
    assert_eq!(
        unstake(&mut pool, &mut user, 100 + 3599),
        Err(CustomError::LockPeriodNotOver)
    );
    assert_eq!(pool, pool_before);
    assert_eq!(user, user_before);
}

#[test]
fn unstake_on_closed_position_fails() {
    let mut pool = open_pool(10, 0, 0, 1_000_000);
    let mut user = UserAccount::new(9);
    let pool_before = pool;
    let user_before = user;
    assert_eq!(
        unstake(&mut pool, &mut user, 500),
        Err(CustomError::NothingStaked)
    );
    assert_eq!(pool, pool_before);
    assert_eq!(user, user_before);
}

#[test]
fn unstake_round_trip_pays_principal_plus_reward() {
    let mut pool = open_pool(10, 3600, 0, 1_000_000);
    let mut user = UserAccount::new(9);
    add_rewards(&mut pool, 500);
    assert_eq!(stake(&mut pool, &mut user, 1000, 0), Ok(()));
    assert_eq!(pool.total_staked, 1000);
    // One year later the lock is long over; payout is 1000 + 100.
    assert_eq!(unstake(&mut pool, &mut user, 31_536_000), Ok(1100));
    assert_eq!(pool.total_staked, 0);
    assert_eq!(pool.reward_pool, 400);
    assert_eq!(user.staked_amount, 0);
    assert_eq!(user.reward_start_time, 0);
    // The stake start time stays behind as a historical trace.
    assert_eq!(user.stake_start_time, 0);
}

#[test]
fn unstake_at_exact_lock_boundary_succeeds() {
    let mut pool = open_pool(10, 3600, 0, 1_000_000);
    let mut user = UserAccount::new(9);
    assert_eq!(stake(&mut pool, &mut user, 1000, 100), Ok(()));
    // 3600 seconds accrue less than a whole token, so the payout is bare
    // principal and the empty reward pool suffices.
    assert_eq!(unstake(&mut pool, &mut user, 3700), Ok(1000));
    assert_eq!(user.staked_amount, 0);
    assert_eq!(user.stake_start_time, 100);
}

#[test]
fn reopening_a_closed_position_snapshots_fresh_terms() {
    let mut pool = open_pool(10, 0, 0, 1_000_000);
    let mut user = UserAccount::new(9);
    assert_eq!(stake(&mut pool, &mut user, 1000, 0), Ok(()));
    assert_eq!(unstake(&mut pool, &mut user, 10), Ok(1000));
    update_staking_params(
        &mut pool,
        &StakingParams {
            apy: 20,
            lock_duration: 60,
            start_time: 0,
            end_time: 1_000_000,
        },
    );
    assert_eq!(stake(&mut pool, &mut user, 300, 20), Ok(()));
    assert_eq!(user.apy, 20);
    assert_eq!(user.lock_duration, 60);
    assert_eq!(user.stake_start_time, 20);
}

#[test]
fn update_params_leaves_counters_and_open_positions() {
    let mut pool = open_pool(10, 3600, 0, 1_000_000);
    let mut user = UserAccount::new(9);
    add_rewards(&mut pool, 77);
    assert_eq!(stake(&mut pool, &mut user, 1000, 0), Ok(()));
    let user_before = user;
    update_staking_params(
        &mut pool,
        &StakingParams {
            apy: 99,
            lock_duration: 1,
            start_time: 5,
            end_time: 6,
        },
    );
    assert_eq!(pool.apy, 99);
    assert_eq!(pool.lock_duration, 1);
    assert_eq!(pool.start_time, 5);
    assert_eq!(pool.end_time, 6);
    assert_eq!(pool.owner, 1);
    assert_eq!(pool.total_staked, 1000);
    assert_eq!(pool.reward_pool, 77);
    // The open position keeps the terms it staked under.
    assert_eq!(user, user_before);
}

#[test]
fn add_rewards_is_purely_additive() {
    let mut pool = open_pool(10, 0, 0, 1_000_000);
    add_rewards(&mut pool, 30);
    add_rewards(&mut pool, 12);
    assert_eq!(pool.reward_pool, 42);
    assert_eq!(pool.total_staked, 0);
}
