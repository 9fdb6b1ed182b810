//! Pool and position state, and the error taxonomy of the handlers.

use vstd::prelude::*;

verus! {

/// Parameters a pool is created or reconfigured with.
#[derive(Clone, Copy, PartialEq, Eq, Structural, Debug)]
pub struct StakingParams {
    /// Annual percentage yield, integer basis: 12 means 12% per year.
    pub apy: u64,
    /// Seconds a position must remain staked before withdrawal is permitted.
    pub lock_duration: i64,
    /// First timestamp (inclusive) at which new stakes are accepted.
    pub start_time: i64,
    /// Last timestamp (inclusive) at which new stakes are accepted.
    pub end_time: i64,
}

/// Global pool configuration and aggregate counters.
#[derive(Clone, Copy, PartialEq, Eq, Structural, Debug)]
pub struct StakingAccount {
    /// Identity handle of the pool administrator, as assigned by the host.
    pub owner: u64,
    /// Annual percentage yield currently offered to new stakes.
    pub apy: u64,
    /// Lock duration currently applied to new stakes, in seconds.
    pub lock_duration: i64,
    /// Start of the staking window (inclusive).
    pub start_time: i64,
    /// End of the staking window (inclusive).
    pub end_time: i64,
    /// Sum of all open positions' principal.
    pub total_staked: u64,
    /// Token balance earmarked for reward payouts.
    pub reward_pool: u64,
}

/// One participant's stake record.
#[derive(Clone, Copy, PartialEq, Eq, Structural, Debug)]
pub struct UserAccount {
    /// Identity handle of the participant, as assigned by the host.
    pub user: u64,
    /// Current principal; 0 when the position is closed.
    pub staked_amount: u64,
    /// Timestamp the principal was locked; kept as a historical trace after
    /// the position closes.
    pub stake_start_time: i64,
    /// Timestamp from which unclaimed reward accrues; reset on every claim
    /// and zeroed when the position closes.
    pub reward_start_time: i64,
    /// Lock duration snapshotted from the pool at stake time.
    pub lock_duration: i64,
    /// Annual percentage yield snapshotted from the pool at stake time.
    pub apy: u64,
}

/// Why a handler refused to act. Every refusal leaves both accounts
/// untouched.
#[derive(Clone, Copy, PartialEq, Eq, Structural, Debug)]
pub enum CustomError {
    /// A stake was attempted before the pool's staking window opened.
    StakingNotStarted,
    /// A stake was attempted after the pool's staking window closed.
    StakingEnded,
    /// An unstake was attempted before the position's lock period elapsed.
    LockPeriodNotOver,
    /// A payout would drive the pool's reward balance negative.
    InsufficientRewardPool,
    /// An unstake was attempted on a closed position.
    NothingStaked,
    /// A stake was attempted while the caller's position is still open.
    AlreadyStaked,
}

/// A closed position carries no reward clock: whenever the principal is
/// zero, the reward window is zeroed too.
pub open spec fn position_wf(user: UserAccount) -> bool {
    user.staked_amount == 0 ==> user.reward_start_time == 0
}

impl UserAccount {
    /// A fresh, fully closed position for the given participant.
    pub fn new(user: u64) -> (r: UserAccount)
        ensures
            r.user == user,
            r.staked_amount == 0,
            r.stake_start_time == 0,
            r.reward_start_time == 0,
            r.lock_duration == 0,
            r.apy == 0,
            position_wf(r),
    {
        UserAccount {
            user,
            staked_amount: 0,
            stake_start_time: 0,
            reward_start_time: 0,
            lock_duration: 0,
            apy: 0,
        }
    }
}

} // verus!
