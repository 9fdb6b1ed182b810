//! A time-based token staking ledger.
//!
//! Participants lock tokens for a reward-bearing period, accrue interest at
//! the annual rate the pool was configured with, and may later claim the
//! interest or withdraw the principal once a lock period has elapsed. This
//! crate holds the accounting core: the pool and position state, the reward
//! formula, and the time-gated handlers that govern stake, claim and unstake
//! transitions. Moving the tokens themselves, reading a clock and checking
//! signatures are the host's business: each handler takes the current time as
//! an argument and reports the amount the host must transfer.

pub mod laws;
pub mod ops;
pub mod rewards;
pub mod state;
