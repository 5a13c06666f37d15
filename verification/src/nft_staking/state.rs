//! The records of the staking program.

use vstd::prelude::*;

verus! {

/// The rules of staking. There is one such record.
#[derive(Clone, Copy, Debug, PartialEq, Eq)]
pub struct StakeConfig {
    pub points_per_stake: u64,
    /// The largest number of tokens that one user may stake.
    pub max_stake: u64,
    /// How long a staked token stays frozen.
    pub freeze_period: u64,
    pub reward_bump: u8,
    pub bump: u8,
}

/// What one user has staked and earned.
#[derive(Clone, Copy, Debug, PartialEq, Eq)]
pub struct UserAccount {
    pub points: u32,
    pub amount_staked: u64,
    pub bump: u8,
}

} // verus!
