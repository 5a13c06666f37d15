//! The errors of the staking program.

use vstd::prelude::*;

verus! {

/// Why a staking instruction was refused.
#[derive(Clone, Copy, Debug, PartialEq, Eq, Structural)]
pub enum ErrorCode {
    /// The user has staked as many tokens as the rules allow.
    MaxStakeReached,
    /// The token is still frozen.
    FreezePeriodNotPassed,
}

} // verus!
