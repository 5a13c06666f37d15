//! The staking program: an admin sets the rules under which users stake tokens.

pub mod error;
pub mod initialize_config;
pub mod state;

use vstd::prelude::*;
use crate::nft_staking::initialize_config::{InitializeConfig, InitializeConfigBumps};
use crate::token::{actions_view, no_actions, Action, ActionView};

verus! {

/// Sets the rules of staking. There is nothing for the ledger to do.
pub fn init_config(
    accounts: &mut InitializeConfig,
    point_per_stake: u64,
    max_stake: u64,
    freeze_period: u64,
    bumps: &InitializeConfigBumps,
) -> (r: Vec<Action>)
    ensures
        actions_view(r@) == Seq::<ActionView>::empty(),
        *final(accounts) == old(accounts).spec_with(
            InitializeConfig::spec_config(point_per_stake, max_stake, freeze_period, *bumps),
        ),
{
    accounts.initialize_config(point_per_stake, max_stake, freeze_period, bumps);
    no_actions()
}

} // verus!
