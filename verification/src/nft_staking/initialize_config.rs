//! The admin sets the rules of staking.

use vstd::prelude::*;
use crate::account::Account;
use crate::address::Address;
use crate::nft_staking::state::StakeConfig;
use crate::token::Mint;

verus! {

/// The accounts of the setting of the rules.
#[derive(Clone, Copy, Debug, PartialEq, Eq)]
pub struct InitializeConfig {
    /// Who sets the rules; signs the transaction.
    pub admin: Address,
    pub config: Account<StakeConfig>,
    /// The mint of the rewards, owned by the configuration.
    pub reward_mint: Mint,
}

/// The bump seeds of the addresses that the setting of the rules derives.
#[derive(Clone, Copy, Debug, PartialEq, Eq)]
pub struct InitializeConfigBumps {
    pub config: u8,
    pub reward_mint: u8,
}

impl InitializeConfig {
    /// The record of the rules.
    pub open spec fn spec_config(
        point_per_stake: u64,
        max_stake: u64,
        freeze_period: u64,
        bumps: InitializeConfigBumps,
    ) -> StakeConfig {
        StakeConfig {
            points_per_stake: point_per_stake,
            max_stake,
            freeze_period,
            reward_bump: bumps.reward_mint,
            bump: bumps.config,
        }
    }

    /// The accounts with the rules replaced by `config`.
    pub open spec fn spec_with(&self, config: StakeConfig) -> InitializeConfig {
        InitializeConfig { config: Account { key: self.config.key, data: config }, ..*self }
    }

    /// Writes the record of the rules.
    pub fn initialize_config(
        &mut self,
        point_per_stake: u64,
        max_stake: u64,
        freeze_period: u64,
        bumps: &InitializeConfigBumps,
    )
        ensures
            *final(self) == old(self).spec_with(
                Self::spec_config(point_per_stake, max_stake, freeze_period, *bumps),
            ),
    {
        self.config.data = StakeConfig {
            points_per_stake: point_per_stake,
            max_stake,
            freeze_period,
            reward_bump: bumps.reward_mint,
            bump: bumps.config,
        };
    }
}

} // verus!
