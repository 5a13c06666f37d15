//! A creator opens a vesting contract.

use vstd::prelude::*;
use vstd::utf8::encode_utf8;
use crate::account::Account;
use crate::address::Address;
use crate::seeds::text_bytes;
use crate::token::{Mint, TokenAccount};
use crate::vesting::constraints::{is_mint_authority, spec_is_mint_authority};
use crate::vesting::error::AccountError;
use crate::vesting::error::ErrorCode;
use crate::vesting::state::VestingContractInfo;

verus! {

/// The accounts of the opening of a contract.
#[derive(Clone, Debug, PartialEq, Eq)]
pub struct InitializeVesting {
    /// Who opens the contract; signs the transaction and is the mint's authority.
    pub creator: Address,
    pub mint: Mint,
    /// The record of the new contract.
    pub vesting_contract_info: Account<VestingContractInfo>,
    /// The new contract's vault.
    pub vault: TokenAccount,
    /// The creator's token account.
    pub company_ata: TokenAccount,
}

/// The bump seeds of the addresses that the opening of a contract derives.
#[derive(Clone, Copy, Debug, PartialEq, Eq)]
pub struct InitializeVestingBumps {
    pub vesting_contract_info: u8,
    pub vault: u8,
}

/// The longest company name, in bytes of UTF-8, that a contract can store.
pub const MAX_COMPANY_NAME_LEN: usize = 50;

/// Whether a contract can store the company name.
pub open spec fn spec_name_fits(company_name: Seq<char>) -> bool {
    encode_utf8(company_name).len() <= MAX_COMPANY_NAME_LEN
}

/// Decides whether a contract can store the company name.
pub fn name_fits(company_name: &String) -> (ok: bool)
    ensures
        ok == spec_name_fits(company_name@),
{
    text_bytes(company_name).len() <= MAX_COMPANY_NAME_LEN
}

impl InitializeVesting {
    /// What the check of the accounts and of the company name finds: the creator
    /// must be the authority of the mint, and the contract must be able to store
    /// the name.
    pub open spec fn spec_validate(&self, company_name: Seq<char>) -> Result<(), AccountError> {
        if !spec_is_mint_authority(self.mint, self.creator) {
            Err(AccountError::MintAuthorityMismatch)
        } else if !spec_name_fits(company_name) {
            Err(AccountError::CompanyNameTooLong)
        } else {
            Ok(())
        }
    }

    /// Checks the accounts and the company name.
    pub fn validate(&self, company_name: &String) -> (r: Result<(), AccountError>)
        ensures
            r == self.spec_validate(company_name@),
    {
        if !is_mint_authority(&self.mint, &self.creator) {
            Err(AccountError::MintAuthorityMismatch)
        } else if !name_fits(company_name) {
            Err(AccountError::CompanyNameTooLong)
        } else {
            Ok(())
        }
    }

    /// The record of a contract that was just opened: nothing funded, assigned or
    /// claimed, active, neither revoked nor fully claimed.
    pub open spec fn spec_opened(
        &self,
        company_name: String,
        is_revocable: bool,
        bump: InitializeVestingBumps,
        created_at: i64,
    ) -> VestingContractInfo {
        VestingContractInfo {
            creator: self.creator,
            company_name,
            mint: self.mint.key,
            total_vested_tokens: 0,
            total_available_tokens: 0,
            total_locked_tokens: 0,
            total_claimed_tokens: 0,
            vault_account: self.vault.key,
            created_at,
            vault_bump: bump.vault,
            bump: bump.vesting_contract_info,
            is_active: true,
            revocable: is_revocable,
            is_revoked: false,
            fully_claimed: false,
        }
    }

    /// The accounts with the contract replaced by `contract`.
    pub open spec fn spec_with(&self, contract: VestingContractInfo) -> InitializeVesting {
        InitializeVesting {
            vesting_contract_info: Account { key: self.vesting_contract_info.key, data: contract },
            ..*self
        }
    }

    /// Opens the contract of `company_name` at the time `created_at`. The record is
    /// overwritten with that of a fresh contract; the call never fails.
    pub fn initialize_vesting(
        &mut self,
        company_name: String,
        is_revocable: bool,
        bump: &InitializeVestingBumps,
        created_at: i64,
    ) -> (r: Result<(), ErrorCode>)
        ensures
            r is Ok,
            *final(self) == old(self).spec_with(
                old(self).spec_opened(company_name, is_revocable, *bump, created_at),
            ),
            final(self).vesting_contract_info.data.wf(),
    {
        self.vesting_contract_info.data = VestingContractInfo {
            creator: self.creator,
            company_name,
            mint: self.mint.key,
            total_vested_tokens: 0,
            total_available_tokens: 0,
            total_locked_tokens: 0,
            total_claimed_tokens: 0,
            vault_account: self.vault.key,
            created_at,
            vault_bump: bump.vault,
            bump: bump.vesting_contract_info,
            is_active: true,
            revocable: is_revocable,
            is_revoked: false,
            fully_claimed: false,
        };
        Ok(())
    }
}

} // verus!
