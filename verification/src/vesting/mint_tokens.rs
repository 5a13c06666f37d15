//! The creator funds the vault by minting into it.

use vstd::prelude::*;
use crate::account::Account;
use crate::address::Address;
use crate::token::{Mint, MintTo, TokenAccount};
use crate::vesting::constraints::{check_creator, spec_check_creator};
use crate::vesting::error::AccountError;
use crate::vesting::error::ErrorCode;
use crate::vesting::state::VestingContractInfo;

verus! {

/// The accounts of a funding by mint.
#[derive(Clone, Debug, PartialEq, Eq)]
pub struct MintTokens {
    /// The mint's authority; signs the transaction.
    pub creator: Address,
    pub mint: Mint,
    pub vesting_contract_info: Account<VestingContractInfo>,
    /// The contract's vault, which receives.
    pub vault: TokenAccount,
}

/// The accounts of a funding by mint, for callers of
/// [`MintToken::process_mint_tokens`].
#[derive(Clone, Debug, PartialEq, Eq)]
pub struct MintToken {
    /// The mint's authority; signs the transaction.
    pub creator: Address,
    pub mint: Mint,
    pub vesting_contract_info: Account<VestingContractInfo>,
    /// The contract's vault, which receives.
    pub vault: TokenAccount,
}

/// The instruction that mints `amount` tokens of `mint` into `vault` on the creator's
/// authority.
pub open spec fn spec_mint_into(mint: Address, vault: Address, creator: Address, amount: u64) -> MintTo {
    MintTo { mint, to: vault, authority: creator, amount }
}

impl MintTokens {
    /// What the check of the accounts finds: the creator must be the authority of
    /// the mint and the one who opened the contract.
    pub open spec fn spec_validate(&self) -> Result<(), AccountError> {
        spec_check_creator(self.mint, self.vesting_contract_info.data.creator, self.creator)
    }

    /// Checks the accounts.
    pub fn validate(&self) -> (r: Result<(), AccountError>)
        ensures
            r == self.spec_validate(),
    {
        check_creator(&self.mint, &self.vesting_contract_info.data.creator, &self.creator)
    }

    /// The accounts with the contract replaced by `contract`.
    pub open spec fn spec_with(&self, contract: VestingContractInfo) -> MintTokens {
        MintTokens {
            vesting_contract_info: Account { key: self.vesting_contract_info.key, data: contract },
            ..*self
        }
    }

    /// Funds the contract with `mint_amount` newly minted tokens. On success the
    /// funded and the unassigned totals grow by the amount and the instruction that
    /// mints it into the vault is returned; on refusal nothing changes.
    pub fn mint_tokens(&mut self, mint_amount: u64, company_name: String) -> (r: Result<
        MintTo,
        ErrorCode,
    >)
        ensures
            match old(self).vesting_contract_info.data.spec_fund(mint_amount) {
                Ok(contract) => {
                    &&& r is Ok
                    &&& r->Ok_0 == spec_mint_into(
                        old(self).mint.key,
                        old(self).vault.key,
                        old(self).creator,
                        mint_amount,
                    )
                    &&& *final(self) == old(self).spec_with(contract)
                },
                Err(e) => r is Err && r->Err_0 == e && *final(self) == *old(self),
            },
    {
        match self.vesting_contract_info.data.fund(mint_amount) {
            Ok(()) => {},
            Err(e) => {
                return Err(e);
            },
        }
        Ok(MintTo { mint: self.mint.key, to: self.vault.key, authority: self.creator, amount: mint_amount })
    }
}

impl MintToken {
    /// What the check of the accounts finds: the creator must be the authority of
    /// the mint and the one who opened the contract.
    pub open spec fn spec_validate(&self) -> Result<(), AccountError> {
        spec_check_creator(self.mint, self.vesting_contract_info.data.creator, self.creator)
    }

    /// Checks the accounts.
    pub fn validate(&self) -> (r: Result<(), AccountError>)
        ensures
            r == self.spec_validate(),
    {
        check_creator(&self.mint, &self.vesting_contract_info.data.creator, &self.creator)
    }

    /// The accounts with the contract replaced by `contract`.
    pub open spec fn spec_with(&self, contract: VestingContractInfo) -> MintToken {
        MintToken {
            vesting_contract_info: Account { key: self.vesting_contract_info.key, data: contract },
            ..*self
        }
    }

    /// Funds the contract with `mint_amount` newly minted tokens, as
    /// [`MintTokens::mint_tokens`] does.
    pub fn process_mint_tokens(&mut self, mint_amount: u64, company_name: String) -> (r: Result<
        MintTo,
        ErrorCode,
    >)
        ensures
            match old(self).vesting_contract_info.data.spec_fund(mint_amount) {
                Ok(contract) => {
                    &&& r is Ok
                    &&& r->Ok_0 == spec_mint_into(
                        old(self).mint.key,
                        old(self).vault.key,
                        old(self).creator,
                        mint_amount,
                    )
                    &&& *final(self) == old(self).spec_with(contract)
                },
                Err(e) => r is Err && r->Err_0 == e && *final(self) == *old(self),
            },
    {
        match self.vesting_contract_info.data.fund(mint_amount) {
            Ok(()) => {},
            Err(e) => {
                return Err(e);
            },
        }
        Ok(MintTo { mint: self.mint.key, to: self.vault.key, authority: self.creator, amount: mint_amount })
    }
}

} // verus!
