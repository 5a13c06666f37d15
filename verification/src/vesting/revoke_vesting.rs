//! The creator revokes a contract and takes back what the vault holds.

use vstd::prelude::*;
use crate::account::Account;
use crate::address::Address;
use crate::seeds::{spec_vesting_contract_seeds, spec_with_bump, vesting_contract_seeds, with_bump};
use crate::token::{Mint, TokenAccount, TransferChecked, TransferCheckedView};
use crate::vesting::constraints::{check_creator, spec_check_creator};
use crate::vesting::error::AccountError;
use crate::vesting::error::ErrorCode;
use crate::vesting::state::VestingContractInfo;

verus! {

/// The accounts of a revocation.
#[derive(Clone, Debug, PartialEq, Eq)]
pub struct RevokeVesting {
    /// The contract's creator; signs the transaction.
    pub creator: Address,
    pub mint: Mint,
    pub vesting_contract_info: Account<VestingContractInfo>,
    /// The contract's vault, which pays.
    pub vault: TokenAccount,
    /// The creator's token account, which receives.
    pub company_ata: TokenAccount,
}

/// Why a revocation is refused, if it is, for a vault that holds `vault_amount`: the
/// contract was revoked already; else it is not revocable; else the vault is empty.
pub open spec fn spec_revocation_error(
    contract: VestingContractInfo,
    vault_amount: u64,
) -> Option<ErrorCode> {
    if !contract.is_active && contract.is_revoked {
        Some(ErrorCode::VestingIsNotActive)
    } else if !contract.revocable {
        Some(ErrorCode::VestingIsNotRevocable)
    } else if vault_amount == 0 {
        Some(ErrorCode::VaultIsEmpty)
    } else {
        None
    }
}

/// The contract after its revocation: revoked and no longer active, every counter
/// as it was.
pub open spec fn spec_revoked(contract: VestingContractInfo) -> VestingContractInfo {
    VestingContractInfo { is_active: false, is_revoked: true, ..contract }
}

impl RevokeVesting {
    /// What the check of the accounts finds: the creator must be the authority of
    /// the mint and the one who opened the contract.
    pub open spec fn spec_validate(&self) -> Result<(), AccountError> {
        spec_check_creator(self.mint, self.vesting_contract_info.data.creator, self.creator)
    }

    /// Checks the accounts.
    pub fn validate(&self) -> (r: Result<(), AccountError>)
        ensures
            r == self.spec_validate(),
    {
        check_creator(&self.mint, &self.vesting_contract_info.data.creator, &self.creator)
    }

    /// The transfer that returns the vault's balance to the creator's token account,
    /// signed for the contract with the seeds of `company_name` and the contract's
    /// bump seed.
    pub open spec fn spec_return(&self, company_name: Seq<char>) -> TransferCheckedView {
        TransferCheckedView {
            from: self.vault.key,
            to: self.company_ata.key,
            mint: self.mint.key,
            authority: self.vesting_contract_info.key,
            amount: self.vault.amount,
            decimals: self.mint.decimals,
            signer_seeds: spec_with_bump(
                spec_vesting_contract_seeds(company_name, self.creator, self.mint.key),
                self.vesting_contract_info.data.bump,
            ),
        }
    }

    /// The accounts with the contract replaced by `contract`.
    pub open spec fn spec_with(&self, contract: VestingContractInfo) -> RevokeVesting {
        RevokeVesting {
            vesting_contract_info: Account { key: self.vesting_contract_info.key, data: contract },
            ..*self
        }
    }

    /// Revokes the contract. On success the contract is marked revoked and inactive
    /// and the transfer that returns the whole balance of the vault is returned; on
    /// refusal nothing changes.
    pub fn revoke_vesting(&mut self, company_name: String) -> (r: Result<TransferChecked, ErrorCode>)
        ensures
            match spec_revocation_error(
                old(self).vesting_contract_info.data,
                old(self).vault.amount,
            ) {
                Some(e) => r is Err && r->Err_0 == e && *final(self) == *old(self),
                None => {
                    &&& r is Ok
                    &&& r->Ok_0@ == old(self).spec_return(company_name@)
                    &&& *final(self) == old(self).spec_with(
                        spec_revoked(old(self).vesting_contract_info.data),
                    )
                },
            },
    {
        if self.vesting_contract_info.data.is_active == false
            && self.vesting_contract_info.data.is_revoked == true {
            return Err(ErrorCode::VestingIsNotActive);
        }
        if self.vesting_contract_info.data.revocable == false {
            return Err(ErrorCode::VestingIsNotRevocable);
        }
        let transfer_amount = self.vault.amount;
        if transfer_amount == 0 {
            return Err(ErrorCode::VaultIsEmpty);
        }
        let seeds = vesting_contract_seeds(&company_name, &self.creator, &self.mint.key);
        let give_back = TransferChecked {
            from: self.vault.key,
            to: self.company_ata.key,
            mint: self.mint.key,
            authority: self.vesting_contract_info.key,
            amount: transfer_amount,
            decimals: self.mint.decimals,
            signer_seeds: with_bump(seeds, self.vesting_contract_info.data.bump),
        };
        self.vesting_contract_info.data.is_active = false;
        self.vesting_contract_info.data.is_revoked = true;
        Ok(give_back)
    }
}

} // verus!
