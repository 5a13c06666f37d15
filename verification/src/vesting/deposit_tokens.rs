//! The creator funds the vault from their own token account.

use vstd::prelude::*;
use crate::account::Account;
use crate::address::Address;
use crate::token::{Mint, TokenAccount, TransferChecked, TransferCheckedView};
use crate::vesting::constraints::{check_creator, spec_check_creator};
use crate::vesting::error::AccountError;
use crate::vesting::error::ErrorCode;
use crate::vesting::state::VestingContractInfo;

verus! {

/// The accounts of a deposit.
#[derive(Clone, Debug, PartialEq, Eq)]
pub struct DepositTokens {
    /// Who funds; signs the transaction.
    pub creator: Address,
    pub mint: Mint,
    pub vesting_contract_info: Account<VestingContractInfo>,
    /// The contract's vault, which receives.
    pub vault: TokenAccount,
    /// The creator's token account, which pays.
    pub company_ata: TokenAccount,
}

impl DepositTokens {
    /// What the check of the accounts finds: the creator must be the authority of
    /// the mint and the one who opened the contract.
    pub open spec fn spec_validate(&self) -> Result<(), AccountError> {
        spec_check_creator(self.mint, self.vesting_contract_info.data.creator, self.creator)
    }

    /// Checks the accounts.
    pub fn validate(&self) -> (r: Result<(), AccountError>)
        ensures
            r == self.spec_validate(),
    {
        check_creator(&self.mint, &self.vesting_contract_info.data.creator, &self.creator)
    }

    /// The transfer that carries a deposit of `amount`: from the creator's token
    /// account to the vault, signed by the creator.
    pub open spec fn spec_deposit(&self, amount: u64) -> TransferCheckedView {
        TransferCheckedView {
            from: self.company_ata.key,
            to: self.vault.key,
            mint: self.mint.key,
            authority: self.creator,
            amount,
            decimals: self.mint.decimals,
            signer_seeds: Seq::empty(),
        }
    }

    /// The accounts with the contract replaced by `contract`.
    pub open spec fn spec_with(&self, contract: VestingContractInfo) -> DepositTokens {
        DepositTokens {
            vesting_contract_info: Account { key: self.vesting_contract_info.key, data: contract },
            ..*self
        }
    }

    /// Funds the contract with `deposit_amount` tokens of the creator. On success the
    /// funded and the unassigned totals grow by the amount and the transfer that
    /// carries it is returned; on refusal nothing changes.
    pub fn deposit_tokens(&mut self, deposit_amount: u64, company_name: String) -> (r: Result<
        TransferChecked,
        ErrorCode,
    >)
        ensures
            match old(self).vesting_contract_info.data.spec_fund(deposit_amount) {
                Ok(contract) => {
                    &&& r is Ok
                    &&& r->Ok_0@ == old(self).spec_deposit(deposit_amount)
                    &&& *final(self) == old(self).spec_with(contract)
                },
                Err(e) => r is Err && r->Err_0 == e && *final(self) == *old(self),
            },
    {
        match self.vesting_contract_info.data.fund(deposit_amount) {
            Ok(()) => {},
            Err(e) => {
                return Err(e);
            },
        }
        let deposit = TransferChecked {
            from: self.company_ata.key,
            to: self.vault.key,
            mint: self.mint.key,
            authority: self.creator,
            amount: deposit_amount,
            decimals: self.mint.decimals,
            signer_seeds: Vec::new(),
        };
        assert(deposit@.signer_seeds =~= Seq::<Seq<u8>>::empty());
        Ok(deposit)
    }
}

} // verus!
