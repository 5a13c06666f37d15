//! The vesting program: a creator funds a vault and assigns its tokens to
//! beneficiaries, who claim them on a cliff or a linear schedule.
//!
//! Each instruction is a function of this module. It takes the accounts of the
//! instruction, changes the records among them, and returns the actions that the
//! ledger is to perform; on refusal it changes nothing and returns the error.

pub mod claim_tokens;
pub mod constraints;
pub mod deposit_tokens;
pub mod error;
pub mod init_beneficiary;
pub mod init_beneficiary_ata;
pub mod init_vesting;
pub mod laws;
pub mod mint_tokens;
pub mod revoke_vesting;
pub mod state;

use vstd::prelude::*;
use crate::token::{actions_view, no_actions, push_action, Action, ActionView};
use crate::vesting::claim_tokens::{spec_claim, ClaimTokens};
use crate::vesting::deposit_tokens::DepositTokens;
use crate::vesting::error::Refusal;
use crate::vesting::init_beneficiary::{
    spec_assignment_error, spec_contract_after_assignment, spec_vesting_type, InitializeBeneficiary,
    InitializeBeneficiaryBumps,
};
use crate::vesting::state::VestingRecordInfo;
use crate::vesting::init_beneficiary_ata::InitBeneficiaryAta;
use crate::vesting::init_vesting::{InitializeVesting, InitializeVestingBumps};
use crate::vesting::mint_tokens::{spec_mint_into, MintTokens};
use crate::vesting::revoke_vesting::{spec_revocation_error, spec_revoked, RevokeVesting};

verus! {

/// Opens the contract of `company_name` at the time `created_at`, if the creator is
/// the authority of the mint and the name is one that a contract can store. There is
/// nothing for the ledger to do.
pub fn initialize_vesting(
    accounts: &mut InitializeVesting,
    bumps: &InitializeVestingBumps,
    company_name: String,
    is_revocable: bool,
    created_at: i64,
) -> (r: Result<Vec<Action>, Refusal>)
    ensures
        match old(accounts).spec_validate(company_name@) {
            Err(e) => r is Err && r->Err_0 == Refusal::Accounts(e) && *final(accounts) == *old(
                accounts,
            ),
            Ok(_) => {
                &&& r is Ok
                &&& actions_view(r->Ok_0@) == Seq::<ActionView>::empty()
                &&& *final(accounts) == old(accounts).spec_with(
                    old(accounts).spec_opened(company_name, is_revocable, *bumps, created_at),
                )
            },
        },
{
    match accounts.validate(&company_name) {
        Ok(()) => {},
        Err(e) => {
            return Err(Refusal::Accounts(e));
        },
    }
    match accounts.initialize_vesting(company_name, is_revocable, bumps, created_at) {
        Ok(()) => Ok(no_actions()),
        Err(e) => Err(Refusal::Program(e)),
    }
}

/// Assigns `vesting_amount` of the contract's unassigned tokens to a beneficiary, if
/// the accounts pass their check. The record is written with the bump seed of its
/// own address. There is nothing for the ledger to do.
pub fn initialize_beneficiary(
    accounts: &mut InitializeBeneficiary,
    bumps: &InitializeBeneficiaryBumps,
    company_name: String,
    vesting_type: u8,
    cliff_period: i64,
    start_time: i64,
    end_time: i64,
    vesting_amount: u64,
) -> (r: Result<Vec<Action>, Refusal>)
    ensures
        match old(accounts).spec_validate() {
            Err(e) => r is Err && r->Err_0 == Refusal::Accounts(e) && *final(accounts) == *old(
                accounts,
            ),
            Ok(_) => match spec_assignment_error(
                old(accounts).vesting_contract_info.data,
                vesting_type,
                vesting_amount,
            ) {
                Some(e) => r is Err && r->Err_0 == Refusal::Program(e) && *final(accounts)
                    == *old(accounts),
                None => {
                    &&& r is Ok
                    &&& actions_view(r->Ok_0@) == Seq::<ActionView>::empty()
                    &&& *final(accounts) == old(accounts).spec_with(
                        spec_contract_after_assignment(
                            old(accounts).vesting_contract_info.data,
                            vesting_amount,
                        ),
                        (VestingRecordInfo {
                            bump: bumps.vesting_record_info,
                            ..old(accounts).spec_assigned(
                                spec_vesting_type(vesting_type)->Some_0,
                                cliff_period,
                                start_time,
                                end_time,
                                vesting_amount,
                            )
                        }),
                    )
                    &&& final(accounts).vesting_record_info.data.wf()
                },
            },
        },
{
    match accounts.validate() {
        Ok(()) => {},
        Err(e) => {
            return Err(Refusal::Accounts(e));
        },
    }
    match accounts.initialize_beneficiary(
        company_name,
        vesting_type,
        cliff_period,
        start_time,
        end_time,
        vesting_amount,
    ) {
        Ok(()) => {
            accounts.vesting_record_info.data.bump = bumps.vesting_record_info;
            Ok(no_actions())
        },
        Err(e) => Err(Refusal::Program(e)),
    }
}

/// Accepts a beneficiary's new token account. There is nothing for the ledger to do.
pub fn initialize_beneficiary_ata(accounts: &mut InitBeneficiaryAta) -> (r: Result<
    Vec<Action>,
    Refusal,
>)
    ensures
        r is Ok,
        actions_view(r->Ok_0@) == Seq::<ActionView>::empty(),
        *final(accounts) == *old(accounts),
{
    match accounts.init_beneficiary_ata() {
        Ok(()) => Ok(no_actions()),
        Err(e) => Err(Refusal::Program(e)),
    }
}

/// Funds the contract from the creator's token account, if the accounts pass their
/// check. The ledger is to perform the transfer into the vault.
pub fn deposit_tokens(accounts: &mut DepositTokens, deposit_amount: u64, company_name: String) -> (r:
    Result<Vec<Action>, Refusal>)
    ensures
        match old(accounts).spec_validate() {
            Err(e) => r is Err && r->Err_0 == Refusal::Accounts(e) && *final(accounts) == *old(
                accounts,
            ),
            Ok(_) => match old(accounts).vesting_contract_info.data.spec_fund(deposit_amount) {
                Ok(contract) => {
                    &&& r is Ok
                    &&& actions_view(r->Ok_0@) == seq![
                        ActionView::TransferChecked(old(accounts).spec_deposit(deposit_amount)),
                    ]
                    &&& *final(accounts) == old(accounts).spec_with(contract)
                },
                Err(e) => r is Err && r->Err_0 == Refusal::Program(e) && *final(accounts)
                    == *old(accounts),
            },
        },
{
    match accounts.validate() {
        Ok(()) => {},
        Err(e) => {
            return Err(Refusal::Accounts(e));
        },
    }
    match accounts.deposit_tokens(deposit_amount, company_name) {
        Ok(deposit) => {
            let mut actions = no_actions();
            push_action(&mut actions, Action::TransferChecked(deposit));
            Ok(actions)
        },
        Err(e) => Err(Refusal::Program(e)),
    }
}

/// Funds the contract by minting, if the accounts pass their check. The ledger is to
/// mint into the vault.
pub fn mint_tokens(accounts: &mut MintTokens, mint_amount: u64, company_name: String) -> (r: Result<
    Vec<Action>,
    Refusal,
>)
    ensures
        match old(accounts).spec_validate() {
            Err(e) => r is Err && r->Err_0 == Refusal::Accounts(e) && *final(accounts) == *old(
                accounts,
            ),
            Ok(_) => match old(accounts).vesting_contract_info.data.spec_fund(mint_amount) {
                Ok(contract) => {
                    &&& r is Ok
                    &&& actions_view(r->Ok_0@) == seq![
                        ActionView::MintTo(
                            spec_mint_into(
                                old(accounts).mint.key,
                                old(accounts).vault.key,
                                old(accounts).creator,
                                mint_amount,
                            ),
                        ),
                    ]
                    &&& *final(accounts) == old(accounts).spec_with(contract)
                },
                Err(e) => r is Err && r->Err_0 == Refusal::Program(e) && *final(accounts)
                    == *old(accounts),
            },
        },
{
    match accounts.validate() {
        Ok(()) => {},
        Err(e) => {
            return Err(Refusal::Accounts(e));
        },
    }
    match accounts.mint_tokens(mint_amount, company_name) {
        Ok(mint) => {
            let mut actions = no_actions();
            push_action(&mut actions, Action::MintTo(mint));
            Ok(actions)
        },
        Err(e) => Err(Refusal::Program(e)),
    }
}

/// Claims what has vested by `current_time`, if the accounts pass their check. The
/// ledger is to perform the transfer from the vault to the beneficiary's token
/// account.
pub fn claim_tokens(accounts: &mut ClaimTokens, company_name: String, current_time: i64) -> (r:
    Result<Vec<Action>, Refusal>)
    ensures
        match old(accounts).spec_validate() {
            Err(e) => r is Err && r->Err_0 == Refusal::Accounts(e) && *final(accounts) == *old(
                accounts,
            ),
            Ok(_) => match spec_claim(
                old(accounts).vesting_contract_info.data,
                old(accounts).vesting_record_info.data,
                current_time,
            ) {
                Ok((contract, record, amount)) => {
                    &&& r is Ok
                    &&& actions_view(r->Ok_0@) == seq![
                        ActionView::TransferChecked(old(accounts).spec_release(amount)),
                    ]
                    &&& *final(accounts) == old(accounts).spec_with(contract, record)
                },
                Err(e) => r is Err && r->Err_0 == Refusal::Program(e) && *final(accounts)
                    == *old(accounts),
            },
        },
{
    match accounts.validate() {
        Ok(()) => {},
        Err(e) => {
            return Err(Refusal::Accounts(e));
        },
    }
    match accounts.claim_tokens(company_name, current_time) {
        Ok(release) => {
            let mut actions = no_actions();
            push_action(&mut actions, Action::TransferChecked(release));
            Ok(actions)
        },
        Err(e) => Err(Refusal::Program(e)),
    }
}

/// Revokes the contract, if the accounts pass their check. The ledger is to return
/// the whole balance of the vault to the creator's token account.
pub fn revoke_vesting(accounts: &mut RevokeVesting, company_name: String) -> (r: Result<
    Vec<Action>,
    Refusal,
>)
    ensures
        match old(accounts).spec_validate() {
            Err(e) => r is Err && r->Err_0 == Refusal::Accounts(e) && *final(accounts) == *old(
                accounts,
            ),
            Ok(_) => match spec_revocation_error(
                old(accounts).vesting_contract_info.data,
                old(accounts).vault.amount,
            ) {
                Some(e) => r is Err && r->Err_0 == Refusal::Program(e) && *final(accounts)
                    == *old(accounts),
                None => {
                    &&& r is Ok
                    &&& actions_view(r->Ok_0@) == seq![
                        ActionView::TransferChecked(old(accounts).spec_return(company_name@)),
                    ]
                    &&& *final(accounts) == old(accounts).spec_with(
                        spec_revoked(old(accounts).vesting_contract_info.data),
                    )
                },
            },
        },
{
    match accounts.validate() {
        Ok(()) => {},
        Err(e) => {
            return Err(Refusal::Accounts(e));
        },
    }
    match accounts.revoke_vesting(company_name) {
        Ok(give_back) => {
            let mut actions = no_actions();
            push_action(&mut actions, Action::TransferChecked(give_back));
            Ok(actions)
        },
        Err(e) => Err(Refusal::Program(e)),
    }
}

} // verus!
