//! The creator assigns tokens of the contract to a beneficiary.

use vstd::prelude::*;
use crate::account::Account;
use crate::address::Address;
use crate::token::{Mint, TokenAccount};
use crate::vesting::constraints::{check_creator, spec_check_creator};
use crate::vesting::error::AccountError;
use crate::vesting::error::ErrorCode;
use crate::vesting::state::{VestingContractInfo, VestingRecordInfo, VestingType};

verus! {

/// The accounts of an assignment.
#[derive(Clone, Debug, PartialEq, Eq)]
pub struct InitializeBeneficiary {
    /// The contract's creator; signs the transaction.
    pub creator: Address,
    pub beneficiary: Address,
    pub mint: Mint,
    pub vesting_contract_info: Account<VestingContractInfo>,
    /// The record of the new assignment.
    pub vesting_record_info: Account<VestingRecordInfo>,
    /// The beneficiary's token account.
    pub beneficiary_ata: TokenAccount,
}

/// The bump seeds of the addresses that an assignment derives.
#[derive(Clone, Copy, Debug, PartialEq, Eq)]
pub struct InitializeBeneficiaryBumps {
    pub vesting_contract_info: u8,
    pub vesting_record_info: u8,
}

/// The schedule that a type code stands for: 0 is a cliff, 1 is linear, and no other
/// code is a schedule.
pub open spec fn spec_vesting_type(code: u8) -> Option<VestingType> {
    if code == 0 {
        Some(VestingType::CliffVesting)
    } else if code == 1 {
        Some(VestingType::LinearVesting)
    } else {
        None
    }
}

/// Reads a type code.
pub fn vesting_type_of(code: u8) -> (r: Option<VestingType>)
    ensures
        r == spec_vesting_type(code),
{
    match code {
        0 => Some(VestingType::CliffVesting),
        1 => Some(VestingType::LinearVesting),
        _ => None,
    }
}

/// The contract after `amount` of its unassigned tokens were assigned to a
/// beneficiary.
pub open spec fn spec_contract_after_assignment(
    contract: VestingContractInfo,
    amount: u64,
) -> VestingContractInfo {
    VestingContractInfo {
        total_locked_tokens: (contract.total_locked_tokens + amount) as u64,
        total_available_tokens: (contract.total_available_tokens - amount) as u64,
        ..contract
    }
}

/// Why an assignment of `amount` with the type code `code` is refused, if it is: the
/// contract has too few unassigned tokens; else the code is no schedule; else the
/// assigned total would leave the range of its type.
pub open spec fn spec_assignment_error(
    contract: VestingContractInfo,
    code: u8,
    amount: u64,
) -> Option<ErrorCode> {
    if contract.total_available_tokens < amount {
        Some(ErrorCode::NoAvailableTokensToVest)
    } else if spec_vesting_type(code) is None {
        Some(ErrorCode::InvalidVestingType)
    } else if contract.total_locked_tokens + amount > u64::MAX {
        Some(ErrorCode::NumericalOverflow)
    } else {
        None
    }
}

impl InitializeBeneficiary {
    /// What the check of the accounts finds: the creator must be the authority of
    /// the mint and the one who opened the contract.
    pub open spec fn spec_validate(&self) -> Result<(), AccountError> {
        spec_check_creator(self.mint, self.vesting_contract_info.data.creator, self.creator)
    }

    /// Checks the accounts.
    pub fn validate(&self) -> (r: Result<(), AccountError>)
        ensures
            r == self.spec_validate(),
    {
        check_creator(&self.mint, &self.vesting_contract_info.data.creator, &self.creator)
    }

    /// The record of a new assignment: nothing claimed, several claims allowed
    /// exactly on a linear schedule, the bump seeds of the contract and its vault
    /// copied from the contract, and the record's own bump seed as the record held
    /// it before.
    pub open spec fn spec_assigned(
        &self,
        vesting_type: VestingType,
        cliff_period: i64,
        start_time: i64,
        end_time: i64,
        vesting_amount: u64,
    ) -> VestingRecordInfo {
        VestingRecordInfo {
            beneficiary: self.beneficiary,
            mint: self.mint.key,
            total_vested_tokens: vesting_amount,
            total_claimed_tokens_by_beneficiary: 0,
            vesting_type,
            cliff_period,
            vault_bump: self.vesting_contract_info.data.vault_bump,
            vesting_contract_info_bump: self.vesting_contract_info.data.bump,
            bump: self.vesting_record_info.data.bump,
            beneficiary_ata: self.beneficiary_ata.key,
            has_claimed: false,
            claim_multiple: vesting_type == VestingType::LinearVesting,
            start_time,
            end_time,
        }
    }

    /// The accounts after an assignment that left the contract as `contract` and
    /// the record as `record`.
    pub open spec fn spec_with(
        &self,
        contract: VestingContractInfo,
        record: VestingRecordInfo,
    ) -> InitializeBeneficiary {
        InitializeBeneficiary {
            vesting_contract_info: Account { key: self.vesting_contract_info.key, data: contract },
            vesting_record_info: Account { key: self.vesting_record_info.key, data: record },
            ..*self
        }
    }

    /// Assigns `vesting_amount` of the contract's unassigned tokens to the
    /// beneficiary, on the schedule given. On success the record is written and the
    /// amount moves from the unassigned to the assigned total; on refusal nothing
    /// changes.
    pub fn initialize_beneficiary(
        &mut self,
        company_name: String,
        vesting_type: u8,
        cliff_period: i64,
        start_time: i64,
        end_time: i64,
        vesting_amount: u64,
    ) -> (r: Result<(), ErrorCode>)
        ensures
            match spec_assignment_error(
                old(self).vesting_contract_info.data,
                vesting_type,
                vesting_amount,
            ) {
                Some(e) => r is Err && r->Err_0 == e && *final(self) == *old(self),
                None => {
                    &&& r is Ok
                    &&& *final(self) == old(self).spec_with(
                        spec_contract_after_assignment(
                            old(self).vesting_contract_info.data,
                            vesting_amount,
                        ),
                        old(self).spec_assigned(
                            spec_vesting_type(vesting_type)->Some_0,
                            cliff_period,
                            start_time,
                            end_time,
                            vesting_amount,
                        ),
                    )
                    &&& final(self).vesting_record_info.data.wf()
                },
            },
    {
        if self.vesting_contract_info.data.total_available_tokens < vesting_amount {
            return Err(ErrorCode::NoAvailableTokensToVest);
        }
        let vesting_type = match vesting_type_of(vesting_type) {
            Some(t) => t,
            None => {
                return Err(ErrorCode::InvalidVestingType);
            },
        };
        let claim_multiple = match vesting_type {
            VestingType::CliffVesting => false,
            VestingType::LinearVesting => true,
        };
        let locked = match self.vesting_contract_info.data.total_locked_tokens.checked_add(
            vesting_amount,
        ) {
            Some(l) => l,
            None => {
                return Err(ErrorCode::NumericalOverflow);
            },
        };
        let available = match self.vesting_contract_info.data.total_available_tokens.checked_sub(
            vesting_amount,
        ) {
            Some(a) => a,
            None => {
                return Err(ErrorCode::NumericalOverflow);
            },
        };
        self.vesting_record_info.data = VestingRecordInfo {
            beneficiary: self.beneficiary,
            mint: self.mint.key,
            total_vested_tokens: vesting_amount,
            total_claimed_tokens_by_beneficiary: 0,
            vesting_type,
            cliff_period,
            vault_bump: self.vesting_contract_info.data.vault_bump,
            vesting_contract_info_bump: self.vesting_contract_info.data.bump,
            bump: self.vesting_record_info.data.bump,
            beneficiary_ata: self.beneficiary_ata.key,
            has_claimed: false,
            claim_multiple,
            start_time,
            end_time,
        };
        self.vesting_contract_info.data.total_locked_tokens = locked;
        self.vesting_contract_info.data.total_available_tokens = available;
        Ok(())
    }
}

} // verus!
