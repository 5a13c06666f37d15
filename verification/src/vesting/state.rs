//! The records of the vesting program.

use vstd::prelude::*;
use crate::address::Address;
use crate::vesting::error::ErrorCode;

verus! {

/// How a beneficiary's tokens are released.
#[derive(Clone, Copy, Debug, PartialEq, Eq, Structural)]
pub enum VestingType {
    /// Everything at once, after a waiting period from the start.
    CliffVesting,
    /// In proportion to the time passed between start and end.
    LinearVesting,
}

/// The accounting of one vesting contract. There is one per creator, mint and company
/// name, and it owns the vault that holds the contract's tokens.
#[derive(Clone, Debug, PartialEq, Eq)]
pub struct VestingContractInfo {
    pub creator: Address,
    pub company_name: String,
    pub mint: Address,
    /// Tokens ever brought into the vault by funding.
    pub total_vested_tokens: u64,
    /// Tokens in the vault that are not assigned to any beneficiary.
    pub total_available_tokens: u64,
    /// Tokens assigned to beneficiaries and not claimed yet.
    pub total_locked_tokens: u64,
    /// Tokens paid out to beneficiaries.
    pub total_claimed_tokens: u64,
    pub vault_account: Address,
    /// When the contract was opened, in seconds since the epoch.
    pub created_at: i64,
    pub vault_bump: u8,
    pub bump: u8,
    pub is_active: bool,
    pub revocable: bool,
    pub is_revoked: bool,
    pub fully_claimed: bool,
}

/// What one beneficiary of a contract is to get, and has got. There is one per
/// contract, beneficiary and mint.
#[derive(Clone, Copy, Debug, PartialEq, Eq)]
pub struct VestingRecordInfo {
    pub beneficiary: Address,
    pub mint: Address,
    /// Tokens that the contract has assigned to the beneficiary.
    pub total_vested_tokens: u64,
    pub total_claimed_tokens_by_beneficiary: u64,
    pub vesting_type: VestingType,
    /// Waiting period of a cliff schedule, in seconds from the start.
    pub cliff_period: i64,
    pub vault_bump: u8,
    pub vesting_contract_info_bump: u8,
    pub bump: u8,
    pub beneficiary_ata: Address,
    /// Set once no further claim is possible.
    pub has_claimed: bool,
    /// Whether the schedule allows more than one claim.
    pub claim_multiple: bool,
    pub start_time: i64,
    pub end_time: i64,
}

impl VestingContractInfo {
    /// The accounting is consistent: every funded token is unassigned, assigned or paid
    /// out, and the flags agree with the counters.
    pub open spec fn wf(&self) -> bool {
        &&& self.total_vested_tokens == self.total_available_tokens + self.total_locked_tokens
            + self.total_claimed_tokens
        &&& self.fully_claimed ==> self.total_claimed_tokens == self.total_vested_tokens
        &&& self.total_vested_tokens > 0 && self.total_claimed_tokens == self.total_vested_tokens
            ==> self.fully_claimed
        &&& self.fully_claimed ==> !self.is_active
        &&& self.is_revoked ==> !self.is_active
        &&& self.is_revoked ==> self.revocable
        &&& !self.is_active ==> self.is_revoked || self.fully_claimed
    }

    /// The contract after `amount` tokens were brought into its vault, or why the
    /// funding is refused: the contract must be active, and neither the funded nor the
    /// unassigned total may leave the range of its type.
    pub open spec fn spec_fund(self, amount: u64) -> Result<VestingContractInfo, ErrorCode> {
        if !self.is_active {
            Err(ErrorCode::VestingNotActive)
        } else if self.total_vested_tokens + amount > u64::MAX {
            Err(ErrorCode::NumericalOverflow)
        } else if self.total_available_tokens + amount > u64::MAX {
            Err(ErrorCode::NumericalOverflow)
        } else {
            Ok(
                VestingContractInfo {
                    total_vested_tokens: (self.total_vested_tokens + amount) as u64,
                    total_available_tokens: (self.total_available_tokens + amount) as u64,
                    ..self
                },
            )
        }
    }

    /// Records that `amount` tokens are brought into the vault. On refusal nothing
    /// changes.
    pub fn fund(&mut self, amount: u64) -> (r: Result<(), ErrorCode>)
        ensures
            match old(self).spec_fund(amount) {
                Ok(contract) => r is Ok && *final(self) == contract,
                Err(e) => r is Err && r->Err_0 == e && *final(self) == *old(self),
            },
    {
        if !self.is_active {
            return Err(ErrorCode::VestingNotActive);
        }
        let vested = match self.total_vested_tokens.checked_add(amount) {
            Some(v) => v,
            None => {
                return Err(ErrorCode::NumericalOverflow);
            },
        };
        let available = match self.total_available_tokens.checked_add(amount) {
            Some(v) => v,
            None => {
                return Err(ErrorCode::NumericalOverflow);
            },
        };
        self.total_vested_tokens = vested;
        self.total_available_tokens = available;
        Ok(())
    }
}

impl VestingRecordInfo {
    /// The record is consistent: nothing beyond the assigned amount is claimed, and
    /// the flags agree with the schedule and the counters.
    pub open spec fn wf(&self) -> bool {
        &&& self.total_claimed_tokens_by_beneficiary <= self.total_vested_tokens
        &&& self.claim_multiple == (self.vesting_type == VestingType::LinearVesting)
        &&& self.has_claimed ==> self.total_claimed_tokens_by_beneficiary
            == self.total_vested_tokens
        &&& self.vesting_type == VestingType::CliffVesting && !self.has_claimed
            ==> self.total_claimed_tokens_by_beneficiary == 0
        &&& self.vesting_type == VestingType::LinearVesting && self.total_vested_tokens > 0
            && self.total_claimed_tokens_by_beneficiary == self.total_vested_tokens
            ==> self.has_claimed
    }

    /// The schedule is in order: it ends after it starts, and the cliff period is
    /// not negative and not longer than the schedule.
    pub open spec fn schedule_is_ordered(&self) -> bool {
        &&& self.start_time < self.end_time
        &&& 0 <= self.cliff_period <= self.end_time - self.start_time
    }

    /// Tokens assigned to the beneficiary and not claimed yet.
    pub open spec fn outstanding(&self) -> int {
        self.total_vested_tokens - self.total_claimed_tokens_by_beneficiary
    }
}

} // verus!
