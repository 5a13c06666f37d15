//! A beneficiary claims what has vested.

use vstd::prelude::*;
use vstd::arithmetic::div_mod::{lemma_div_pos_is_pos, lemma_fundamental_div_mod};
use vstd::arithmetic::mul::{lemma_mul_inequality, lemma_mul_nonnegative, lemma_mul_upper_bound};
use crate::account::Account;
use crate::address::Address;
use crate::seeds::{spec_vesting_contract_seeds, spec_with_bump, vesting_contract_seeds, with_bump};
use crate::token::{Mint, TokenAccount, TransferChecked, TransferCheckedView};
use crate::vesting::constraints::{check_creator, spec_check_creator};
use crate::vesting::error::AccountError;
use crate::vesting::error::ErrorCode;
use crate::vesting::state::{VestingContractInfo, VestingRecordInfo, VestingType};

verus! {

/// The accounts of a claim.
#[derive(Clone, Debug, PartialEq, Eq)]
pub struct ClaimTokens {
    /// Who claims; signs the transaction.
    pub beneficiary: Address,
    pub creator: Address,
    pub mint: Mint,
    pub vesting_contract_info: Account<VestingContractInfo>,
    pub vesting_record_info: Account<VestingRecordInfo>,
    /// The contract's vault, which pays.
    pub vault: TokenAccount,
    /// The beneficiary's token account, which receives.
    pub beneficiary_ata: TokenAccount,
}

/// Whether `v` is in the range of a signed 64-bit integer.
pub open spec fn fits_i64(v: int) -> bool {
    i64::MIN <= v <= i64::MAX
}

/// What a linear schedule has released by `current_time`: everything from the end
/// on, before that the assigned amount in proportion to the time passed since the
/// start, rounded down.
pub open spec fn spec_linear_vested(record: VestingRecordInfo, current_time: i64) -> int {
    if current_time >= record.end_time {
        record.total_vested_tokens as int
    } else {
        (record.total_vested_tokens * (current_time - record.start_time)) / (record.end_time
            - record.start_time)
    }
}

/// What a claim at `current_time` pays, or why it is refused, before any counter is
/// touched. The checks come in this order: the schedule has started; the contract is
/// active; then, for a cliff, the waiting period is over and nothing was claimed; for
/// a linear schedule, something is left, and something has vested since the last
/// claim.
pub open spec fn spec_claimable_tokens(
    record: VestingRecordInfo,
    contract_is_active: bool,
    current_time: i64,
) -> Result<u64, ErrorCode> {
    if current_time < record.start_time {
        Err(ErrorCode::VestingNotStarted)
    } else if !contract_is_active {
        Err(ErrorCode::VestingNotActive)
    } else {
        match record.vesting_type {
            VestingType::CliffVesting => {
                if !fits_i64(record.start_time + record.cliff_period) {
                    Err(ErrorCode::NumericalOverflow)
                } else if current_time < record.start_time + record.cliff_period {
                    Err(ErrorCode::CliffPeriodNotOver)
                } else if record.has_claimed {
                    Err(ErrorCode::TokensAlreadyClaimed)
                } else {
                    Ok(record.total_vested_tokens)
                }
            },
            VestingType::LinearVesting => {
                if record.total_claimed_tokens_by_beneficiary >= record.total_vested_tokens {
                    Err(ErrorCode::TokensAlreadyClaimed)
                } else if !fits_i64(record.end_time - record.start_time) {
                    Err(ErrorCode::NumericalOverflow)
                } else if !fits_i64(current_time - record.start_time) {
                    Err(ErrorCode::NumericalOverflow)
                } else if spec_linear_vested(record, current_time)
                    < record.total_claimed_tokens_by_beneficiary {
                    Err(ErrorCode::NumericalOverflow)
                } else if spec_linear_vested(record, current_time)
                    == record.total_claimed_tokens_by_beneficiary {
                    Err(ErrorCode::NoTokensToClaim)
                } else {
                    Ok(
                        (spec_linear_vested(record, current_time)
                            - record.total_claimed_tokens_by_beneficiary) as u64,
                    )
                }
            },
        }
    }
}

/// The record after `amount` tokens were paid to its beneficiary: a cliff record, and
/// a record with nothing left to claim, allow no further claim.
pub open spec fn spec_record_after_claim(record: VestingRecordInfo, amount: u64) -> VestingRecordInfo {
    let claimed = (record.total_claimed_tokens_by_beneficiary + amount) as u64;
    VestingRecordInfo {
        total_claimed_tokens_by_beneficiary: claimed,
        has_claimed: record.has_claimed || record.vesting_type == VestingType::CliffVesting
            || claimed == record.total_vested_tokens,
        ..record
    }
}

/// The contract after `amount` of its assigned tokens were paid out: once everything
/// funded is paid out, the contract is fully claimed and no longer active.
pub open spec fn spec_contract_after_claim(
    contract: VestingContractInfo,
    amount: u64,
) -> VestingContractInfo {
    let claimed = (contract.total_claimed_tokens + amount) as u64;
    let done = claimed >= contract.total_vested_tokens;
    VestingContractInfo {
        total_claimed_tokens: claimed,
        total_locked_tokens: (contract.total_locked_tokens - amount) as u64,
        is_active: contract.is_active && !done,
        fully_claimed: contract.fully_claimed || done,
        ..contract
    }
}

/// The result of a claim at `current_time`: the contract and the record after it and
/// the amount paid, or the error with which it is refused. A claim that would take a
/// counter out of its range is refused with `NumericalOverflow`.
pub open spec fn spec_claim(
    contract: VestingContractInfo,
    record: VestingRecordInfo,
    current_time: i64,
) -> Result<(VestingContractInfo, VestingRecordInfo, u64), ErrorCode> {
    match spec_claimable_tokens(record, contract.is_active, current_time) {
        Err(e) => Err(e),
        Ok(amount) => {
            if record.total_claimed_tokens_by_beneficiary + amount > u64::MAX {
                Err(ErrorCode::NumericalOverflow)
            } else if contract.total_claimed_tokens + amount > u64::MAX {
                Err(ErrorCode::NumericalOverflow)
            } else if contract.total_locked_tokens < amount {
                Err(ErrorCode::NumericalOverflow)
            } else {
                Ok(
                    (
                        spec_contract_after_claim(contract, amount),
                        spec_record_after_claim(record, amount),
                        amount,
                    ),
                )
            }
        },
    }
}

impl ClaimTokens {
    /// What the check of the accounts finds: the creator must be the authority of
    /// the mint and the one who opened the contract.
    pub open spec fn spec_validate(&self) -> Result<(), AccountError> {
        spec_check_creator(self.mint, self.vesting_contract_info.data.creator, self.creator)
    }

    /// Checks the accounts.
    pub fn validate(&self) -> (r: Result<(), AccountError>)
        ensures
            r == self.spec_validate(),
    {
        check_creator(&self.mint, &self.vesting_contract_info.data.creator, &self.creator)
    }

    /// The transfer that pays a claim of `amount`: from the vault to the beneficiary's
    /// token account, signed for the contract with its seeds and bump seed.
    pub open spec fn spec_release(&self, amount: u64) -> TransferCheckedView {
        TransferCheckedView {
            from: self.vault.key,
            to: self.beneficiary_ata.key,
            mint: self.mint.key,
            authority: self.vesting_contract_info.key,
            amount,
            decimals: self.mint.decimals,
            signer_seeds: spec_with_bump(
                spec_vesting_contract_seeds(
                    self.vesting_contract_info.data.company_name@,
                    self.creator,
                    self.mint.key,
                ),
                self.vesting_contract_info.data.bump,
            ),
        }
    }

    /// The accounts after a claim that left the contract as `contract` and the record
    /// as `record`.
    pub open spec fn spec_with(
        &self,
        contract: VestingContractInfo,
        record: VestingRecordInfo,
    ) -> ClaimTokens {
        ClaimTokens {
            vesting_contract_info: Account { key: self.vesting_contract_info.key, data: contract },
            vesting_record_info: Account { key: self.vesting_record_info.key, data: record },
            ..*self
        }
    }

    /// Claims what has vested by `current_time`. On success the counters of the
    /// contract and of the record are advanced by the amount paid, and the transfer
    /// that pays it is returned; on refusal nothing changes.
    pub fn claim_tokens(&mut self, company_name: String, current_time: i64) -> (r: Result<
        TransferChecked,
        ErrorCode,
    >)
        ensures
            match spec_claim(
                old(self).vesting_contract_info.data,
                old(self).vesting_record_info.data,
                current_time,
            ) {
                Ok((contract, record, amount)) => {
                    &&& r is Ok
                    &&& r->Ok_0@ == old(self).spec_release(amount)
                    &&& *final(self) == old(self).spec_with(contract, record)
                },
                Err(e) => r is Err && r->Err_0 == e && *final(self) == *old(self),
            },
    {
        let record = self.vesting_record_info.data;
        let vesting_type = record.vesting_type;
        let total_vested = record.total_vested_tokens;
        let total_claimed = record.total_claimed_tokens_by_beneficiary;
        let claimable_tokens = match claimable_tokens(
            &record,
            self.vesting_contract_info.data.is_active,
            current_time,
        ) {
            Ok(amount) => amount,
            Err(e) => {
                return Err(e);
            },
        };

        let record_claimed = match total_claimed.checked_add(claimable_tokens) {
            Some(c) => c,
            None => {
                return Err(ErrorCode::NumericalOverflow);
            },
        };
        let contract_claimed = match self.vesting_contract_info.data.total_claimed_tokens.checked_add(
            claimable_tokens,
        ) {
            Some(c) => c,
            None => {
                return Err(ErrorCode::NumericalOverflow);
            },
        };
        let contract_locked = match self.vesting_contract_info.data.total_locked_tokens.checked_sub(
            claimable_tokens,
        ) {
            Some(c) => c,
            None => {
                return Err(ErrorCode::NumericalOverflow);
            },
        };

        let seeds = vesting_contract_seeds(
            &self.vesting_contract_info.data.company_name,
            &self.creator,
            &self.mint.key,
        );
        let release = TransferChecked {
            from: self.vault.key,
            to: self.beneficiary_ata.key,
            mint: self.mint.key,
            authority: self.vesting_contract_info.key,
            amount: claimable_tokens,
            decimals: self.mint.decimals,
            signer_seeds: with_bump(seeds, self.vesting_contract_info.data.bump),
        };

        self.vesting_record_info.data.total_claimed_tokens_by_beneficiary = record_claimed;
        self.vesting_contract_info.data.total_claimed_tokens = contract_claimed;
        self.vesting_contract_info.data.total_locked_tokens = contract_locked;
        match vesting_type {
            VestingType::CliffVesting => {
                self.vesting_record_info.data.has_claimed = true;
            },
            VestingType::LinearVesting => {
                if record_claimed == total_vested {
                    self.vesting_record_info.data.has_claimed = true;
                }
            },
        }
        if contract_claimed >= self.vesting_contract_info.data.total_vested_tokens {
            self.vesting_contract_info.data.is_active = false;
            self.vesting_contract_info.data.fully_claimed = true;
        }
        Ok(release)
    }
}

/// Computes what a claim at `current_time` pays, or why it is refused, without
/// touching any counter.
pub fn claimable_tokens(
    record: &VestingRecordInfo,
    contract_is_active: bool,
    current_time: i64,
) -> (r: Result<u64, ErrorCode>)
    ensures
        r == spec_claimable_tokens(*record, contract_is_active, current_time),
{
    if current_time < record.start_time {
        return Err(ErrorCode::VestingNotStarted);
    }
    if contract_is_active == false {
        return Err(ErrorCode::VestingNotActive);
    }
    let total_vested = record.total_vested_tokens;
    let total_claimed = record.total_claimed_tokens_by_beneficiary;

    match record.vesting_type {
        VestingType::CliffVesting => {
            let unlock_time = match record.start_time.checked_add(record.cliff_period) {
                Some(t) => t,
                None => {
                    return Err(ErrorCode::NumericalOverflow);
                },
            };
            if current_time < unlock_time {
                return Err(ErrorCode::CliffPeriodNotOver);
            }
            if record.has_claimed {
                return Err(ErrorCode::TokensAlreadyClaimed);
            }
            Ok(total_vested)
        },
        VestingType::LinearVesting => {
            if total_claimed >= total_vested {
                return Err(ErrorCode::TokensAlreadyClaimed);
            }
            let total_duration = match record.end_time.checked_sub(record.start_time) {
                Some(d) => d,
                None => {
                    return Err(ErrorCode::NumericalOverflow);
                },
            };
            let elapsed_time = match current_time.checked_sub(record.start_time) {
                Some(e) => e,
                None => {
                    return Err(ErrorCode::NumericalOverflow);
                },
            };
            let vested_so_far = if current_time >= record.end_time {
                total_vested
            } else {
                linear_share(total_vested, elapsed_time, total_duration)
            };
            let claimable = match vested_so_far.checked_sub(total_claimed) {
                Some(c) => c,
                None => {
                    return Err(ErrorCode::NumericalOverflow);
                },
            };
            if claimable == 0 {
                return Err(ErrorCode::NoTokensToClaim);
            }
            Ok(claimable)
        },
    }
}

/// The share of `total` that `elapsed` is of `duration`, rounded down. The product is
/// taken in 128 bits, where it cannot overflow.
pub fn linear_share(total: u64, elapsed: i64, duration: i64) -> (share: u64)
    requires
        0 <= elapsed < duration,
    ensures
        share == (total * elapsed) / (duration as int),
        share <= total,
{
    proof {
        lemma_mul_upper_bound(total as int, u64::MAX as int, elapsed as int, i64::MAX as int);
        lemma_share_is_bounded(total as int, elapsed as int, duration as int);
    }
    let product: u128 = (total as u128) * (elapsed as u128);
    let quotient: u128 = product / (duration as u128);
    quotient as u64
}

/// A share of a total is at most the total, and is not negative.
pub proof fn lemma_share_is_bounded(total: int, elapsed: int, duration: int)
    requires
        0 <= total,
        0 <= elapsed < duration,
    ensures
        0 <= (total * elapsed) / duration <= total,
        total * elapsed <= total * duration,
{
    lemma_mul_nonnegative(total, elapsed);
    lemma_mul_inequality(elapsed, duration, total);
    assert(total * elapsed == elapsed * total) by (nonlinear_arith);
    assert(total * duration == duration * total) by (nonlinear_arith);
    lemma_div_pos_is_pos(total * elapsed, duration);
    lemma_fundamental_div_mod(total * elapsed, duration);
    let q = (total * elapsed) / duration;
    assert(q <= total) by (nonlinear_arith)
        requires
            duration > 0,
            total >= 0,
            total * elapsed <= total * duration,
            total * elapsed == duration * q + (total * elapsed) % duration,
            0 <= (total * elapsed) % duration,
    {
        if q > total {
            assert(duration * q >= duration * (total + 1));
            assert(duration * (total + 1) == duration * total + duration);
        }
    }
}

} // verus!
