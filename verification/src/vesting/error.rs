//! The errors of the vesting program.

use vstd::prelude::*;

verus! {

/// Why the program refused an instruction.
#[derive(Clone, Copy, Debug, PartialEq, Eq, Structural)]
pub enum ErrorCode {
    /// Custom error message.
    CustomError,
    /// Insufficient funds for vesting.
    InsufficientFundsToVest,
    /// The vesting type is neither cliff nor linear.
    InvalidVestingType,
    /// A counter left the range of its type.
    NumericalOverflow,
    /// The contract has fewer unassigned tokens than the beneficiary is to get.
    NoAvailableTokensToVest,
    /// The beneficiary has claimed everything already.
    TokensAlreadyClaimed,
    /// The schedule has not started.
    VestingNotStarted,
    /// The cliff period has not passed.
    CliffPeriodNotOver,
    /// All vested tokens are claimed.
    VestingContractFullyClaimed,
    /// The contract is not active.
    VestingNotActive,
    /// The schedule allows a single claim.
    ClaimMultipleNotAllowed,
    /// Nothing has vested since the last claim.
    NoTokensToClaim,
    /// The contract has been revoked already.
    VestingIsNotActive,
    /// The contract was opened as not revocable.
    VestingIsNotRevocable,
    /// The vault holds no tokens to return.
    VaultIsEmpty,
}

/// Why the accounts given to an instruction are not acceptable.
#[derive(Clone, Copy, Debug, PartialEq, Eq, Structural)]
pub enum AccountError {
    /// The creator is not the authority of the mint.
    MintAuthorityMismatch,
    /// The creator is not the one who opened the contract.
    CreatorMismatch,
    /// The company name is longer than a contract can store.
    CompanyNameTooLong,
}

/// Why an instruction was refused: by the check of its accounts, or by the program.
#[derive(Clone, Copy, Debug, PartialEq, Eq, Structural)]
pub enum Refusal {
    Accounts(AccountError),
    Program(ErrorCode),
}

/// The number under which an error of the program is reported: 6000 and the
/// position of the error in the list.
pub open spec fn spec_code(error: ErrorCode) -> u32 {
    match error {
        ErrorCode::CustomError => 6000,
        ErrorCode::InsufficientFundsToVest => 6001,
        ErrorCode::InvalidVestingType => 6002,
        ErrorCode::NumericalOverflow => 6003,
        ErrorCode::NoAvailableTokensToVest => 6004,
        ErrorCode::TokensAlreadyClaimed => 6005,
        ErrorCode::VestingNotStarted => 6006,
        ErrorCode::CliffPeriodNotOver => 6007,
        ErrorCode::VestingContractFullyClaimed => 6008,
        ErrorCode::VestingNotActive => 6009,
        ErrorCode::ClaimMultipleNotAllowed => 6010,
        ErrorCode::NoTokensToClaim => 6011,
        ErrorCode::VestingIsNotActive => 6012,
        ErrorCode::VestingIsNotRevocable => 6013,
        ErrorCode::VaultIsEmpty => 6014,
    }
}

impl ErrorCode {
    /// The number under which the error is reported.
    pub fn code(&self) -> (r: u32)
        ensures
            r == spec_code(*self),
    {
        match self {
            ErrorCode::CustomError => 6000,
            ErrorCode::InsufficientFundsToVest => 6001,
            ErrorCode::InvalidVestingType => 6002,
            ErrorCode::NumericalOverflow => 6003,
            ErrorCode::NoAvailableTokensToVest => 6004,
            ErrorCode::TokensAlreadyClaimed => 6005,
            ErrorCode::VestingNotStarted => 6006,
            ErrorCode::CliffPeriodNotOver => 6007,
            ErrorCode::VestingContractFullyClaimed => 6008,
            ErrorCode::VestingNotActive => 6009,
            ErrorCode::ClaimMultipleNotAllowed => 6010,
            ErrorCode::NoTokensToClaim => 6011,
            ErrorCode::VestingIsNotActive => 6012,
            ErrorCode::VestingIsNotRevocable => 6013,
            ErrorCode::VaultIsEmpty => 6014,
        }
    }
}

} // verus!
