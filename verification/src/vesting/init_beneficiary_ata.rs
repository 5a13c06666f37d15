//! A beneficiary makes sure that they have a token account for the mint.
//!
//! The account itself is created by the ledger before the instruction runs; the
//! instruction has nothing left to decide.

use vstd::prelude::*;
use crate::address::Address;
use crate::token::{Mint, TokenAccount};
use crate::vesting::error::ErrorCode;

verus! {

/// The accounts of the creation of a beneficiary's token account.
#[derive(Clone, Copy, Debug, PartialEq, Eq)]
pub struct InitBeneficiaryAta {
    /// Whose token account it is; signs the transaction and pays for the account.
    pub beneficiary: Address,
    pub mint: Mint,
    pub beneficiary_ata: TokenAccount,
}

/// The accounts of the creation of a beneficiary's token account, where the account
/// may exist already.
#[derive(Clone, Copy, Debug, PartialEq, Eq)]
pub struct InitializeBeneficiaryATA {
    /// Whose token account it is; signs the transaction and pays for the account.
    pub beneficiary: Address,
    pub mint: Mint,
    pub beneficiary_ata: TokenAccount,
}

impl InitBeneficiaryAta {
    /// Accepts the new token account. Nothing changes, and the call never fails.
    pub fn init_beneficiary_ata(&mut self) -> (r: Result<(), ErrorCode>)
        ensures
            r is Ok,
            *final(self) == *old(self),
    {
        Ok(())
    }
}

impl InitializeBeneficiaryATA {
    /// Accepts the token account, new or not. Nothing changes, and the call never
    /// fails, so that it can be repeated.
    pub fn create_beneficiary_ata(&mut self) -> (r: Result<(), ErrorCode>)
        ensures
            r is Ok,
            *final(self) == *old(self),
    {
        Ok(())
    }
}

} // verus!
