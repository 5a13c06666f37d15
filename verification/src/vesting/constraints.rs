//! What must hold of the accounts of an instruction before the program acts on them.

use vstd::prelude::*;
use crate::address::Address;
use crate::token::Mint;
use crate::vesting::error::AccountError;

verus! {

/// Whether `creator` is the authority of the mint.
pub open spec fn spec_is_mint_authority(mint: Mint, creator: Address) -> bool {
    mint.mint_authority == Some(creator)
}

/// Decides whether `creator` is the authority of the mint.
pub fn is_mint_authority(mint: &Mint, creator: &Address) -> (ok: bool)
    ensures
        ok == spec_is_mint_authority(*mint, *creator),
{
    match mint.mint_authority {
        Some(authority) => authority == *creator,
        None => false,
    }
}

/// What the check of the creator's accounts finds: the creator must be the authority
/// of the mint, and must be the one who opened the contract.
pub open spec fn spec_check_creator(
    mint: Mint,
    contract_creator: Address,
    creator: Address,
) -> Result<(), AccountError> {
    if !spec_is_mint_authority(mint, creator) {
        Err(AccountError::MintAuthorityMismatch)
    } else if contract_creator != creator {
        Err(AccountError::CreatorMismatch)
    } else {
        Ok(())
    }
}

/// Checks the creator's accounts.
pub fn check_creator(mint: &Mint, contract_creator: &Address, creator: &Address) -> (r: Result<
    (),
    AccountError,
>)
    ensures
        r == spec_check_creator(*mint, *contract_creator, *creator),
{
    if !is_mint_authority(mint, creator) {
        Err(AccountError::MintAuthorityMismatch)
    } else if *contract_creator != *creator {
        Err(AccountError::CreatorMismatch)
    } else {
        Ok(())
    }
}

} // verus!
