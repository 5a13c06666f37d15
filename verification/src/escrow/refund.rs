//! A maker withdraws an offer.

use vstd::prelude::*;
use crate::account::Account;
use crate::address::Address;
use crate::escrow::state::{AccountError, Escrow};
use crate::seeds::{escrow_seeds, spec_escrow_seeds, spec_with_bump, with_bump};
use crate::token::{
    CloseAccount, CloseAccountView, Mint, TokenAccount, TransferChecked, TransferCheckedView,
};

verus! {

/// The accounts of a withdrawal.
#[derive(Clone, Copy, Debug, PartialEq, Eq)]
pub struct Refund {
    /// Who made the offer; signs the transaction.
    pub maker: Address,
    pub mint_a: Mint,
    pub mint_b: Mint,
    /// The maker's token account for A, which receives from the vault.
    pub maker_ata_a: TokenAccount,
    pub escrow: Account<Escrow>,
    /// The offer's vault.
    pub vault: TokenAccount,
}

impl Refund {
    /// What the check of the accounts finds: the maker who signed must be the maker
    /// that the offer names.
    pub open spec fn spec_validate(&self) -> Result<(), AccountError> {
        if self.escrow.data.maker == self.maker {
            Ok(())
        } else {
            Err(AccountError::MakerMismatch)
        }
    }

    /// Checks the accounts.
    pub fn validate(&self) -> (r: Result<(), AccountError>)
        ensures
            r == self.spec_validate(),
    {
        if self.escrow.data.maker == self.maker {
            Ok(())
        } else {
            Err(AccountError::MakerMismatch)
        }
    }

    /// The transfer that returns the vault's balance to the maker's token account,
    /// signed for the offer with the seeds of the maker who signed.
    pub open spec fn spec_refund(&self) -> TransferCheckedView {
        TransferCheckedView {
            from: self.vault.key,
            to: self.maker_ata_a.key,
            mint: self.mint_a.key,
            authority: self.escrow.key,
            amount: self.vault.amount,
            decimals: self.mint_a.decimals,
            signer_seeds: spec_with_bump(
                spec_escrow_seeds(self.maker, self.escrow.data.seed),
                self.escrow.data.bump,
            ),
        }
    }

    /// The closing of the vault in favour of the maker, signed for the offer with
    /// the seeds of the maker that the offer names.
    pub open spec fn spec_close(&self) -> CloseAccountView {
        CloseAccountView {
            account: self.vault.key,
            destination: self.maker,
            authority: self.escrow.key,
            signer_seeds: spec_with_bump(
                spec_escrow_seeds(self.escrow.data.maker, self.escrow.data.seed),
                self.escrow.data.bump,
            ),
        }
    }

    /// Returns the transfer that gives the vault's balance back to the maker.
    pub fn refund(&mut self) -> (r: TransferChecked)
        ensures
            r@ == old(self).spec_refund(),
            *final(self) == *old(self),
    {
        TransferChecked {
            from: self.vault.key,
            to: self.maker_ata_a.key,
            mint: self.mint_a.key,
            authority: self.escrow.key,
            amount: self.vault.amount,
            decimals: self.mint_a.decimals,
            signer_seeds: with_bump(
                escrow_seeds(&self.maker, self.escrow.data.seed),
                self.escrow.data.bump,
            ),
        }
    }

    /// Returns the instruction that closes the vault in favour of the maker.
    pub fn close(&mut self) -> (r: CloseAccount)
        ensures
            r@ == old(self).spec_close(),
            *final(self) == *old(self),
    {
        CloseAccount {
            account: self.vault.key,
            destination: self.maker,
            authority: self.escrow.key,
            signer_seeds: with_bump(
                escrow_seeds(&self.escrow.data.maker, self.escrow.data.seed),
                self.escrow.data.bump,
            ),
        }
    }
}

} // verus!
