//! A maker opens an offer and funds its vault.

use vstd::prelude::*;
use crate::account::Account;
use crate::address::Address;
use crate::escrow::state::Escrow;
use crate::token::{Mint, TokenAccount, TransferChecked, TransferCheckedView};

verus! {

/// The accounts of the opening of an offer.
#[derive(Clone, Copy, Debug, PartialEq, Eq)]
pub struct Make {
    /// Who offers; signs the transaction.
    pub maker: Address,
    pub mint_a: Mint,
    pub mint_b: Mint,
    /// The maker's token account for A, which pays into the vault.
    pub maker_ata_a: TokenAccount,
    /// The maker's token account for B.
    pub maker_ata_b: TokenAccount,
    /// The record of the new offer.
    pub escrow: Account<Escrow>,
    /// The offer's vault.
    pub vault: TokenAccount,
}

/// The bump seed of the address that the opening of an offer derives.
#[derive(Clone, Copy, Debug, PartialEq, Eq)]
pub struct MakeBumps {
    pub escrow: u8,
}

impl Make {
    /// The record of an offer that was just opened.
    pub open spec fn spec_offer(&self, seed: u64, receive: u64, bump: MakeBumps) -> Escrow {
        Escrow {
            seed,
            maker: self.maker,
            mint_a: self.mint_a.key,
            mint_b: self.mint_b.key,
            receive,
            bump: bump.escrow,
        }
    }

    /// The accounts with the offer replaced by `escrow`.
    pub open spec fn spec_with(&self, escrow: Escrow) -> Make {
        Make { escrow: Account { key: self.escrow.key, data: escrow }, ..*self }
    }

    /// The transfer that funds the vault with `amount` tokens of A from the maker's
    /// token account, signed by the maker.
    pub open spec fn spec_deposit(&self, amount: u64) -> TransferCheckedView {
        TransferCheckedView {
            from: self.maker_ata_a.key,
            to: self.vault.key,
            mint: self.mint_a.key,
            authority: self.maker,
            amount,
            decimals: self.mint_a.decimals,
            signer_seeds: Seq::empty(),
        }
    }

    /// Writes the record of the offer: `receive` tokens of B asked for the same
    /// number of tokens of A.
    pub fn make_offer(&mut self, seed: u64, receive: u64, bump: &MakeBumps)
        ensures
            *final(self) == old(self).spec_with(old(self).spec_offer(seed, receive, *bump)),
    {
        self.escrow.data = Escrow {
            seed,
            maker: self.maker,
            mint_a: self.mint_a.key,
            mint_b: self.mint_b.key,
            receive,
            bump: bump.escrow,
        };
    }

    /// Returns the transfer that funds the vault with `deposit_amount` tokens of A.
    pub fn deposit(&mut self, deposit_amount: u64) -> (r: TransferChecked)
        ensures
            r@ == old(self).spec_deposit(deposit_amount),
            *final(self) == *old(self),
    {
        let r = TransferChecked {
            from: self.maker_ata_a.key,
            to: self.vault.key,
            mint: self.mint_a.key,
            authority: self.maker,
            amount: deposit_amount,
            decimals: self.mint_a.decimals,
            signer_seeds: Vec::new(),
        };
        assert(r@.signer_seeds =~= Seq::<Seq<u8>>::empty());
        r
    }
}

} // verus!
