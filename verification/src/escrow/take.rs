//! A taker settles an offer.

use vstd::prelude::*;
use crate::account::Account;
use crate::address::Address;
use crate::escrow::state::Escrow;
use crate::seeds::{escrow_seeds, spec_escrow_seeds, spec_with_bump, with_bump};
use crate::token::{
    CloseAccount, CloseAccountView, Mint, TokenAccount, TransferChecked, TransferCheckedView,
};

verus! {

/// The accounts of a settlement.
#[derive(Clone, Copy, Debug, PartialEq, Eq)]
pub struct Take {
    /// Who accepts the offer; signs the transaction.
    pub taker: Address,
    pub maker: Address,
    pub mint_a: Mint,
    pub mint_b: Mint,
    /// The taker's token account for A, which receives from the vault.
    pub taker_ata_a: TokenAccount,
    /// The taker's token account for B, which pays the maker.
    pub taker_ata_b: TokenAccount,
    /// The maker's token account for B, which receives from the taker.
    pub maker_ata_b: TokenAccount,
    pub escrow: Account<Escrow>,
    /// The offer's vault.
    pub vault: TokenAccount,
}

impl Take {
    /// The seeds with which the program signs for the offer.
    pub open spec fn spec_signer_seeds(&self) -> Seq<Seq<u8>> {
        spec_with_bump(spec_escrow_seeds(self.maker, self.escrow.data.seed), self.escrow.data.bump)
    }

    /// The transfer that pays the maker: the amount asked for, in tokens of B, from
    /// the taker's token account, signed by the taker.
    pub open spec fn spec_deposit(&self) -> TransferCheckedView {
        TransferCheckedView {
            from: self.taker_ata_b.key,
            to: self.maker_ata_b.key,
            mint: self.mint_b.key,
            authority: self.taker,
            amount: self.escrow.data.receive,
            decimals: self.mint_b.decimals,
            signer_seeds: Seq::empty(),
        }
    }

    /// The transfer that pays the taker: the same amount, in tokens of A, from the
    /// vault, signed for the offer.
    pub open spec fn spec_release(&self) -> TransferCheckedView {
        TransferCheckedView {
            from: self.vault.key,
            to: self.taker_ata_a.key,
            mint: self.mint_a.key,
            authority: self.escrow.key,
            amount: self.escrow.data.receive,
            decimals: self.mint_a.decimals,
            signer_seeds: self.spec_signer_seeds(),
        }
    }

    /// The closing of the vault in favour of the maker, signed for the offer.
    pub open spec fn spec_close(&self) -> CloseAccountView {
        CloseAccountView {
            account: self.vault.key,
            destination: self.maker,
            authority: self.escrow.key,
            signer_seeds: self.spec_signer_seeds(),
        }
    }

    fn signer_seeds(&self) -> (r: Vec<Vec<u8>>)
        ensures
            crate::address::seeds_view(r@) == self.spec_signer_seeds(),
    {
        with_bump(escrow_seeds(&self.maker, self.escrow.data.seed), self.escrow.data.bump)
    }

    /// Returns the transfer that pays the maker in tokens of B.
    pub fn deposit(&mut self) -> (r: TransferChecked)
        ensures
            r@ == old(self).spec_deposit(),
            *final(self) == *old(self),
    {
        let r = TransferChecked {
            from: self.taker_ata_b.key,
            to: self.maker_ata_b.key,
            mint: self.mint_b.key,
            authority: self.taker,
            amount: self.escrow.data.receive,
            decimals: self.mint_b.decimals,
            signer_seeds: Vec::new(),
        };
        assert(r@.signer_seeds =~= Seq::<Seq<u8>>::empty());
        r
    }

    /// Returns the transfer that pays the taker in tokens of A from the vault.
    pub fn release(&mut self) -> (r: TransferChecked)
        ensures
            r@ == old(self).spec_release(),
            *final(self) == *old(self),
    {
        TransferChecked {
            from: self.vault.key,
            to: self.taker_ata_a.key,
            mint: self.mint_a.key,
            authority: self.escrow.key,
            amount: self.escrow.data.receive,
            decimals: self.mint_a.decimals,
            signer_seeds: self.signer_seeds(),
        }
    }

    /// Returns the instruction that closes the vault in favour of the maker.
    pub fn close(&mut self) -> (r: CloseAccount)
        ensures
            r@ == old(self).spec_close(),
            *final(self) == *old(self),
    {
        CloseAccount {
            account: self.vault.key,
            destination: self.maker,
            authority: self.escrow.key,
            signer_seeds: self.signer_seeds(),
        }
    }
}

} // verus!
