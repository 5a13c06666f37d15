//! A maker lists a token for sale, or takes it back.

use vstd::prelude::*;
use crate::account::Account;
use crate::address::Address;
use crate::marketplace::state::{Listing, Marketplace};
use crate::seeds::{listing_seeds, spec_listing_seeds, spec_with_bump, with_bump};
use crate::token::{
    CloseAccount, CloseAccountView, Mint, TokenAccount, TransferChecked, TransferCheckedView,
};

verus! {

/// The accounts of a listing and of its withdrawal.
#[derive(Clone, Debug, PartialEq, Eq)]
pub struct List {
    /// Who lists the token; signs the transaction.
    pub maker: Address,
    pub marketplace: Account<Marketplace>,
    pub maker_mint: Mint,
    /// The maker's token account for the token.
    pub maker_ata: TokenAccount,
    /// The listing's vault, which holds the token while it is listed.
    pub vault: TokenAccount,
    pub listing: Account<Listing>,
    /// The mint of the collection that the token belongs to.
    pub colletion_mint: Mint,
}

/// The bump seed of the address that a listing derives.
#[derive(Clone, Copy, Debug, PartialEq, Eq)]
pub struct ListBumps {
    pub listing: u8,
}

impl List {
    /// The record of a listing at `price`.
    pub open spec fn spec_listing(&self, price: u64, bumps: ListBumps) -> Listing {
        Listing { maker: self.maker, maker_mint: self.maker_mint.key, price, bump: bumps.listing }
    }

    /// The accounts with the listing replaced by `listing`.
    pub open spec fn spec_with(&self, listing: Listing) -> List {
        List { listing: Account { key: self.listing.key, data: listing }, ..*self }
    }

    /// The transfer that puts the token into the vault, signed by the maker.
    pub open spec fn spec_deposit_nft(&self) -> TransferCheckedView {
        TransferCheckedView {
            from: self.maker_ata.key,
            to: self.vault.key,
            mint: self.maker_mint.key,
            authority: self.maker,
            amount: 1,
            decimals: self.maker_mint.decimals,
            signer_seeds: Seq::empty(),
        }
    }

    /// The transfer that gives the token back to the maker, on the vault's
    /// authority and signed with the seeds of the listing.
    pub open spec fn spec_withdraw_nft(&self) -> TransferCheckedView {
        TransferCheckedView {
            from: self.vault.key,
            to: self.maker_ata.key,
            mint: self.maker_mint.key,
            authority: self.vault.key,
            amount: 1,
            decimals: self.maker_mint.decimals,
            signer_seeds: spec_with_bump(
                spec_listing_seeds(self.marketplace.key, self.maker_mint.key),
                self.listing.data.bump,
            ),
        }
    }

    /// The closing of the vault in favour of the maker, on the maker's authority.
    pub open spec fn spec_close_vault(&self) -> CloseAccountView {
        CloseAccountView {
            account: self.vault.key,
            destination: self.maker,
            authority: self.maker,
            signer_seeds: Seq::empty(),
        }
    }

    /// Writes the record of the listing at `price`.
    pub fn create_listing(&mut self, price: u64, bumps: &ListBumps)
        ensures
            *final(self) == old(self).spec_with(old(self).spec_listing(price, *bumps)),
    {
        self.listing.data = Listing {
            maker: self.maker,
            maker_mint: self.maker_mint.key,
            price,
            bump: bumps.listing,
        };
    }

    /// Returns the transfer that puts the token into the vault.
    pub fn deposit_nft(&mut self) -> (r: TransferChecked)
        ensures
            r@ == old(self).spec_deposit_nft(),
            *final(self) == *old(self),
    {
        let r = TransferChecked {
            from: self.maker_ata.key,
            to: self.vault.key,
            mint: self.maker_mint.key,
            authority: self.maker,
            amount: 1,
            decimals: self.maker_mint.decimals,
            signer_seeds: Vec::new(),
        };
        assert(r@.signer_seeds =~= Seq::<Seq<u8>>::empty());
        r
    }

    /// Returns what takes the token back: the transfer from the vault to the maker,
    /// then the closing of the vault.
    pub fn delist_nft(&mut self) -> (r: (TransferChecked, CloseAccount))
        ensures
            r.0@ == old(self).spec_withdraw_nft(),
            r.1@ == old(self).spec_close_vault(),
            *final(self) == *old(self),
    {
        let give_back = TransferChecked {
            from: self.vault.key,
            to: self.maker_ata.key,
            mint: self.maker_mint.key,
            authority: self.vault.key,
            amount: 1,
            decimals: self.maker_mint.decimals,
            signer_seeds: with_bump(
                listing_seeds(&self.marketplace.key, &self.maker_mint.key),
                self.listing.data.bump,
            ),
        };
        let close = CloseAccount {
            account: self.vault.key,
            destination: self.maker,
            authority: self.maker,
            signer_seeds: Vec::new(),
        };
        assert(close@.signer_seeds =~= Seq::<Seq<u8>>::empty());
        (give_back, close)
    }
}

} // verus!
