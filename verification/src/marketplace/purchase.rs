//! A taker buys a listed token.

use vstd::prelude::*;
use crate::account::Account;
use crate::address::Address;
use crate::marketplace::state::{Listing, Marketplace};
use crate::token::{
    CloseAccount, CloseAccountView, Mint, TokenAccount, Transfer, TransferChecked,
    TransferCheckedView,
};

verus! {

/// The accounts of a purchase.
#[derive(Clone, Debug, PartialEq, Eq)]
pub struct Purchase {
    /// Who buys; signs the transaction.
    pub taker: Address,
    /// Who listed the token.
    pub maker: Address,
    pub makerplace: Account<Marketplace>,
    pub maker_mint: Mint,
    /// The taker's token account for the token.
    pub taker_ata: TokenAccount,
    /// The taker's token account for rewards.
    pub taker_rewards_ata: TokenAccount,
    pub reward_mint: Mint,
    /// The listing's vault, which holds the token.
    pub vault: TokenAccount,
    pub listing: Account<Listing>,
    /// The marketplace's treasury, which collects the fees.
    pub treasury: Address,
    /// The mint of the collection that the token belongs to.
    pub colletion_mint: Mint,
}

/// The fee on a sale at `price`: `fees` hundredths of a percent of the price, rounded
/// down.
pub open spec fn spec_marketplace_fee(fees: u16, price: u64) -> int {
    (fees * price) / 10000
}

/// Whether a sale at `price` with the share `fees` can be paid out: the product of
/// the two fits in 64 bits, and the fee is not more than the price.
pub open spec fn fee_is_payable(fees: u16, price: u64) -> bool {
    &&& fees * price <= u64::MAX
    &&& spec_marketplace_fee(fees, price) <= price
}

/// Decides whether a sale at `price` with the share `fees` can be paid out.
pub fn check_fee(fees: u16, price: u64) -> (ok: bool)
    ensures
        ok == fee_is_payable(fees, price),
{
    match (fees as u64).checked_mul(price) {
        Some(product) => product / 10000 <= price,
        None => false,
    }
}

impl Purchase {
    /// The payment to the maker: the price less the fee, from the taker.
    pub open spec fn spec_pay_maker(&self) -> Transfer {
        Transfer {
            from: self.taker,
            to: self.maker,
            authority: self.taker,
            amount: (self.listing.data.price - spec_marketplace_fee(
                self.makerplace.data.fees,
                self.listing.data.price,
            )) as u64,
        }
    }

    /// The payment to the treasury: the fee, from the taker.
    pub open spec fn spec_pay_treasury(&self) -> Transfer {
        Transfer {
            from: self.taker,
            to: self.treasury,
            authority: self.taker,
            amount: spec_marketplace_fee(self.makerplace.data.fees, self.listing.data.price) as u64,
        }
    }

    /// The transfer that hands the token to the taker, on the maker's authority.
    pub open spec fn spec_send_nft(&self) -> TransferCheckedView {
        TransferCheckedView {
            from: self.vault.key,
            to: self.taker_ata.key,
            mint: self.maker_mint.key,
            authority: self.maker,
            amount: 1,
            decimals: self.maker_mint.decimals,
            signer_seeds: Seq::empty(),
        }
    }

    /// The closing of the vault in favour of the maker, on the maker's authority.
    pub open spec fn spec_close_vault(&self) -> CloseAccountView {
        CloseAccountView {
            account: self.vault.key,
            destination: self.maker,
            authority: self.maker,
            signer_seeds: Seq::empty(),
        }
    }

    /// Returns the two payments of the sale: the price less the fee to the maker,
    /// then the fee to the treasury. Together they are the price.
    pub fn send_sol(&mut self) -> (r: (Transfer, Transfer))
        requires
            fee_is_payable(old(self).makerplace.data.fees, old(self).listing.data.price),
        ensures
            r.0 == old(self).spec_pay_maker(),
            r.1 == old(self).spec_pay_treasury(),
            r.0.amount + r.1.amount == old(self).listing.data.price,
            *final(self) == *old(self),
    {
        let marketplace_fee = (self.makerplace.data.fees as u64) * self.listing.data.price / 10000;
        let amount = self.listing.data.price - marketplace_fee;
        (
            Transfer { from: self.taker, to: self.maker, authority: self.taker, amount },
            Transfer {
                from: self.taker,
                to: self.treasury,
                authority: self.taker,
                amount: marketplace_fee,
            },
        )
    }

    /// Returns what hands the token over: the transfer from the vault to the taker,
    /// then the closing of the vault.
    pub fn send_nft(&mut self) -> (r: (TransferChecked, CloseAccount))
        ensures
            r.0@ == old(self).spec_send_nft(),
            r.1@ == old(self).spec_close_vault(),
            *final(self) == *old(self),
    {
        let hand_over = TransferChecked {
            from: self.vault.key,
            to: self.taker_ata.key,
            mint: self.maker_mint.key,
            authority: self.maker,
            amount: 1,
            decimals: self.maker_mint.decimals,
            signer_seeds: Vec::new(),
        };
        let close = CloseAccount {
            account: self.vault.key,
            destination: self.maker,
            authority: self.maker,
            signer_seeds: Vec::new(),
        };
        assert(hand_over@.signer_seeds =~= Seq::<Seq<u8>>::empty());
        assert(close@.signer_seeds =~= Seq::<Seq<u8>>::empty());
        (hand_over, close)
    }
}

} // verus!
