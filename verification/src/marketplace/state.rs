//! The records of the marketplace program.

use vstd::prelude::*;
use crate::address::Address;

verus! {

/// A marketplace. There is one per name.
#[derive(Clone, Debug, PartialEq, Eq)]
pub struct Marketplace {
    pub admin: Address,
    /// The marketplace's share of every sale, in hundredths of a percent.
    pub fees: u16,
    pub bump: u8,
    pub treasury_bump: u8,
    pub rewards_bump: u8,
    pub name: String,
}

/// A token offered for sale on a marketplace. There is one per marketplace and mint.
#[derive(Clone, Copy, Debug, PartialEq, Eq)]
pub struct Listing {
    /// Who offers the token.
    pub maker: Address,
    /// The mint of the token offered.
    pub maker_mint: Address,
    /// The price, in lamports.
    pub price: u64,
    pub bump: u8,
}

} // verus!
