//! The record of the escrow program.

use vstd::prelude::*;
use crate::address::Address;

verus! {

/// An offer to swap tokens of mint A for the same number of tokens of mint B. There
/// is one per maker and seed; it owns the vault that holds the maker's tokens of A.
#[derive(Clone, Copy, Debug, PartialEq, Eq)]
pub struct Escrow {
    /// Tells the maker's offers apart; part of the record's address.
    pub seed: u64,
    pub maker: Address,
    pub mint_a: Address,
    pub mint_b: Address,
    /// The number of tokens of B that the maker asks for, which is also the number of
    /// tokens of A that the maker has put into the vault.
    pub receive: u64,
    pub bump: u8,
}

/// Why the accounts given to an instruction are not acceptable.
#[derive(Clone, Copy, Debug, PartialEq, Eq, Structural)]
pub enum AccountError {
    /// The maker who signed is not the maker that the offer names.
    MakerMismatch,
}

} // verus!
