//! The rules of a family of on-chain programs, as functions on plain values.
//!
//! A program on chain reads accounts, decides, and asks the ledger to move tokens.
//! This crate holds what is decided: the records of each program, the instructions
//! as functions from the accounts of an instruction to the new records and the
//! [`token::Action`]s to perform, and the seeds of the addresses that the programs
//! own. The programs are
//!
//! * [`vesting`]: a creator funds a vault and assigns its tokens to beneficiaries,
//!   who claim them on a cliff or a linear schedule, until the contract is claimed
//!   in full or revoked;
//! * [`escrow`]: a maker locks tokens of one mint and asks for as many of another,
//!   and a taker settles the offer or the maker withdraws it;
//! * [`marketplace`], [`nft_staking`] and [`vault`]: listings with a fee on each
//!   sale, the rules of staking, and a vault in the custody of a program.
//!
//! [`ledger`] is a model of what the ledger does with the actions. It exists in
//! proofs only: with it the modules `laws` state what the programs preserve.

pub mod account;
pub mod address;
pub mod escrow;
pub mod ledger;
pub mod marketplace;
pub mod nft_staking;
pub mod seeds;
pub mod token;
pub mod vault;
pub mod vesting;
