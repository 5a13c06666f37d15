//! Token accounts as an instruction sees them, and the instructions that a program
//! hands to the token ledger.
//!
//! A program does not move tokens itself. It decides what is to move and returns that
//! decision as an [`Action`]; whoever runs the program performs the actions, in
//! order and all or none.

use vstd::prelude::*;
use crate::address::{seeds_view, Address};

verus! {

/// A token mint, as read when an instruction starts.
#[derive(Clone, Copy, Debug, PartialEq, Eq)]
pub struct Mint {
    /// The address of the mint.
    pub key: Address,
    /// Who may mint new tokens, if anyone.
    pub mint_authority: Option<Address>,
    /// Number of base-10 digits to the right of the decimal point.
    pub decimals: u8,
}

/// A token account, as read when an instruction starts.
#[derive(Clone, Copy, Debug, PartialEq, Eq)]
pub struct TokenAccount {
    /// The address of the account.
    pub key: Address,
    /// The mint whose tokens the account holds.
    pub mint: Address,
    /// Who may move the tokens.
    pub owner: Address,
    /// The balance, in the mint's smallest unit.
    pub amount: u64,
}

/// Moves `amount` tokens of `mint` from one token account to another, after the ledger
/// has checked the mint and its decimals.
#[derive(Clone, Debug, PartialEq, Eq)]
pub struct TransferChecked {
    pub from: Address,
    pub to: Address,
    pub mint: Address,
    pub authority: Address,
    pub amount: u64,
    pub decimals: u8,
    /// The seeds with which the program signs for `authority`; empty where the
    /// authority has signed the transaction itself.
    pub signer_seeds: Vec<Vec<u8>>,
}

/// Mints `amount` new tokens of `mint` into a token account.
#[derive(Clone, Copy, Debug, PartialEq, Eq)]
pub struct MintTo {
    pub mint: Address,
    pub to: Address,
    pub authority: Address,
    pub amount: u64,
}

/// Closes a token account and sends the lamports it held to `destination`.
#[derive(Clone, Debug, PartialEq, Eq)]
pub struct CloseAccount {
    pub account: Address,
    pub destination: Address,
    pub authority: Address,
    /// The seeds with which the program signs for `authority`; empty where the
    /// authority has signed the transaction itself.
    pub signer_seeds: Vec<Vec<u8>>,
}

/// Moves `amount` lamports from one account to another.
#[derive(Clone, Copy, Debug, PartialEq, Eq)]
pub struct Transfer {
    pub from: Address,
    pub to: Address,
    pub authority: Address,
    pub amount: u64,
}

/// Closes a record that the program owns and sends the lamports it held to
/// `destination`.
#[derive(Clone, Copy, Debug, PartialEq, Eq)]
pub struct CloseRecord {
    pub account: Address,
    pub destination: Address,
}

/// One step that a program asks the ledger to perform.
#[derive(Clone, Debug, PartialEq, Eq)]
pub enum Action {
    TransferChecked(TransferChecked),
    MintTo(MintTo),
    CloseAccount(CloseAccount),
    Transfer(Transfer),
    CloseRecord(CloseRecord),
}

/// A [`TransferChecked`] with its signer seeds as byte sequences.
pub struct TransferCheckedView {
    pub from: Address,
    pub to: Address,
    pub mint: Address,
    pub authority: Address,
    pub amount: u64,
    pub decimals: u8,
    pub signer_seeds: Seq<Seq<u8>>,
}

/// A [`CloseAccount`] with its signer seeds as byte sequences.
pub struct CloseAccountView {
    pub account: Address,
    pub destination: Address,
    pub authority: Address,
    pub signer_seeds: Seq<Seq<u8>>,
}

/// An [`Action`] with its signer seeds as byte sequences.
pub enum ActionView {
    TransferChecked(TransferCheckedView),
    MintTo(MintTo),
    CloseAccount(CloseAccountView),
    Transfer(Transfer),
    CloseRecord(CloseRecord),
}

impl View for TransferChecked {
    type V = TransferCheckedView;

    open spec fn view(&self) -> TransferCheckedView {
        TransferCheckedView {
            from: self.from,
            to: self.to,
            mint: self.mint,
            authority: self.authority,
            amount: self.amount,
            decimals: self.decimals,
            signer_seeds: seeds_view(self.signer_seeds@),
        }
    }
}

impl View for CloseAccount {
    type V = CloseAccountView;

    open spec fn view(&self) -> CloseAccountView {
        CloseAccountView {
            account: self.account,
            destination: self.destination,
            authority: self.authority,
            signer_seeds: seeds_view(self.signer_seeds@),
        }
    }
}

impl View for Action {
    type V = ActionView;

    open spec fn view(&self) -> ActionView {
        match *self {
            Action::TransferChecked(t) => ActionView::TransferChecked(t@),
            Action::MintTo(m) => ActionView::MintTo(m),
            Action::CloseAccount(c) => ActionView::CloseAccount(c@),
            Action::Transfer(t) => ActionView::Transfer(t),
            Action::CloseRecord(c) => ActionView::CloseRecord(c),
        }
    }
}

/// The actions that a list stands for, in order.
pub open spec fn actions_view(actions: Seq<Action>) -> Seq<ActionView> {
    actions.map_values(|a: Action| a@)
}

/// A list of actions with nothing in it.
pub fn no_actions() -> (r: Vec<Action>)
    ensures
        actions_view(r@) == Seq::<ActionView>::empty(),
{
    let r: Vec<Action> = Vec::new();
    assert(actions_view(r@) =~= Seq::<ActionView>::empty());
    r
}

/// Appends one action to a list of actions.
pub fn push_action(actions: &mut Vec<Action>, action: Action)
    ensures
        actions_view(final(actions)@) == actions_view(old(actions)@).push(action@),
{
    actions.push(action);
    assert(actions_view(actions@) =~= actions_view(old(actions)@).push(action@));
}

} // verus!
