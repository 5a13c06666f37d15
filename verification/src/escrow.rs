//! The escrow program: a maker locks tokens of one mint in a vault and asks for the
//! same number of tokens of another; a taker settles the offer, or the maker
//! withdraws it.

pub mod laws;
pub mod make;
pub mod refund;
pub mod state;
pub mod take;

use vstd::prelude::*;
use crate::escrow::make::{Make, MakeBumps};
use crate::escrow::refund::Refund;
use crate::escrow::take::Take;
use crate::escrow::state::AccountError;
use crate::token::{actions_view, no_actions, push_action, Action, ActionView, CloseRecord};

verus! {

/// The actions of the opening of an offer: the funding of the vault.
pub open spec fn spec_make(accounts: Make, receive_amount: u64) -> Seq<ActionView> {
    seq![ActionView::TransferChecked(accounts.spec_deposit(receive_amount))]
}

/// The actions of a settlement, in order: the taker pays the maker, the vault pays
/// the taker, the vault is closed, the offer's record is closed; both in favour of
/// the maker.
pub open spec fn spec_take(accounts: Take) -> Seq<ActionView> {
    seq![
        ActionView::TransferChecked(accounts.spec_deposit()),
        ActionView::TransferChecked(accounts.spec_release()),
        ActionView::CloseAccount(accounts.spec_close()),
        ActionView::CloseRecord(
            CloseRecord { account: accounts.escrow.key, destination: accounts.maker },
        ),
    ]
}

/// The actions of a withdrawal, in order: the vault pays the maker back, the vault
/// is closed, the offer's record is closed; both in favour of the maker.
pub open spec fn spec_refund(accounts: Refund) -> Seq<ActionView> {
    seq![
        ActionView::TransferChecked(accounts.spec_refund()),
        ActionView::CloseAccount(accounts.spec_close()),
        ActionView::CloseRecord(
            CloseRecord { account: accounts.escrow.key, destination: accounts.maker },
        ),
    ]
}

/// Opens an offer: writes its record and returns the funding of the vault with as
/// many tokens of A as the maker asks for in tokens of B.
pub fn make(accounts: &mut Make, seed: u64, receive_amount: u64, bumps: &MakeBumps) -> (r: Vec<
    Action,
>)
    ensures
        *final(accounts) == old(accounts).spec_with(
            old(accounts).spec_offer(seed, receive_amount, *bumps),
        ),
        actions_view(r@) == spec_make(*old(accounts), receive_amount),
{
    accounts.make_offer(seed, receive_amount, bumps);
    let deposit = accounts.deposit(receive_amount);
    let mut actions: Vec<Action> = Vec::new();
    actions.push(Action::TransferChecked(deposit));
    assert(actions_view(actions@) =~= spec_make(*old(accounts), receive_amount));
    actions
}

/// Withdraws an offer, if the maker who signed is the maker that the offer names:
/// returns what gives the vault's balance back to the maker and closes the vault and
/// the offer.
pub fn refund(accounts: &mut Refund) -> (r: Result<Vec<Action>, AccountError>)
    ensures
        *final(accounts) == *old(accounts),
        match old(accounts).spec_validate() {
            Err(e) => r is Err && r->Err_0 == e,
            Ok(_) => r is Ok && actions_view(r->Ok_0@) == spec_refund(*old(accounts)),
        },
{
    match accounts.validate() {
        Ok(()) => {},
        Err(e) => {
            return Err(e);
        },
    }
    let give_back = accounts.refund();
    let close = accounts.close();
    let mut actions = no_actions();
    push_action(&mut actions, Action::TransferChecked(give_back));
    push_action(&mut actions, Action::CloseAccount(close));
    push_action(
        &mut actions,
        Action::CloseRecord(CloseRecord { account: accounts.escrow.key, destination: accounts.maker }),
    );
    Ok(actions)
}

/// Settles an offer: returns what pays both sides and closes the vault and the
/// offer. The actions are one transaction: the ledger performs all of them or none.
pub fn take(accounts: &mut Take) -> (r: Vec<Action>)
    ensures
        *final(accounts) == *old(accounts),
        actions_view(r@) == spec_take(*old(accounts)),
{
    let deposit = accounts.deposit();
    let release = accounts.release();
    let close = accounts.close();
    let mut actions: Vec<Action> = Vec::new();
    actions.push(Action::TransferChecked(deposit));
    actions.push(Action::TransferChecked(release));
    actions.push(Action::CloseAccount(close));
    actions.push(
        Action::CloseRecord(CloseRecord { account: accounts.escrow.key, destination: accounts.maker }),
    );
    assert(actions_view(actions@) =~= spec_take(*old(accounts)));
    actions
}

} // verus!
