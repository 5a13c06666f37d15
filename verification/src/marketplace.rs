//! The marketplace program: makers list tokens for sale at a price in lamports,
//! takers buy them, and the marketplace's treasury collects a fee on every sale.

pub mod list;
pub mod purchase;
pub mod state;

use vstd::prelude::*;
use crate::marketplace::list::{List, ListBumps};
use crate::marketplace::purchase::{fee_is_payable, check_fee, Purchase};
use crate::token::{actions_view, no_actions, push_action, Action, ActionView};

verus! {

/// The actions of the withdrawal of a listing, in order.
pub open spec fn spec_delist_nft(accounts: List) -> Seq<ActionView> {
    seq![
        ActionView::TransferChecked(accounts.spec_withdraw_nft()),
        ActionView::CloseAccount(accounts.spec_close_vault()),
    ]
}

/// The actions of a purchase, in order: the two payments, the handing over of the
/// token, the closing of the vault.
pub open spec fn spec_purchase_nft(accounts: Purchase) -> Seq<ActionView> {
    seq![
        ActionView::Transfer(accounts.spec_pay_maker()),
        ActionView::Transfer(accounts.spec_pay_treasury()),
        ActionView::TransferChecked(accounts.spec_send_nft()),
        ActionView::CloseAccount(accounts.spec_close_vault()),
    ]
}

/// Lists a token at `nft_price`: writes the record of the listing. There is nothing
/// for the ledger to do.
pub fn list_nft(accounts: &mut List, nft_price: u64, bumps: &ListBumps) -> (r: Vec<Action>)
    ensures
        actions_view(r@) == Seq::<ActionView>::empty(),
        *final(accounts) == old(accounts).spec_with(old(accounts).spec_listing(nft_price, *bumps)),
{
    accounts.create_listing(nft_price, bumps);
    no_actions()
}

/// Takes a listed token back: returns the transfer to the maker and the closing of
/// the vault.
pub fn delist_nft(accounts: &mut List) -> (r: Vec<Action>)
    ensures
        actions_view(r@) == spec_delist_nft(*old(accounts)),
        *final(accounts) == *old(accounts),
{
    let (give_back, close) = accounts.delist_nft();
    let mut actions = no_actions();
    push_action(&mut actions, Action::TransferChecked(give_back));
    push_action(&mut actions, Action::CloseAccount(close));
    actions
}

/// Buys a listed token: returns the payments, the handing over of the token and
/// the closing of the vault, or `None` where the fee cannot be paid out of the
/// price.
pub fn purchase_nft(accounts: &mut Purchase) -> (r: Option<Vec<Action>>)
    ensures
        *final(accounts) == *old(accounts),
        r is Some <==> fee_is_payable(
            old(accounts).makerplace.data.fees,
            old(accounts).listing.data.price,
        ),
        r is Some ==> actions_view(r->Some_0@) == spec_purchase_nft(*old(accounts)),
{
    if !check_fee(accounts.makerplace.data.fees, accounts.listing.data.price) {
        return None;
    }
    let (to_maker, to_treasury) = accounts.send_sol();
    let (hand_over, close) = accounts.send_nft();
    let mut actions = no_actions();
    push_action(&mut actions, Action::Transfer(to_maker));
    push_action(&mut actions, Action::Transfer(to_treasury));
    push_action(&mut actions, Action::TransferChecked(hand_over));
    push_action(&mut actions, Action::CloseAccount(close));
    Some(actions)
}

} // verus!
