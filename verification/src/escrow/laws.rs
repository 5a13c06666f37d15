//! What the escrow program does to the ledger.
//!
//! Each instruction returns its actions as one transaction. The laws below follow a
//! ledger through the opening of an offer and through its settlement or withdrawal.

use vstd::prelude::*;
use crate::account::Account;
use crate::address::{derives_with_bump, spec_signs_for, Address};
use crate::seeds::spec_escrow_seeds;
use crate::escrow::make::{Make, MakeBumps};
use crate::escrow::refund::Refund;
use crate::escrow::take::Take;
use crate::escrow::{spec_make, spec_refund, spec_take};
use crate::ledger::{
    lemma_apply_four, lemma_apply_one, lemma_apply_three, lemma_close_account_removes,
    lemma_close_record_removes, lemma_transfer_moves_amount, Ledger,
};
use crate::token::{ActionView, CloseRecord};

verus! {

/// Whether the four token accounts of a settlement are four different accounts, and
/// the vault is not the offer's record.
pub open spec fn take_accounts_differ(t: Take) -> bool {
    &&& t.vault.key != t.escrow.key
    &&& t.taker_ata_a.key != t.taker_ata_b.key
    &&& t.taker_ata_a.key != t.maker_ata_b.key
    &&& t.taker_ata_a.key != t.vault.key
    &&& t.taker_ata_b.key != t.maker_ata_b.key
    &&& t.taker_ata_b.key != t.vault.key
    &&& t.maker_ata_b.key != t.vault.key
}

/// Whether `after` is `before` with the settlement `t` performed: the taker has paid
/// the maker in tokens of B, the vault has paid the taker all it held in tokens of A,
/// vault and offer are closed in favour of the maker, and no other token account has
/// changed.
pub open spec fn settled(before: Ledger, after: Ledger, t: Take) -> bool {
    let amount = t.escrow.data.receive;
    &&& before.balance(t.taker_ata_b.key) >= amount
    &&& after.balance(t.taker_ata_b.key) == before.balance(t.taker_ata_b.key) - amount
    &&& after.balance(t.maker_ata_b.key) == before.balance(t.maker_ata_b.key) + amount
    &&& after.balance(t.taker_ata_a.key) == before.balance(t.taker_ata_a.key) + amount
    &&& before.balance(t.vault.key) == amount
    &&& after.tokens.dom() == before.tokens.dom().remove(t.vault.key)
    &&& after.records == before.records.remove(t.escrow.key)
    &&& before.records.contains(t.escrow.key)
    &&& after.lamports_of(t.maker) == before.lamports_of(t.maker) + before.lamports_of(
        t.vault.key,
    ) + before.lamports_of(t.escrow.key)
    &&& after.lamports_of(t.vault.key) == 0
    &&& after.lamports_of(t.escrow.key) == 0
    &&& after.mints == before.mints
    &&& forall|a: Address|
        a != t.taker_ata_a.key && a != t.taker_ata_b.key && a != t.maker_ata_b.key && a
            != t.vault.key ==> #[trigger] after.tokens[a] == before.tokens[a]
}

/// A settlement is all or nothing. The program itself changes no record, and of its
/// actions the ledger performs either none, and nothing changes, or all four, and
/// then both payments are made and vault and offer are closed.
pub proof fn lemma_take_is_atomic(ledger: Ledger, t: Take)
    requires
        take_accounts_differ(t),
    ensures
        ledger.apply_all(spec_take(t)) is None ==> ledger.commit(spec_take(t)) == ledger,
        ledger.apply_all(spec_take(t)) is Some ==> settled(ledger, ledger.commit(spec_take(t)), t),
{
    let a = ActionView::TransferChecked(t.spec_deposit());
    let b = ActionView::TransferChecked(t.spec_release());
    let c = ActionView::CloseAccount(t.spec_close());
    let d = ActionView::CloseRecord(CloseRecord { account: t.escrow.key, destination: t.maker });
    assert(spec_take(t) =~= seq![a, b, c, d]);
    lemma_apply_four(ledger, a, b, c, d);
    if ledger.apply_all(spec_take(t)) is Some {
        let l1 = ledger.transfer_checked(t.spec_deposit())->Some_0;
        lemma_transfer_moves_amount(ledger, t.spec_deposit());
        let l2 = l1.transfer_checked(t.spec_release())->Some_0;
        lemma_transfer_moves_amount(l1, t.spec_release());
        let l3 = l2.close_account(t.spec_close())->Some_0;
        lemma_close_account_removes(l2, t.spec_close());
        let l4 = l3.close_record(CloseRecord { account: t.escrow.key, destination: t.maker })->Some_0;
        lemma_close_record_removes(
            l3,
            CloseRecord { account: t.escrow.key, destination: t.maker },
        );
        assert(l4 == ledger.commit(spec_take(t)));
        assert(l4.tokens.dom() =~= ledger.tokens.dom().remove(t.vault.key));
    }
}

/// Whether the accounts of a settlement are those of the offer that `m` opened with
/// `seed`, `amount` and `bumps`.
pub open spec fn take_follows_make(m: Make, seed: u64, amount: u64, bumps: MakeBumps, t: Take) -> bool {
    &&& t.escrow == (Account { key: m.escrow.key, data: m.spec_offer(seed, amount, bumps) })
    &&& t.vault.key == m.vault.key
    &&& t.maker == m.maker
    &&& t.mint_a == m.mint_a
    &&& t.mint_b == m.mint_b
}

/// Whether the accounts of a withdrawal are those of the offer that `m` opened with
/// `seed`, `amount` and `bumps`, as the ledger `ledger` holds them.
pub open spec fn refund_follows_make(
    m: Make,
    seed: u64,
    amount: u64,
    bumps: MakeBumps,
    r: Refund,
    ledger: Ledger,
) -> bool {
    &&& r.escrow == (Account { key: m.escrow.key, data: m.spec_offer(seed, amount, bumps) })
    &&& r.vault.key == m.vault.key
    &&& r.maker_ata_a.key == m.maker_ata_a.key
    &&& r.maker == m.maker
    &&& r.mint_a == m.mint_a
    &&& ledger.holds(r.vault)
}

/// An offer that is opened on a new, empty vault and then withdrawn leaves the
/// maker's balance of A as it was, and vault and offer closed.
pub proof fn lemma_make_then_refund(
    ledger: Ledger,
    m: Make,
    seed: u64,
    amount: u64,
    bumps: MakeBumps,
    r: Refund,
)
    requires
        m.maker_ata_a.key != m.vault.key,
        ledger.balance(m.vault.key) == 0,
        ledger.apply_all(spec_make(m, amount)) is Some,
        refund_follows_make(m, seed, amount, bumps, r, ledger.commit(spec_make(m, amount))),
        ledger.commit(spec_make(m, amount)).apply_all(spec_refund(r)) is Some,
    ensures
        ({
            let after = ledger.commit(spec_make(m, amount)).commit(spec_refund(r));
            &&& after.balance(m.maker_ata_a.key) == ledger.balance(m.maker_ata_a.key)
            &&& !after.tokens.dom().contains(m.vault.key)
            &&& !after.records.contains(m.escrow.key)
        }),
{
    let deposit = m.spec_deposit(amount);
    lemma_apply_one(ledger, ActionView::TransferChecked(deposit));
    assert(spec_make(m, amount) =~= seq![ActionView::TransferChecked(deposit)]);
    let l1 = ledger.commit(spec_make(m, amount));
    lemma_transfer_moves_amount(ledger, deposit);

    let a = ActionView::TransferChecked(r.spec_refund());
    let b = ActionView::CloseAccount(r.spec_close());
    let c = ActionView::CloseRecord(CloseRecord { account: r.escrow.key, destination: r.maker });
    assert(spec_refund(r) =~= seq![a, b, c]);
    lemma_apply_three(l1, a, b, c);
    let l2 = l1.transfer_checked(r.spec_refund())->Some_0;
    lemma_transfer_moves_amount(l1, r.spec_refund());
    let l3 = l2.close_account(r.spec_close())->Some_0;
    lemma_close_account_removes(l2, r.spec_close());
    let l4 = l3.close_record(CloseRecord { account: r.escrow.key, destination: r.maker })->Some_0;
    lemma_close_record_removes(l3, CloseRecord { account: r.escrow.key, destination: r.maker });
    assert(l4 == l1.commit(spec_refund(r)));
}

/// An offer of `amount` that is opened and then settled moves exactly `amount`
/// tokens of A from the maker to the taker and exactly `amount` tokens of B from the
/// taker to the maker, and leaves vault and offer closed.
pub proof fn lemma_make_then_take(
    ledger: Ledger,
    m: Make,
    seed: u64,
    amount: u64,
    bumps: MakeBumps,
    t: Take,
)
    requires
        take_accounts_differ(t),
        m.maker_ata_a.key != m.vault.key,
        m.maker_ata_a.key != t.taker_ata_a.key,
        m.maker_ata_a.key != t.taker_ata_b.key,
        m.maker_ata_a.key != t.maker_ata_b.key,
        take_follows_make(m, seed, amount, bumps, t),
        ledger.apply_all(spec_make(m, amount)) is Some,
        ledger.commit(spec_make(m, amount)).apply_all(spec_take(t)) is Some,
    ensures
        ({
            let after = ledger.commit(spec_make(m, amount)).commit(spec_take(t));
            &&& after.balance(m.maker_ata_a.key) == ledger.balance(m.maker_ata_a.key) - amount
            &&& after.balance(t.taker_ata_a.key) == ledger.balance(t.taker_ata_a.key) + amount
            &&& after.balance(t.taker_ata_b.key) == ledger.balance(t.taker_ata_b.key) - amount
            &&& after.balance(t.maker_ata_b.key) == ledger.balance(t.maker_ata_b.key) + amount
            &&& !after.tokens.dom().contains(m.vault.key)
            &&& !after.records.contains(m.escrow.key)
            &&& ledger.balance(m.vault.key) == 0
        }),
{
    let deposit = m.spec_deposit(amount);
    lemma_apply_one(ledger, ActionView::TransferChecked(deposit));
    assert(spec_make(m, amount) =~= seq![ActionView::TransferChecked(deposit)]);
    let l1 = ledger.commit(spec_make(m, amount));
    lemma_transfer_moves_amount(ledger, deposit);
    lemma_take_is_atomic(l1, t);
}

/// Once an offer is settled it can be neither withdrawn nor settled again: the
/// ledger rejects both, because the vault is gone.
pub proof fn lemma_settled_offer_is_gone(ledger: Ledger, t: Take, r: Refund, again: Take)
    requires
        take_accounts_differ(t),
        ledger.apply_all(spec_take(t)) is Some,
        r.vault.key == t.vault.key,
        again.vault.key == t.vault.key,
        again.taker_ata_b.key != t.vault.key,
        again.maker_ata_b.key != t.vault.key,
    ensures
        ledger.commit(spec_take(t)).apply_all(spec_refund(r)) is None,
        ledger.commit(spec_take(t)).apply_all(spec_take(again)) is None,
{
    lemma_take_is_atomic(ledger, t);
    let after = ledger.commit(spec_take(t));
    let a = ActionView::TransferChecked(r.spec_refund());
    let b = ActionView::CloseAccount(r.spec_close());
    let c = ActionView::CloseRecord(CloseRecord { account: r.escrow.key, destination: r.maker });
    assert(spec_refund(r) =~= seq![a, b, c]);
    lemma_apply_three(after, a, b, c);

    let a2 = ActionView::TransferChecked(again.spec_deposit());
    let b2 = ActionView::TransferChecked(again.spec_release());
    let c2 = ActionView::CloseAccount(again.spec_close());
    let d2 = ActionView::CloseRecord(
        CloseRecord { account: again.escrow.key, destination: again.maker },
    );
    assert(spec_take(again) =~= seq![a2, b2, c2, d2]);
    lemma_apply_four(after, a2, b2, c2, d2);
    if after.transfer_checked(again.spec_deposit()) is Some {
        if again.taker_ata_b.key != again.maker_ata_b.key {
            lemma_transfer_moves_amount(after, again.spec_deposit());
        }
    }
}

/// What a settlement takes out of the vault is signed for the offer: where the
/// offer sits at the address that the maker, the offer's seed and its bump seed
/// derive, the seeds of the release and of the closing sign for their authority.
pub proof fn lemma_take_is_signed(t: Take, program_id: Seq<u8>)
    requires
        derives_with_bump(
            spec_escrow_seeds(t.maker, t.escrow.data.seed),
            t.escrow.data.bump,
            program_id,
            t.escrow.key@,
        ),
    ensures
        spec_signs_for(t.spec_release().signer_seeds, program_id, t.spec_release().authority@),
        spec_signs_for(t.spec_close().signer_seeds, program_id, t.spec_close().authority@),
{
}

/// What a withdrawal takes out of the vault is signed for the offer: where the
/// accounts pass their check and the offer sits at the address that the maker, the
/// offer's seed and its bump seed derive, the seeds of the transfer and of the
/// closing sign for their authority.
pub proof fn lemma_refund_is_signed(r: Refund, program_id: Seq<u8>)
    requires
        r.spec_validate() is Ok,
        derives_with_bump(
            spec_escrow_seeds(r.maker, r.escrow.data.seed),
            r.escrow.data.bump,
            program_id,
            r.escrow.key@,
        ),
    ensures
        spec_signs_for(r.spec_refund().signer_seeds, program_id, r.spec_refund().authority@),
        spec_signs_for(r.spec_close().signer_seeds, program_id, r.spec_close().authority@),
{
}

} // verus!
