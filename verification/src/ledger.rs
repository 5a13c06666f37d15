//! A model of the ledger on which the programs act.
//!
//! The programs never touch balances: they return [`crate::token::Action`]s. This
//! module says what the ledger does with an action, and with a list of them taken as
//! one transaction, so that the effect of a program on balances can be stated and
//! proved. It models token balances, lamports and the existence of accounts;
//! signatures are the ledger's own business and are not modelled.

use vstd::prelude::*;
use crate::address::Address;
use crate::token::{
    ActionView, CloseAccountView, CloseRecord, MintTo, TokenAccount, Transfer, TransferCheckedView,
};

verus! {

/// A mint on the ledger.
pub struct MintState {
    pub mint_authority: Option<Address>,
    pub supply: nat,
    pub decimals: u8,
}

/// A token account on the ledger.
pub struct TokenState {
    pub mint: Address,
    pub owner: Address,
    pub amount: nat,
}

/// The ledger: its mints, its token accounts, the records that programs own, and the
/// lamports of each account.
pub struct Ledger {
    pub mints: Map<Address, MintState>,
    pub tokens: Map<Address, TokenState>,
    pub records: Set<Address>,
    pub lamports: Map<Address, nat>,
}

impl Ledger {
    /// The lamports that an account holds; an account that the ledger does not know
    /// holds none.
    pub open spec fn lamports_of(self, account: Address) -> nat {
        if self.lamports.dom().contains(account) {
            self.lamports[account]
        } else {
            0
        }
    }

    /// Whether the ledger holds the token account as the snapshot shows it.
    pub open spec fn holds(self, account: TokenAccount) -> bool {
        &&& self.tokens.dom().contains(account.key)
        &&& self.tokens[account.key] == (TokenState {
            mint: account.mint,
            owner: account.owner,
            amount: account.amount as nat,
        })
    }

    /// The balance of a token account.
    pub open spec fn balance(self, account: Address) -> nat
        recommends
            self.tokens.dom().contains(account),
    {
        self.tokens[account].amount
    }

    /// The ledger after `amount` lamports went from one account to another.
    pub open spec fn move_lamports(self, from: Address, to: Address, amount: nat) -> Ledger {
        if from == to {
            self
        } else {
            Ledger {
                lamports: self.lamports.insert(from, (self.lamports_of(from) - amount) as nat).insert(
                    to,
                    self.lamports_of(to) + amount,
                ),
                ..self
            }
        }
    }

    /// A checked transfer. The ledger accepts it when both accounts exist and hold
    /// the mint named, the mint has the decimals named, the authority owns the paying
    /// account, that account holds the amount, and the receiving account stays
    /// within 64 bits.
    pub open spec fn transfer_checked(self, t: TransferCheckedView) -> Option<Ledger> {
        if self.tokens.dom().contains(t.from) && self.tokens.dom().contains(t.to)
            && self.mints.dom().contains(t.mint) && self.tokens[t.from].mint == t.mint
            && self.tokens[t.to].mint == t.mint && self.mints[t.mint].decimals == t.decimals
            && self.tokens[t.from].owner == t.authority && self.tokens[t.from].amount >= t.amount
            && (t.from == t.to || self.tokens[t.to].amount + t.amount <= u64::MAX) {
            if t.from == t.to {
                Some(self)
            } else {
                Some(
                    Ledger {
                        tokens: self.tokens.insert(
                            t.from,
                            TokenState {
                                amount: (self.tokens[t.from].amount - t.amount) as nat,
                                ..self.tokens[t.from]
                            },
                        ).insert(
                            t.to,
                            TokenState {
                                amount: (self.tokens[t.to].amount + t.amount) as nat,
                                ..self.tokens[t.to]
                            },
                        ),
                        ..self
                    },
                )
            }
        } else {
            None
        }
    }

    /// A mint into a token account. The ledger accepts it when the mint and the
    /// account exist, the account holds that mint, the authority is the mint's, and
    /// supply and balance stay within 64 bits.
    pub open spec fn mint_to(self, m: MintTo) -> Option<Ledger> {
        if self.mints.dom().contains(m.mint) && self.tokens.dom().contains(m.to)
            && self.tokens[m.to].mint == m.mint && self.mints[m.mint].mint_authority == Some(
            m.authority,
        ) && self.mints[m.mint].supply + m.amount <= u64::MAX && self.tokens[m.to].amount
            + m.amount <= u64::MAX {
            Some(
                Ledger {
                    mints: self.mints.insert(
                        m.mint,
                        MintState {
                            supply: (self.mints[m.mint].supply + m.amount) as nat,
                            ..self.mints[m.mint]
                        },
                    ),
                    tokens: self.tokens.insert(
                        m.to,
                        TokenState {
                            amount: (self.tokens[m.to].amount + m.amount) as nat,
                            ..self.tokens[m.to]
                        },
                    ),
                    ..self
                },
            )
        } else {
            None
        }
    }

    /// The closing of a token account. The ledger accepts it when the account exists,
    /// is empty, is owned by the authority and is not its own destination; the
    /// account's lamports go to the destination.
    pub open spec fn close_account(self, c: CloseAccountView) -> Option<Ledger> {
        if self.tokens.dom().contains(c.account) && self.tokens[c.account].amount == 0
            && self.tokens[c.account].owner == c.authority && c.account != c.destination {
            let moved = self.move_lamports(c.account, c.destination, self.lamports_of(c.account));
            Some(
                Ledger {
                    tokens: self.tokens.remove(c.account),
                    lamports: moved.lamports.remove(c.account),
                    ..self
                },
            )
        } else {
            None
        }
    }

    /// A transfer of lamports. The ledger accepts it when the authority is the paying
    /// account and that account holds the amount.
    pub open spec fn transfer(self, t: Transfer) -> Option<Ledger> {
        if t.authority == t.from && self.lamports_of(t.from) >= t.amount {
            Some(self.move_lamports(t.from, t.to, t.amount as nat))
        } else {
            None
        }
    }

    /// The closing of a program's record. The ledger accepts it when the record
    /// exists and is not its own destination; the record's lamports go to the
    /// destination.
    pub open spec fn close_record(self, c: CloseRecord) -> Option<Ledger> {
        if self.records.contains(c.account) && c.account != c.destination {
            let moved = self.move_lamports(c.account, c.destination, self.lamports_of(c.account));
            Some(
                Ledger {
                    records: self.records.remove(c.account),
                    lamports: moved.lamports.remove(c.account),
                    ..self
                },
            )
        } else {
            None
        }
    }

    /// What the ledger does with one action: the ledger after it, or `None` where the
    /// ledger rejects it.
    pub open spec fn apply(self, action: ActionView) -> Option<Ledger> {
        match action {
            ActionView::TransferChecked(t) => self.transfer_checked(t),
            ActionView::MintTo(m) => self.mint_to(m),
            ActionView::CloseAccount(c) => self.close_account(c),
            ActionView::Transfer(t) => self.transfer(t),
            ActionView::CloseRecord(c) => self.close_record(c),
        }
    }

    /// What the ledger does with a list of actions, in order: the ledger after the
    /// last, or `None` where it rejects one of them.
    pub open spec fn apply_all(self, actions: Seq<ActionView>) -> Option<Ledger>
        decreases actions.len(),
    {
        if actions.len() == 0 {
            Some(self)
        } else {
            match self.apply(actions[0]) {
                Some(next) => next.apply_all(actions.drop_first()),
                None => None,
            }
        }
    }

    /// The ledger after a transaction that asks for the actions: all of them are
    /// performed, or, where the ledger rejects one, none.
    pub open spec fn commit(self, actions: Seq<ActionView>) -> Ledger {
        match self.apply_all(actions) {
            Some(after) => after,
            None => self,
        }
    }
}

/// A list of one action is applied as that action.
pub proof fn lemma_apply_one(ledger: Ledger, a: ActionView)
    ensures
        ledger.apply_all(seq![a]) == ledger.apply(a),
{
    reveal_with_fuel(Ledger::apply_all, 2);
    assert(seq![a].drop_first() =~= Seq::<ActionView>::empty());
}

/// Two lists of actions applied one after the other are applied as one list.
pub proof fn lemma_apply_concat(ledger: Ledger, first: Seq<ActionView>, second: Seq<ActionView>)
    ensures
        ledger.apply_all(first + second) == match ledger.apply_all(first) {
            Some(next) => next.apply_all(second),
            None => None,
        },
    decreases first.len(),
{
    if first.len() == 0 {
        assert(first + second =~= second);
    } else {
        assert((first + second)[0] == first[0]);
        assert((first + second).drop_first() =~= first.drop_first() + second);
        match ledger.apply(first[0]) {
            Some(next) => {
                lemma_apply_concat(next, first.drop_first(), second);
            },
            None => {},
        }
    }
}

/// What a checked transfer does to the balances of the two accounts, where the
/// ledger accepts it and the accounts differ: the amount leaves one and reaches the
/// other, and no other token account changes.
pub proof fn lemma_transfer_moves_amount(ledger: Ledger, t: TransferCheckedView)
    requires
        ledger.transfer_checked(t) is Some,
        t.from != t.to,
    ensures
        ledger.balance(t.from) >= t.amount,
        ledger.transfer_checked(t)->Some_0.balance(t.from) == ledger.balance(t.from) - t.amount,
        ledger.transfer_checked(t)->Some_0.balance(t.to) == ledger.balance(t.to) + t.amount,
        forall|a: Address|
            a != t.from && a != t.to ==> #[trigger] ledger.transfer_checked(t)->Some_0.tokens[a]
                == ledger.tokens[a],
        ledger.transfer_checked(t)->Some_0.tokens.dom() == ledger.tokens.dom(),
{
    assert(ledger.transfer_checked(t)->Some_0.tokens.dom() =~= ledger.tokens.dom());
}

/// What a mint does to the balance of the receiving account, where the ledger
/// accepts it: the amount is added, and no other token account changes.
pub proof fn lemma_mint_adds_amount(ledger: Ledger, m: MintTo)
    requires
        ledger.mint_to(m) is Some,
    ensures
        ledger.mint_to(m)->Some_0.balance(m.to) == ledger.balance(m.to) + m.amount,
        forall|a: Address|
            a != m.to ==> #[trigger] ledger.mint_to(m)->Some_0.tokens[a] == ledger.tokens[a],
        ledger.mint_to(m)->Some_0.tokens.dom() == ledger.tokens.dom(),
{
    assert(ledger.mint_to(m)->Some_0.tokens.dom() =~= ledger.tokens.dom());
}

/// What the closing of a token account does, where the ledger accepts it: the
/// account was empty and is gone, and no other token account changes.
pub proof fn lemma_close_account_removes(ledger: Ledger, c: CloseAccountView)
    requires
        ledger.close_account(c) is Some,
    ensures
        ledger.balance(c.account) == 0,
        ledger.close_account(c)->Some_0.tokens == ledger.tokens.remove(c.account),
        !ledger.close_account(c)->Some_0.tokens.dom().contains(c.account),
        ledger.close_account(c)->Some_0.records == ledger.records,
        ledger.close_account(c)->Some_0.mints == ledger.mints,
        ledger.close_account(c)->Some_0.lamports_of(c.destination) == ledger.lamports_of(
            c.destination,
        ) + ledger.lamports_of(c.account),
{
}

/// What the closing of a record does, where the ledger accepts it: the record is
/// gone, its lamports are with the destination, and no token account changes.
pub proof fn lemma_close_record_removes(ledger: Ledger, c: CloseRecord)
    requires
        ledger.close_record(c) is Some,
    ensures
        ledger.close_record(c)->Some_0.records == ledger.records.remove(c.account),
        !ledger.close_record(c)->Some_0.records.contains(c.account),
        ledger.close_record(c)->Some_0.tokens == ledger.tokens,
        ledger.close_record(c)->Some_0.mints == ledger.mints,
        ledger.close_record(c)->Some_0.lamports_of(c.destination) == ledger.lamports_of(
            c.destination,
        ) + ledger.lamports_of(c.account),
{
}

/// A list of three actions is applied one action after the other.
pub proof fn lemma_apply_three(ledger: Ledger, a: ActionView, b: ActionView, c: ActionView)
    ensures
        ledger.apply_all(seq![a, b, c]) == match ledger.apply(a) {
            Some(l1) => match l1.apply(b) {
                Some(l2) => l2.apply(c),
                None => None,
            },
            None => None,
        },
{
    lemma_apply_concat(ledger, seq![a], seq![b, c]);
    assert(seq![a] + seq![b, c] =~= seq![a, b, c]);
    lemma_apply_one(ledger, a);
    match ledger.apply(a) {
        Some(l1) => {
            lemma_apply_concat(l1, seq![b], seq![c]);
            assert(seq![b] + seq![c] =~= seq![b, c]);
            lemma_apply_one(l1, b);
            match l1.apply(b) {
                Some(l2) => {
                    lemma_apply_one(l2, c);
                },
                None => {},
            }
        },
        None => {},
    }
}

/// A list of four actions is applied one action after the other.
pub proof fn lemma_apply_four(
    ledger: Ledger,
    a: ActionView,
    b: ActionView,
    c: ActionView,
    d: ActionView,
)
    ensures
        ledger.apply_all(seq![a, b, c, d]) == match ledger.apply(a) {
            Some(l1) => match l1.apply(b) {
                Some(l2) => match l2.apply(c) {
                    Some(l3) => l3.apply(d),
                    None => None,
                },
                None => None,
            },
            None => None,
        },
{
    lemma_apply_concat(ledger, seq![a], seq![b, c, d]);
    assert(seq![a] + seq![b, c, d] =~= seq![a, b, c, d]);
    lemma_apply_one(ledger, a);
    match ledger.apply(a) {
        Some(l1) => {
            lemma_apply_three(l1, b, c, d);
        },
        None => {},
    }
}

/// Two checked transfers between the same two different accounts are one transfer
/// of the sum: the ledger accepts both in a row exactly when it accepts the one,
/// and ends up the same.
pub proof fn lemma_transfers_add_up(
    ledger: Ledger,
    first: TransferCheckedView,
    second: TransferCheckedView,
)
    requires
        first.from != first.to,
        second == (TransferCheckedView { amount: second.amount, ..first }),
        first.amount + second.amount <= u64::MAX,
    ensures
        ledger.apply_all(
            seq![ActionView::TransferChecked(first), ActionView::TransferChecked(second)],
        ) == ledger.transfer_checked(
            TransferCheckedView { amount: (first.amount + second.amount) as u64, ..first },
        ),
{
    let a = ActionView::TransferChecked(first);
    let b = ActionView::TransferChecked(second);
    let sum = TransferCheckedView { amount: (first.amount + second.amount) as u64, ..first };
    lemma_apply_concat(ledger, seq![a], seq![b]);
    assert(seq![a] + seq![b] =~= seq![a, b]);
    lemma_apply_one(ledger, a);
    match ledger.transfer_checked(first) {
        Some(l1) => {
            lemma_apply_one(l1, b);
            lemma_transfer_moves_amount(ledger, first);
            match l1.transfer_checked(second) {
                Some(l2) => {
                    lemma_transfer_moves_amount(l1, second);
                    lemma_transfer_moves_amount(ledger, sum);
                    let l = ledger.transfer_checked(sum)->Some_0;
                    assert(l2.tokens =~= l.tokens);
                },
                None => {},
            }
        },
        None => {},
    }
}

} // verus!
