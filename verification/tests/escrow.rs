use vesting_escrow::account::Account;
use vesting_escrow::address::{derive_address, signs_for, Address};
use vesting_escrow::seeds::escrow_seeds;
use vesting_escrow::escrow::make::{Make, MakeBumps};
use vesting_escrow::escrow::refund::Refund;
use vesting_escrow::escrow::state::{AccountError, Escrow};
use vesting_escrow::escrow::take::Take;
use vesting_escrow::escrow::{make, refund, take};
use vesting_escrow::token::{Action, CloseAccount, CloseRecord, Mint, TokenAccount, TransferChecked};

fn addr(n: u8) -> Address {
    Address::new([n; 32])
}

const MAKER: u8 = 1;
const TAKER: u8 = 2;
const MINT_A: u8 = 3;
const MINT_B: u8 = 4;
const MAKER_ATA_A: u8 = 5;
const MAKER_ATA_B: u8 = 6;
const TAKER_ATA_A: u8 = 7;
const TAKER_ATA_B: u8 = 8;
const ESCROW: u8 = 9;
const VAULT: u8 = 10;

fn mint(key: u8, decimals: u8) -> Mint {
    Mint { key: addr(key), mint_authority: None, decimals }
}

fn token(key: u8, mint: u8, owner: u8, amount: u64) -> TokenAccount {
    TokenAccount { key: addr(key), mint: addr(mint), owner: addr(owner), amount }
}

fn blank_escrow() -> Escrow {
    Escrow { seed: 0, maker: addr(0), mint_a: addr(0), mint_b: addr(0), receive: 0, bump: 0 }
}

fn offer() -> (Escrow, Vec<Action>) {
    let mut accounts = Make {
        maker: addr(MAKER),
        mint_a: mint(MINT_A, 6),
        mint_b: mint(MINT_B, 9),
        maker_ata_a: token(MAKER_ATA_A, MINT_A, MAKER, 1_000),
        maker_ata_b: token(MAKER_ATA_B, MINT_B, MAKER, 0),
        escrow: Account { key: addr(ESCROW), data: blank_escrow() },
        vault: token(VAULT, MINT_A, ESCROW, 0),
    };
    let actions = make(&mut accounts, 7, 100, &MakeBumps { escrow: 255 });
    (accounts.escrow.data, actions)
}

fn escrow_signer_seeds() -> Vec<Vec<u8>> {
    vec![b"escrow".to_vec(), vec![MAKER; 32], 7u64.to_le_bytes().to_vec(), vec![255u8]]
}

fn take_accounts(escrow: Escrow) -> Take {
    Take {
        taker: addr(TAKER),
        maker: addr(MAKER),
        mint_a: mint(MINT_A, 6),
        mint_b: mint(MINT_B, 9),
        taker_ata_a: token(TAKER_ATA_A, MINT_A, TAKER, 0),
        taker_ata_b: token(TAKER_ATA_B, MINT_B, TAKER, 100),
        maker_ata_b: token(MAKER_ATA_B, MINT_B, MAKER, 0),
        escrow: Account { key: addr(ESCROW), data: escrow },
        vault: token(VAULT, MINT_A, ESCROW, 100),
    }
}

fn refund_accounts(escrow: Escrow, vault_amount: u64) -> Refund {
    Refund {
        maker: addr(MAKER),
        mint_a: mint(MINT_A, 6),
        mint_b: mint(MINT_B, 9),
        maker_ata_a: token(MAKER_ATA_A, MINT_A, MAKER, 900),
        escrow: Account { key: addr(ESCROW), data: escrow },
        vault: token(VAULT, MINT_A, ESCROW, vault_amount),
    }
}

#[test]
fn make_writes_the_offer_and_funds_the_vault() {
    let (escrow, actions) = offer();
    assert_eq!(
        escrow,
        Escrow {
            seed: 7,
            maker: addr(MAKER),
            mint_a: addr(MINT_A),
            mint_b: addr(MINT_B),
            receive: 100,
            bump: 255,
        }
    );
    assert_eq!(
        actions,
        vec![Action::TransferChecked(TransferChecked {
            from: addr(MAKER_ATA_A),
            to: addr(VAULT),
            mint: addr(MINT_A),
            authority: addr(MAKER),
            amount: 100,
            decimals: 6,
            signer_seeds: vec![],
        })]
    );
}

#[test]
fn take_pays_both_sides_and_closes_vault_and_offer() {
    let (escrow, _) = offer();
    let mut accounts = take_accounts(escrow);
    let before = accounts;
    let actions = take(&mut accounts);
    assert_eq!(accounts, before);
    assert_eq!(
        actions,
        vec![
            Action::TransferChecked(TransferChecked {
                from: addr(TAKER_ATA_B),
                to: addr(MAKER_ATA_B),
                mint: addr(MINT_B),
                authority: addr(TAKER),
                amount: 100,
                decimals: 9,
                signer_seeds: vec![],
            }),
            Action::TransferChecked(TransferChecked {
                from: addr(VAULT),
                to: addr(TAKER_ATA_A),
                mint: addr(MINT_A),
                authority: addr(ESCROW),
                amount: 100,
                decimals: 6,
                signer_seeds: escrow_signer_seeds(),
            }),
            Action::CloseAccount(CloseAccount {
                account: addr(VAULT),
                destination: addr(MAKER),
                authority: addr(ESCROW),
                signer_seeds: escrow_signer_seeds(),
            }),
            Action::CloseRecord(CloseRecord { account: addr(ESCROW), destination: addr(MAKER) }),
        ]
    );
}

/// The balances of the six token accounts of an offer, and whether vault and offer
/// are open: enough of a ledger to follow the actions of the escrow program.
#[derive(Clone, Debug, PartialEq, Eq)]
struct Balances {
    accounts: Vec<(Address, u64)>,
    open_records: Vec<Address>,
}

impl Balances {
    fn of(&self, key: u8) -> Option<u64> {
        self.accounts.iter().find(|(k, _)| *k == addr(key)).map(|(_, v)| *v)
    }

    /// Performs the actions, all or none.
    fn run(&mut self, actions: &[Action]) -> bool {
        let mut next = self.clone();
        for action in actions {
            let done = match action {
                Action::TransferChecked(t) => next.transfer(t.from, t.to, t.amount),
                Action::CloseAccount(c) => next.close(c.account),
                Action::CloseRecord(c) => {
                    let was = next.open_records.len();
                    next.open_records.retain(|k| *k != c.account);
                    next.open_records.len() < was
                },
                _ => false,
            };
            if !done {
                return false;
            }
        }
        *self = next;
        true
    }

    fn transfer(&mut self, from: Address, to: Address, amount: u64) -> bool {
        let Some(f) = self.accounts.iter().position(|(k, _)| *k == from) else { return false };
        let Some(t) = self.accounts.iter().position(|(k, _)| *k == to) else { return false };
        if self.accounts[f].1 < amount {
            return false;
        }
        self.accounts[f].1 -= amount;
        self.accounts[t].1 += amount;
        true
    }

    fn close(&mut self, account: Address) -> bool {
        match self.accounts.iter().position(|(k, v)| *k == account && *v == 0) {
            Some(i) => {
                self.accounts.remove(i);
                true
            },
            None => false,
        }
    }
}

fn balances_before_make() -> Balances {
    Balances {
        accounts: vec![
            (addr(MAKER_ATA_A), 1_000),
            (addr(MAKER_ATA_B), 0),
            (addr(TAKER_ATA_A), 0),
            (addr(TAKER_ATA_B), 100),
            (addr(VAULT), 0),
        ],
        open_records: vec![addr(ESCROW)],
    }
}

#[test]
fn escrow_round_trip() {
    let mut ledger = balances_before_make();
    let (escrow, actions) = offer();
    assert!(ledger.run(&actions));
    assert_eq!(ledger.of(MAKER_ATA_A), Some(900));
    assert_eq!(ledger.of(VAULT), Some(100));

    let mut accounts = take_accounts(escrow);
    assert!(ledger.run(&take(&mut accounts)));
    assert_eq!(ledger.of(MAKER_ATA_B), Some(100));
    assert_eq!(ledger.of(TAKER_ATA_A), Some(100));
    assert_eq!(ledger.of(TAKER_ATA_B), Some(0));
    assert_eq!(ledger.of(MAKER_ATA_A), Some(900));
    assert_eq!(ledger.of(VAULT), None);
    assert!(ledger.open_records.is_empty());

    // The vault and the offer are gone: nothing is left to withdraw or to settle.
    let settled = ledger.clone();
    let mut again = refund_accounts(escrow, 0);
    assert!(!ledger.run(&refund(&mut again).expect("the maker is the offer's")));
    assert!(!ledger.run(&take(&mut accounts)));
    assert_eq!(ledger, settled);
}

#[test]
fn make_then_refund_restores_the_maker() {
    let mut ledger = balances_before_make();
    let (escrow, actions) = offer();
    assert!(ledger.run(&actions));
    let mut accounts = refund_accounts(escrow, ledger.of(VAULT).expect("the vault is open"));
    let before = accounts;
    let actions = refund(&mut accounts).expect("the maker is the offer's");
    assert_eq!(accounts, before);
    assert_eq!(
        actions,
        vec![
            Action::TransferChecked(TransferChecked {
                from: addr(VAULT),
                to: addr(MAKER_ATA_A),
                mint: addr(MINT_A),
                authority: addr(ESCROW),
                amount: 100,
                decimals: 6,
                signer_seeds: escrow_signer_seeds(),
            }),
            Action::CloseAccount(CloseAccount {
                account: addr(VAULT),
                destination: addr(MAKER),
                authority: addr(ESCROW),
                signer_seeds: escrow_signer_seeds(),
            }),
            Action::CloseRecord(CloseRecord { account: addr(ESCROW), destination: addr(MAKER) }),
        ]
    );
    assert!(ledger.run(&actions));
    assert_eq!(ledger.of(MAKER_ATA_A), Some(1_000));
    assert_eq!(ledger.of(VAULT), None);
    assert!(ledger.open_records.is_empty());
}

#[test]
fn take_is_all_or_nothing() {
    let mut ledger = balances_before_make();
    let (escrow, actions) = offer();
    assert!(ledger.run(&actions));
    // The taker holds less of B than the maker asks for.
    ledger.accounts[3].1 = 99;
    let before = ledger.clone();
    let mut accounts = take_accounts(escrow);
    assert!(!ledger.run(&take(&mut accounts)));
    assert_eq!(ledger, before);
    // The vault holds more than the offer: it cannot be closed, so nothing moves.
    ledger.accounts[3].1 = 100;
    ledger.accounts[4].1 = 101;
    let before = ledger.clone();
    assert!(!ledger.run(&take(&mut accounts)));
    assert_eq!(ledger, before);
}

#[test]
fn refund_needs_the_maker_of_the_offer() {
    let (escrow, _) = offer();
    let mut accounts = refund_accounts(escrow, 100);
    accounts.maker = addr(TAKER);
    let before = accounts;
    assert_eq!(refund(&mut accounts), Err(AccountError::MakerMismatch));
    assert_eq!(accounts, before);
}

#[test]
fn steps_of_take_and_refund() {
    let (escrow, _) = offer();
    let mut t = take_accounts(escrow);
    assert_eq!(t.deposit().amount, 100);
    assert_eq!(t.deposit().mint, addr(MINT_B));
    assert_eq!(t.release().mint, addr(MINT_A));
    assert_eq!(t.release().signer_seeds, escrow_signer_seeds());
    assert_eq!(t.close().destination, addr(MAKER));
    let mut r = refund_accounts(escrow, 250);
    assert_eq!(r.refund().amount, 250);
    assert_eq!(r.refund().to, addr(MAKER_ATA_A));
    assert_eq!(r.close().account, addr(VAULT));
    assert_eq!(r.close().signer_seeds, escrow_signer_seeds());
}

#[test]
fn make_offer_and_deposit_are_separate_steps() {
    let mut accounts = Make {
        maker: addr(MAKER),
        mint_a: mint(MINT_A, 6),
        mint_b: mint(MINT_B, 9),
        maker_ata_a: token(MAKER_ATA_A, MINT_A, MAKER, 1_000),
        maker_ata_b: token(MAKER_ATA_B, MINT_B, MAKER, 0),
        escrow: Account { key: addr(ESCROW), data: blank_escrow() },
        vault: token(VAULT, MINT_A, ESCROW, 0),
    };
    accounts.make_offer(u64::MAX, 5, &MakeBumps { escrow: 1 });
    assert_eq!(accounts.escrow.data.seed, u64::MAX);
    assert_eq!(accounts.escrow.data.receive, 5);
    assert_eq!(accounts.escrow.data.bump, 1);
    assert_eq!(accounts.escrow.key, addr(ESCROW));
    let deposit = accounts.deposit(5);
    assert_eq!(deposit.amount, 5);
    assert_eq!(deposit.from, addr(MAKER_ATA_A));
}

#[test]
fn release_is_signed_for_the_offer_at_its_derived_address() {
    let program = addr(77);
    let (offer, bump) =
        derive_address(&escrow_seeds(&addr(MAKER), 7), &program).expect("an address exists");
    let mut accounts = Make {
        maker: addr(MAKER),
        mint_a: mint(MINT_A, 6),
        mint_b: mint(MINT_B, 9),
        maker_ata_a: token(MAKER_ATA_A, MINT_A, MAKER, 1_000),
        maker_ata_b: token(MAKER_ATA_B, MINT_B, MAKER, 0),
        escrow: Account { key: offer, data: blank_escrow() },
        vault: token(VAULT, MINT_A, ESCROW, 0),
    };
    make(&mut accounts, 7, 100, &MakeBumps { escrow: bump });
    let mut t = take_accounts(accounts.escrow.data);
    t.escrow.key = offer;
    let release = t.release();
    assert_eq!(release.authority, offer);
    assert!(signs_for(&release.authority, &release.signer_seeds, &program));
    let close = t.close();
    assert!(signs_for(&close.authority, &close.signer_seeds, &program));
    // A settlement that names another maker does not sign for the offer.
    t.maker = addr(TAKER);
    let release = t.release();
    assert!(!signs_for(&release.authority, &release.signer_seeds, &program));
}
