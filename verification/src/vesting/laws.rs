//! What holds of a vesting contract, its records and its vault through every
//! accepted instruction.
//!
//! A [`Book`] is one contract with all the records opened under it and the balance
//! of its vault. Each instruction is a step of the book; the laws below say what
//! every step preserves and what follows from it.

use vstd::prelude::*;
use vstd::arithmetic::div_mod::lemma_div_is_ordered;
use vstd::arithmetic::mul::lemma_mul_inequality;
use crate::address::{derives_with_bump, spec_signs_for};
use crate::ledger::{lemma_mint_adds_amount, lemma_transfer_moves_amount, Ledger};
use crate::seeds::spec_vesting_contract_seeds;
use crate::vesting::claim_tokens::{
    lemma_share_is_bounded, spec_claim, spec_linear_vested, ClaimTokens,
};
use crate::vesting::deposit_tokens::DepositTokens;
use crate::vesting::error::ErrorCode;
use crate::vesting::init_beneficiary::{
    spec_assignment_error, spec_contract_after_assignment, spec_vesting_type, InitializeBeneficiary,
};
use crate::vesting::mint_tokens::{spec_mint_into, MintTokens};
use crate::vesting::revoke_vesting::{spec_revocation_error, spec_revoked, RevokeVesting};
use crate::vesting::state::{VestingContractInfo, VestingRecordInfo, VestingType};

verus! {

/// The tokens that the beneficiaries of the records have claimed, in all.
pub open spec fn sum_claimed(records: Seq<VestingRecordInfo>) -> int
    decreases records.len(),
{
    if records.len() == 0 {
        0
    } else {
        sum_claimed(records.drop_last()) + records.last().total_claimed_tokens_by_beneficiary
    }
}

/// The tokens that the records assign to their beneficiaries, in all.
pub open spec fn sum_assigned(records: Seq<VestingRecordInfo>) -> int
    decreases records.len(),
{
    if records.len() == 0 {
        0
    } else {
        sum_assigned(records.drop_last()) + records.last().total_vested_tokens
    }
}

/// One contract, the records opened under it, and the balance of its vault.
pub struct Book {
    pub contract: VestingContractInfo,
    pub records: Seq<VestingRecordInfo>,
    pub vault_balance: nat,
}

impl Book {
    /// The book is consistent: the contract and every record are, the contract's
    /// claimed total is the sum over its records, what is assigned is either still
    /// locked or claimed, and the vault holds what was funded and not claimed, or
    /// nothing once the contract is revoked.
    pub open spec fn inv(self) -> bool {
        &&& self.contract.wf()
        &&& forall|i: int| 0 <= i < self.records.len() ==> (#[trigger] self.records[i]).wf()
        &&& self.contract.total_claimed_tokens == sum_claimed(self.records)
        &&& self.contract.total_locked_tokens + self.contract.total_claimed_tokens == sum_assigned(
            self.records,
        )
        &&& self.vault_balance == vault_due(self.contract)
    }

    /// The book of a contract that was just opened: `contract` is fresh, there is no
    /// record, and the vault is empty.
    pub open spec fn opened(contract: VestingContractInfo) -> Book {
        Book { contract, records: Seq::empty(), vault_balance: 0 }
    }

    /// The book after an accepted funding of `amount`, by deposit or by mint.
    pub open spec fn funded(self, amount: u64) -> Option<Book> {
        match self.contract.spec_fund(amount) {
            Ok(contract) => Some(
                Book { contract, vault_balance: (self.vault_balance + amount) as nat, ..self },
            ),
            Err(_) => None,
        }
    }

    /// The book after an accepted assignment of `record.total_vested_tokens` under
    /// the type code `code`, which opened `record`.
    pub open spec fn assigned(self, code: u8, record: VestingRecordInfo) -> Option<Book> {
        match spec_assignment_error(self.contract, code, record.total_vested_tokens) {
            None => Some(
                Book {
                    contract: spec_contract_after_assignment(
                        self.contract,
                        record.total_vested_tokens,
                    ),
                    records: self.records.push(record),
                    ..self
                },
            ),
            Some(_) => None,
        }
    }

    /// The book after an accepted claim on the record `i` at `current_time`.
    pub open spec fn claimed(self, i: int, current_time: i64) -> Option<Book> {
        match spec_claim(self.contract, self.records[i], current_time) {
            Ok((contract, record, amount)) => Some(
                Book {
                    contract,
                    records: self.records.update(i, record),
                    vault_balance: (self.vault_balance - amount) as nat,
                },
            ),
            Err(_) => None,
        }
    }

    /// The book after an accepted revocation, which empties the vault.
    pub open spec fn revoked(self) -> Option<Book> {
        if self.vault_balance <= u64::MAX && spec_revocation_error(
            self.contract,
            self.vault_balance as u64,
        ) is None {
            Some(Book { contract: spec_revoked(self.contract), vault_balance: 0, ..self })
        } else {
            None
        }
    }
}

/// The sum of the claimed amounts after one more record.
pub proof fn lemma_sums_push(records: Seq<VestingRecordInfo>, record: VestingRecordInfo)
    ensures
        sum_claimed(records.push(record)) == sum_claimed(records)
            + record.total_claimed_tokens_by_beneficiary,
        sum_assigned(records.push(record)) == sum_assigned(records) + record.total_vested_tokens,
{
    assert(records.push(record).drop_last() =~= records);
}

/// The sums after one record was replaced.
pub proof fn lemma_sums_update(records: Seq<VestingRecordInfo>, i: int, record: VestingRecordInfo)
    requires
        0 <= i < records.len(),
    ensures
        sum_claimed(records.update(i, record)) == sum_claimed(records)
            - records[i].total_claimed_tokens_by_beneficiary
            + record.total_claimed_tokens_by_beneficiary,
        sum_assigned(records.update(i, record)) == sum_assigned(records)
            - records[i].total_vested_tokens + record.total_vested_tokens,
    decreases records.len(),
{
    if i == records.len() - 1 {
        assert(records.update(i, record).drop_last() =~= records.drop_last());
    } else {
        lemma_sums_update(records.drop_last(), i, record);
        assert(records.update(i, record).drop_last() =~= records.drop_last().update(i, record));
    }
}

/// A freshly opened contract has a consistent book.
pub proof fn lemma_opened_book_is_consistent(contract: VestingContractInfo)
    requires
        contract.total_vested_tokens == 0,
        contract.total_available_tokens == 0,
        contract.total_locked_tokens == 0,
        contract.total_claimed_tokens == 0,
        contract.is_active,
        !contract.is_revoked,
        !contract.fully_claimed,
    ensures
        Book::opened(contract).inv(),
{
}

/// An accepted funding keeps the book consistent.
pub proof fn lemma_funding_preserves_inv(book: Book, amount: u64)
    requires
        book.inv(),
        book.funded(amount) is Some,
    ensures
        book.funded(amount)->Some_0.inv(),
{
}

/// An accepted assignment keeps the book consistent, provided the record it opened
/// is consistent and nothing is claimed on it yet.
pub proof fn lemma_assignment_preserves_inv(book: Book, code: u8, record: VestingRecordInfo)
    requires
        book.inv(),
        record.wf(),
        record.total_claimed_tokens_by_beneficiary == 0,
        book.assigned(code, record) is Some,
    ensures
        book.assigned(code, record)->Some_0.inv(),
{
    lemma_sums_push(book.records, record);
    let after = book.assigned(code, record)->Some_0;
    assert forall|i: int| 0 <= i < after.records.len() implies (#[trigger] after.records[i]).wf() by {
        if i < book.records.len() {
            assert(after.records[i] == book.records[i]);
        }
    }
}

/// An accepted claim leaves a consistent record consistent: the beneficiary has
/// claimed no more than was assigned.
pub proof fn lemma_claim_preserves_record(
    contract: VestingContractInfo,
    record: VestingRecordInfo,
    current_time: i64,
)
    requires
        record.wf(),
        spec_claim(contract, record, current_time) is Ok,
    ensures
        spec_claim(contract, record, current_time)->Ok_0.1.wf(),
        0 <= spec_claim(contract, record, current_time)->Ok_0.1.total_claimed_tokens_by_beneficiary
            <= record.total_vested_tokens,
        spec_claim(contract, record, current_time)->Ok_0.1.total_vested_tokens
            == record.total_vested_tokens,
        spec_claim(contract, record, current_time)->Ok_0.2 <= record.outstanding(),
{
    if record.vesting_type == VestingType::LinearVesting {
        lemma_linear_vested_is_bounded(record, current_time);
    }
}

/// A linear schedule that has started never releases more than was assigned.
pub proof fn lemma_linear_vested_is_bounded(record: VestingRecordInfo, current_time: i64)
    requires
        record.start_time <= current_time,
    ensures
        0 <= spec_linear_vested(record, current_time) <= record.total_vested_tokens,
{
    if current_time < record.end_time {
        lemma_share_is_bounded(
            record.total_vested_tokens as int,
            current_time - record.start_time,
            record.end_time - record.start_time,
        );
    }
}

/// An accepted claim leaves a consistent contract consistent.
pub proof fn lemma_claim_preserves_contract(
    contract: VestingContractInfo,
    record: VestingRecordInfo,
    current_time: i64,
)
    requires
        contract.wf(),
        spec_claim(contract, record, current_time) is Ok,
    ensures
        spec_claim(contract, record, current_time)->Ok_0.0.wf(),
{
}

/// An accepted claim keeps the book consistent, and the vault holds what it pays.
pub proof fn lemma_claim_preserves_inv(book: Book, i: int, current_time: i64)
    requires
        book.inv(),
        0 <= i < book.records.len(),
        book.claimed(i, current_time) is Some,
    ensures
        book.claimed(i, current_time)->Some_0.inv(),
        spec_claim(book.contract, book.records[i], current_time)->Ok_0.2 <= book.vault_balance,
{
    let record = book.records[i];
    let after = book.claimed(i, current_time)->Some_0;
    lemma_claim_preserves_record(book.contract, record, current_time);
    lemma_claim_preserves_contract(book.contract, record, current_time);
    lemma_sums_update(book.records, i, after.records[i]);
    assert forall|j: int| 0 <= j < after.records.len() implies (#[trigger] after.records[j]).wf() by {
        if j != i {
            assert(after.records[j] == book.records[j]);
        }
    }
}

/// An accepted revocation keeps the book consistent and leaves the vault empty.
pub proof fn lemma_revocation_preserves_inv(book: Book)
    requires
        book.inv(),
        book.revoked() is Some,
    ensures
        book.revoked()->Some_0.inv(),
        book.revoked()->Some_0.vault_balance == 0,
        book.revoked()->Some_0.contract.is_revoked,
        !book.revoked()->Some_0.contract.is_active,
{
}

/// In a consistent book the contract's claimed total is the sum of what the
/// beneficiaries of its records have claimed, and what was funded is what is
/// unassigned plus what the records assign.
pub proof fn lemma_claimed_total_is_sum(book: Book)
    requires
        book.inv(),
    ensures
        book.contract.total_claimed_tokens == sum_claimed(book.records),
        book.contract.total_vested_tokens == book.contract.total_available_tokens + sum_assigned(
            book.records,
        ),
        book.contract.total_claimed_tokens <= book.contract.total_vested_tokens,
{
}

/// On a consistent contract that was funded, "fully claimed" means exactly that
/// everything funded is claimed; on any consistent contract it implies that, and
/// that the contract is not active.
pub proof fn lemma_fully_claimed_means_all_claimed(contract: VestingContractInfo)
    requires
        contract.wf(),
    ensures
        contract.fully_claimed ==> contract.total_claimed_tokens == contract.total_vested_tokens,
        contract.fully_claimed ==> !contract.is_active,
        contract.total_vested_tokens > 0 ==> (contract.fully_claimed <==> contract.total_claimed_tokens
            == contract.total_vested_tokens),
{
}

/// A revoked contract is not active, and every claim on it at or after the start of
/// the record's schedule is refused because the contract is not active; before the
/// start it is refused because the schedule has not started.
pub proof fn lemma_no_claim_after_revocation(
    contract: VestingContractInfo,
    record: VestingRecordInfo,
    current_time: i64,
)
    requires
        contract.wf(),
        contract.is_revoked,
    ensures
        !contract.is_active,
        current_time >= record.start_time ==> spec_claim(contract, record, current_time) == Err::<
            (VestingContractInfo, VestingRecordInfo, u64),
            ErrorCode,
        >(ErrorCode::VestingNotActive),
        current_time < record.start_time ==> spec_claim(contract, record, current_time) == Err::<
            (VestingContractInfo, VestingRecordInfo, u64),
            ErrorCode,
        >(ErrorCode::VestingNotStarted),
{
}

/// Revocation is final: no instruction is accepted on a revoked contract but an
/// assignment, and none makes the contract active or not revoked again.
pub proof fn lemma_revocation_is_final(book: Book, amount: u64, i: int, current_time: i64, code: u8, record: VestingRecordInfo)
    requires
        book.contract.wf(),
        book.contract.is_revoked,
    ensures
        book.funded(amount) is None,
        book.claimed(i, current_time) is None,
        book.revoked() is None,
        book.assigned(code, record) is Some ==> {
            &&& book.assigned(code, record)->Some_0.contract.is_revoked
            &&& !book.assigned(code, record)->Some_0.contract.is_active
        },
{
}

/// A cliff record is claimed at most once: after an accepted claim, every further
/// claim on the record is refused, whatever the contract and the time.
pub proof fn lemma_cliff_is_claimed_once(
    contract: VestingContractInfo,
    record: VestingRecordInfo,
    current_time: i64,
    later_contract: VestingContractInfo,
    later_time: i64,
)
    requires
        record.vesting_type == VestingType::CliffVesting,
        spec_claim(contract, record, current_time) is Ok,
    ensures
        spec_claim(
            later_contract,
            spec_claim(contract, record, current_time)->Ok_0.1,
            later_time,
        ) is Err,
        spec_claim(contract, record, current_time)->Ok_0.2 == record.total_vested_tokens,
{
}

/// A claim on a linear record at or after the end of its schedule, if accepted,
/// leaves everything assigned claimed and the record closed to further claims.
pub proof fn lemma_linear_final_claim(
    contract: VestingContractInfo,
    record: VestingRecordInfo,
    current_time: i64,
)
    requires
        record.vesting_type == VestingType::LinearVesting,
        current_time >= record.end_time,
        spec_claim(contract, record, current_time) is Ok,
    ensures
        spec_claim(contract, record, current_time)->Ok_0.1.total_claimed_tokens_by_beneficiary
            == record.total_vested_tokens,
        spec_claim(contract, record, current_time)->Ok_0.1.has_claimed,
        spec_claim(contract, record, current_time)->Ok_0.2 == record.outstanding(),
{
}

/// The contract after an attempt to fund it with `amount`: funded where the funding
/// is accepted, unchanged where it is refused.
pub open spec fn after_funding(contract: VestingContractInfo, amount: u64) -> VestingContractInfo {
    match contract.spec_fund(amount) {
        Ok(funded) => funded,
        Err(_) => contract,
    }
}

/// Whether two fundings in a row are either both accepted or leave the contract as
/// one funding of the sum does for another reason: the contract is not active, one of
/// the amounts is zero, or each amount alone is refused.
pub open spec fn fundings_compose(contract: VestingContractInfo, first: u64, second: u64) -> bool {
    ||| contract.spec_fund((first + second) as u64) is Ok
    ||| !contract.is_active
    ||| first == 0
    ||| second == 0
    ||| (contract.spec_fund(first) is Err && contract.spec_fund(second) is Err)
}

/// Funding with one amount and then with another is funding with their sum: the
/// contract ends up the same, and where the sum is accepted so are both parts. This
/// holds exactly of the fundings that compose.
pub proof fn lemma_fundings_add_up(contract: VestingContractInfo, first: u64, second: u64)
    requires
        first + second <= u64::MAX,
    ensures
        fundings_compose(contract, first, second) <==> after_funding(
            after_funding(contract, first),
            second,
        ) == after_funding(contract, (first + second) as u64),
        contract.spec_fund((first + second) as u64) is Ok <==> contract.spec_fund(first) is Ok
            && after_funding(contract, first).spec_fund(second) is Ok,
{
}

/// The records of a book have claimed no more than they assign, and what one record
/// has outstanding is part of what all of them have.
pub proof fn lemma_outstanding_is_bounded(records: Seq<VestingRecordInfo>, i: int)
    requires
        0 <= i < records.len(),
        forall|j: int| 0 <= j < records.len() ==> (#[trigger] records[j]).wf(),
    ensures
        0 <= records[i].outstanding() <= sum_assigned(records) - sum_claimed(records),
    decreases records.len(),
{
    let rest = records.drop_last();
    assert forall|j: int| 0 <= j < rest.len() implies (#[trigger] rest[j]).wf() by {
        assert(rest[j] == records[j]);
    }
    assert(records.last().wf());
    assert(records[i].wf());
    if rest.len() == 0 {
        assert(sum_assigned(rest) == 0);
        assert(sum_claimed(rest) == 0);
    } else if i < rest.len() {
        lemma_outstanding_is_bounded(rest, i);
        assert(rest[i] == records[i]);
    } else {
        lemma_outstanding_is_bounded(rest, 0);
    }
}

/// On a consistent book, a claim on a cliff record whose schedule is in order is
/// never refused for a counter out of range: it is accepted, or refused for a reason
/// of the schedule or of the contract.
pub proof fn lemma_cliff_claim_never_overflows(book: Book, i: int, current_time: i64)
    requires
        book.inv(),
        0 <= i < book.records.len(),
        book.records[i].vesting_type == VestingType::CliffVesting,
        book.records[i].schedule_is_ordered(),
    ensures
        spec_claim(book.contract, book.records[i], current_time) != Err::<
            (VestingContractInfo, VestingRecordInfo, u64),
            ErrorCode,
        >(ErrorCode::NumericalOverflow),
{
    lemma_outstanding_is_bounded(book.records, i);
    assert(book.records[i].wf());
}

/// What a linear schedule has released never shrinks as time goes on, so that a
/// claim at a later time than the last one is never refused because less has vested
/// than was claimed.
pub proof fn lemma_linear_vested_is_monotone(record: VestingRecordInfo, earlier: i64, later: i64)
    requires
        record.start_time <= earlier <= later,
    ensures
        spec_linear_vested(record, earlier) <= spec_linear_vested(record, later),
{
    lemma_linear_vested_is_bounded(record, earlier);
    if later < record.end_time {
        let total = record.total_vested_tokens as int;
        let duration = record.end_time - record.start_time;
        lemma_mul_inequality(earlier - record.start_time, later - record.start_time, total);
        assert(total * (earlier - record.start_time) == (earlier - record.start_time) * total)
            by (nonlinear_arith);
        assert(total * (later - record.start_time) == (later - record.start_time) * total)
            by (nonlinear_arith);
        lemma_div_is_ordered(
            total * (earlier - record.start_time),
            total * (later - record.start_time),
            duration,
        );
    }
}

/// Every step but a claim keeps a consistent contract consistent, whatever the
/// records are.
pub proof fn lemma_steps_preserve_contract(
    contract: VestingContractInfo,
    amount: u64,
    code: u8,
    vault_amount: u64,
)
    requires
        contract.wf(),
    ensures
        contract.spec_fund(amount) is Ok ==> contract.spec_fund(amount)->Ok_0.wf(),
        spec_assignment_error(contract, code, amount) is None ==> spec_contract_after_assignment(
            contract,
            amount,
        ).wf(),
        spec_revocation_error(contract, vault_amount) is None ==> spec_revoked(contract).wf(),
{
}

/// One instruction on a contract, as far as it concerns the book.
pub enum Step {
    /// A funding of the amount, by deposit or by mint.
    Fund(u64),
    /// An assignment under the type code, which opened the record.
    Assign(u8, VestingRecordInfo),
    /// A claim on the record with this index, at this time.
    Claim(int, i64),
    /// A revocation.
    Revoke,
}

/// Whether a record is one that an assignment under the type code has just written:
/// its schedule is the one that the code stands for, nothing is claimed on it, and
/// it allows several claims exactly on a linear schedule.
pub open spec fn just_assigned(code: u8, record: VestingRecordInfo) -> bool {
    &&& spec_vesting_type(code) == Some(record.vesting_type)
    &&& record.total_claimed_tokens_by_beneficiary == 0
    &&& !record.has_claimed
    &&& record.claim_multiple == (record.vesting_type == VestingType::LinearVesting)
}

impl Book {
    /// The book after one instruction, where the program accepts it and the ledger
    /// performs its transfer; `None` where it is refused.
    pub open spec fn step(self, step: Step) -> Option<Book> {
        match step {
            Step::Fund(amount) => self.funded(amount),
            Step::Assign(code, record) => if just_assigned(code, record) {
                self.assigned(code, record)
            } else {
                None
            },
            Step::Claim(i, current_time) => if 0 <= i < self.records.len() {
                self.claimed(i, current_time)
            } else {
                None
            },
            Step::Revoke => self.revoked(),
        }
    }

    /// The book after a list of instructions, each of which changes the book where
    /// it is accepted and leaves it as it is where it is refused.
    pub open spec fn run(self, steps: Seq<Step>) -> Book
        decreases steps.len(),
    {
        if steps.len() == 0 {
            self
        } else {
            match self.run(steps.drop_last()).step(steps.last()) {
                Some(next) => next,
                None => self.run(steps.drop_last()),
            }
        }
    }
}

/// The record that an assignment writes is one that was just assigned.
pub proof fn lemma_assigned_record_is_fresh(
    accounts: InitializeBeneficiary,
    code: u8,
    cliff_period: i64,
    start_time: i64,
    end_time: i64,
    vesting_amount: u64,
)
    requires
        spec_vesting_type(code) is Some,
    ensures
        just_assigned(
            code,
            accounts.spec_assigned(
                spec_vesting_type(code)->Some_0,
                cliff_period,
                start_time,
                end_time,
                vesting_amount,
            ),
        ),
        accounts.spec_assigned(
            spec_vesting_type(code)->Some_0,
            cliff_period,
            start_time,
            end_time,
            vesting_amount,
        ).total_vested_tokens == vesting_amount,
{
}

/// Every accepted instruction keeps a consistent book consistent.
pub proof fn lemma_step_preserves_inv(book: Book, step: Step)
    requires
        book.inv(),
        book.step(step) is Some,
    ensures
        book.step(step)->Some_0.inv(),
{
    match step {
        Step::Fund(amount) => {
            lemma_funding_preserves_inv(book, amount);
        },
        Step::Assign(code, record) => {
            lemma_assignment_preserves_inv(book, code, record);
        },
        Step::Claim(i, current_time) => {
            lemma_claim_preserves_inv(book, i, current_time);
        },
        Step::Revoke => {
            lemma_revocation_preserves_inv(book);
        },
    }
}

/// Whatever instructions follow one another, a consistent book stays consistent.
pub proof fn lemma_run_preserves_inv(book: Book, steps: Seq<Step>)
    requires
        book.inv(),
    ensures
        book.run(steps).inv(),
    decreases steps.len(),
{
    if steps.len() > 0 {
        lemma_run_preserves_inv(book, steps.drop_last());
        let before = book.run(steps.drop_last());
        if before.step(steps.last()) is Some {
            lemma_step_preserves_inv(before, steps.last());
        }
    }
}

/// Every book that a freshly opened contract can reach is consistent: at every
/// moment the claimed total is the sum over the records, no record has claimed more
/// than it assigns, "fully claimed" agrees with the counters, a revoked contract is
/// not active, and the vault holds what is due.
pub proof fn lemma_reachable_books_are_consistent(contract: VestingContractInfo, steps: Seq<Step>)
    requires
        contract.total_vested_tokens == 0,
        contract.total_available_tokens == 0,
        contract.total_locked_tokens == 0,
        contract.total_claimed_tokens == 0,
        contract.is_active,
        !contract.is_revoked,
        !contract.fully_claimed,
    ensures
        Book::opened(contract).run(steps).inv(),
{
    lemma_opened_book_is_consistent(contract);
    lemma_run_preserves_inv(Book::opened(contract), steps);
}

/// What the vault of a contract is to hold: what was funded and not claimed, or
/// nothing once the contract is revoked.
pub open spec fn vault_due(contract: VestingContractInfo) -> int {
    if contract.is_revoked {
        0
    } else {
        contract.total_vested_tokens - contract.total_claimed_tokens
    }
}

/// After an accepted deposit whose transfer the ledger has performed, the vault
/// holds what is due, if it did before.
pub proof fn lemma_vault_after_deposit(ledger: Ledger, accounts: DepositTokens, amount: u64)
    requires
        accounts.company_ata.key != accounts.vault.key,
        accounts.vesting_contract_info.data.wf(),
        accounts.vesting_contract_info.data.spec_fund(amount) is Ok,
        ledger.balance(accounts.vault.key) == vault_due(accounts.vesting_contract_info.data),
        ledger.transfer_checked(accounts.spec_deposit(amount)) is Some,
    ensures
        ledger.transfer_checked(accounts.spec_deposit(amount))->Some_0.balance(accounts.vault.key)
            == vault_due(accounts.vesting_contract_info.data.spec_fund(amount)->Ok_0),
{
    lemma_transfer_moves_amount(ledger, accounts.spec_deposit(amount));
}

/// After an accepted funding by mint whose instruction the ledger has performed,
/// the vault holds what is due, if it did before.
pub proof fn lemma_vault_after_mint(ledger: Ledger, accounts: MintTokens, amount: u64)
    requires
        accounts.vesting_contract_info.data.wf(),
        accounts.vesting_contract_info.data.spec_fund(amount) is Ok,
        ledger.balance(accounts.vault.key) == vault_due(accounts.vesting_contract_info.data),
        ledger.mint_to(
            spec_mint_into(accounts.mint.key, accounts.vault.key, accounts.creator, amount),
        ) is Some,
    ensures
        ledger.mint_to(
            spec_mint_into(accounts.mint.key, accounts.vault.key, accounts.creator, amount),
        )->Some_0.balance(accounts.vault.key) == vault_due(
            accounts.vesting_contract_info.data.spec_fund(amount)->Ok_0,
        ),
{
    lemma_mint_adds_amount(
        ledger,
        spec_mint_into(accounts.mint.key, accounts.vault.key, accounts.creator, amount),
    );
}

/// After an accepted claim whose transfer the ledger has performed, the vault holds
/// what is due, if it did before.
pub proof fn lemma_vault_after_claim(ledger: Ledger, accounts: ClaimTokens, current_time: i64)
    requires
        accounts.beneficiary_ata.key != accounts.vault.key,
        accounts.vesting_contract_info.data.wf(),
        spec_claim(
            accounts.vesting_contract_info.data,
            accounts.vesting_record_info.data,
            current_time,
        ) is Ok,
        ledger.balance(accounts.vault.key) == vault_due(accounts.vesting_contract_info.data),
        ledger.transfer_checked(
            accounts.spec_release(
                spec_claim(
                    accounts.vesting_contract_info.data,
                    accounts.vesting_record_info.data,
                    current_time,
                )->Ok_0.2,
            ),
        ) is Some,
    ensures
        ledger.transfer_checked(
            accounts.spec_release(
                spec_claim(
                    accounts.vesting_contract_info.data,
                    accounts.vesting_record_info.data,
                    current_time,
                )->Ok_0.2,
            ),
        )->Some_0.balance(accounts.vault.key) == vault_due(
            spec_claim(
                accounts.vesting_contract_info.data,
                accounts.vesting_record_info.data,
                current_time,
            )->Ok_0.0,
        ),
{
    let amount = spec_claim(
        accounts.vesting_contract_info.data,
        accounts.vesting_record_info.data,
        current_time,
    )->Ok_0.2;
    lemma_transfer_moves_amount(ledger, accounts.spec_release(amount));
}

/// After an accepted revocation whose transfer the ledger has performed, the vault
/// is empty, whatever it held, provided the accounts show the vault as the ledger
/// holds it.
pub proof fn lemma_vault_after_revocation(
    ledger: Ledger,
    accounts: RevokeVesting,
    company_name: Seq<char>,
)
    requires
        accounts.company_ata.key != accounts.vault.key,
        ledger.holds(accounts.vault),
        spec_revocation_error(accounts.vesting_contract_info.data, accounts.vault.amount) is None,
        ledger.transfer_checked(accounts.spec_return(company_name)) is Some,
    ensures
        ledger.transfer_checked(accounts.spec_return(company_name))->Some_0.balance(
            accounts.vault.key,
        ) == 0,
        vault_due(spec_revoked(accounts.vesting_contract_info.data)) == 0,
        ledger.transfer_checked(accounts.spec_return(company_name))->Some_0.balance(
            accounts.company_ata.key,
        ) == ledger.balance(accounts.company_ata.key) + accounts.vault.amount,
{
    lemma_transfer_moves_amount(ledger, accounts.spec_return(company_name));
}

/// The transfer that pays a claim is signed for the contract: where the contract
/// sits at the address that its stored name, the creator, the mint and its stored
/// bump seed derive, the seeds of the transfer sign for the transfer's authority.
pub proof fn lemma_release_is_signed(accounts: ClaimTokens, program_id: Seq<u8>, amount: u64)
    requires
        derives_with_bump(
            spec_vesting_contract_seeds(
                accounts.vesting_contract_info.data.company_name@,
                accounts.creator,
                accounts.mint.key,
            ),
            accounts.vesting_contract_info.data.bump,
            program_id,
            accounts.vesting_contract_info.key@,
        ),
    ensures
        spec_signs_for(
            accounts.spec_release(amount).signer_seeds,
            program_id,
            accounts.spec_release(amount).authority@,
        ),
{
}

/// The transfer that returns the vault on revocation is signed for the contract:
/// where the contract sits at the address that the company name given, the creator,
/// the mint and the contract's stored bump seed derive, the seeds of the transfer
/// sign for the transfer's authority.
pub proof fn lemma_return_is_signed(
    accounts: RevokeVesting,
    program_id: Seq<u8>,
    company_name: Seq<char>,
)
    requires
        derives_with_bump(
            spec_vesting_contract_seeds(company_name, accounts.creator, accounts.mint.key),
            accounts.vesting_contract_info.data.bump,
            program_id,
            accounts.vesting_contract_info.key@,
        ),
    ensures
        spec_signs_for(
            accounts.spec_return(company_name).signer_seeds,
            program_id,
            accounts.spec_return(company_name).authority@,
        ),
{
}

} // verus!
