use vesting_escrow::account::Account;
use vesting_escrow::address::Address;
use vesting_escrow::token::{Action, Mint, TokenAccount, TransferChecked};
use vesting_escrow::vesting::claim_tokens::{claimable_tokens, linear_share, ClaimTokens};
use vesting_escrow::vesting::deposit_tokens::DepositTokens;
use vesting_escrow::vesting::error::{AccountError, ErrorCode, Refusal};
use vesting_escrow::vesting::init_beneficiary::{
    vesting_type_of, InitializeBeneficiary, InitializeBeneficiaryBumps,
};
use vesting_escrow::vesting::init_beneficiary_ata::{InitBeneficiaryAta, InitializeBeneficiaryATA};
use vesting_escrow::vesting::init_vesting::{name_fits, InitializeVesting, InitializeVestingBumps};
use vesting_escrow::vesting::mint_tokens::{MintToken, MintTokens};
use vesting_escrow::vesting::revoke_vesting::RevokeVesting;
use vesting_escrow::vesting::state::{VestingContractInfo, VestingRecordInfo, VestingType};
use vesting_escrow::vesting::{
    claim_tokens, deposit_tokens, initialize_beneficiary, initialize_beneficiary_ata,
    initialize_vesting, mint_tokens, revoke_vesting,
};

fn addr(n: u8) -> Address {
    Address::new([n; 32])
}

const CREATOR: u8 = 1;
const MINT: u8 = 2;
const CONTRACT: u8 = 3;
const VAULT: u8 = 4;
const COMPANY_ATA: u8 = 5;
const BENEFICIARY: u8 = 6;
const BENEFICIARY_ATA: u8 = 7;
const RECORD: u8 = 8;

fn mint() -> Mint {
    Mint { key: addr(MINT), mint_authority: Some(addr(CREATOR)), decimals: 6 }
}

fn token(key: u8, owner: u8, amount: u64) -> TokenAccount {
    TokenAccount { key: addr(key), mint: addr(MINT), owner: addr(owner), amount }
}

fn blank_contract() -> VestingContractInfo {
    VestingContractInfo {
        creator: addr(0),
        company_name: String::new(),
        mint: addr(0),
        total_vested_tokens: 0,
        total_available_tokens: 0,
        total_locked_tokens: 0,
        total_claimed_tokens: 0,
        vault_account: addr(0),
        created_at: 0,
        vault_bump: 0,
        bump: 0,
        is_active: false,
        revocable: false,
        is_revoked: false,
        fully_claimed: false,
    }
}

fn blank_record() -> VestingRecordInfo {
    VestingRecordInfo {
        beneficiary: addr(0),
        mint: addr(0),
        total_vested_tokens: 0,
        total_claimed_tokens_by_beneficiary: 0,
        vesting_type: VestingType::CliffVesting,
        cliff_period: 0,
        vault_bump: 0,
        vesting_contract_info_bump: 0,
        bump: 9,
        beneficiary_ata: addr(0),
        has_claimed: false,
        claim_multiple: false,
        start_time: 0,
        end_time: 0,
    }
}

fn open(name: &str, revocable: bool) -> VestingContractInfo {
    let mut accounts = InitializeVesting {
        creator: addr(CREATOR),
        mint: mint(),
        vesting_contract_info: Account { key: addr(CONTRACT), data: blank_contract() },
        vault: token(VAULT, CONTRACT, 0),
        company_ata: token(COMPANY_ATA, CREATOR, 0),
    };
    let bumps = InitializeVestingBumps { vesting_contract_info: 254, vault: 253 };
    let actions =
        initialize_vesting(&mut accounts, &bumps, name.to_string(), revocable, 1_699_000_000)
            .expect("the contract opens");
    assert!(actions.is_empty());
    accounts.vesting_contract_info.data
}

fn deposit(contract: VestingContractInfo, amount: u64) -> Result<(VestingContractInfo, Vec<Action>), Refusal> {
    let name = contract.company_name.clone();
    let mut accounts = DepositTokens {
        creator: addr(CREATOR),
        mint: mint(),
        vesting_contract_info: Account { key: addr(CONTRACT), data: contract },
        vault: token(VAULT, CONTRACT, 0),
        company_ata: token(COMPANY_ATA, CREATOR, u64::MAX),
    };
    let actions = deposit_tokens(&mut accounts, amount, name)?;
    Ok((accounts.vesting_contract_info.data, actions))
}

fn mint_into(contract: VestingContractInfo, amount: u64) -> Result<(VestingContractInfo, Vec<Action>), Refusal> {
    let name = contract.company_name.clone();
    let mut accounts = MintTokens {
        creator: addr(CREATOR),
        mint: mint(),
        vesting_contract_info: Account { key: addr(CONTRACT), data: contract },
        vault: token(VAULT, CONTRACT, 0),
    };
    let actions = mint_tokens(&mut accounts, amount, name)?;
    Ok((accounts.vesting_contract_info.data, actions))
}

fn assign(
    contract: VestingContractInfo,
    vesting_type: u8,
    cliff: i64,
    start: i64,
    end: i64,
    amount: u64,
) -> Result<(VestingContractInfo, VestingRecordInfo), Refusal> {
    let name = contract.company_name.clone();
    let mut accounts = InitializeBeneficiary {
        creator: addr(CREATOR),
        beneficiary: addr(BENEFICIARY),
        mint: mint(),
        vesting_contract_info: Account { key: addr(CONTRACT), data: contract },
        vesting_record_info: Account { key: addr(RECORD), data: blank_record() },
        beneficiary_ata: token(BENEFICIARY_ATA, BENEFICIARY, 0),
    };
    let bumps = InitializeBeneficiaryBumps { vesting_contract_info: 254, vesting_record_info: 252 };
    let actions = initialize_beneficiary(
        &mut accounts,
        &bumps,
        name,
        vesting_type,
        cliff,
        start,
        end,
        amount,
    )?;
    assert!(actions.is_empty());
    Ok((accounts.vesting_contract_info.data, accounts.vesting_record_info.data))
}

fn claim_accounts(contract: &VestingContractInfo, record: &VestingRecordInfo) -> ClaimTokens {
    ClaimTokens {
        beneficiary: addr(BENEFICIARY),
        creator: addr(CREATOR),
        mint: mint(),
        vesting_contract_info: Account { key: addr(CONTRACT), data: contract.clone() },
        vesting_record_info: Account { key: addr(RECORD), data: *record },
        vault: token(VAULT, CONTRACT, 0),
        beneficiary_ata: token(BENEFICIARY_ATA, BENEFICIARY, 0),
    }
}

/// Claims at `now` and, where the claim is accepted, stores the new contract and
/// record and returns the amount of the one transfer asked for.
fn claim(
    contract: &mut VestingContractInfo,
    record: &mut VestingRecordInfo,
    now: i64,
) -> Result<u64, Refusal> {
    let mut accounts = claim_accounts(contract, record);
    let name = contract.company_name.clone();
    let actions = claim_tokens(&mut accounts, name, now)?;
    assert_eq!(actions.len(), 1);
    let amount = match &actions[0] {
        Action::TransferChecked(t) => {
            assert_eq!(t.from, addr(VAULT));
            assert_eq!(t.to, addr(BENEFICIARY_ATA));
            assert_eq!(t.mint, addr(MINT));
            assert_eq!(t.authority, addr(CONTRACT));
            assert_eq!(t.decimals, 6);
            t.amount
        },
        other => panic!("unexpected action {:?}", other),
    };
    *contract = accounts.vesting_contract_info.data;
    *record = accounts.vesting_record_info.data;
    Ok(amount)
}

fn revoke(contract: VestingContractInfo, vault_amount: u64) -> Result<(VestingContractInfo, Vec<Action>), Refusal> {
    let name = contract.company_name.clone();
    let mut accounts = RevokeVesting {
        creator: addr(CREATOR),
        mint: mint(),
        vesting_contract_info: Account { key: addr(CONTRACT), data: contract },
        vault: token(VAULT, CONTRACT, vault_amount),
        company_ata: token(COMPANY_ATA, CREATOR, 0),
    };
    let actions = revoke_vesting(&mut accounts, name)?;
    Ok((accounts.vesting_contract_info.data, actions))
}

fn program(e: ErrorCode) -> Refusal {
    Refusal::Program(e)
}

fn acme_with_cliff() -> (VestingContractInfo, VestingRecordInfo) {
    let contract = open("Acme", true);
    let (contract, _) = deposit(contract, 1_000_000_000).expect("the deposit is accepted");
    assign(contract, 0, 2_592_000, 1_700_000_000, 1_731_536_000, 400_000_000)
        .expect("the assignment is accepted")
}

#[test]
fn opened_contract_is_fresh() {
    let contract = open("Acme", true);
    assert_eq!(contract.creator, addr(CREATOR));
    assert_eq!(contract.company_name, "Acme");
    assert_eq!(contract.mint, addr(MINT));
    assert_eq!(contract.vault_account, addr(VAULT));
    assert_eq!(contract.created_at, 1_699_000_000);
    assert_eq!(contract.bump, 254);
    assert_eq!(contract.vault_bump, 253);
    assert_eq!(
        (
            contract.total_vested_tokens,
            contract.total_available_tokens,
            contract.total_locked_tokens,
            contract.total_claimed_tokens
        ),
        (0, 0, 0, 0)
    );
    assert!(contract.is_active);
    assert!(contract.revocable);
    assert!(!contract.is_revoked);
    assert!(!contract.fully_claimed);
}

#[test]
fn opening_needs_the_mint_authority() {
    let mut accounts = InitializeVesting {
        creator: addr(CREATOR),
        mint: Mint { key: addr(MINT), mint_authority: Some(addr(99)), decimals: 6 },
        vesting_contract_info: Account { key: addr(CONTRACT), data: blank_contract() },
        vault: token(VAULT, CONTRACT, 0),
        company_ata: token(COMPANY_ATA, CREATOR, 0),
    };
    let before = accounts.clone();
    let bumps = InitializeVestingBumps { vesting_contract_info: 254, vault: 253 };
    let r = initialize_vesting(&mut accounts, &bumps, "Acme".to_string(), true, 0);
    assert_eq!(r, Err(Refusal::Accounts(AccountError::MintAuthorityMismatch)));
    assert_eq!(accounts, before);
    accounts.mint.mint_authority = None;
    let r = initialize_vesting(&mut accounts, &bumps, "Acme".to_string(), true, 0);
    assert_eq!(r, Err(Refusal::Accounts(AccountError::MintAuthorityMismatch)));
}

#[test]
fn company_name_of_more_than_fifty_bytes_is_refused() {
    let fifty = "x".repeat(50);
    assert!(name_fits(&fifty));
    assert!(!name_fits(&"x".repeat(51)));
    // Seventeen letters of three bytes each.
    assert!(!name_fits(&"\u{20ac}".repeat(17)));
    assert!(name_fits(&"\u{20ac}".repeat(16)));
    assert_eq!(open(&fifty, true).company_name, fifty);
    let mut accounts = InitializeVesting {
        creator: addr(CREATOR),
        mint: mint(),
        vesting_contract_info: Account { key: addr(CONTRACT), data: blank_contract() },
        vault: token(VAULT, CONTRACT, 0),
        company_ata: token(COMPANY_ATA, CREATOR, 0),
    };
    let before = accounts.clone();
    let bumps = InitializeVestingBumps { vesting_contract_info: 254, vault: 253 };
    assert_eq!(
        initialize_vesting(&mut accounts, &bumps, "x".repeat(51), true, 0),
        Err(Refusal::Accounts(AccountError::CompanyNameTooLong))
    );
    assert_eq!(accounts, before);
    // The method itself stores any name.
    assert_eq!(accounts.initialize_vesting("x".repeat(51), true, &bumps, 0), Ok(()));
}

#[test]
fn deposit_grows_funded_and_unassigned_totals() {
    let contract = open("Acme", true);
    let (contract, actions) = deposit(contract, 1_000_000_000).expect("accepted");
    assert_eq!(contract.total_vested_tokens, 1_000_000_000);
    assert_eq!(contract.total_available_tokens, 1_000_000_000);
    assert_eq!(contract.total_locked_tokens, 0);
    assert_eq!(contract.total_claimed_tokens, 0);
    assert_eq!(
        actions,
        vec![Action::TransferChecked(TransferChecked {
            from: addr(COMPANY_ATA),
            to: addr(VAULT),
            mint: addr(MINT),
            authority: addr(CREATOR),
            amount: 1_000_000_000,
            decimals: 6,
            signer_seeds: vec![],
        })]
    );
}

#[test]
fn mint_grows_funded_and_unassigned_totals() {
    let contract = open("LinCo", false);
    let (contract, actions) = mint_into(contract, 1_000_000_000).expect("accepted");
    assert_eq!(contract.total_vested_tokens, 1_000_000_000);
    assert_eq!(contract.total_available_tokens, 1_000_000_000);
    assert_eq!(actions.len(), 1);
    match &actions[0] {
        Action::MintTo(m) => {
            assert_eq!(m.mint, addr(MINT));
            assert_eq!(m.to, addr(VAULT));
            assert_eq!(m.authority, addr(CREATOR));
            assert_eq!(m.amount, 1_000_000_000);
        },
        other => panic!("unexpected action {:?}", other),
    }
}

#[test]
fn process_mint_tokens_funds_like_mint_tokens() {
    let contract = open("LinCo", false);
    let mut accounts = MintToken {
        creator: addr(CREATOR),
        mint: mint(),
        vesting_contract_info: Account { key: addr(CONTRACT), data: contract },
        vault: token(VAULT, CONTRACT, 0),
    };
    let m = accounts.process_mint_tokens(250, "LinCo".to_string()).expect("accepted");
    assert_eq!(m.amount, 250);
    assert_eq!(m.to, addr(VAULT));
    assert_eq!(accounts.vesting_contract_info.data.total_vested_tokens, 250);
    assert_eq!(accounts.vesting_contract_info.data.total_available_tokens, 250);
    assert_eq!(accounts.validate(), Ok(()));
}

#[test]
fn funding_overflow_is_refused_and_changes_nothing() {
    let contract = open("Acme", true);
    let (contract, _) = deposit(contract, u64::MAX - 5).expect("accepted");
    let before = contract.clone();
    assert_eq!(deposit(contract.clone(), 6).unwrap_err(), program(ErrorCode::NumericalOverflow));
    assert_eq!(mint_into(contract.clone(), 6).unwrap_err(), program(ErrorCode::NumericalOverflow));
    let mut accounts = DepositTokens {
        creator: addr(CREATOR),
        mint: mint(),
        vesting_contract_info: Account { key: addr(CONTRACT), data: contract },
        vault: token(VAULT, CONTRACT, 0),
        company_ata: token(COMPANY_ATA, CREATOR, 10),
    };
    assert_eq!(
        accounts.deposit_tokens(6, "Acme".to_string()),
        Err(ErrorCode::NumericalOverflow)
    );
    assert_eq!(accounts.vesting_contract_info.data, before);
    assert!(accounts.deposit_tokens(5, "Acme".to_string()).is_ok());
    assert_eq!(accounts.vesting_contract_info.data.total_vested_tokens, u64::MAX);
}

#[test]
fn unassigned_total_overflow_is_refused() {
    let mut contract = open("Acme", true);
    contract.total_available_tokens = u64::MAX;
    assert_eq!(contract.fund(1), Err(ErrorCode::NumericalOverflow));
    assert_eq!(contract.total_vested_tokens, 0);
    assert_eq!(contract.total_available_tokens, u64::MAX);
}

#[test]
fn funding_needs_an_active_contract() {
    let contract = open("Acme", true);
    let (contract, _) = deposit(contract, 10).expect("accepted");
    let (revoked, _) = revoke(contract, 10).expect("accepted");
    assert_eq!(deposit(revoked.clone(), 1).unwrap_err(), program(ErrorCode::VestingNotActive));
    assert_eq!(mint_into(revoked, 1).unwrap_err(), program(ErrorCode::VestingNotActive));
}

#[test]
fn funding_needs_the_creator_of_the_contract() {
    let mut contract = open("Acme", true);
    contract.creator = addr(77);
    assert_eq!(
        deposit(contract.clone(), 1).unwrap_err(),
        Refusal::Accounts(AccountError::CreatorMismatch)
    );
    assert_eq!(
        mint_into(contract.clone(), 1).unwrap_err(),
        Refusal::Accounts(AccountError::CreatorMismatch)
    );
    assert_eq!(
        revoke(contract.clone(), 1).unwrap_err(),
        Refusal::Accounts(AccountError::CreatorMismatch)
    );
    assert_eq!(
        assign(contract, 0, 0, 0, 1, 0).unwrap_err(),
        Refusal::Accounts(AccountError::CreatorMismatch)
    );
}

#[test]
fn two_deposits_equal_one_deposit_of_the_sum() {
    let contract = open("Acme", true);
    let (one, first) = deposit(contract.clone(), 300).expect("accepted");
    let (two, second) = deposit(one, 700).expect("accepted");
    let (sum, both) = deposit(contract, 1_000).expect("accepted");
    assert_eq!(two, sum);
    let moved = |actions: &Vec<Action>| match &actions[0] {
        Action::TransferChecked(t) => t.amount,
        other => panic!("unexpected action {:?}", other),
    };
    assert_eq!(moved(&first) + moved(&second), moved(&both));
}

#[test]
fn two_deposits_differ_from_their_sum_when_only_the_first_fits() {
    let contract = open("Acme", true);
    let (contract, _) = deposit(contract, u64::MAX - 5).expect("accepted");
    let (after_first, _) = deposit(contract.clone(), 3).expect("accepted");
    assert!(deposit(after_first.clone(), 4).is_err());
    assert!(deposit(contract.clone(), 7).is_err());
    assert_ne!(after_first, contract);
}

#[test]
fn assignment_moves_tokens_from_unassigned_to_locked() {
    let (contract, record) = acme_with_cliff();
    assert_eq!(contract.total_vested_tokens, 1_000_000_000);
    assert_eq!(contract.total_available_tokens, 600_000_000);
    assert_eq!(contract.total_locked_tokens, 400_000_000);
    assert_eq!(contract.total_claimed_tokens, 0);
    assert_eq!(
        record,
        VestingRecordInfo {
            beneficiary: addr(BENEFICIARY),
            mint: addr(MINT),
            total_vested_tokens: 400_000_000,
            total_claimed_tokens_by_beneficiary: 0,
            vesting_type: VestingType::CliffVesting,
            cliff_period: 2_592_000,
            vault_bump: 253,
            vesting_contract_info_bump: 254,
            bump: 252,
            beneficiary_ata: addr(BENEFICIARY_ATA),
            has_claimed: false,
            claim_multiple: false,
            start_time: 1_700_000_000,
            end_time: 1_731_536_000,
        }
    );
}

#[test]
fn linear_assignment_allows_several_claims() {
    let contract = open("LinCo", false);
    let (contract, _) = mint_into(contract, 10).expect("accepted");
    let (_, record) = assign(contract, 1, 0, 1000, 2000, 10).expect("accepted");
    assert_eq!(record.vesting_type, VestingType::LinearVesting);
    assert!(record.claim_multiple);
    assert!(!record.has_claimed);
}

#[test]
fn type_codes() {
    assert_eq!(vesting_type_of(0), Some(VestingType::CliffVesting));
    assert_eq!(vesting_type_of(1), Some(VestingType::LinearVesting));
    assert_eq!(vesting_type_of(2), None);
    assert_eq!(vesting_type_of(255), None);
}

#[test]
fn assignment_with_unknown_type_is_refused() {
    let contract = open("Acme", true);
    let (contract, _) = deposit(contract, 100).expect("accepted");
    assert_eq!(
        assign(contract.clone(), 2, 0, 0, 10, 50).unwrap_err(),
        program(ErrorCode::InvalidVestingType)
    );
    // Too few unassigned tokens is found before the type code is read.
    assert_eq!(
        assign(contract, 2, 0, 0, 10, 101).unwrap_err(),
        program(ErrorCode::NoAvailableTokensToVest)
    );
}

#[test]
fn assignment_that_overflows_the_locked_total_is_refused() {
    let mut contract = open("Acme", true);
    contract.total_available_tokens = 10;
    contract.total_locked_tokens = u64::MAX - 3;
    let mut accounts = InitializeBeneficiary {
        creator: addr(CREATOR),
        beneficiary: addr(BENEFICIARY),
        mint: mint(),
        vesting_contract_info: Account { key: addr(CONTRACT), data: contract },
        vesting_record_info: Account { key: addr(RECORD), data: blank_record() },
        beneficiary_ata: token(BENEFICIARY_ATA, BENEFICIARY, 0),
    };
    let before = accounts.clone();
    assert_eq!(
        accounts.initialize_beneficiary("Acme".to_string(), 0, 0, 0, 10, 4),
        Err(ErrorCode::NumericalOverflow)
    );
    assert_eq!(accounts, before);
    assert_eq!(accounts.initialize_beneficiary("Acme".to_string(), 0, 0, 0, 10, 3), Ok(()));
    // The method keeps the bump seed that the record held.
    assert_eq!(accounts.vesting_record_info.data.bump, 9);
    assert_eq!(accounts.vesting_contract_info.data.total_locked_tokens, u64::MAX);
    assert_eq!(accounts.vesting_contract_info.data.total_available_tokens, 7);
}

#[test]
fn over_allocation_is_refused() {
    let contract = open("Acme", true);
    let (contract, _) = deposit(contract, 600_000_000).expect("accepted");
    let (contract, _) = assign(contract, 0, 0, 0, 10, 500_000_000).expect("accepted");
    let before = contract.clone();
    assert_eq!(
        assign(contract.clone(), 0, 0, 0, 10, 500_000_000).unwrap_err(),
        program(ErrorCode::NoAvailableTokensToVest)
    );
    assert_eq!(contract, before);
    assert_eq!(contract.total_available_tokens, 100_000_000);
    assert!(assign(contract, 0, 0, 0, 10, 100_000_000).is_ok());
}

#[test]
fn cliff_happy_path() {
    let (mut contract, mut record) = acme_with_cliff();
    // One second before the cliff is over.
    assert_eq!(
        claim(&mut contract, &mut record, 1_702_591_999),
        Err(program(ErrorCode::CliffPeriodNotOver))
    );
    assert_eq!(record.total_claimed_tokens_by_beneficiary, 0);
    assert_eq!(claim(&mut contract, &mut record, 1_702_592_001), Ok(400_000_000));
    assert_eq!(record.total_claimed_tokens_by_beneficiary, 400_000_000);
    assert!(record.has_claimed);
    assert_eq!(contract.total_claimed_tokens, 400_000_000);
    assert_eq!(contract.total_locked_tokens, 0);
    assert_eq!(contract.total_available_tokens, 600_000_000);
    assert!(contract.is_active);
    assert!(!contract.fully_claimed);
    assert_eq!(
        claim(&mut contract, &mut record, 1_702_592_002),
        Err(program(ErrorCode::TokensAlreadyClaimed))
    );
    assert_eq!(
        claim(&mut contract, &mut record, 1_800_000_000),
        Err(program(ErrorCode::TokensAlreadyClaimed))
    );
    assert_eq!(contract.total_claimed_tokens, 400_000_000);
}

#[test]
fn cliff_is_over_at_start_plus_cliff_period() {
    let (contract, record) = acme_with_cliff();
    let (mut c, mut r) = (contract.clone(), record);
    assert_eq!(claim(&mut c, &mut r, 1_702_592_000), Ok(400_000_000));
    // 1_702_600_000 lies 8000 seconds after the end of the cliff period.
    let (mut c, mut r) = (contract.clone(), record);
    assert_eq!(claim(&mut c, &mut r, 1_702_600_000), Ok(400_000_000));
    let (mut c, mut r) = (contract, record);
    assert_eq!(claim(&mut c, &mut r, 1_702_600_001), Ok(400_000_000));
}

#[test]
fn claim_before_start_is_refused() {
    let (mut contract, mut record) = acme_with_cliff();
    assert_eq!(
        claim(&mut contract, &mut record, 1_699_999_999),
        Err(program(ErrorCode::VestingNotStarted))
    );
    assert_eq!(
        claim(&mut contract, &mut record, 1_700_000_000),
        Err(program(ErrorCode::CliffPeriodNotOver))
    );
}

#[test]
fn cliff_unlock_time_overflow_is_refused() {
    let contract = open("Acme", true);
    let (contract, _) = deposit(contract, 10).expect("accepted");
    let (mut contract, mut record) = assign(contract, 0, i64::MAX, 1, 2, 10).expect("accepted");
    assert_eq!(claim(&mut contract, &mut record, 5), Err(program(ErrorCode::NumericalOverflow)));
}

fn linco() -> (VestingContractInfo, VestingRecordInfo) {
    let contract = open("LinCo", false);
    let (contract, _) = mint_into(contract, 1_000_000_000).expect("accepted");
    assign(contract, 1, 0, 1000, 2000, 1_000_000_000).expect("accepted")
}

#[test]
fn linear_partial_claims() {
    let (mut contract, mut record) = linco();
    assert_eq!(claim(&mut contract, &mut record, 1500), Ok(500_000_000));
    assert_eq!(record.total_claimed_tokens_by_beneficiary, 500_000_000);
    assert!(!record.has_claimed);
    assert_eq!(contract.total_locked_tokens, 500_000_000);
    assert_eq!(claim(&mut contract, &mut record, 1750), Ok(250_000_000));
    assert_eq!(record.total_claimed_tokens_by_beneficiary, 750_000_000);
    assert_eq!(claim(&mut contract, &mut record, 2500), Ok(250_000_000));
    assert_eq!(record.total_claimed_tokens_by_beneficiary, 1_000_000_000);
    assert!(record.has_claimed);
    assert_eq!(contract.total_claimed_tokens, 1_000_000_000);
    assert_eq!(contract.total_locked_tokens, 0);
    assert!(contract.fully_claimed);
    assert!(!contract.is_active);
    // Everything funded is claimed, so the contract is no longer active, and that is
    // what a further claim meets first.
    assert_eq!(claim(&mut contract, &mut record, 2600), Err(program(ErrorCode::VestingNotActive)));
}

#[test]
fn linear_record_with_nothing_left_is_refused_on_an_active_contract() {
    let contract = open("LinCo", false);
    let (contract, _) = mint_into(contract, 2_000_000_000).expect("accepted");
    let (mut contract, mut record) =
        assign(contract, 1, 0, 1000, 2000, 1_000_000_000).expect("accepted");
    assert_eq!(claim(&mut contract, &mut record, 2000), Ok(1_000_000_000));
    assert!(contract.is_active);
    assert!(record.has_claimed);
    assert_eq!(
        claim(&mut contract, &mut record, 2001),
        Err(program(ErrorCode::TokensAlreadyClaimed))
    );
}

#[test]
fn linear_claim_with_nothing_newly_vested_is_refused() {
    let (mut contract, mut record) = linco();
    assert_eq!(claim(&mut contract, &mut record, 1000), Err(program(ErrorCode::NoTokensToClaim)));
    assert_eq!(claim(&mut contract, &mut record, 1500), Ok(500_000_000));
    assert_eq!(claim(&mut contract, &mut record, 1500), Err(program(ErrorCode::NoTokensToClaim)));
    // The clock behind the last claim: less has vested than was claimed.
    assert_eq!(claim(&mut contract, &mut record, 1400), Err(program(ErrorCode::NumericalOverflow)));
    assert_eq!(record.total_claimed_tokens_by_beneficiary, 500_000_000);
}

#[test]
fn linear_share_rounds_down_and_does_not_overflow() {
    assert_eq!(linear_share(1_000_000_000, 500, 1000), 500_000_000);
    assert_eq!(linear_share(10, 1, 3), 3);
    assert_eq!(linear_share(10, 2, 3), 6);
    assert_eq!(linear_share(7, 0, 5), 0);
    assert_eq!(linear_share(u64::MAX, i64::MAX - 1, i64::MAX), u64::MAX - 3);
    assert_eq!(linear_share(u64::MAX, 1, 2), u64::MAX / 2);
}

#[test]
fn linear_claim_of_a_large_supply_over_a_long_time() {
    let contract = open("Big", false);
    let (contract, _) = mint_into(contract, u64::MAX).expect("accepted");
    let (mut contract, mut record) = assign(contract, 1, 0, 0, i64::MAX, u64::MAX).expect("accepted");
    assert_eq!(claim(&mut contract, &mut record, i64::MAX - 1), Ok(u64::MAX - 3));
    assert_eq!(claim(&mut contract, &mut record, i64::MAX), Ok(3));
    assert!(contract.fully_claimed);
}

#[test]
fn linear_duration_overflow_is_refused() {
    let contract = open("LinCo", false);
    let (contract, _) = mint_into(contract, 100).expect("accepted");
    let (mut contract, mut record) = assign(contract, 1, 0, -2, i64::MAX, 100).expect("accepted");
    assert_eq!(claim(&mut contract, &mut record, 0), Err(program(ErrorCode::NumericalOverflow)));
    let contract = open("LinCo", false);
    let (contract, _) = mint_into(contract, 100).expect("accepted");
    let (mut contract, mut record) = assign(contract, 1, 0, i64::MIN, 0, 100).expect("accepted");
    assert_eq!(claim(&mut contract, &mut record, 1), Err(program(ErrorCode::NumericalOverflow)));
}

#[test]
fn claim_at_the_boundaries_of_a_linear_schedule() {
    let (contract, record) = linco();
    let (mut c, mut r) = (contract.clone(), record);
    assert_eq!(claim(&mut c, &mut r, 999), Err(program(ErrorCode::VestingNotStarted)));
    let (mut c, mut r) = (contract.clone(), record);
    assert_eq!(claim(&mut c, &mut r, 1001), Ok(1_000_000));
    let (mut c, mut r) = (contract.clone(), record);
    assert_eq!(claim(&mut c, &mut r, 1999), Ok(999_000_000));
    let (mut c, mut r) = (contract, record);
    assert_eq!(claim(&mut c, &mut r, 2000), Ok(1_000_000_000));
    assert_eq!(r.total_claimed_tokens_by_beneficiary, r.total_vested_tokens);
}

#[test]
fn claim_counter_overflow_is_refused() {
    let (mut contract, record) = acme_with_cliff();
    contract.total_claimed_tokens = u64::MAX;
    let mut accounts = claim_accounts(&contract, &record);
    let before = accounts.clone();
    assert_eq!(
        accounts.claim_tokens("Acme".to_string(), 1_702_592_001),
        Err(ErrorCode::NumericalOverflow)
    );
    assert_eq!(accounts, before);

    let (mut contract, record) = acme_with_cliff();
    contract.total_locked_tokens = 399_999_999;
    let mut accounts = claim_accounts(&contract, &record);
    assert_eq!(
        accounts.claim_tokens("Acme".to_string(), 1_702_592_001),
        Err(ErrorCode::NumericalOverflow)
    );

    let (contract, mut record) = acme_with_cliff();
    record.total_claimed_tokens_by_beneficiary = u64::MAX;
    let mut accounts = claim_accounts(&contract, &record);
    assert_eq!(
        accounts.claim_tokens("Acme".to_string(), 1_702_592_001),
        Err(ErrorCode::NumericalOverflow)
    );
}

#[test]
fn claim_is_signed_with_the_seeds_of_the_contract() {
    let (contract, record) = acme_with_cliff();
    let mut accounts = claim_accounts(&contract, &record);
    let release = accounts.claim_tokens("Acme".to_string(), 1_702_592_001).expect("accepted");
    assert_eq!(
        release.signer_seeds,
        vec![b"Acme".to_vec(), vec![CREATOR; 32], vec![MINT; 32], vec![254u8]]
    );
}

#[test]
fn claim_needs_the_creator_of_the_contract() {
    let (contract, record) = acme_with_cliff();
    let mut accounts = claim_accounts(&contract, &record);
    accounts.creator = addr(42);
    let before = accounts.clone();
    assert_eq!(
        claim_tokens(&mut accounts, "Acme".to_string(), 1_702_592_001),
        Err(Refusal::Accounts(AccountError::MintAuthorityMismatch))
    );
    accounts.mint.mint_authority = Some(addr(42));
    assert_eq!(
        claim_tokens(&mut accounts, "Acme".to_string(), 1_702_592_001),
        Err(Refusal::Accounts(AccountError::CreatorMismatch))
    );
    accounts.mint.mint_authority = Some(addr(CREATOR));
    assert_eq!(accounts, before);
}

#[test]
fn revocation_returns_the_vault_and_stops_claims() {
    let (contract, mut record) = acme_with_cliff();
    let (mut revoked, actions) = revoke(contract.clone(), 1_000_000_000).expect("accepted");
    assert!(!revoked.is_active);
    assert!(revoked.is_revoked);
    assert_eq!(revoked.total_vested_tokens, contract.total_vested_tokens);
    assert_eq!(revoked.total_locked_tokens, contract.total_locked_tokens);
    assert_eq!(
        actions,
        vec![Action::TransferChecked(TransferChecked {
            from: addr(VAULT),
            to: addr(COMPANY_ATA),
            mint: addr(MINT),
            authority: addr(CONTRACT),
            amount: 1_000_000_000,
            decimals: 6,
            signer_seeds: vec![b"Acme".to_vec(), vec![CREATOR; 32], vec![MINT; 32], vec![254u8]],
        })]
    );
    assert_eq!(
        claim(&mut revoked, &mut record, 1_702_592_001),
        Err(program(ErrorCode::VestingNotActive))
    );
    assert_eq!(
        claim(&mut revoked, &mut record, 1_699_999_999),
        Err(program(ErrorCode::VestingNotStarted))
    );
}

#[test]
fn second_revocation_is_refused() {
    let (contract, _) = acme_with_cliff();
    let (revoked, _) = revoke(contract, 1_000_000_000).expect("accepted");
    assert_eq!(revoke(revoked.clone(), 0).unwrap_err(), program(ErrorCode::VestingIsNotActive));
    assert_eq!(revoke(revoked, 5).unwrap_err(), program(ErrorCode::VestingIsNotActive));
}

#[test]
fn contract_that_is_not_revocable_is_not_revoked() {
    let contract = open("Acme", false);
    let (contract, _) = deposit(contract, 10).expect("accepted");
    let before = contract.clone();
    assert_eq!(revoke(contract.clone(), 10).unwrap_err(), program(ErrorCode::VestingIsNotRevocable));
    assert_eq!(contract, before);
    assert!(contract.is_active);
    assert!(!contract.is_revoked);
}

#[test]
fn revocation_of_an_empty_vault_is_refused() {
    let contract = open("Acme", true);
    let mut accounts = RevokeVesting {
        creator: addr(CREATOR),
        mint: mint(),
        vesting_contract_info: Account { key: addr(CONTRACT), data: contract },
        vault: token(VAULT, CONTRACT, 0),
        company_ata: token(COMPANY_ATA, CREATOR, 0),
    };
    let before = accounts.clone();
    assert_eq!(accounts.revoke_vesting("Acme".to_string()), Err(ErrorCode::VaultIsEmpty));
    assert_eq!(accounts, before);
}

#[test]
fn revocation_after_everything_is_claimed_finds_the_vault_empty() {
    let (mut contract, mut record) = linco();
    contract.revocable = true;
    assert_eq!(claim(&mut contract, &mut record, 2000), Ok(1_000_000_000));
    assert!(contract.fully_claimed);
    assert_eq!(revoke(contract, 0).unwrap_err(), program(ErrorCode::VaultIsEmpty));
}

#[test]
fn claimed_total_is_the_sum_over_the_records() {
    let contract = open("Acme", true);
    let (contract, _) = deposit(contract, 1_000).expect("accepted");
    let (contract, mut cliff) = assign(contract, 0, 10, 100, 200, 300).expect("accepted");
    let (mut contract, mut linear) = assign(contract, 1, 0, 100, 200, 700).expect("accepted");
    let mut vault: u64 = 1_000;
    for now in [105, 110, 150, 150, 180, 200, 250] {
        for record in [&mut cliff, &mut linear] {
            if let Ok(amount) = claim(&mut contract, record, now) {
                vault -= amount;
            }
            assert!(record.total_claimed_tokens_by_beneficiary <= record.total_vested_tokens);
        }
        assert_eq!(
            contract.total_claimed_tokens,
            cliff.total_claimed_tokens_by_beneficiary + linear.total_claimed_tokens_by_beneficiary
        );
        assert_eq!(vault, contract.total_vested_tokens - contract.total_claimed_tokens);
        assert_eq!(
            contract.total_vested_tokens,
            contract.total_available_tokens
                + contract.total_locked_tokens
                + contract.total_claimed_tokens
        );
        assert_eq!(
            contract.fully_claimed,
            contract.total_claimed_tokens == contract.total_vested_tokens
        );
        if contract.fully_claimed {
            assert!(!contract.is_active);
        }
    }
    assert_eq!(contract.total_claimed_tokens, 1_000);
    assert!(contract.fully_claimed);
    assert_eq!(vault, 0);
}

#[test]
fn token_account_instructions_change_nothing() {
    let mut accounts = InitBeneficiaryAta {
        beneficiary: addr(BENEFICIARY),
        mint: mint(),
        beneficiary_ata: token(BENEFICIARY_ATA, BENEFICIARY, 0),
    };
    let before = accounts;
    assert_eq!(accounts.init_beneficiary_ata(), Ok(()));
    assert_eq!(initialize_beneficiary_ata(&mut accounts), Ok(vec![]));
    assert_eq!(accounts, before);
    let mut again = InitializeBeneficiaryATA {
        beneficiary: addr(BENEFICIARY),
        mint: mint(),
        beneficiary_ata: token(BENEFICIARY_ATA, BENEFICIARY, 12),
    };
    let before = again;
    assert_eq!(again.create_beneficiary_ata(), Ok(()));
    assert_eq!(again.create_beneficiary_ata(), Ok(()));
    assert_eq!(again, before);
}

#[test]
fn error_numbers_start_at_6000() {
    assert_eq!(ErrorCode::CustomError.code(), 6000);
    assert_eq!(ErrorCode::NumericalOverflow.code(), 6003);
    assert_eq!(ErrorCode::VestingNotActive.code(), 6009);
    assert_eq!(ErrorCode::VaultIsEmpty.code(), 6014);
}

#[test]
fn claimable_amount_is_what_the_claim_pays() {
    let (mut contract, mut record) = linco();
    assert_eq!(claimable_tokens(&record, true, 999), Err(ErrorCode::VestingNotStarted));
    assert_eq!(claimable_tokens(&record, false, 1500), Err(ErrorCode::VestingNotActive));
    assert_eq!(claimable_tokens(&record, false, 999), Err(ErrorCode::VestingNotStarted));
    assert_eq!(claimable_tokens(&record, true, 1250), Ok(250_000_000));
    assert_eq!(claim(&mut contract, &mut record, 1250), Ok(250_000_000));
    assert_eq!(claimable_tokens(&record, true, 1250), Err(ErrorCode::NoTokensToClaim));
    assert_eq!(claimable_tokens(&record, true, 1251), Ok(1_000_000));
    let (_, cliff) = acme_with_cliff();
    assert_eq!(claimable_tokens(&cliff, true, 1_702_591_999), Err(ErrorCode::CliffPeriodNotOver));
    assert_eq!(claimable_tokens(&cliff, true, 1_702_592_000), Ok(400_000_000));
}
