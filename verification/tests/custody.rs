use vesting_escrow::account::Account;
use vesting_escrow::address::Address;
use vesting_escrow::nft_staking::error::ErrorCode;
use vesting_escrow::nft_staking::init_config;
use vesting_escrow::nft_staking::initialize_config::{InitializeConfig, InitializeConfigBumps};
use vesting_escrow::nft_staking::state::{StakeConfig, UserAccount};
use vesting_escrow::token::{Action, CloseAccount, Mint, TokenAccount, TransferChecked};
use vesting_escrow::vault::{
    close, deposit, initialize, Close, Initialize, InitializeBumps, Payment, VaultState,
};

fn addr(n: u8) -> Address {
    Address::new([n; 32])
}

const SIGNER: u8 = 1;
const MINT: u8 = 2;
const STATE: u8 = 3;
const VAULT: u8 = 4;

fn mint() -> Mint {
    Mint { key: addr(MINT), mint_authority: None, decimals: 6 }
}

fn vault() -> TokenAccount {
    TokenAccount { key: addr(VAULT), mint: addr(MINT), owner: addr(VAULT), amount: 0 }
}

fn state(vault_bump: u8, state_bump: u8) -> Account<VaultState> {
    Account { key: addr(STATE), data: VaultState { vault_bump, state_bump } }
}

fn vault_signer_seeds() -> Vec<Vec<u8>> {
    vec![b"vault".to_vec(), vec![SIGNER; 32], vec![251u8]]
}

#[test]
fn vault_state_keeps_both_bumps() {
    let mut accounts =
        Initialize { signer: addr(SIGNER), mint: mint(), vault_state: state(0, 0), vault: vault() };
    let actions = initialize(&mut accounts, &InitializeBumps { vault_state: 252, vault: 251 });
    assert!(actions.is_empty());
    assert_eq!(accounts.vault_state.data, VaultState { vault_bump: 251, state_bump: 252 });
    assert_eq!(accounts.vault_state.key, addr(STATE));
}

#[test]
fn vault_deposit_is_signed_by_the_depositor() {
    let mut accounts =
        Payment { signer: addr(SIGNER), mint: mint(), vault_state: state(251, 252), vault: vault() };
    assert_eq!(
        deposit(&mut accounts, 40),
        vec![Action::TransferChecked(TransferChecked {
            from: addr(SIGNER),
            to: addr(VAULT),
            mint: addr(MINT),
            authority: addr(SIGNER),
            amount: 40,
            decimals: 6,
            signer_seeds: vec![],
        })]
    );
}

#[test]
fn vault_withdrawal_is_signed_for_the_vault() {
    let mut accounts =
        Payment { signer: addr(SIGNER), mint: mint(), vault_state: state(251, 252), vault: vault() };
    assert_eq!(
        accounts.withdraw(15),
        TransferChecked {
            from: addr(VAULT),
            to: addr(SIGNER),
            mint: addr(MINT),
            authority: addr(VAULT),
            amount: 15,
            decimals: 6,
            signer_seeds: vault_signer_seeds(),
        }
    );
}

#[test]
fn vault_closes_in_favour_of_the_depositor() {
    let accounts = Close { signer: addr(SIGNER), vault_state: state(251, 252), vault: vault() };
    assert_eq!(
        close(&accounts),
        vec![Action::CloseAccount(CloseAccount {
            account: addr(VAULT),
            destination: addr(SIGNER),
            authority: addr(VAULT),
            signer_seeds: vault_signer_seeds(),
        })]
    );
}

#[test]
fn staking_rules_are_recorded() {
    let mut accounts = InitializeConfig {
        admin: addr(SIGNER),
        config: Account {
            key: addr(9),
            data: StakeConfig {
                points_per_stake: 0,
                max_stake: 0,
                freeze_period: 0,
                reward_bump: 0,
                bump: 0,
            },
        },
        reward_mint: Mint { key: addr(10), mint_authority: Some(addr(9)), decimals: 6 },
    };
    let actions =
        init_config(&mut accounts, 10, 32, 86_400, &InitializeConfigBumps { config: 255, reward_mint: 254 });
    assert!(actions.is_empty());
    assert_eq!(
        accounts.config.data,
        StakeConfig {
            points_per_stake: 10,
            max_stake: 32,
            freeze_period: 86_400,
            reward_bump: 254,
            bump: 255,
        }
    );
    let user = UserAccount { points: 0, amount_staked: 0, bump: 1 };
    assert_eq!(user.amount_staked, 0);
    assert_ne!(ErrorCode::MaxStakeReached, ErrorCode::FreezePeriodNotPassed);
}
