//! The custody program: a depositor keeps tokens in a vault that the program owns,
//! takes them out again, and closes the vault.

use vstd::prelude::*;
use crate::account::Account;
use crate::address::Address;
use crate::seeds::{custody_vault_seeds, spec_custody_vault_seeds, spec_with_bump, with_bump};
use crate::token::{
    actions_view, no_actions, push_action, Action, ActionView, CloseAccount, CloseAccountView,
    Mint, TokenAccount, TransferChecked, TransferCheckedView,
};

verus! {

/// The bump seeds of a depositor's vault and of its state record.
#[derive(Clone, Copy, Debug, PartialEq, Eq)]
pub struct VaultState {
    pub vault_bump: u8,
    pub state_bump: u8,
}

/// The accounts of the opening of a vault.
#[derive(Clone, Copy, Debug, PartialEq, Eq)]
pub struct Initialize {
    /// The depositor; signs the transaction.
    pub signer: Address,
    pub mint: Mint,
    pub vault_state: Account<VaultState>,
    pub vault: TokenAccount,
}

/// The bump seeds of the addresses that the opening of a vault derives.
#[derive(Clone, Copy, Debug, PartialEq, Eq)]
pub struct InitializeBumps {
    pub vault_state: u8,
    pub vault: u8,
}

/// The accounts of a deposit and of a withdrawal.
#[derive(Clone, Copy, Debug, PartialEq, Eq)]
pub struct Payment {
    /// The depositor; signs the transaction.
    pub signer: Address,
    pub mint: Mint,
    pub vault_state: Account<VaultState>,
    pub vault: TokenAccount,
}

/// The accounts of the closing of a vault.
#[derive(Clone, Copy, Debug, PartialEq, Eq)]
pub struct Close {
    /// The depositor; signs the transaction.
    pub signer: Address,
    pub vault_state: Account<VaultState>,
    pub vault: TokenAccount,
}

impl Initialize {
    /// The accounts with the state record replaced by `state`.
    pub open spec fn spec_with(&self, state: VaultState) -> Initialize {
        Initialize { vault_state: Account { key: self.vault_state.key, data: state }, ..*self }
    }

    /// Writes the bump seeds into the state record.
    pub fn initialize(&mut self, bump: &InitializeBumps)
        ensures
            *final(self) == old(self).spec_with(
                VaultState { vault_bump: bump.vault, state_bump: bump.vault_state },
            ),
    {
        self.vault_state.data.vault_bump = bump.vault;
        self.vault_state.data.state_bump = bump.vault_state;
    }
}

impl Payment {
    /// The seeds with which the program signs for the vault.
    pub open spec fn spec_signer_seeds(&self) -> Seq<Seq<u8>> {
        spec_with_bump(spec_custody_vault_seeds(self.signer), self.vault_state.data.vault_bump)
    }

    /// The transfer of `amount` from the depositor into the vault, signed by the
    /// depositor.
    pub open spec fn spec_deposit(&self, amount: u64) -> TransferCheckedView {
        TransferCheckedView {
            from: self.signer,
            to: self.vault.key,
            mint: self.mint.key,
            authority: self.signer,
            amount,
            decimals: self.mint.decimals,
            signer_seeds: Seq::empty(),
        }
    }

    /// The transfer of `amount` from the vault to the depositor, on the vault's own
    /// authority and signed with its seeds.
    pub open spec fn spec_withdraw(&self, amount: u64) -> TransferCheckedView {
        TransferCheckedView {
            from: self.vault.key,
            to: self.signer,
            mint: self.mint.key,
            authority: self.vault.key,
            amount,
            decimals: self.mint.decimals,
            signer_seeds: self.spec_signer_seeds(),
        }
    }

    /// Returns the transfer of `amount` into the vault.
    pub fn deposit(&mut self, amount: u64) -> (r: TransferChecked)
        ensures
            r@ == old(self).spec_deposit(amount),
            *final(self) == *old(self),
    {
        let r = TransferChecked {
            from: self.signer,
            to: self.vault.key,
            mint: self.mint.key,
            authority: self.signer,
            amount,
            decimals: self.mint.decimals,
            signer_seeds: Vec::new(),
        };
        assert(r@.signer_seeds =~= Seq::<Seq<u8>>::empty());
        r
    }

    /// Returns the transfer of `amount` out of the vault.
    pub fn withdraw(&mut self, amount: u64) -> (r: TransferChecked)
        ensures
            r@ == old(self).spec_withdraw(amount),
            *final(self) == *old(self),
    {
        TransferChecked {
            from: self.vault.key,
            to: self.signer,
            mint: self.mint.key,
            authority: self.vault.key,
            amount,
            decimals: self.mint.decimals,
            signer_seeds: with_bump(
                custody_vault_seeds(&self.signer),
                self.vault_state.data.vault_bump,
            ),
        }
    }
}

impl Close {
    /// The closing of the vault in favour of the depositor, on the vault's own
    /// authority and signed with its seeds.
    pub open spec fn spec_close(&self) -> CloseAccountView {
        CloseAccountView {
            account: self.vault.key,
            destination: self.signer,
            authority: self.vault.key,
            signer_seeds: spec_with_bump(
                spec_custody_vault_seeds(self.signer),
                self.vault_state.data.vault_bump,
            ),
        }
    }
}

/// Opens a vault: writes the bump seeds into its state record. There is nothing for
/// the ledger to do.
pub fn initialize(accounts: &mut Initialize, bumps: &InitializeBumps) -> (r: Vec<Action>)
    ensures
        actions_view(r@) == Seq::<ActionView>::empty(),
        *final(accounts) == old(accounts).spec_with(
            VaultState { vault_bump: bumps.vault, state_bump: bumps.vault_state },
        ),
{
    accounts.initialize(bumps);
    no_actions()
}

/// Deposits `amount`: returns the transfer into the vault.
pub fn deposit(accounts: &mut Payment, amount: u64) -> (r: Vec<Action>)
    ensures
        actions_view(r@) == seq![ActionView::TransferChecked(old(accounts).spec_deposit(amount))],
        *final(accounts) == *old(accounts),
{
    let transfer = accounts.deposit(amount);
    let mut actions = no_actions();
    push_action(&mut actions, Action::TransferChecked(transfer));
    actions
}

/// Closes a vault: returns the closing of the vault in favour of the depositor.
pub fn close(accounts: &Close) -> (r: Vec<Action>)
    ensures
        actions_view(r@) == seq![ActionView::CloseAccount(accounts.spec_close())],
{
    let close = CloseAccount {
        account: accounts.vault.key,
        destination: accounts.signer,
        authority: accounts.vault.key,
        signer_seeds: with_bump(
            custody_vault_seeds(&accounts.signer),
            accounts.vault_state.data.vault_bump,
        ),
    };
    let mut actions = no_actions();
    push_action(&mut actions, Action::CloseAccount(close));
    actions
}

} // verus!
