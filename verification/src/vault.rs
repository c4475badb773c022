//! The standalone vault of one owner: deposits and withdrawals of the
//! native balance and of tokens, under a derived authority, with a counter
//! of the uses.
//!
//! Each handler asks the resolver first and then decides. The deciding part
//! stands on its own, under the handler's name followed by `_with`, and
//! takes what the resolver found as an argument.

use crate::address::{
    canonical_bump_for, canonical_bump_of, scoped_auth_label, scoped_auth_label_spec, vault_label,
    vault_label_spec, verifies, verify, Address,
};
use crate::escrow::{holds_for, transfer_step, transferred};
use crate::ledger::{attempts, settles, Ledger, LedgerState};
use crate::state::{fails_with, CustodyError, VaultBumps, VaultSeals, VaultState};
use vstd::prelude::*;

verus! {

/// The token type under which the ledger keeps native balances. The
/// holding account of a wallet's native balance is filed at the wallet's
/// own address and owned by the wallet.
pub open spec fn native_mint_spec() -> Address {
    Address { bytes: vstd::array::spec_array_fill_for_copy_type::<u8, 32>(0u8) }
}

pub fn native_mint() -> (a: Address)
    ensures
        a == native_mint_spec(),
{
    Address { bytes: [0u8; 32] }
}

/// What the resolver finds of the derived accounts presented with the
/// vault state at `vault_state`. Without a vault state nothing is verified.
pub open spec fn vault_seals_of(s: LedgerState, vault_state: Address, vault_auth: Address, vault: Address) -> VaultSeals {
    if !s.vaults.contains_key(vault_state) {
        VaultSeals { auth: false, vault: false }
    } else {
        VaultSeals {
            auth: verifies(s.program_id, vault_auth, scoped_auth_label_spec(vault_state), s.vaults[vault_state].auth_bump),
            vault: verifies(s.program_id, vault, vault_label_spec(vault_auth), s.vaults[vault_state].vault_bump),
        }
    }
}

/// Whether `vault_auth` is the authority derived under the bump that the
/// vault state stores.
pub open spec fn vault_authorized(s: LedgerState, vault_state: Address, vault_auth: Address) -> bool {
    s.vaults.contains_key(vault_state) && verifies(
        s.program_id,
        vault_auth,
        scoped_auth_label_spec(vault_state),
        s.vaults[vault_state].auth_bump,
    )
}

/// Verifies the derived accounts presented with the vault state against
/// the bumps that it stores.
pub fn vault_seals(ledger: &Ledger, vault_state: &Address, vault_auth: &Address, vault: &Address) -> (r: VaultSeals)
    ensures
        r == vault_seals_of(ledger@, *vault_state, *vault_auth, *vault),
{
    match ledger.vault_state(vault_state) {
        None => VaultSeals { auth: false, vault: false },
        Some(state) => {
            let program_id = ledger.program_id();
            VaultSeals {
                auth: verify(&program_id, vault_auth, &scoped_auth_label(vault_state), state.auth_bump),
                vault: verify(&program_id, vault, &vault_label(vault_auth), state.vault_bump),
            }
        },
    }
}

/// Verifies `vault_auth` against the bump that the vault state stores.
pub fn vault_authorize(ledger: &Ledger, vault_state: &Address, vault_auth: &Address) -> (ok: bool)
    ensures
        ok == vault_authorized(ledger@, *vault_state, *vault_auth),
{
    match ledger.vault_state(vault_state) {
        None => false,
        Some(state) => verify(&ledger.program_id(), vault_auth, &scoped_auth_label(vault_state), state.auth_bump),
    }
}

/// What every deposit and withdrawal checks first: the vault state exists,
/// the caller is its owner, and the authority presented was verified.
pub open spec fn state_checked(s: LedgerState, vault_state: Address, owner: Address, auth_ok: bool) -> Result<(), CustodyError> {
    if !s.vaults.contains_key(vault_state) {
        Err(CustodyError::RecordNotFound)
    } else if s.vaults[vault_state].owner != owner {
        Err(CustodyError::StructuralMismatch)
    } else if !auth_ok {
        Err(CustodyError::StructuralMismatch)
    } else {
        Ok(())
    }
}

/// The same checks, and that the native custody account presented was
/// verified too.
pub open spec fn native_checked(s: LedgerState, vault_state: Address, owner: Address, found: VaultSeals) -> Result<(), CustodyError> {
    match state_checked(s, vault_state, owner, found.auth) {
        Err(e) => Err(e),
        Ok(()) => if !found.vault {
            Err(CustodyError::StructuralMismatch)
        } else {
            Ok(())
        },
    }
}

/// Counts one more use of the vault.
pub open spec fn counted(s: LedgerState, vault_state: Address) -> Result<LedgerState, CustodyError> {
    if !s.vaults.contains_key(vault_state) {
        Err(CustodyError::RecordNotFound)
    } else if s.vaults[vault_state].score == u8::MAX {
        Err(CustodyError::CounterOverflow)
    } else {
        let state = s.vaults[vault_state];
        Ok(s.with_vaults(s.vaults.insert(vault_state, VaultState { score: (state.score + 1) as u8, ..state })))
    }
}

/// Makes sure that the holding account exists under `owner` for `mint`.
pub open spec fn ensured(s: LedgerState, account: Address, owner: Address, mint: Address) -> Result<LedgerState, CustodyError> {
    match s.create_holding_account(account, owner, mint) {
        Some(after) => Ok(after),
        None => Err(CustodyError::StructuralMismatch),
    }
}

/// Refuses a withdrawal of more than `account` holds.
pub open spec fn covered(s: LedgerState, account: Address, amount: u64) -> Result<(), CustodyError> {
    if amount > s.balance(account) {
        Err(CustodyError::InsufficientFunds)
    } else {
        Ok(())
    }
}

/// Checks the vault state against the caller and what the resolver found
/// of the authority.
pub fn check_state(ledger: &Ledger, vault_state: &Address, owner: &Address, auth_ok: bool) -> (r: Result<(), CustodyError>)
    ensures
        r == state_checked(ledger@, *vault_state, *owner, auth_ok),
{
    let state = match ledger.vault_state(vault_state) {
        Some(state) => state,
        None => { return Err(CustodyError::RecordNotFound); },
    };
    if !state.owner.same(owner) {
        return Err(CustodyError::StructuralMismatch);
    }
    if !auth_ok {
        return Err(CustodyError::StructuralMismatch);
    }
    Ok(())
}

/// Checks the vault state against the caller and what the resolver found
/// of the authority and of the native custody account.
pub fn check_native(ledger: &Ledger, vault_state: &Address, owner: &Address, found: &VaultSeals) -> (r: Result<(), CustodyError>)
    ensures
        r == native_checked(ledger@, *vault_state, *owner, *found),
{
    match check_state(ledger, vault_state, owner, found.auth) {
        Ok(()) => {},
        Err(e) => { return Err(e); },
    }
    if found.vault {
        Ok(())
    } else {
        Err(CustodyError::StructuralMismatch)
    }
}

/// Counts one more use of the vault.
pub fn count_use(ledger: &mut Ledger, vault_state: &Address) -> (r: Result<(), CustodyError>)
    ensures
        settles(old(ledger)@, final(ledger)@, r, counted(old(ledger)@, *vault_state)),
{
    let state = match ledger.vault_state(vault_state) {
        Some(state) => state,
        None => { return Err(CustodyError::RecordNotFound); },
    };
    if state.score == u8::MAX {
        return Err(CustodyError::CounterOverflow);
    }
    ledger.put_vault_state(
        *vault_state,
        VaultState { owner: state.owner, auth_bump: state.auth_bump, vault_bump: state.vault_bump, score: state.score + 1 },
    );
    Ok(())
}

/// Makes sure that the holding account exists under `owner` for `mint`.
pub fn ensure_holding(ledger: &mut Ledger, account: &Address, owner: &Address, mint: &Address) -> (r: Result<(), CustodyError>)
    ensures
        settles(old(ledger)@, final(ledger)@, r, ensured(old(ledger)@, *account, *owner, *mint)),
{
    if ledger.create_holding_account(*account, *owner, *mint) {
        Ok(())
    } else {
        Err(CustodyError::StructuralMismatch)
    }
}

/// Refuses a withdrawal of more than `account` holds.
pub fn check_covered(ledger: &Ledger, account: &Address, amount: u64) -> (r: Result<(), CustodyError>)
    ensures
        r == covered(ledger@, *account, amount),
{
    if amount > ledger.balance(account) {
        Err(CustodyError::InsufficientFunds)
    } else {
        Ok(())
    }
}

/// The accounts that `initialize` is given.
#[derive(Clone, Copy, Debug, PartialEq, Eq)]
pub struct Initialize {
    /// The caller, who becomes the owner of the vault.
    pub owner: Address,
    /// The address of the vault state to create.
    pub vault_state: Address,
    /// The derived authority scoped to the vault state.
    pub vault_auth: Address,
    /// The native custody account, derived from the authority.
    pub vault: Address,
}

/// The accounts that `deposit` is given.
#[derive(Clone, Copy, Debug, PartialEq, Eq)]
pub struct Deposit {
    pub owner: Address,
    pub vault_state: Address,
    pub vault_auth: Address,
    pub vault: Address,
}

/// The accounts that `withdraw` is given.
#[derive(Clone, Copy, Debug, PartialEq, Eq)]
pub struct Withdraw {
    pub owner: Address,
    pub vault_state: Address,
    pub vault_auth: Address,
    pub vault: Address,
}

/// The accounts that `deposit_spl` is given.
#[derive(Clone, Copy, Debug, PartialEq, Eq)]
pub struct DepositSpl {
    pub owner: Address,
    /// The owner's holding account of `token_mint`.
    pub owner_ata: Address,
    pub vault_state: Address,
    pub vault_auth: Address,
    /// The custody account of `token_mint` under the derived authority. It
    /// is created if it does not exist.
    pub vault_ata: Address,
    pub token_mint: Address,
}

/// The accounts that `withdraw_spl` is given.
#[derive(Clone, Copy, Debug, PartialEq, Eq)]
pub struct WithdrawSpl {
    pub owner: Address,
    pub owner_ata: Address,
    pub vault_state: Address,
    pub vault_auth: Address,
    pub vault_ata: Address,
    pub token_mint: Address,
}

impl Initialize {
    /// The bump of each derived account presented: the canonical bump of
    /// its label where the account is the address derived under it, absent
    /// otherwise.
    pub open spec fn bumps_spec(self, program_id: Address) -> VaultBumps {
        VaultBumps {
            auth: canonical_bump_of(program_id, scoped_auth_label_spec(self.vault_state), self.vault_auth),
            vault: canonical_bump_of(program_id, vault_label_spec(self.vault_auth), self.vault),
        }
    }

    /// Asks the resolver for the bump of each derived account presented.
    pub fn bumps(&self, program_id: &Address) -> (b: VaultBumps)
        ensures
            b == self.bumps_spec(*program_id),
    {
        VaultBumps {
            auth: canonical_bump_for(program_id, &scoped_auth_label(&self.vault_state), &self.vault_auth),
            vault: canonical_bump_for(program_id, &vault_label(&self.vault_auth), &self.vault),
        }
    }
}

/// What `initialize` does to the ledger, given the bumps of the resolver:
/// it writes the vault state of the owner with the two bumps and a counter
/// of 0. It fails with `MissingBump` where a bump is absent, and with
/// `AlreadyExists` where a vault state exists at the address.
pub open spec fn initialize_spec(s: LedgerState, ctx: Initialize, bumps: VaultBumps) -> Result<LedgerState, CustodyError> {
    if bumps.auth is None || bumps.vault is None {
        Err(CustodyError::MissingBump)
    } else if s.vaults.contains_key(ctx.vault_state) {
        Err(CustodyError::AlreadyExists)
    } else {
        Ok(
            s.with_vaults(
                s.vaults.insert(
                    ctx.vault_state,
                    VaultState { owner: ctx.owner, auth_bump: bumps.auth->Some_0, vault_bump: bumps.vault->Some_0, score: 0 },
                ),
            ),
        )
    }
}

/// Creates the vault state of the owner with the bumps given.
pub fn initialize_with(ledger: &mut Ledger, ctx: &Initialize, bumps: &VaultBumps) -> (r: Result<(), CustodyError>)
    ensures
        settles(old(ledger)@, final(ledger)@, r, initialize_spec(old(ledger)@, *ctx, *bumps)),
{
    let auth_bump = match bumps.auth {
        Some(b) => b,
        None => { return Err(CustodyError::MissingBump); },
    };
    let vault_bump = match bumps.vault {
        Some(b) => b,
        None => { return Err(CustodyError::MissingBump); },
    };
    if ledger.vault_state(&ctx.vault_state).is_some() {
        return Err(CustodyError::AlreadyExists);
    }
    ledger.put_vault_state(ctx.vault_state, VaultState { owner: ctx.owner, auth_bump, vault_bump, score: 0 });
    Ok(())
}

/// Creates the vault state of the owner: asks the resolver for the bumps of
/// the derived accounts presented, then does as `initialize_with`.
pub fn initialize(ledger: &mut Ledger, ctx: &Initialize) -> (r: Result<(), CustodyError>)
    ensures
        settles(old(ledger)@, final(ledger)@, r, initialize_spec(old(ledger)@, *ctx, ctx.bumps_spec(old(ledger)@.program_id))),
{
    let bumps = ctx.bumps(&ledger.program_id());
    initialize_with(ledger, ctx, &bumps)
}

impl Deposit {
    pub open spec fn seals_spec(self, s: LedgerState) -> VaultSeals {
        vault_seals_of(s, self.vault_state, self.vault_auth, self.vault)
    }

    /// Verifies the derived accounts presented against the bumps that the
    /// vault state stores.
    pub fn seals(&self, ledger: &Ledger) -> (r: VaultSeals)
        ensures
            r == self.seals_spec(ledger@),
    {
        vault_seals(ledger, &self.vault_state, &self.vault_auth, &self.vault)
    }
}

impl Withdraw {
    pub open spec fn seals_spec(self, s: LedgerState) -> VaultSeals {
        vault_seals_of(s, self.vault_state, self.vault_auth, self.vault)
    }

    /// Verifies the derived accounts presented against the bumps that the
    /// vault state stores.
    pub fn seals(&self, ledger: &Ledger) -> (r: VaultSeals)
        ensures
            r == self.seals_spec(ledger@),
    {
        vault_seals(ledger, &self.vault_state, &self.vault_auth, &self.vault)
    }
}

/// What `deposit` does to the ledger, given what the resolver found: after
/// the checks, `amount` of the owner's native balance moves into the
/// custody account, on the owner's word, and the use is counted.
pub open spec fn deposit_spec(s: LedgerState, ctx: Deposit, amount: u64, found: VaultSeals) -> Result<LedgerState, CustodyError> {
    match native_checked(s, ctx.vault_state, ctx.owner, found) {
        Err(e) => Err(e),
        Ok(()) => match ensured(s, ctx.vault, ctx.vault, native_mint_spec()) {
            Err(e) => Err(e),
            Ok(ready) => match transferred(ready, ctx.owner, ctx.vault, ctx.owner, amount) {
                Err(e) => Err(e),
                Ok(moved) => counted(moved, ctx.vault_state),
            },
        },
    }
}

fn run_deposit(work: &mut Ledger, ctx: &Deposit, amount: u64, found: &VaultSeals) -> (r: Result<(), CustodyError>)
    ensures
        attempts(final(work)@, r, deposit_spec(old(work)@, *ctx, amount, *found)),
{
    match check_native(work, &ctx.vault_state, &ctx.owner, found) {
        Ok(()) => {},
        Err(e) => { return Err(e); },
    }
    match ensure_holding(work, &ctx.vault, &ctx.vault, &native_mint()) {
        Ok(()) => {},
        Err(e) => { return Err(e); },
    }
    match transfer_step(work, &ctx.owner, &ctx.vault, &ctx.owner, amount) {
        Ok(()) => {},
        Err(e) => { return Err(e); },
    }
    count_use(work, &ctx.vault_state)
}

/// Moves `amount` of the owner's native balance into the vault, given what
/// the resolver found of the derived accounts. All of it happens or none.
pub fn deposit_with(ledger: &mut Ledger, ctx: &Deposit, amount: u64, found: &VaultSeals) -> (r: Result<(), CustodyError>)
    ensures
        settles(old(ledger)@, final(ledger)@, r, deposit_spec(old(ledger)@, *ctx, amount, *found)),
{
    let mut work = ledger.duplicate();
    match run_deposit(&mut work, ctx, amount, found) {
        Ok(()) => {
            *ledger = work;
            Ok(())
        },
        Err(e) => Err(e),
    }
}

/// Moves `amount` of the owner's native balance into the vault: verifies
/// the derived accounts presented, then does as `deposit_with`.
pub fn deposit(ledger: &mut Ledger, ctx: &Deposit, amount: u64) -> (r: Result<(), CustodyError>)
    ensures
        settles(old(ledger)@, final(ledger)@, r, deposit_spec(old(ledger)@, *ctx, amount, ctx.seals_spec(old(ledger)@))),
{
    let found = ctx.seals(ledger);
    deposit_with(ledger, ctx, amount, &found)
}

/// What `withdraw` does to the ledger, given what the resolver found:
/// after the checks, and unless the custody account holds less than
/// `amount`, that amount moves back to the owner's native balance, on the
/// word of the derived custody account, and the use is counted.
pub open spec fn withdraw_spec(s: LedgerState, ctx: Withdraw, amount: u64, found: VaultSeals) -> Result<LedgerState, CustodyError> {
    match native_checked(s, ctx.vault_state, ctx.owner, found) {
        Err(e) => Err(e),
        Ok(()) => match covered(s, ctx.vault, amount) {
            Err(e) => Err(e),
            Ok(()) => match ensured(s, ctx.owner, ctx.owner, native_mint_spec()) {
                Err(e) => Err(e),
                Ok(ready) => match transferred(ready, ctx.vault, ctx.owner, ctx.vault, amount) {
                    Err(e) => Err(e),
                    Ok(moved) => counted(moved, ctx.vault_state),
                },
            },
        },
    }
}

fn run_withdraw(work: &mut Ledger, ctx: &Withdraw, amount: u64, found: &VaultSeals) -> (r: Result<(), CustodyError>)
    ensures
        attempts(final(work)@, r, withdraw_spec(old(work)@, *ctx, amount, *found)),
{
    match check_native(work, &ctx.vault_state, &ctx.owner, found) {
        Ok(()) => {},
        Err(e) => { return Err(e); },
    }
    match check_covered(work, &ctx.vault, amount) {
        Ok(()) => {},
        Err(e) => { return Err(e); },
    }
    match ensure_holding(work, &ctx.owner, &ctx.owner, &native_mint()) {
        Ok(()) => {},
        Err(e) => { return Err(e); },
    }
    match transfer_step(work, &ctx.vault, &ctx.owner, &ctx.vault, amount) {
        Ok(()) => {},
        Err(e) => { return Err(e); },
    }
    count_use(work, &ctx.vault_state)
}

/// Moves `amount` of the vault's native balance back to the owner, given
/// what the resolver found of the derived accounts. All of it happens or
/// none.
pub fn withdraw_with(ledger: &mut Ledger, ctx: &Withdraw, amount: u64, found: &VaultSeals) -> (r: Result<(), CustodyError>)
    ensures
        settles(old(ledger)@, final(ledger)@, r, withdraw_spec(old(ledger)@, *ctx, amount, *found)),
{
    let mut work = ledger.duplicate();
    match run_withdraw(&mut work, ctx, amount, found) {
        Ok(()) => {
            *ledger = work;
            Ok(())
        },
        Err(e) => Err(e),
    }
}

/// Moves `amount` of the vault's native balance back to the owner: verifies
/// the derived accounts presented, then does as `withdraw_with`.
pub fn withdraw(ledger: &mut Ledger, ctx: &Withdraw, amount: u64) -> (r: Result<(), CustodyError>)
    ensures
        settles(old(ledger)@, final(ledger)@, r, withdraw_spec(old(ledger)@, *ctx, amount, ctx.seals_spec(old(ledger)@))),
{
    let found = ctx.seals(ledger);
    withdraw_with(ledger, ctx, amount, &found)
}

/// What `deposit_spl` does to the ledger, given whether the authority was
/// verified: after the checks, `amount` of the owner's tokens moves into
/// the custody account of that token type, which is created if need be,
/// and the use is counted.
pub open spec fn deposit_spl_spec(s: LedgerState, ctx: DepositSpl, amount: u64, auth_ok: bool) -> Result<LedgerState, CustodyError> {
    match state_checked(s, ctx.vault_state, ctx.owner, auth_ok) {
        Err(e) => Err(e),
        Ok(()) => if !holds_for(s, ctx.owner_ata, ctx.owner, ctx.token_mint) {
            Err(CustodyError::StructuralMismatch)
        } else {
            match ensured(s, ctx.vault_ata, ctx.vault_auth, ctx.token_mint) {
                Err(e) => Err(e),
                Ok(ready) => match transferred(ready, ctx.owner_ata, ctx.vault_ata, ctx.owner, amount) {
                    Err(e) => Err(e),
                    Ok(moved) => counted(moved, ctx.vault_state),
                },
            }
        },
    }
}

/// Whether the holding account exists under `owner` for `mint`, as a
/// handler's outcome.
pub fn check_owner_holding(ledger: &Ledger, account: &Address, owner: &Address, mint: &Address) -> (r: Result<(), CustodyError>)
    ensures
        r is Ok <==> holds_for(ledger@, *account, *owner, *mint),
        r is Err ==> fails_with(r, CustodyError::StructuralMismatch),
{
    match ledger.holding(account) {
        Some(a) => if a.owner.same(owner) && a.mint.same(mint) {
            Ok(())
        } else {
            Err(CustodyError::StructuralMismatch)
        },
        None => Err(CustodyError::StructuralMismatch),
    }
}

fn run_deposit_spl(work: &mut Ledger, ctx: &DepositSpl, amount: u64, auth_ok: bool) -> (r: Result<(), CustodyError>)
    ensures
        attempts(final(work)@, r, deposit_spl_spec(old(work)@, *ctx, amount, auth_ok)),
{
    match check_state(work, &ctx.vault_state, &ctx.owner, auth_ok) {
        Ok(()) => {},
        Err(e) => { return Err(e); },
    }
    match check_owner_holding(work, &ctx.owner_ata, &ctx.owner, &ctx.token_mint) {
        Ok(()) => {},
        Err(e) => { return Err(e); },
    }
    match ensure_holding(work, &ctx.vault_ata, &ctx.vault_auth, &ctx.token_mint) {
        Ok(()) => {},
        Err(e) => { return Err(e); },
    }
    match transfer_step(work, &ctx.owner_ata, &ctx.vault_ata, &ctx.owner, amount) {
        Ok(()) => {},
        Err(e) => { return Err(e); },
    }
    count_use(work, &ctx.vault_state)
}

/// Moves `amount` of the owner's tokens into the vault, given whether the
/// authority presented was verified. All of it happens or none.
pub fn deposit_spl_with(ledger: &mut Ledger, ctx: &DepositSpl, amount: u64, auth_ok: bool) -> (r: Result<(), CustodyError>)
    ensures
        settles(old(ledger)@, final(ledger)@, r, deposit_spl_spec(old(ledger)@, *ctx, amount, auth_ok)),
{
    let mut work = ledger.duplicate();
    match run_deposit_spl(&mut work, ctx, amount, auth_ok) {
        Ok(()) => {
            *ledger = work;
            Ok(())
        },
        Err(e) => Err(e),
    }
}

/// Moves `amount` of the owner's tokens into the vault: verifies the
/// authority presented, then does as `deposit_spl_with`.
pub fn deposit_spl(ledger: &mut Ledger, ctx: &DepositSpl, amount: u64) -> (r: Result<(), CustodyError>)
    ensures
        settles(
            old(ledger)@,
            final(ledger)@,
            r,
            deposit_spl_spec(old(ledger)@, *ctx, amount, vault_authorized(old(ledger)@, ctx.vault_state, ctx.vault_auth)),
        ),
{
    let auth_ok = vault_authorize(ledger, &ctx.vault_state, &ctx.vault_auth);
    deposit_spl_with(ledger, ctx, amount, auth_ok)
}

/// What `withdraw_spl` does to the ledger, given whether the authority was
/// verified: after the checks, and unless the custody account holds less
/// than `amount`, that amount of tokens moves back to the owner, on the
/// word of the derived authority, and the use is counted.
pub open spec fn withdraw_spl_spec(s: LedgerState, ctx: WithdrawSpl, amount: u64, auth_ok: bool) -> Result<LedgerState, CustodyError> {
    match state_checked(s, ctx.vault_state, ctx.owner, auth_ok) {
        Err(e) => Err(e),
        Ok(()) => if !holds_for(s, ctx.owner_ata, ctx.owner, ctx.token_mint) {
            Err(CustodyError::StructuralMismatch)
        } else if !holds_for(s, ctx.vault_ata, ctx.vault_auth, ctx.token_mint) {
            Err(CustodyError::StructuralMismatch)
        } else {
            match covered(s, ctx.vault_ata, amount) {
                Err(e) => Err(e),
                Ok(()) => match transferred(s, ctx.vault_ata, ctx.owner_ata, ctx.vault_auth, amount) {
                    Err(e) => Err(e),
                    Ok(moved) => counted(moved, ctx.vault_state),
                },
            }
        },
    }
}

fn run_withdraw_spl(work: &mut Ledger, ctx: &WithdrawSpl, amount: u64, auth_ok: bool) -> (r: Result<(), CustodyError>)
    ensures
        attempts(final(work)@, r, withdraw_spl_spec(old(work)@, *ctx, amount, auth_ok)),
{
    match check_state(work, &ctx.vault_state, &ctx.owner, auth_ok) {
        Ok(()) => {},
        Err(e) => { return Err(e); },
    }
    match check_owner_holding(work, &ctx.owner_ata, &ctx.owner, &ctx.token_mint) {
        Ok(()) => {},
        Err(e) => { return Err(e); },
    }
    match check_owner_holding(work, &ctx.vault_ata, &ctx.vault_auth, &ctx.token_mint) {
        Ok(()) => {},
        Err(e) => { return Err(e); },
    }
    match check_covered(work, &ctx.vault_ata, amount) {
        Ok(()) => {},
        Err(e) => { return Err(e); },
    }
    match transfer_step(work, &ctx.vault_ata, &ctx.owner_ata, &ctx.vault_auth, amount) {
        Ok(()) => {},
        Err(e) => { return Err(e); },
    }
    count_use(work, &ctx.vault_state)
}

/// Moves `amount` of the vault's tokens back to the owner, given whether
/// the authority presented was verified. All of it happens or none.
pub fn withdraw_spl_with(ledger: &mut Ledger, ctx: &WithdrawSpl, amount: u64, auth_ok: bool) -> (r: Result<(), CustodyError>)
    ensures
        settles(old(ledger)@, final(ledger)@, r, withdraw_spl_spec(old(ledger)@, *ctx, amount, auth_ok)),
{
    let mut work = ledger.duplicate();
    match run_withdraw_spl(&mut work, ctx, amount, auth_ok) {
        Ok(()) => {
            *ledger = work;
            Ok(())
        },
        Err(e) => Err(e),
    }
}

/// Moves `amount` of the vault's tokens back to the owner: verifies the
/// authority presented, then does as `withdraw_spl_with`.
pub fn withdraw_spl(ledger: &mut Ledger, ctx: &WithdrawSpl, amount: u64) -> (r: Result<(), CustodyError>)
    ensures
        settles(
            old(ledger)@,
            final(ledger)@,
            r,
            withdraw_spl_spec(old(ledger)@, *ctx, amount, vault_authorized(old(ledger)@, ctx.vault_state, ctx.vault_auth)),
        ),
{
    let auth_ok = vault_authorize(ledger, &ctx.vault_state, &ctx.vault_auth);
    withdraw_spl_with(ledger, ctx, amount, auth_ok)
}

} // verus!
