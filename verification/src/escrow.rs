//! The escrow record and its handlers: `make` opens a record and takes the
//! maker's deposit into custody, `take` exchanges the deposit for the
//! taker's payment, `refund` hands the deposit back. Either of the last two
//! closes the record for good.
//!
//! Each handler asks the resolver first and then decides. The deciding part
//! stands on its own, under the handler's name followed by `_with`, and
//! takes what the resolver found as an argument.

use crate::address::{
    auth_label, auth_label_spec, canonical_bump, canonical_bump_for, canonical_bump_of, escrow_label, escrow_label_spec,
    vault_label, vault_label_spec, verifies, verify, Address,
};
use crate::ledger::{attempts, settles, Ledger, LedgerState};
use crate::state::{Bumps, CustodyError, Escrow, Seals, TokenAccount};
use vstd::prelude::*;

verus! {

/// The holding account at `account` exists, holds `mint` and is owned by
/// `owner`.
pub open spec fn holds_for(s: LedgerState, account: Address, owner: Address, mint: Address) -> bool {
    &&& s.holdings.contains_key(account)
    &&& s.holdings[account].owner == owner
    &&& s.holdings[account].mint == mint
}

/// Whether the holding account at `account` exists, holds `mint` and is
/// owned by `owner`.
pub fn check_holding(ledger: &Ledger, account: &Address, owner: &Address, mint: &Address) -> (ok: bool)
    ensures
        ok == holds_for(ledger@, *account, *owner, *mint),
{
    match ledger.holding(account) {
        Some(a) => a.owner.same(owner) && a.mint.same(mint),
        None => false,
    }
}

/// The error of a transfer step, or the state after it.
pub open spec fn transferred(s: LedgerState, from: Address, to: Address, authority: Address, amount: u64) -> Result<LedgerState, CustodyError> {
    match s.transfer(from, to, authority, amount) {
        Ok(after) => Ok(after),
        Err(e) => Err(CustodyError::of_transfer(e)),
    }
}

/// Asks the transfer primitive to move `amount` and reports its refusal as
/// a handler's error.
pub fn transfer_step(ledger: &mut Ledger, from: &Address, to: &Address, authority: &Address, amount: u64) -> (r: Result<(), CustodyError>)
    ensures
        settles(old(ledger)@, final(ledger)@, r, transferred(old(ledger)@, *from, *to, *authority, amount)),
{
    match ledger.transfer(from, to, authority, amount) {
        Ok(()) => Ok(()),
        Err(e) => Err(CustodyError::from_transfer(e)),
    }
}

/// What the resolver finds of the derived accounts presented with the
/// record at `escrow`. Without a record nothing is verified.
pub open spec fn seals_of(s: LedgerState, escrow: Address, maker: Address, auth: Address, vault: Address) -> Seals {
    if !s.escrows.contains_key(escrow) {
        Seals { escrow: false, vault: false, auth: false }
    } else {
        let record = s.escrows[escrow];
        Seals {
            escrow: verifies(s.program_id, escrow, escrow_label_spec(maker, record.seed), record.escrow_bump),
            vault: verifies(s.program_id, vault, vault_label_spec(escrow), record.vault_bump),
            auth: verifies(s.program_id, auth, auth_label_spec(), record.auth_bump),
        }
    }
}

/// Whether `auth` is the authority derived under the bump that the record
/// at `escrow` stores.
pub open spec fn authorized(s: LedgerState, escrow: Address, auth: Address) -> bool {
    s.escrows.contains_key(escrow) && verifies(s.program_id, auth, auth_label_spec(), s.escrows[escrow].auth_bump)
}

/// Verifies the derived accounts presented with the record at `escrow`
/// against the bumps that the record stores.
pub fn seals(ledger: &Ledger, escrow: &Address, maker: &Address, auth: &Address, vault: &Address) -> (r: Seals)
    ensures
        r == seals_of(ledger@, *escrow, *maker, *auth, *vault),
{
    match ledger.escrow(escrow) {
        None => Seals { escrow: false, vault: false, auth: false },
        Some(record) => {
            let program_id = ledger.program_id();
            Seals {
                escrow: verify(&program_id, escrow, &escrow_label(maker, record.seed), record.escrow_bump),
                vault: verify(&program_id, vault, &vault_label(escrow), record.vault_bump),
                auth: verify(&program_id, auth, &auth_label(), record.auth_bump),
            }
        },
    }
}

/// Verifies `auth` against the bump that the record at `escrow` stores.
pub fn authorize(ledger: &Ledger, escrow: &Address, auth: &Address) -> (ok: bool)
    ensures
        ok == authorized(ledger@, *escrow, *auth),
{
    match ledger.escrow(escrow) {
        None => false,
        Some(record) => verify(&ledger.program_id(), auth, &auth_label(), record.auth_bump),
    }
}

/// Hands the whole balance of the custody account `vault` of the record at
/// `escrow` to `target`, on the word of the derived authority `auth`. It is
/// refused unless the authority was verified.
pub open spec fn empty_vault_into(s: LedgerState, escrow: Address, auth: Address, vault: Address, target: Address, auth_ok: bool) -> Result<LedgerState, CustodyError> {
    if !s.escrows.contains_key(escrow) {
        Err(CustodyError::RecordNotFound)
    } else if !auth_ok {
        Err(CustodyError::StructuralMismatch)
    } else if !s.holdings.contains_key(vault) {
        Err(CustodyError::AlreadyClosed)
    } else {
        transferred(s, vault, target, auth, s.holdings[vault].amount)
    }
}

/// Closes the custody account `vault` of the record at `escrow` on the word
/// of the derived authority `auth`. It is refused unless the authority was
/// verified.
pub open spec fn close_custody(s: LedgerState, escrow: Address, auth: Address, vault: Address, destination: Address, auth_ok: bool) -> Result<LedgerState, CustodyError> {
    if !s.escrows.contains_key(escrow) {
        Err(CustodyError::RecordNotFound)
    } else if !auth_ok {
        Err(CustodyError::StructuralMismatch)
    } else if !s.holdings.contains_key(vault) {
        Err(CustodyError::AlreadyClosed)
    } else {
        match s.close_account(vault, auth, destination) {
            Ok(after) => Ok(after),
            Err(_) => Err(CustodyError::CloseError),
        }
    }
}

/// What `take` and `refund` check of the record and its custody account
/// before anything moves: the record exists, it was opened by `maker`
/// for `maker_token`, the three derived accounts presented were verified,
/// and the custody account holds `maker_token` under the derived authority.
pub open spec fn custody_checked(s: LedgerState, escrow: Address, maker: Address, maker_token: Address, auth: Address, vault: Address, found: Seals) -> Result<(), CustodyError> {
    if !s.escrows.contains_key(escrow) {
        Err(CustodyError::RecordNotFound)
    } else if s.escrows[escrow].maker != maker || s.escrows[escrow].maker_token != maker_token {
        Err(CustodyError::StructuralMismatch)
    } else if !found.escrow || !found.vault || !found.auth {
        Err(CustodyError::StructuralMismatch)
    } else if !s.holdings.contains_key(vault) {
        Err(CustodyError::AlreadyClosed)
    } else if !holds_for(s, vault, auth, maker_token) {
        Err(CustodyError::StructuralMismatch)
    } else {
        Ok(())
    }
}

/// Checks the record at `escrow` and its custody account against the
/// accounts presented and what the resolver found of them.
pub fn check_custody(ledger: &Ledger, escrow: &Address, maker: &Address, maker_token: &Address, auth: &Address, vault: &Address, found: &Seals) -> (r: Result<(), CustodyError>)
    ensures
        r == custody_checked(ledger@, *escrow, *maker, *maker_token, *auth, *vault, *found),
{
    let record = match ledger.escrow(escrow) {
        Some(record) => record,
        None => { return Err(CustodyError::RecordNotFound); },
    };
    if !record.maker.same(maker) || !record.maker_token.same(maker_token) {
        return Err(CustodyError::StructuralMismatch);
    }
    if !found.escrow || !found.vault || !found.auth {
        return Err(CustodyError::StructuralMismatch);
    }
    if ledger.holding(vault).is_none() {
        return Err(CustodyError::AlreadyClosed);
    }
    if !check_holding(ledger, vault, auth, maker_token) {
        return Err(CustodyError::StructuralMismatch);
    }
    Ok(())
}

/// Hands the whole balance in custody to `target`; `auth_ok` says whether
/// the authority was verified.
pub fn empty_vault_step(ledger: &mut Ledger, escrow: &Address, auth: &Address, vault: &Address, target: &Address, auth_ok: bool) -> (r: Result<(), CustodyError>)
    ensures
        settles(old(ledger)@, final(ledger)@, r, empty_vault_into(old(ledger)@, *escrow, *auth, *vault, *target, auth_ok)),
{
    if ledger.escrow(escrow).is_none() {
        return Err(CustodyError::RecordNotFound);
    }
    if !auth_ok {
        return Err(CustodyError::StructuralMismatch);
    }
    let held = match ledger.holding(vault) {
        Some(account) => account.amount,
        None => { return Err(CustodyError::AlreadyClosed); },
    };
    transfer_step(ledger, vault, target, auth, held)
}

/// Closes the custody account; `auth_ok` says whether the authority was
/// verified.
pub fn close_custody_step(ledger: &mut Ledger, escrow: &Address, auth: &Address, vault: &Address, destination: &Address, auth_ok: bool) -> (r: Result<(), CustodyError>)
    ensures
        settles(old(ledger)@, final(ledger)@, r, close_custody(old(ledger)@, *escrow, *auth, *vault, *destination, auth_ok)),
{
    if ledger.escrow(escrow).is_none() {
        return Err(CustodyError::RecordNotFound);
    }
    if !auth_ok {
        return Err(CustodyError::StructuralMismatch);
    }
    if ledger.holding(vault).is_none() {
        return Err(CustodyError::AlreadyClosed);
    }
    match ledger.close_account(vault, auth, destination) {
        Ok(()) => Ok(()),
        Err(_) => Err(CustodyError::CloseError),
    }
}

/// The resolver derives no authority, no record for `maker` under `seed`,
/// or no custody account for that record.
pub open spec fn unresolved(program_id: Address, maker: Address, seed: u64) -> bool {
    ||| canonical_bump(program_id, auth_label_spec()) is None
    ||| canonical_bump(program_id, escrow_label_spec(maker, seed)) is None
    ||| exists|record: Address|
        canonical_bump_of(program_id, escrow_label_spec(maker, seed), record) is Some && canonical_bump(
            program_id,
            vault_label_spec(record),
        ) is None
}

/// The accounts that `make` is given.
#[derive(Clone, Copy, Debug, PartialEq, Eq)]
pub struct Make {
    /// The caller, who opens the record and deposits.
    pub maker: Address,
    /// The counterparty the maker names, if any.
    pub taker: Option<Address>,
    /// The maker's holding account of `maker_token`, the source of the
    /// deposit.
    pub maker_ata: Address,
    pub maker_token: Address,
    pub taker_token: Address,
    /// The derived authority over the custody account.
    pub auth: Address,
    /// The custody account to create.
    pub vault: Address,
    /// The address of the record to create.
    pub escrow: Address,
}

impl Make {
    /// The record that `init` writes.
    pub open spec fn record(self, bumps: Bumps, seed: u64, deposit_amount: u64, offer_amount: u64) -> Escrow {
        Escrow {
            maker: self.maker,
            taker: self.taker,
            maker_token: self.maker_token,
            taker_token: self.taker_token,
            seed,
            offer_amount,
            deposit_amount,
            auth_bump: bumps.auth->Some_0,
            vault_bump: bumps.vault->Some_0,
            escrow_bump: bumps.escrow->Some_0,
        }
    }

    /// The bump of each derived account presented: the canonical bump of
    /// its label where the account is the address derived under it, absent
    /// otherwise.
    pub open spec fn bumps_spec(self, program_id: Address, seed: u64) -> Bumps {
        Bumps {
            auth: canonical_bump_of(program_id, auth_label_spec(), self.auth),
            vault: canonical_bump_of(program_id, vault_label_spec(self.escrow), self.vault),
            escrow: canonical_bump_of(program_id, escrow_label_spec(self.maker, seed), self.escrow),
        }
    }

    /// Writes the record: fails with `MissingBump` where a bump is absent
    /// and with `AlreadyExists` where a record is open at the address.
    pub open spec fn init_spec(self, s: LedgerState, bumps: Bumps, seed: u64, deposit_amount: u64, offer_amount: u64) -> Result<LedgerState, CustodyError> {
        if bumps.auth is None || bumps.vault is None || bumps.escrow is None {
            Err(CustodyError::MissingBump)
        } else if s.escrows.contains_key(self.escrow) {
            Err(CustodyError::AlreadyExists)
        } else {
            Ok(s.with_escrows(s.escrows.insert(self.escrow, self.record(bumps, seed, deposit_amount, offer_amount))))
        }
    }

    /// Creates the custody account, empty, under the derived authority.
    pub open spec fn open_vault_spec(self, s: LedgerState) -> Result<LedgerState, CustodyError> {
        if s.holdings.contains_key(self.vault) {
            Err(CustodyError::AlreadyExists)
        } else {
            Ok(s.with_holdings(s.holdings.insert(self.vault, TokenAccount { mint: self.maker_token, owner: self.auth, amount: 0 })))
        }
    }

    /// Moves the deposit from the maker's holding account into custody.
    pub open spec fn transfer_to_vault_spec(self, s: LedgerState, amount: u64) -> Result<LedgerState, CustodyError> {
        transferred(s, self.maker_ata, self.vault, self.maker, amount)
    }

    /// `self` presents the accounts named, and each derived account it
    /// presents is the canonical address of its label.
    pub open spec fn resolved_from(self, program_id: Address, maker: Address, taker: Option<Address>, maker_ata: Address, maker_token: Address, taker_token: Address, seed: u64) -> bool {
        &&& self.maker == maker
        &&& self.taker == taker
        &&& self.maker_ata == maker_ata
        &&& self.maker_token == maker_token
        &&& self.taker_token == taker_token
        &&& self.bumps_spec(program_id, seed).auth is Some
        &&& self.bumps_spec(program_id, seed).vault is Some
        &&& self.bumps_spec(program_id, seed).escrow is Some
    }

    /// The accounts of a `make` by `maker` under `seed`, with the derived
    /// accounts filled in by the resolver; `None` where it derives no
    /// authority, no record, or no custody account for the record.
    pub fn resolve(program_id: &Address, maker: Address, taker: Option<Address>, maker_ata: Address, maker_token: Address, taker_token: Address, seed: u64) -> (r: Option<Make>)
        ensures
            r is Some ==> r->Some_0.resolved_from(*program_id, maker, taker, maker_ata, maker_token, taker_token, seed),
            r is None <==> unresolved(*program_id, maker, seed),
    {
        let auth = match crate::address::derive(program_id, &auth_label()) {
            Some(found) => found.0,
            None => { return None; },
        };
        let escrow = match crate::address::derive(program_id, &escrow_label(&maker, seed)) {
            Some(found) => found.0,
            None => { return None; },
        };
        let vault = match crate::address::derive(program_id, &vault_label(&escrow)) {
            Some(found) => found.0,
            None => {
                assert(canonical_bump_of(*program_id, escrow_label_spec(maker, seed), escrow) is Some);
                return None;
            },
        };
        proof {
            assert forall|record: Address| canonical_bump_of(*program_id, escrow_label_spec(maker, seed), record) is Some implies canonical_bump(
                *program_id,
                vault_label_spec(record),
            ) is Some by {
                assert(record@ == escrow@);
                assert(record.bytes =~= escrow.bytes);
            }
        }
        Some(Make { maker, taker, maker_ata, maker_token, taker_token, auth, vault, escrow })
    }

    /// Asks the resolver for the bump of each derived account presented.
    pub fn bumps(&self, program_id: &Address, seed: u64) -> (b: Bumps)
        ensures
            b == self.bumps_spec(*program_id, seed),
    {
        Bumps {
            auth: canonical_bump_for(program_id, &auth_label(), &self.auth),
            vault: canonical_bump_for(program_id, &vault_label(&self.escrow), &self.vault),
            escrow: canonical_bump_for(program_id, &escrow_label(&self.maker, seed), &self.escrow),
        }
    }

    /// Writes the record of this exchange with the bumps that the resolver
    /// produced.
    pub fn init(&self, ledger: &mut Ledger, bumps: &Bumps, seed: u64, deposit_amount: u64, offer_amount: u64) -> (r: Result<(), CustodyError>)
        ensures
            settles(old(ledger)@, final(ledger)@, r, self.init_spec(old(ledger)@, *bumps, seed, deposit_amount, offer_amount)),
    {
        let auth_bump = match bumps.auth {
            Some(b) => b,
            None => { return Err(CustodyError::MissingBump); },
        };
        let vault_bump = match bumps.vault {
            Some(b) => b,
            None => { return Err(CustodyError::MissingBump); },
        };
        let escrow_bump = match bumps.escrow {
            Some(b) => b,
            None => { return Err(CustodyError::MissingBump); },
        };
        if ledger.escrow(&self.escrow).is_some() {
            return Err(CustodyError::AlreadyExists);
        }
        ledger.put_escrow(
            self.escrow,
            Escrow {
                maker: self.maker,
                taker: self.taker,
                maker_token: self.maker_token,
                taker_token: self.taker_token,
                seed,
                offer_amount,
                deposit_amount,
                auth_bump,
                vault_bump,
                escrow_bump,
            },
        );
        Ok(())
    }

    /// Creates the custody account of the record.
    pub fn open_vault(&self, ledger: &mut Ledger) -> (r: Result<(), CustodyError>)
        ensures
            settles(old(ledger)@, final(ledger)@, r, self.open_vault_spec(old(ledger)@)),
    {
        if ledger.holding(&self.vault).is_some() {
            return Err(CustodyError::AlreadyExists);
        }
        let created = ledger.create_holding_account(self.vault, self.auth, self.maker_token);
        assert(created);
        Ok(())
    }

    /// Moves `amount` of the maker's tokens into custody, on the maker's
    /// word.
    pub fn transfer_to_vault(&self, ledger: &mut Ledger, amount: u64) -> (r: Result<(), CustodyError>)
        ensures
            settles(old(ledger)@, final(ledger)@, r, self.transfer_to_vault_spec(old(ledger)@, amount)),
    {
        transfer_step(ledger, &self.maker_ata, &self.vault, &self.maker, amount)
    }
}

/// What `make` does to the ledger, given the bumps of the resolver: it
/// writes the record, creates the custody account and moves the deposit
/// into it.
pub open spec fn make_spec(s: LedgerState, ctx: Make, bumps: Bumps, seed: u64, deposit_amount: u64, offer_amount: u64) -> Result<LedgerState, CustodyError> {
    match ctx.init_spec(s, bumps, seed, deposit_amount, offer_amount) {
        Err(e) => Err(e),
        Ok(written) => match ctx.open_vault_spec(written) {
            Err(e) => Err(e),
            Ok(opened) => ctx.transfer_to_vault_spec(opened, deposit_amount),
        },
    }
}

fn run_make(work: &mut Ledger, ctx: &Make, bumps: &Bumps, seed: u64, deposit_amount: u64, offer_amount: u64) -> (r: Result<(), CustodyError>)
    ensures
        attempts(final(work)@, r, make_spec(old(work)@, *ctx, *bumps, seed, deposit_amount, offer_amount)),
{
    match ctx.init(work, bumps, seed, deposit_amount, offer_amount) {
        Ok(()) => {},
        Err(e) => { return Err(e); },
    }
    match ctx.open_vault(work) {
        Ok(()) => {},
        Err(e) => { return Err(e); },
    }
    ctx.transfer_to_vault(work, deposit_amount)
}

/// Opens an escrow record with the bumps given and takes the deposit into
/// custody. All of it happens or none.
pub fn make_with(ledger: &mut Ledger, ctx: &Make, bumps: &Bumps, seed: u64, deposit_amount: u64, offer_amount: u64) -> (r: Result<(), CustodyError>)
    ensures
        settles(old(ledger)@, final(ledger)@, r, make_spec(old(ledger)@, *ctx, *bumps, seed, deposit_amount, offer_amount)),
{
    let mut work = ledger.duplicate();
    match run_make(&mut work, ctx, bumps, seed, deposit_amount, offer_amount) {
        Ok(()) => {
            *ledger = work;
            Ok(())
        },
        Err(e) => Err(e),
    }
}

/// Opens an escrow record for the maker and takes the deposit into custody:
/// asks the resolver for the bumps of the derived accounts presented, then
/// does as `make_with`.
pub fn make(ledger: &mut Ledger, ctx: &Make, seed: u64, deposit_amount: u64, offer_amount: u64) -> (r: Result<(), CustodyError>)
    ensures
        settles(
            old(ledger)@,
            final(ledger)@,
            r,
            make_spec(old(ledger)@, *ctx, ctx.bumps_spec(old(ledger)@.program_id, seed), seed, deposit_amount, offer_amount),
        ),
{
    let bumps = ctx.bumps(&ledger.program_id(), seed);
    make_with(ledger, ctx, &bumps, seed, deposit_amount, offer_amount)
}

/// The accounts that `take` is given.
#[derive(Clone, Copy, Debug, PartialEq, Eq)]
pub struct Take {
    /// The maker of the record.
    pub maker: Address,
    /// The maker's holding account of `taker_token`, which receives the
    /// payment. It is created if it does not exist.
    pub maker_receive_ata: Address,
    pub maker_token: Address,
    /// The caller, who pays and receives the deposit.
    pub taker: Address,
    /// The taker's holding account of `taker_token`, the source of the
    /// payment.
    pub taker_ata: Address,
    /// The taker's holding account of `maker_token`, which receives the
    /// deposit. It is created if it does not exist.
    pub taker_receive_ata: Address,
    pub taker_token: Address,
    pub auth: Address,
    pub vault: Address,
    pub escrow: Address,
}

impl Take {
    pub open spec fn seals_spec(self, s: LedgerState) -> Seals {
        seals_of(s, self.escrow, self.maker, self.auth, self.vault)
    }

    /// The checks before anything moves: those on the record and its
    /// custody account, and that the record asks for `taker_token`.
    pub open spec fn check_spec(self, s: LedgerState, found: Seals) -> Result<(), CustodyError> {
        match custody_checked(s, self.escrow, self.maker, self.maker_token, self.auth, self.vault, found) {
            Err(e) => Err(e),
            Ok(()) => if s.escrows[self.escrow].taker_token != self.taker_token {
                Err(CustodyError::StructuralMismatch)
            } else {
                Ok(())
            },
        }
    }

    /// Makes sure that the two receiving accounts exist, each under its
    /// owner and for its token type.
    pub open spec fn open_receiving_spec(self, s: LedgerState) -> Result<LedgerState, CustodyError> {
        match s.create_holding_account(self.maker_receive_ata, self.maker, self.taker_token) {
            None => Err(CustodyError::StructuralMismatch),
            Some(first) => match first.create_holding_account(self.taker_receive_ata, self.taker, self.maker_token) {
                None => Err(CustodyError::StructuralMismatch),
                Some(second) => Ok(second),
            },
        }
    }

    /// Pays the maker: the amount the record asks for, from the taker's
    /// holding account, on the taker's word.
    pub open spec fn deposit_to_maker_spec(self, s: LedgerState) -> Result<LedgerState, CustodyError> {
        if !s.escrows.contains_key(self.escrow) {
            Err(CustodyError::RecordNotFound)
        } else {
            transferred(s, self.taker_ata, self.maker_receive_ata, self.taker, s.escrows[self.escrow].offer_amount)
        }
    }

    pub open spec fn empty_vault_to_taker_spec(self, s: LedgerState, auth_ok: bool) -> Result<LedgerState, CustodyError> {
        empty_vault_into(s, self.escrow, self.auth, self.vault, self.taker_receive_ata, auth_ok)
    }

    pub open spec fn close_vault_spec(self, s: LedgerState, auth_ok: bool) -> Result<LedgerState, CustodyError> {
        close_custody(s, self.escrow, self.auth, self.vault, self.taker, auth_ok)
    }

    /// Verifies the derived accounts presented against the bumps that the
    /// record stores.
    pub fn seals(&self, ledger: &Ledger) -> (r: Seals)
        ensures
            r == self.seals_spec(ledger@),
    {
        seals(ledger, &self.escrow, &self.maker, &self.auth, &self.vault)
    }

    /// Checks the accounts presented against the record, given what the
    /// resolver found of the derived ones.
    pub fn check_with(&self, ledger: &Ledger, found: &Seals) -> (r: Result<(), CustodyError>)
        ensures
            r == self.check_spec(ledger@, *found),
    {
        match check_custody(ledger, &self.escrow, &self.maker, &self.maker_token, &self.auth, &self.vault, found) {
            Ok(()) => {},
            Err(e) => { return Err(e); },
        }
        match ledger.escrow(&self.escrow) {
            Some(record) => if record.taker_token.same(&self.taker_token) {
                Ok(())
            } else {
                Err(CustodyError::StructuralMismatch)
            },
            None => Err(CustodyError::RecordNotFound),
        }
    }

    /// Checks the accounts presented against the record.
    pub fn check(&self, ledger: &Ledger) -> (r: Result<(), CustodyError>)
        ensures
            r == self.check_spec(ledger@, self.seals_spec(ledger@)),
    {
        let found = self.seals(ledger);
        self.check_with(ledger, &found)
    }

    /// Makes sure that the two receiving accounts exist.
    pub fn open_receiving(&self, ledger: &mut Ledger) -> (r: Result<(), CustodyError>)
        ensures
            settles(old(ledger)@, final(ledger)@, r, self.open_receiving_spec(old(ledger)@)),
    {
        let mut work = ledger.duplicate();
        if !work.create_holding_account(self.maker_receive_ata, self.maker, self.taker_token) {
            return Err(CustodyError::StructuralMismatch);
        }
        if !work.create_holding_account(self.taker_receive_ata, self.taker, self.maker_token) {
            return Err(CustodyError::StructuralMismatch);
        }
        *ledger = work;
        Ok(())
    }

    /// Pays the maker what the record asks for.
    pub fn deposit_to_maker(&self, ledger: &mut Ledger) -> (r: Result<(), CustodyError>)
        ensures
            settles(old(ledger)@, final(ledger)@, r, self.deposit_to_maker_spec(old(ledger)@)),
    {
        let record = match ledger.escrow(&self.escrow) {
            Some(record) => record,
            None => { return Err(CustodyError::RecordNotFound); },
        };
        transfer_step(ledger, &self.taker_ata, &self.maker_receive_ata, &self.taker, record.offer_amount)
    }

    /// Hands the whole balance in custody to the taker, on the word of the
    /// derived authority, which is verified first.
    pub fn empty_vault_to_taker(&self, ledger: &mut Ledger) -> (r: Result<(), CustodyError>)
        ensures
            settles(
                old(ledger)@,
                final(ledger)@,
                r,
                self.empty_vault_to_taker_spec(old(ledger)@, authorized(old(ledger)@, self.escrow, self.auth)),
            ),
    {
        let auth_ok = authorize(ledger, &self.escrow, &self.auth);
        empty_vault_step(ledger, &self.escrow, &self.auth, &self.vault, &self.taker_receive_ata, auth_ok)
    }

    /// Closes the emptied custody account on the word of the derived
    /// authority, which is verified first; its storage goes to the taker.
    pub fn close_vault(&self, ledger: &mut Ledger) -> (r: Result<(), CustodyError>)
        ensures
            settles(
                old(ledger)@,
                final(ledger)@,
                r,
                self.close_vault_spec(old(ledger)@, authorized(old(ledger)@, self.escrow, self.auth)),
            ),
    {
        let auth_ok = authorize(ledger, &self.escrow, &self.auth);
        close_custody_step(ledger, &self.escrow, &self.auth, &self.vault, &self.taker, auth_ok)
    }
}

/// What `take` does to the ledger, given what the resolver found: after the
/// checks, the taker pays the maker, receives the whole balance in custody,
/// and the custody account and the record are closed.
pub open spec fn take_spec(s: LedgerState, ctx: Take, found: Seals) -> Result<LedgerState, CustodyError> {
    match ctx.check_spec(s, found) {
        Err(e) => Err(e),
        Ok(()) => match ctx.open_receiving_spec(s) {
            Err(e) => Err(e),
            Ok(ready) => match ctx.deposit_to_maker_spec(ready) {
                Err(e) => Err(e),
                Ok(paid) => match ctx.empty_vault_to_taker_spec(paid, found.auth) {
                    Err(e) => Err(e),
                    Ok(emptied) => match ctx.close_vault_spec(emptied, found.auth) {
                        Err(e) => Err(e),
                        Ok(closed) => Ok(closed.with_escrows(closed.escrows.remove(ctx.escrow))),
                    },
                },
            },
        },
    }
}

fn run_take(work: &mut Ledger, ctx: &Take, found: &Seals) -> (r: Result<(), CustodyError>)
    ensures
        attempts(final(work)@, r, take_spec(old(work)@, *ctx, *found)),
{
    match ctx.check_with(work, found) {
        Ok(()) => {},
        Err(e) => { return Err(e); },
    }
    match ctx.open_receiving(work) {
        Ok(()) => {},
        Err(e) => { return Err(e); },
    }
    match ctx.deposit_to_maker(work) {
        Ok(()) => {},
        Err(e) => { return Err(e); },
    }
    match empty_vault_step(work, &ctx.escrow, &ctx.auth, &ctx.vault, &ctx.taker_receive_ata, found.auth) {
        Ok(()) => {},
        Err(e) => { return Err(e); },
    }
    match close_custody_step(work, &ctx.escrow, &ctx.auth, &ctx.vault, &ctx.taker, found.auth) {
        Ok(()) => {},
        Err(e) => { return Err(e); },
    }
    work.remove_escrow(&ctx.escrow);
    Ok(())
}

/// Lets the taker accept the exchange, given what the resolver found of the
/// derived accounts. All of it happens or none.
pub fn take_with(ledger: &mut Ledger, ctx: &Take, found: &Seals) -> (r: Result<(), CustodyError>)
    ensures
        settles(old(ledger)@, final(ledger)@, r, take_spec(old(ledger)@, *ctx, *found)),
{
    let mut work = ledger.duplicate();
    match run_take(&mut work, ctx, found) {
        Ok(()) => {
            *ledger = work;
            Ok(())
        },
        Err(e) => Err(e),
    }
}

/// Lets the taker accept the exchange: verifies the derived accounts
/// presented, then does as `take_with`.
pub fn take(ledger: &mut Ledger, ctx: &Take) -> (r: Result<(), CustodyError>)
    ensures
        settles(old(ledger)@, final(ledger)@, r, take_spec(old(ledger)@, *ctx, ctx.seals_spec(old(ledger)@))),
{
    let found = ctx.seals(ledger);
    take_with(ledger, ctx, &found)
}

/// The accounts that `refund` is given.
#[derive(Clone, Copy, Debug, PartialEq, Eq)]
pub struct Refund {
    /// The caller, who must be the maker of the record.
    pub maker: Address,
    /// The maker's holding account of `maker_token`, which receives the
    /// deposit back.
    pub maker_ata: Address,
    pub maker_token: Address,
    pub auth: Address,
    pub vault: Address,
    pub escrow: Address,
}

impl Refund {
    pub open spec fn seals_spec(self, s: LedgerState) -> Seals {
        seals_of(s, self.escrow, self.maker, self.auth, self.vault)
    }

    /// The checks before anything moves: those on the record and its
    /// custody account, and that the receiving account is the maker's.
    pub open spec fn check_spec(self, s: LedgerState, found: Seals) -> Result<(), CustodyError> {
        match custody_checked(s, self.escrow, self.maker, self.maker_token, self.auth, self.vault, found) {
            Err(e) => Err(e),
            Ok(()) => if !holds_for(s, self.maker_ata, self.maker, self.maker_token) {
                Err(CustodyError::StructuralMismatch)
            } else {
                Ok(())
            },
        }
    }

    pub open spec fn empty_vault_spec(self, s: LedgerState, auth_ok: bool) -> Result<LedgerState, CustodyError> {
        empty_vault_into(s, self.escrow, self.auth, self.vault, self.maker_ata, auth_ok)
    }

    pub open spec fn close_vault_spec(self, s: LedgerState, auth_ok: bool) -> Result<LedgerState, CustodyError> {
        close_custody(s, self.escrow, self.auth, self.vault, self.maker, auth_ok)
    }

    /// Verifies the derived accounts presented against the bumps that the
    /// record stores.
    pub fn seals(&self, ledger: &Ledger) -> (r: Seals)
        ensures
            r == self.seals_spec(ledger@),
    {
        seals(ledger, &self.escrow, &self.maker, &self.auth, &self.vault)
    }

    /// Checks the accounts presented against the record, given what the
    /// resolver found of the derived ones.
    pub fn check_with(&self, ledger: &Ledger, found: &Seals) -> (r: Result<(), CustodyError>)
        ensures
            r == self.check_spec(ledger@, *found),
    {
        match check_custody(ledger, &self.escrow, &self.maker, &self.maker_token, &self.auth, &self.vault, found) {
            Ok(()) => {},
            Err(e) => { return Err(e); },
        }
        if check_holding(ledger, &self.maker_ata, &self.maker, &self.maker_token) {
            Ok(())
        } else {
            Err(CustodyError::StructuralMismatch)
        }
    }

    /// Checks the accounts presented against the record.
    pub fn check(&self, ledger: &Ledger) -> (r: Result<(), CustodyError>)
        ensures
            r == self.check_spec(ledger@, self.seals_spec(ledger@)),
    {
        let found = self.seals(ledger);
        self.check_with(ledger, &found)
    }

    /// Hands the whole balance in custody back to the maker, on the word of
    /// the derived authority, which is verified first.
    pub fn empty_vault(&self, ledger: &mut Ledger) -> (r: Result<(), CustodyError>)
        ensures
            settles(
                old(ledger)@,
                final(ledger)@,
                r,
                self.empty_vault_spec(old(ledger)@, authorized(old(ledger)@, self.escrow, self.auth)),
            ),
    {
        let auth_ok = authorize(ledger, &self.escrow, &self.auth);
        empty_vault_step(ledger, &self.escrow, &self.auth, &self.vault, &self.maker_ata, auth_ok)
    }

    /// Closes the emptied custody account on the word of the derived
    /// authority, which is verified first; its storage goes to the maker.
    pub fn close_vault(&self, ledger: &mut Ledger) -> (r: Result<(), CustodyError>)
        ensures
            settles(
                old(ledger)@,
                final(ledger)@,
                r,
                self.close_vault_spec(old(ledger)@, authorized(old(ledger)@, self.escrow, self.auth)),
            ),
    {
        let auth_ok = authorize(ledger, &self.escrow, &self.auth);
        close_custody_step(ledger, &self.escrow, &self.auth, &self.vault, &self.maker, auth_ok)
    }
}

/// What `refund` does to the ledger, given what the resolver found: after
/// the checks, the maker receives the whole balance in custody back, and
/// the custody account and the record are closed.
pub open spec fn refund_spec(s: LedgerState, ctx: Refund, found: Seals) -> Result<LedgerState, CustodyError> {
    match ctx.check_spec(s, found) {
        Err(e) => Err(e),
        Ok(()) => match ctx.empty_vault_spec(s, found.auth) {
            Err(e) => Err(e),
            Ok(emptied) => match ctx.close_vault_spec(emptied, found.auth) {
                Err(e) => Err(e),
                Ok(closed) => Ok(closed.with_escrows(closed.escrows.remove(ctx.escrow))),
            },
        },
    }
}

fn run_refund(work: &mut Ledger, ctx: &Refund, found: &Seals) -> (r: Result<(), CustodyError>)
    ensures
        attempts(final(work)@, r, refund_spec(old(work)@, *ctx, *found)),
{
    match ctx.check_with(work, found) {
        Ok(()) => {},
        Err(e) => { return Err(e); },
    }
    match empty_vault_step(work, &ctx.escrow, &ctx.auth, &ctx.vault, &ctx.maker_ata, found.auth) {
        Ok(()) => {},
        Err(e) => { return Err(e); },
    }
    match close_custody_step(work, &ctx.escrow, &ctx.auth, &ctx.vault, &ctx.maker, found.auth) {
        Ok(()) => {},
        Err(e) => { return Err(e); },
    }
    work.remove_escrow(&ctx.escrow);
    Ok(())
}

/// Cancels the exchange and hands the deposit back to the maker, given what
/// the resolver found of the derived accounts. All of it happens or none.
pub fn refund_with(ledger: &mut Ledger, ctx: &Refund, found: &Seals) -> (r: Result<(), CustodyError>)
    ensures
        settles(old(ledger)@, final(ledger)@, r, refund_spec(old(ledger)@, *ctx, *found)),
{
    let mut work = ledger.duplicate();
    match run_refund(&mut work, ctx, found) {
        Ok(()) => {
            *ledger = work;
            Ok(())
        },
        Err(e) => Err(e),
    }
}

/// Cancels the exchange and hands the deposit back to the maker: verifies
/// the derived accounts presented, then does as `refund_with`.
pub fn refund(ledger: &mut Ledger, ctx: &Refund) -> (r: Result<(), CustodyError>)
    ensures
        settles(old(ledger)@, final(ledger)@, r, refund_spec(old(ledger)@, *ctx, ctx.seals_spec(old(ledger)@))),
{
    let found = ctx.seals(ledger);
    refund_with(ledger, ctx, &found)
}

} // verus!
