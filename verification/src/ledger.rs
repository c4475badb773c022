//! The ledger: holding accounts, escrow records and vault states, with the
//! token primitives that move balances between holding accounts.

use crate::address::Address;
use crate::state::{CloseError, Escrow, TokenAccount, TransferError, VaultState};
use crate::table::Table;
use vstd::prelude::*;

verus! {

/// The ledger as a mathematical value.
#[verifier::ext_equal]
pub struct LedgerState {
    /// The identity under which the program derives its authorities.
    pub program_id: Address,
    pub holdings: Map<Address, TokenAccount>,
    pub escrows: Map<Address, Escrow>,
    pub vaults: Map<Address, VaultState>,
}

/// What a handler leaves behind: on success the state it computed, on
/// failure its error and the ledger as it was.
pub open spec fn settles<E>(pre: LedgerState, post: LedgerState, r: Result<(), E>, expected: Result<LedgerState, E>) -> bool {
    match expected {
        Ok(s) => r is Ok && post == s,
        Err(e) => r == Err::<(), E>(e) && post == pre,
    }
}

/// What a step leaves behind on a working copy of the ledger: on success
/// the state it computed, on failure its error.
pub open spec fn attempts<E>(post: LedgerState, r: Result<(), E>, expected: Result<LedgerState, E>) -> bool {
    match expected {
        Ok(s) => r is Ok && post == s,
        Err(e) => r == Err::<(), E>(e),
    }
}

impl LedgerState {
    pub open spec fn with_holdings(self, holdings: Map<Address, TokenAccount>) -> LedgerState {
        LedgerState { holdings, ..self }
    }

    pub open spec fn with_escrows(self, escrows: Map<Address, Escrow>) -> LedgerState {
        LedgerState { escrows, ..self }
    }

    pub open spec fn with_vaults(self, vaults: Map<Address, VaultState>) -> LedgerState {
        LedgerState { vaults, ..self }
    }

    /// The balance at `account`; nothing is held where no account exists.
    pub open spec fn balance(self, account: Address) -> nat {
        if self.holdings.contains_key(account) {
            self.holdings[account].amount as nat
        } else {
            0
        }
    }

    /// Opens a holding account with no balance. Where the account exists
    /// with the same owner and token type nothing changes; where it exists
    /// with another owner or token type the request is refused.
    pub open spec fn create_holding_account(self, account: Address, owner: Address, mint: Address) -> Option<LedgerState> {
        if !self.holdings.contains_key(account) {
            Some(self.with_holdings(self.holdings.insert(account, TokenAccount { mint, owner, amount: 0 })))
        } else if self.holdings[account].owner == owner && self.holdings[account].mint == mint {
            Some(self)
        } else {
            None
        }
    }

    /// Credits `amount` to `account`.
    pub open spec fn mint_to(self, account: Address, amount: u64) -> Result<LedgerState, TransferError> {
        if !self.holdings.contains_key(account) {
            Err(TransferError::AccountNotFound)
        } else if self.holdings[account].amount + amount > u64::MAX {
            Err(TransferError::Overflow)
        } else {
            let a = self.holdings[account];
            Ok(self.with_holdings(self.holdings.insert(account, TokenAccount { amount: (a.amount + amount) as u64, ..a })))
        }
    }

    /// Moves `amount` from `from` to `to` on the word of `authority`.
    pub open spec fn transfer(self, from: Address, to: Address, authority: Address, amount: u64) -> Result<LedgerState, TransferError> {
        if !self.holdings.contains_key(from) || !self.holdings.contains_key(to) {
            Err(TransferError::AccountNotFound)
        } else if self.holdings[from].amount < amount {
            Err(TransferError::InsufficientFunds)
        } else if self.holdings[from].mint != self.holdings[to].mint {
            Err(TransferError::MintMismatch)
        } else if self.holdings[from].owner != authority {
            Err(TransferError::InvalidAuthority)
        } else if from == to {
            Ok(self)
        } else if self.holdings[to].amount + amount > u64::MAX {
            Err(TransferError::Overflow)
        } else {
            let source = self.holdings[from];
            let target = self.holdings[to];
            Ok(
                self.with_holdings(
                    self.holdings.insert(from, TokenAccount { amount: (source.amount - amount) as u64, ..source }).insert(
                        to,
                        TokenAccount { amount: (target.amount + amount) as u64, ..target },
                    ),
                ),
            )
        }
    }

    /// Closes the empty holding account `account` on the word of
    /// `authority`; its storage goes to `destination`.
    pub open spec fn close_account(self, account: Address, authority: Address, destination: Address) -> Result<LedgerState, CloseError> {
        if !self.holdings.contains_key(account) {
            Err(CloseError::AccountNotFound)
        } else if account == destination {
            Err(CloseError::InvalidDestination)
        } else if self.holdings[account].owner != authority {
            Err(CloseError::InvalidAuthority)
        } else if self.holdings[account].amount != 0 {
            Err(CloseError::NonEmpty)
        } else {
            Ok(self.with_holdings(self.holdings.remove(account)))
        }
    }
}

/// The ledger that the handlers work on.
pub struct Ledger {
    program_id: Address,
    holdings: Table<TokenAccount>,
    escrows: Table<Escrow>,
    vaults: Table<VaultState>,
}

impl View for Ledger {
    type V = LedgerState;

    closed spec fn view(&self) -> LedgerState {
        LedgerState {
            program_id: self.program_id,
            holdings: self.holdings@,
            escrows: self.escrows@,
            vaults: self.vaults@,
        }
    }
}

impl Ledger {
    /// An empty ledger for the program `program_id`.
    pub fn new(program_id: Address) -> (l: Ledger)
        ensures
            l@.program_id == program_id,
            l@.holdings == Map::<Address, TokenAccount>::empty(),
            l@.escrows == Map::<Address, Escrow>::empty(),
            l@.vaults == Map::<Address, VaultState>::empty(),
    {
        Ledger { program_id, holdings: Table::new(), escrows: Table::new(), vaults: Table::new() }
    }

    pub fn program_id(&self) -> (p: Address)
        ensures
            p == self@.program_id,
    {
        self.program_id
    }

    /// The holding account at `account`, if it exists.
    pub fn holding(&self, account: &Address) -> (r: Option<TokenAccount>)
        ensures
            r is Some <==> self@.holdings.contains_key(*account),
            r matches Some(a) ==> a == self@.holdings[*account],
    {
        self.holdings.get(account)
    }

    /// The balance at `account`; 0 where no account exists.
    pub fn balance(&self, account: &Address) -> (r: u64)
        ensures
            r == self@.balance(*account),
    {
        match self.holdings.get(account) {
            Some(a) => a.amount,
            None => 0,
        }
    }

    /// The escrow record at `record`, if one is open there.
    pub fn escrow(&self, record: &Address) -> (r: Option<Escrow>)
        ensures
            r is Some <==> self@.escrows.contains_key(*record),
            r matches Some(e) ==> e == self@.escrows[*record],
    {
        self.escrows.get(record)
    }

    /// The vault state at `state`, if one exists there.
    pub fn vault_state(&self, state: &Address) -> (r: Option<VaultState>)
        ensures
            r is Some <==> self@.vaults.contains_key(*state),
            r matches Some(v) ==> v == self@.vaults[*state],
    {
        self.vaults.get(state)
    }

    /// A copy of the ledger, for a handler to work on until it commits.
    pub fn duplicate(&self) -> (l: Ledger)
        ensures
            l@ == self@,
    {
        Ledger {
            program_id: self.program_id,
            holdings: self.holdings.duplicate(),
            escrows: self.escrows.duplicate(),
            vaults: self.vaults.duplicate(),
        }
    }

    /// Files the escrow record `escrow` at `record`.
    pub fn put_escrow(&mut self, record: Address, escrow: Escrow)
        ensures
            final(self)@ == old(self)@.with_escrows(old(self)@.escrows.insert(record, escrow)),
    {
        self.escrows.put(record, escrow);
    }

    /// Takes away the escrow record at `record`, if there is one.
    pub fn remove_escrow(&mut self, record: &Address)
        ensures
            final(self)@ == old(self)@.with_escrows(old(self)@.escrows.remove(*record)),
    {
        self.escrows.remove(record);
    }

    /// Files the vault state `value` at `state`.
    pub fn put_vault_state(&mut self, state: Address, value: VaultState)
        ensures
            final(self)@ == old(self)@.with_vaults(old(self)@.vaults.insert(state, value)),
    {
        self.vaults.put(state, value);
    }

    /// Opens a holding account with no balance, unless it exists already
    /// with this owner and token type. Returns whether the account is now
    /// there as asked.
    pub fn create_holding_account(&mut self, account: Address, owner: Address, mint: Address) -> (ok: bool)
        ensures
            ok == old(self)@.create_holding_account(account, owner, mint) is Some,
            ok ==> final(self)@ == old(self)@.create_holding_account(account, owner, mint)->Some_0,
            !ok ==> final(self)@ == old(self)@,
    {
        match self.holdings.get(&account) {
            None => {
                self.holdings.put(account, TokenAccount { mint, owner, amount: 0 });
                true
            },
            Some(a) => a.owner.same(&owner) && a.mint.same(&mint),
        }
    }

    /// Credits `amount` to the holding account `account`.
    pub fn mint_to(&mut self, account: &Address, amount: u64) -> (r: Result<(), TransferError>)
        ensures
            settles(old(self)@, final(self)@, r, old(self)@.mint_to(*account, amount)),
    {
        match self.holdings.get(account) {
            None => Err(TransferError::AccountNotFound),
            Some(a) => {
                if amount > u64::MAX - a.amount {
                    return Err(TransferError::Overflow);
                }
                self.holdings.put(*account, TokenAccount { mint: a.mint, owner: a.owner, amount: a.amount + amount });
                Ok(())
            },
        }
    }

    /// The transfer primitive: moves `amount` from `from` to `to`. It is
    /// refused unless both accounts exist and hold the same token type,
    /// `authority` owns the source and the source holds the amount.
    pub fn transfer(&mut self, from: &Address, to: &Address, authority: &Address, amount: u64) -> (r: Result<(), TransferError>)
        ensures
            settles(old(self)@, final(self)@, r, old(self)@.transfer(*from, *to, *authority, amount)),
    {
        let source = match self.holdings.get(from) {
            Some(a) => a,
            None => { return Err(TransferError::AccountNotFound); },
        };
        let target = match self.holdings.get(to) {
            Some(a) => a,
            None => { return Err(TransferError::AccountNotFound); },
        };
        if source.amount < amount {
            return Err(TransferError::InsufficientFunds);
        }
        if !source.mint.same(&target.mint) {
            return Err(TransferError::MintMismatch);
        }
        if !source.owner.same(authority) {
            return Err(TransferError::InvalidAuthority);
        }
        if from.same(to) {
            return Ok(());
        }
        if amount > u64::MAX - target.amount {
            return Err(TransferError::Overflow);
        }
        self.holdings.put(*from, TokenAccount { mint: source.mint, owner: source.owner, amount: source.amount - amount });
        self.holdings.put(*to, TokenAccount { mint: target.mint, owner: target.owner, amount: target.amount + amount });
        Ok(())
    }

    /// The close primitive: removes the empty holding account `account`.
    pub fn close_account(&mut self, account: &Address, authority: &Address, destination: &Address) -> (r: Result<(), CloseError>)
        ensures
            settles(old(self)@, final(self)@, r, old(self)@.close_account(*account, *authority, *destination)),
    {
        let a = match self.holdings.get(account) {
            Some(a) => a,
            None => { return Err(CloseError::AccountNotFound); },
        };
        if account.same(destination) {
            return Err(CloseError::InvalidDestination);
        }
        if !a.owner.same(authority) {
            return Err(CloseError::InvalidAuthority);
        }
        if a.amount != 0 {
            return Err(CloseError::NonEmpty);
        }
        self.holdings.remove(account);
        Ok(())
    }
}

} // verus!
