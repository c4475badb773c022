//! What the ledger stores, and the errors of the handlers.

use crate::address::Address;
use vstd::prelude::*;

verus! {

/// A holding account: a balance of one token type under one owner.
#[derive(Clone, Copy, Debug, PartialEq, Eq)]
pub struct TokenAccount {
    /// The token type held.
    pub mint: Address,
    /// The identity that may move the balance out.
    pub owner: Address,
    pub amount: u64,
}

/// The record of one open exchange. It exists from `make` until `take` or
/// `refund` closes it.
#[derive(Clone, Copy, Debug, PartialEq, Eq)]
pub struct Escrow {
    pub maker: Address,
    /// The counterparty the maker named, if any.
    pub taker: Option<Address>,
    /// The token type the maker deposited.
    pub maker_token: Address,
    /// The token type the maker asks for.
    pub taker_token: Address,
    /// Tells the maker's records apart.
    pub seed: u64,
    /// How much of `taker_token` the maker asks for.
    pub offer_amount: u64,
    /// How much of `maker_token` the maker deposited.
    pub deposit_amount: u64,
    pub auth_bump: u8,
    pub vault_bump: u8,
    pub escrow_bump: u8,
}

/// The state of a standalone vault of one owner.
#[derive(Clone, Copy, Debug, PartialEq, Eq)]
pub struct VaultState {
    pub owner: Address,
    pub auth_bump: u8,
    pub vault_bump: u8,
    /// Counts the deposits and withdrawals.
    pub score: u8,
}

/// The bumps that the resolver produced for the accounts of `make`. A bump
/// is absent where the resolver derived nothing for the account presented.
#[derive(Clone, Copy, Debug, PartialEq, Eq)]
pub struct Bumps {
    pub auth: Option<u8>,
    pub vault: Option<u8>,
    pub escrow: Option<u8>,
}

/// The bumps that the resolver produced for the accounts of `initialize`.
#[derive(Clone, Copy, Debug, PartialEq, Eq)]
pub struct VaultBumps {
    pub auth: Option<u8>,
    pub vault: Option<u8>,
}

/// What the resolver found of the derived accounts presented with a
/// record: whether each is the address derived from its label under the
/// bump that the record stores.
#[derive(Clone, Copy, Debug, PartialEq, Eq)]
pub struct Seals {
    pub escrow: bool,
    pub vault: bool,
    pub auth: bool,
}

/// What the resolver found of the derived accounts presented with a vault
/// state.
#[derive(Clone, Copy, Debug, PartialEq, Eq)]
pub struct VaultSeals {
    pub auth: bool,
    pub vault: bool,
}

/// Why the token primitive refused a transfer.
#[derive(Clone, Copy, Debug, PartialEq, Eq, Structural)]
pub enum TransferError {
    /// The source or the destination does not exist.
    AccountNotFound,
    /// The source holds less than the amount.
    InsufficientFunds,
    /// Source and destination hold different token types.
    MintMismatch,
    /// The authority is not the owner of the source.
    InvalidAuthority,
    /// The destination's balance would exceed the largest amount.
    Overflow,
}

/// Why the token primitive refused to close an account.
#[derive(Clone, Copy, Debug, PartialEq, Eq, Structural)]
pub enum CloseError {
    /// The account does not exist.
    AccountNotFound,
    /// The authority is not the owner of the account.
    InvalidAuthority,
    /// The account still holds a balance.
    NonEmpty,
    /// The reclaimed storage cannot go to the account that is closed.
    InvalidDestination,
}

/// Why a handler aborted. An aborted handler leaves the ledger as it was.
#[derive(Clone, Copy, Debug, PartialEq, Eq, Structural)]
pub enum CustodyError {
    /// The resolver produced no bump for one of the derived accounts.
    MissingBump,
    /// An account presented is not the one the stored state names.
    StructuralMismatch,
    /// The source of a transfer holds less than the amount.
    InsufficientFunds,
    /// The token primitive refused a transfer for another reason.
    TransferError,
    /// The token primitive refused to close an account.
    CloseError,
    /// The custody account of the record is already closed.
    AlreadyClosed,
    /// No record or vault state exists at the address.
    RecordNotFound,
    /// Something already exists at the address of the account to create.
    AlreadyExists,
    /// The usage counter is at its largest value.
    CounterOverflow,
}

/// The outcome `r` is the failure `e`.
pub open spec fn fails_with<T>(r: Result<T, CustodyError>, e: CustodyError) -> bool {
    r == Err::<T, CustodyError>(e)
}

impl CustodyError {
    /// The handler's error for a refusal of the transfer primitive.
    pub open spec fn of_transfer(e: TransferError) -> CustodyError {
        if e == TransferError::InsufficientFunds {
            CustodyError::InsufficientFunds
        } else {
            CustodyError::TransferError
        }
    }

    pub fn from_transfer(e: TransferError) -> (r: CustodyError)
        ensures
            r == CustodyError::of_transfer(e),
    {
        match e {
            TransferError::InsufficientFunds => CustodyError::InsufficientFunds,
            _ => CustodyError::TransferError,
        }
    }
}

} // verus!
