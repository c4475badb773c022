//! Trustless token escrow and custodial vault.
//!
//! Custody accounts are controlled by addresses derived from a label and a
//! bump under the program's own identity, so no party holds a key over the
//! funds in custody.

pub mod address;
pub mod escrow;
pub mod ledger;
pub mod state;
pub mod table;
pub mod theorems;
pub mod vault;
