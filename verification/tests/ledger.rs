use mercury_escrow::address::Address;
use mercury_escrow::ledger::Ledger;
use mercury_escrow::state::{CloseError, CustodyError, TokenAccount, TransferError};

fn id(n: u8) -> Address {
    Address::new([n; 32])
}

fn funded() -> Ledger {
    let mut ledger = Ledger::new(id(0));
    assert!(ledger.create_holding_account(id(1), id(10), id(20)));
    assert!(ledger.create_holding_account(id(2), id(11), id(20)));
    assert!(ledger.create_holding_account(id(3), id(10), id(21)));
    ledger.mint_to(&id(1), 100).unwrap();
    ledger
}

#[test]
fn new_ledger_is_empty() {
    let ledger = Ledger::new(id(9));
    assert_eq!(ledger.program_id(), id(9));
    assert_eq!(ledger.holding(&id(1)), None);
    assert_eq!(ledger.balance(&id(1)), 0);
    assert_eq!(ledger.escrow(&id(1)), None);
    assert_eq!(ledger.vault_state(&id(1)), None);
}

#[test]
fn create_holding_account_is_idempotent() {
    let mut ledger = funded();
    assert!(ledger.create_holding_account(id(1), id(10), id(20)));
    assert_eq!(ledger.holding(&id(1)), Some(TokenAccount { mint: id(20), owner: id(10), amount: 100 }));
    assert!(!ledger.create_holding_account(id(1), id(11), id(20)));
    assert!(!ledger.create_holding_account(id(1), id(10), id(21)));
    assert_eq!(ledger.holding(&id(1)), Some(TokenAccount { mint: id(20), owner: id(10), amount: 100 }));
    assert_eq!(ledger.holding(&id(2)), Some(TokenAccount { mint: id(20), owner: id(11), amount: 0 }));
}

#[test]
fn mint_to_credits_or_refuses() {
    let mut ledger = funded();
    assert_eq!(ledger.mint_to(&id(1), 5), Ok(()));
    assert_eq!(ledger.balance(&id(1)), 105);
    assert_eq!(ledger.mint_to(&id(9), 5), Err(TransferError::AccountNotFound));
    assert_eq!(ledger.mint_to(&id(1), u64::MAX - 104), Err(TransferError::Overflow));
    assert_eq!(ledger.balance(&id(1)), 105);
    assert_eq!(ledger.mint_to(&id(1), u64::MAX - 105), Ok(()));
    assert_eq!(ledger.balance(&id(1)), u64::MAX);
}

#[test]
fn transfer_moves_the_amount() {
    let mut ledger = funded();
    assert_eq!(ledger.transfer(&id(1), &id(2), &id(10), 30), Ok(()));
    assert_eq!(ledger.balance(&id(1)), 70);
    assert_eq!(ledger.balance(&id(2)), 30);
    assert_eq!(ledger.transfer(&id(1), &id(2), &id(10), 70), Ok(()));
    assert_eq!(ledger.balance(&id(1)), 0);
    assert_eq!(ledger.balance(&id(2)), 100);
    assert_eq!(ledger.holding(&id(2)), Some(TokenAccount { mint: id(20), owner: id(11), amount: 100 }));
}

#[test]
fn transfer_to_itself_changes_nothing() {
    let mut ledger = funded();
    assert_eq!(ledger.transfer(&id(1), &id(1), &id(10), 100), Ok(()));
    assert_eq!(ledger.balance(&id(1)), 100);
    assert_eq!(ledger.transfer(&id(1), &id(1), &id(10), 101), Err(TransferError::InsufficientFunds));
}

#[test]
fn transfer_refusals() {
    let mut ledger = funded();
    assert_eq!(ledger.transfer(&id(9), &id(2), &id(10), 1), Err(TransferError::AccountNotFound));
    assert_eq!(ledger.transfer(&id(1), &id(9), &id(10), 1), Err(TransferError::AccountNotFound));
    assert_eq!(ledger.transfer(&id(1), &id(2), &id(10), 101), Err(TransferError::InsufficientFunds));
    assert_eq!(ledger.transfer(&id(1), &id(3), &id(10), 1), Err(TransferError::MintMismatch));
    assert_eq!(ledger.transfer(&id(1), &id(2), &id(11), 1), Err(TransferError::InvalidAuthority));
    ledger.mint_to(&id(2), u64::MAX).unwrap();
    assert_eq!(ledger.transfer(&id(1), &id(2), &id(10), 1), Err(TransferError::Overflow));
    assert_eq!(ledger.balance(&id(1)), 100);
    assert_eq!(ledger.balance(&id(2)), u64::MAX);
}

#[test]
fn close_account_removes_an_empty_account() {
    let mut ledger = funded();
    assert_eq!(ledger.close_account(&id(2), &id(11), &id(11)), Ok(()));
    assert_eq!(ledger.holding(&id(2)), None);
    assert_eq!(ledger.holding(&id(1)), Some(TokenAccount { mint: id(20), owner: id(10), amount: 100 }));
    assert_eq!(ledger.transfer(&id(1), &id(2), &id(10), 1), Err(TransferError::AccountNotFound));
}

#[test]
fn close_account_refusals() {
    let mut ledger = funded();
    assert_eq!(ledger.close_account(&id(9), &id(11), &id(11)), Err(CloseError::AccountNotFound));
    assert_eq!(ledger.close_account(&id(2), &id(11), &id(2)), Err(CloseError::InvalidDestination));
    assert_eq!(ledger.close_account(&id(2), &id(10), &id(11)), Err(CloseError::InvalidAuthority));
    assert_eq!(ledger.close_account(&id(1), &id(10), &id(10)), Err(CloseError::NonEmpty));
    assert!(ledger.holding(&id(1)).is_some());
    assert!(ledger.holding(&id(2)).is_some());
}

#[test]
fn duplicate_ledger_is_independent() {
    let ledger = funded();
    let mut copy = ledger.duplicate();
    copy.transfer(&id(1), &id(2), &id(10), 30).unwrap();
    assert_eq!(ledger.balance(&id(1)), 100);
    assert_eq!(copy.balance(&id(1)), 70);
    assert_eq!(copy.program_id(), id(0));
}

#[test]
fn transfer_errors_map_to_handler_errors() {
    assert_eq!(CustodyError::from_transfer(TransferError::InsufficientFunds), CustodyError::InsufficientFunds);
    assert_eq!(CustodyError::from_transfer(TransferError::AccountNotFound), CustodyError::TransferError);
    assert_eq!(CustodyError::from_transfer(TransferError::MintMismatch), CustodyError::TransferError);
    assert_eq!(CustodyError::from_transfer(TransferError::InvalidAuthority), CustodyError::TransferError);
    assert_eq!(CustodyError::from_transfer(TransferError::Overflow), CustodyError::TransferError);
}
