use mercury_escrow::address::{auth_label, Address};
use mercury_escrow::escrow::{
    authorize, check_custody, check_holding, close_custody_step, empty_vault_step, make, make_with, refund,
    refund_with, seals, take, take_with, transfer_step, Make, Refund, Take,
};
use mercury_escrow::ledger::Ledger;
use mercury_escrow::state::{Bumps, CustodyError, Escrow, Seals, TokenAccount};

fn who(n: u8) -> Address {
    Address::new([n; 32])
}

const PROGRAM: u8 = 200;
const MAKER: u8 = 1;
const TAKER: u8 = 2;
const MAKER_TOKEN: u8 = 3;
const TAKER_TOKEN: u8 = 4;
const MAKER_ATA: u8 = 5;
const TAKER_ATA: u8 = 6;
const MAKER_RECEIVE: u8 = 7;
const TAKER_RECEIVE: u8 = 8;

/// A ledger on which the maker holds 1000 of the maker's token and the
/// taker 500 of the taker's token.
fn world() -> Ledger {
    let mut ledger = Ledger::new(who(PROGRAM));
    assert!(ledger.create_holding_account(who(MAKER_ATA), who(MAKER), who(MAKER_TOKEN)));
    assert!(ledger.create_holding_account(who(TAKER_ATA), who(TAKER), who(TAKER_TOKEN)));
    ledger.mint_to(&who(MAKER_ATA), 1000).unwrap();
    ledger.mint_to(&who(TAKER_ATA), 500).unwrap();
    ledger
}

fn making(seed: u64) -> Make {
    Make::resolve(
        &who(PROGRAM),
        who(MAKER),
        Some(who(TAKER)),
        who(MAKER_ATA),
        who(MAKER_TOKEN),
        who(TAKER_TOKEN),
        seed,
    )
    .unwrap()
}

fn taking(made: &Make) -> Take {
    Take {
        maker: who(MAKER),
        maker_receive_ata: who(MAKER_RECEIVE),
        maker_token: who(MAKER_TOKEN),
        taker: who(TAKER),
        taker_ata: who(TAKER_ATA),
        taker_receive_ata: who(TAKER_RECEIVE),
        taker_token: who(TAKER_TOKEN),
        auth: made.auth,
        vault: made.vault,
        escrow: made.escrow,
    }
}

fn refunding(made: &Make) -> Refund {
    Refund {
        maker: who(MAKER),
        maker_ata: who(MAKER_ATA),
        maker_token: who(MAKER_TOKEN),
        auth: made.auth,
        vault: made.vault,
        escrow: made.escrow,
    }
}

/// The balances of the four accounts of the exchange and of the vault.
fn balances(ledger: &Ledger, made: &Make) -> [u64; 5] {
    [
        ledger.balance(&who(MAKER_ATA)),
        ledger.balance(&who(TAKER_ATA)),
        ledger.balance(&who(MAKER_RECEIVE)),
        ledger.balance(&who(TAKER_RECEIVE)),
        ledger.balance(&made.vault),
    ]
}

#[test]
fn resolve_fills_the_canonical_accounts() {
    let made = making(1);
    let (auth, auth_bump) = mercury_escrow::address::derive(&who(PROGRAM), &auth_label()).unwrap();
    assert_eq!(made.auth, auth);
    assert_eq!(made.maker, who(MAKER));
    assert_eq!(made.taker, Some(who(TAKER)));
    let bumps = made.bumps(&who(PROGRAM), 1);
    assert_eq!(bumps.auth, Some(auth_bump));
    assert!(bumps.vault.is_some());
    assert!(bumps.escrow.is_some());
    assert_ne!(making(2).escrow, made.escrow);
    assert_ne!(making(2).vault, made.vault);
    assert_eq!(making(2).auth, made.auth);
}

#[test]
fn bumps_are_absent_for_accounts_not_derived() {
    let mut ctx = making(1);
    ctx.auth = who(99);
    let bumps = ctx.bumps(&who(PROGRAM), 1);
    assert_eq!(bumps.auth, None);
    assert!(bumps.vault.is_some());
    assert!(bumps.escrow.is_some());
    let other_seed = making(1).bumps(&who(PROGRAM), 2);
    assert_eq!(other_seed.escrow, None);
    let mut moved = making(1);
    moved.vault = who(98);
    assert_eq!(moved.bumps(&who(PROGRAM), 1).vault, None);
}

#[test]
fn make_writes_the_record_and_takes_the_deposit() {
    let mut ledger = world();
    let ctx = making(1);
    let bumps = ctx.bumps(&who(PROGRAM), 1);
    assert_eq!(make(&mut ledger, &ctx, 1, 100, 50), Ok(()));
    assert_eq!(
        ledger.escrow(&ctx.escrow),
        Some(Escrow {
            maker: who(MAKER),
            taker: Some(who(TAKER)),
            maker_token: who(MAKER_TOKEN),
            taker_token: who(TAKER_TOKEN),
            seed: 1,
            offer_amount: 50,
            deposit_amount: 100,
            auth_bump: bumps.auth.unwrap(),
            vault_bump: bumps.vault.unwrap(),
            escrow_bump: bumps.escrow.unwrap(),
        })
    );
    assert_eq!(
        ledger.holding(&ctx.vault),
        Some(TokenAccount { mint: who(MAKER_TOKEN), owner: ctx.auth, amount: 100 })
    );
    assert_eq!(ledger.balance(&who(MAKER_ATA)), 900);
}

#[test]
fn make_twice_with_the_same_pair_collides() {
    let mut ledger = world();
    let ctx = making(1);
    assert_eq!(make(&mut ledger, &ctx, 1, 100, 50), Ok(()));
    assert_eq!(make(&mut ledger, &ctx, 1, 100, 50), Err(CustodyError::AlreadyExists));
    assert_eq!(make(&mut ledger, &ctx, 1, 7, 9), Err(CustodyError::AlreadyExists));
    assert_eq!(ledger.balance(&who(MAKER_ATA)), 900);
    assert_eq!(ledger.balance(&ctx.vault), 100);
    assert_eq!(ledger.escrow(&ctx.escrow).unwrap().offer_amount, 50);
}

#[test]
fn make_with_different_seeds_succeeds_independently() {
    let mut ledger = world();
    let first = making(1);
    let second = making(2);
    assert_eq!(make(&mut ledger, &first, 1, 100, 50), Ok(()));
    assert_eq!(make(&mut ledger, &second, 2, 200, 70), Ok(()));
    assert_eq!(ledger.balance(&first.vault), 100);
    assert_eq!(ledger.balance(&second.vault), 200);
    assert_eq!(ledger.balance(&who(MAKER_ATA)), 700);
    assert_eq!(ledger.escrow(&first.escrow).unwrap().seed, 1);
    assert_eq!(ledger.escrow(&second.escrow).unwrap().seed, 2);
    assert_eq!(take(&mut ledger, &taking(&second)), Ok(()));
    assert!(ledger.escrow(&first.escrow).is_some());
    assert_eq!(ledger.balance(&first.vault), 100);
}

#[test]
fn make_fails_with_missing_bump() {
    let mut ledger = world();
    let mut ctx = making(1);
    ctx.auth = who(99);
    assert_eq!(make(&mut ledger, &ctx, 1, 100, 50), Err(CustodyError::MissingBump));
    let mut ctx = making(1);
    ctx.vault = who(99);
    assert_eq!(make(&mut ledger, &ctx, 1, 100, 50), Err(CustodyError::MissingBump));
    let mut ctx = making(1);
    ctx.escrow = who(99);
    assert_eq!(make(&mut ledger, &ctx, 1, 100, 50), Err(CustodyError::MissingBump));
    assert_eq!(make(&mut ledger, &making(1), 2, 100, 50), Err(CustodyError::MissingBump));
    assert_eq!(ledger.balance(&who(MAKER_ATA)), 1000);
    assert_eq!(ledger.escrow(&making(1).escrow), None);
}

#[test]
fn init_checks_the_bumps_in_order() {
    let mut ledger = world();
    let ctx = making(1);
    let none = Bumps { auth: None, vault: Some(1), escrow: Some(2) };
    assert_eq!(ctx.init(&mut ledger, &none, 1, 100, 50), Err(CustodyError::MissingBump));
    let none = Bumps { auth: Some(0), vault: None, escrow: Some(2) };
    assert_eq!(ctx.init(&mut ledger, &none, 1, 100, 50), Err(CustodyError::MissingBump));
    let none = Bumps { auth: Some(0), vault: Some(1), escrow: None };
    assert_eq!(ctx.init(&mut ledger, &none, 1, 100, 50), Err(CustodyError::MissingBump));
    assert_eq!(ledger.escrow(&ctx.escrow), None);
    let all = Bumps { auth: Some(0), vault: Some(1), escrow: Some(2) };
    assert_eq!(ctx.init(&mut ledger, &all, 1, 100, 50), Ok(()));
    let record = ledger.escrow(&ctx.escrow).unwrap();
    assert_eq!((record.auth_bump, record.vault_bump, record.escrow_bump), (0, 1, 2));
    assert_eq!((record.seed, record.deposit_amount, record.offer_amount), (1, 100, 50));
    assert_eq!(ctx.init(&mut ledger, &all, 1, 100, 50), Err(CustodyError::AlreadyExists));
}

#[test]
fn make_fails_with_insufficient_funds_and_leaves_nothing() {
    let mut ledger = world();
    let ctx = making(1);
    assert_eq!(make(&mut ledger, &ctx, 1, 1001, 50), Err(CustodyError::InsufficientFunds));
    assert_eq!(ledger.escrow(&ctx.escrow), None);
    assert_eq!(ledger.holding(&ctx.vault), None);
    assert_eq!(ledger.balance(&who(MAKER_ATA)), 1000);
    assert_eq!(make(&mut ledger, &ctx, 1, 1000, 50), Ok(()));
    assert_eq!(ledger.balance(&who(MAKER_ATA)), 0);
}

#[test]
fn make_fails_where_the_transfer_is_refused() {
    let mut ledger = world();
    let mut ctx = making(1);
    ctx.maker_ata = who(TAKER_ATA);
    assert_eq!(make(&mut ledger, &ctx, 1, 100, 50), Err(CustodyError::TransferError));
    let mut ctx = making(1);
    ctx.maker_ata = who(77);
    assert_eq!(make(&mut ledger, &ctx, 1, 100, 50), Err(CustodyError::TransferError));
    assert_eq!(ledger.escrow(&ctx.escrow), None);
    assert_eq!(ledger.holding(&ctx.vault), None);
}

#[test]
fn make_fails_where_the_vault_address_is_taken() {
    let mut ledger = world();
    let ctx = making(1);
    assert!(ledger.create_holding_account(ctx.vault, ctx.auth, who(MAKER_TOKEN)));
    assert_eq!(make(&mut ledger, &ctx, 1, 100, 50), Err(CustodyError::AlreadyExists));
    assert_eq!(ledger.escrow(&ctx.escrow), None);
}

#[test]
fn take_exchanges_deposit_for_payment() {
    let mut ledger = world();
    let made = making(1);
    assert_eq!(make(&mut ledger, &made, 1, 100, 50), Ok(()));
    assert_eq!(balances(&ledger, &made), [900, 500, 0, 0, 100]);
    assert_eq!(take(&mut ledger, &taking(&made)), Ok(()));
    assert_eq!(balances(&ledger, &made), [900, 450, 50, 100, 0]);
    assert_eq!(ledger.holding(&made.vault), None);
    assert_eq!(ledger.escrow(&made.escrow), None);
    assert_eq!(
        ledger.holding(&who(TAKER_RECEIVE)),
        Some(TokenAccount { mint: who(MAKER_TOKEN), owner: who(TAKER), amount: 100 })
    );
    assert_eq!(
        ledger.holding(&who(MAKER_RECEIVE)),
        Some(TokenAccount { mint: who(TAKER_TOKEN), owner: who(MAKER), amount: 50 })
    );
}

#[test]
fn take_hands_over_the_whole_balance_in_custody() {
    let mut ledger = world();
    let made = making(1);
    assert_eq!(make(&mut ledger, &made, 1, 100, 50), Ok(()));
    ledger.transfer(&who(MAKER_ATA), &made.vault, &who(MAKER), 11).unwrap();
    let before: u64 = balances(&ledger, &made).iter().sum();
    assert_eq!(take(&mut ledger, &taking(&made)), Ok(()));
    assert_eq!(ledger.balance(&who(TAKER_RECEIVE)), 111);
    let after: u64 = balances(&ledger, &made).iter().sum();
    assert_eq!(before, after);
}

#[test]
fn take_twice_finds_no_record() {
    let mut ledger = world();
    let made = making(1);
    assert_eq!(make(&mut ledger, &made, 1, 100, 50), Ok(()));
    assert_eq!(take(&mut ledger, &taking(&made)), Ok(()));
    assert_eq!(take(&mut ledger, &taking(&made)), Err(CustodyError::RecordNotFound));
    assert_eq!(refund(&mut ledger, &refunding(&made)), Err(CustodyError::RecordNotFound));
    assert_eq!(balances(&ledger, &made), [900, 450, 50, 100, 0]);
}

#[test]
fn refund_returns_the_deposit() {
    let mut ledger = world();
    let made = making(1);
    assert_eq!(make(&mut ledger, &made, 1, 100, 50), Ok(()));
    assert_eq!(ledger.balance(&who(MAKER_ATA)), 900);
    assert_eq!(refund(&mut ledger, &refunding(&made)), Ok(()));
    assert_eq!(ledger.balance(&who(MAKER_ATA)), 1000);
    assert_eq!(ledger.holding(&made.vault), None);
    assert_eq!(ledger.escrow(&made.escrow), None);
    assert_eq!(take(&mut ledger, &taking(&made)), Err(CustodyError::RecordNotFound));
    assert_eq!(refund(&mut ledger, &refunding(&made)), Err(CustodyError::RecordNotFound));
    assert_eq!(balances(&ledger, &made), [1000, 500, 0, 0, 0]);
}

#[test]
fn a_closed_record_can_be_made_again() {
    let mut ledger = world();
    let made = making(1);
    assert_eq!(make(&mut ledger, &made, 1, 100, 50), Ok(()));
    assert_eq!(refund(&mut ledger, &refunding(&made)), Ok(()));
    assert_eq!(make(&mut ledger, &made, 1, 30, 20), Ok(()));
    assert_eq!(ledger.balance(&made.vault), 30);
    assert_eq!(ledger.escrow(&made.escrow).unwrap().offer_amount, 20);
}

#[test]
fn take_on_an_unknown_record_fails() {
    let mut ledger = world();
    let made = making(1);
    assert_eq!(take(&mut ledger, &taking(&made)), Err(CustodyError::RecordNotFound));
    assert_eq!(refund(&mut ledger, &refunding(&made)), Err(CustodyError::RecordNotFound));
    assert_eq!(taking(&made).deposit_to_maker(&mut ledger), Err(CustodyError::RecordNotFound));
    assert_eq!(taking(&made).empty_vault_to_taker(&mut ledger), Err(CustodyError::RecordNotFound));
    assert_eq!(taking(&made).close_vault(&mut ledger), Err(CustodyError::RecordNotFound));
}

#[test]
fn take_checks_the_accounts_against_the_record() {
    let mut ledger = world();
    let made = making(1);
    assert_eq!(make(&mut ledger, &made, 1, 100, 50), Ok(()));
    let good = taking(&made);

    let mut ctx = good;
    ctx.maker = who(90);
    assert_eq!(take(&mut ledger, &ctx), Err(CustodyError::StructuralMismatch));
    let mut ctx = good;
    ctx.maker_token = who(90);
    assert_eq!(take(&mut ledger, &ctx), Err(CustodyError::StructuralMismatch));
    let mut ctx = good;
    ctx.taker_token = who(90);
    assert_eq!(take(&mut ledger, &ctx), Err(CustodyError::StructuralMismatch));
    let mut ctx = good;
    ctx.auth = who(90);
    assert_eq!(take(&mut ledger, &ctx), Err(CustodyError::StructuralMismatch));
    let mut ctx = good;
    ctx.vault = who(MAKER_ATA);
    assert_eq!(take(&mut ledger, &ctx), Err(CustodyError::StructuralMismatch));
    let mut ctx = good;
    ctx.maker_receive_ata = who(TAKER_ATA);
    assert_eq!(take(&mut ledger, &ctx), Err(CustodyError::StructuralMismatch));
    let mut ctx = good;
    ctx.taker_receive_ata = who(MAKER_ATA);
    assert_eq!(take(&mut ledger, &ctx), Err(CustodyError::StructuralMismatch));

    assert_eq!(balances(&ledger, &made), [900, 500, 0, 0, 100]);
    assert_eq!(ledger.holding(&who(MAKER_RECEIVE)), None);
    assert_eq!(good.check(&ledger), Ok(()));
    assert_eq!(take(&mut ledger, &good), Ok(()));
}

#[test]
fn take_fails_where_the_taker_cannot_pay() {
    let mut ledger = world();
    let made = making(1);
    assert_eq!(make(&mut ledger, &made, 1, 100, 501), Ok(()));
    assert_eq!(take(&mut ledger, &taking(&made)), Err(CustodyError::InsufficientFunds));
    assert_eq!(balances(&ledger, &made), [900, 500, 0, 0, 100]);
    assert!(ledger.escrow(&made.escrow).is_some());
    assert_eq!(ledger.holding(&who(MAKER_RECEIVE)), None);
    assert_eq!(ledger.holding(&who(TAKER_RECEIVE)), None);

    let mut ctx = taking(&made);
    ctx.taker_ata = who(66);
    assert_eq!(take(&mut ledger, &ctx), Err(CustodyError::TransferError));
}

#[test]
fn take_that_fails_after_the_payment_leaves_no_trace() {
    let mut ledger = world();
    let made = making(1);
    assert_eq!(make(&mut ledger, &made, 1, 100, 50), Ok(()));
    assert!(ledger.create_holding_account(who(TAKER_RECEIVE), who(TAKER), who(MAKER_TOKEN)));
    ledger.mint_to(&who(TAKER_RECEIVE), u64::MAX - 99).unwrap();
    assert_eq!(take(&mut ledger, &taking(&made)), Err(CustodyError::TransferError));
    assert_eq!(balances(&ledger, &made), [900, 500, 0, u64::MAX - 99, 100]);
    assert_eq!(ledger.holding(&who(MAKER_RECEIVE)), None);
    assert!(ledger.escrow(&made.escrow).is_some());
    assert_eq!(refund(&mut ledger, &refunding(&made)), Ok(()));
}

#[test]
fn take_steps_run_one_by_one() {
    let mut ledger = world();
    let made = making(1);
    assert_eq!(make(&mut ledger, &made, 1, 100, 50), Ok(()));
    let ctx = taking(&made);
    assert!(ledger.create_holding_account(ctx.maker_receive_ata, ctx.maker, ctx.taker_token));
    assert!(ledger.create_holding_account(ctx.taker_receive_ata, ctx.taker, ctx.maker_token));
    assert_eq!(ctx.close_vault(&mut ledger), Err(CustodyError::CloseError));
    assert_eq!(ctx.deposit_to_maker(&mut ledger), Ok(()));
    assert_eq!(balances(&ledger, &made), [900, 450, 50, 0, 100]);
    assert_eq!(ctx.empty_vault_to_taker(&mut ledger), Ok(()));
    assert_eq!(balances(&ledger, &made), [900, 450, 50, 100, 0]);
    assert!(ledger.holding(&made.vault).is_some());
    assert_eq!(ctx.close_vault(&mut ledger), Ok(()));
    assert_eq!(ledger.holding(&made.vault), None);
    assert_eq!(ctx.close_vault(&mut ledger), Err(CustodyError::AlreadyClosed));
    assert_eq!(ctx.empty_vault_to_taker(&mut ledger), Err(CustodyError::AlreadyClosed));
    assert_eq!(take(&mut ledger, &ctx), Err(CustodyError::AlreadyClosed));
    assert_eq!(refund(&mut ledger, &refunding(&made)), Err(CustodyError::AlreadyClosed));
}

#[test]
fn custody_moves_only_under_the_verified_authority() {
    let mut ledger = world();
    let made = making(1);
    assert_eq!(make(&mut ledger, &made, 1, 100, 50), Ok(()));
    let mut ctx = taking(&made);
    assert!(ledger.create_holding_account(ctx.taker_receive_ata, ctx.taker, ctx.maker_token));
    ctx.auth = who(TAKER);
    assert_eq!(ctx.empty_vault_to_taker(&mut ledger), Err(CustodyError::StructuralMismatch));
    assert_eq!(ctx.close_vault(&mut ledger), Err(CustodyError::StructuralMismatch));
    assert_eq!(ledger.balance(&made.vault), 100);
    assert_eq!(ledger.transfer(&made.vault, &ctx.taker_receive_ata, &who(TAKER), 100).is_err(), true);
}

#[test]
fn refund_checks_the_accounts_against_the_record() {
    let mut ledger = world();
    let made = making(1);
    assert_eq!(make(&mut ledger, &made, 1, 100, 50), Ok(()));
    let good = refunding(&made);

    let mut ctx = good;
    ctx.maker = who(TAKER);
    assert_eq!(refund(&mut ledger, &ctx), Err(CustodyError::StructuralMismatch));
    let mut ctx = good;
    ctx.maker_ata = who(TAKER_ATA);
    assert_eq!(refund(&mut ledger, &ctx), Err(CustodyError::StructuralMismatch));
    let mut ctx = good;
    ctx.maker_ata = who(55);
    assert_eq!(refund(&mut ledger, &ctx), Err(CustodyError::StructuralMismatch));
    let mut ctx = good;
    ctx.maker_token = who(TAKER_TOKEN);
    assert_eq!(refund(&mut ledger, &ctx), Err(CustodyError::StructuralMismatch));
    let mut ctx = good;
    ctx.auth = who(90);
    assert_eq!(refund(&mut ledger, &ctx), Err(CustodyError::StructuralMismatch));
    let mut ctx = good;
    ctx.vault = who(MAKER_ATA);
    assert_eq!(refund(&mut ledger, &ctx), Err(CustodyError::StructuralMismatch));

    assert_eq!(balances(&ledger, &made), [900, 500, 0, 0, 100]);
    assert_eq!(good.check(&ledger), Ok(()));
    assert_eq!(good.empty_vault(&mut ledger), Ok(()));
    assert_eq!(ledger.balance(&who(MAKER_ATA)), 1000);
    assert_eq!(good.close_vault(&mut ledger), Ok(()));
    assert_eq!(ledger.holding(&made.vault), None);
}

#[test]
fn maker_may_take_the_own_record() {
    let mut ledger = world();
    let made = making(1);
    assert!(ledger.create_holding_account(who(MAKER_RECEIVE), who(MAKER), who(TAKER_TOKEN)));
    ledger.mint_to(&who(MAKER_RECEIVE), 60).unwrap();
    assert_eq!(make(&mut ledger, &made, 1, 100, 50), Ok(()));
    let ctx = Take {
        maker: who(MAKER),
        maker_receive_ata: who(MAKER_RECEIVE),
        maker_token: who(MAKER_TOKEN),
        taker: who(MAKER),
        taker_ata: who(MAKER_RECEIVE),
        taker_receive_ata: who(MAKER_ATA),
        taker_token: who(TAKER_TOKEN),
        auth: made.auth,
        vault: made.vault,
        escrow: made.escrow,
    };
    assert_eq!(take(&mut ledger, &ctx), Ok(()));
    assert_eq!(ledger.balance(&who(MAKER_RECEIVE)), 60);
    assert_eq!(ledger.balance(&who(MAKER_ATA)), 1000);
    assert_eq!(ledger.escrow(&made.escrow), None);
}

const ALL: Seals = Seals { escrow: true, vault: true, auth: true };

/// A ledger with an open record of 100 for 50 that was written with bumps
/// of the caller's choosing, at addresses of the caller's choosing.
fn staged() -> (Ledger, Make) {
    let mut ledger = world();
    let ctx = Make {
        maker: who(MAKER),
        taker: None,
        maker_ata: who(MAKER_ATA),
        maker_token: who(MAKER_TOKEN),
        taker_token: who(TAKER_TOKEN),
        auth: who(40),
        vault: who(41),
        escrow: who(42),
    };
    let bumps = Bumps { auth: Some(7), vault: Some(8), escrow: Some(9) };
    assert_eq!(make_with(&mut ledger, &ctx, &bumps, 3, 100, 50), Ok(()));
    (ledger, ctx)
}

#[test]
fn make_with_uses_the_bumps_given() {
    let (ledger, ctx) = staged();
    assert_eq!(
        ledger.escrow(&who(42)),
        Some(Escrow {
            maker: who(MAKER),
            taker: None,
            maker_token: who(MAKER_TOKEN),
            taker_token: who(TAKER_TOKEN),
            seed: 3,
            offer_amount: 50,
            deposit_amount: 100,
            auth_bump: 7,
            vault_bump: 8,
            escrow_bump: 9,
        })
    );
    assert_eq!(
        ledger.holding(&ctx.vault),
        Some(TokenAccount { mint: who(MAKER_TOKEN), owner: who(40), amount: 100 })
    );
    assert_eq!(ledger.balance(&who(MAKER_ATA)), 900);
}

#[test]
fn make_with_failures_in_order() {
    let (mut ledger, ctx) = staged();
    let all = Bumps { auth: Some(7), vault: Some(8), escrow: Some(9) };
    let none = Bumps { auth: Some(7), vault: Some(8), escrow: None };
    assert_eq!(make_with(&mut ledger, &ctx, &none, 3, 100, 50), Err(CustodyError::MissingBump));
    assert_eq!(make_with(&mut ledger, &ctx, &all, 3, 100, 50), Err(CustodyError::AlreadyExists));
    let mut other = ctx;
    other.escrow = who(43);
    assert_eq!(make_with(&mut ledger, &other, &all, 4, 100, 50), Err(CustodyError::AlreadyExists));
    other.vault = who(44);
    assert_eq!(make_with(&mut ledger, &other, &all, 4, 901, 50), Err(CustodyError::InsufficientFunds));
    assert_eq!(ledger.escrow(&who(43)), None);
    assert_eq!(ledger.holding(&who(44)), None);
    assert_eq!(make_with(&mut ledger, &other, &all, 4, 900, 50), Ok(()));
    assert_eq!(ledger.balance(&who(44)), 900);
    assert_eq!(ledger.balance(&who(41)), 100);
}

#[test]
fn take_with_settles_the_exchange() {
    let (mut ledger, made) = staged();
    let ctx = taking(&made);
    assert_eq!(take_with(&mut ledger, &ctx, &ALL), Ok(()));
    assert_eq!(balances(&ledger, &made), [900, 450, 50, 100, 0]);
    assert_eq!(ledger.escrow(&made.escrow), None);
    assert_eq!(ledger.holding(&made.vault), None);
    assert_eq!(take_with(&mut ledger, &ctx, &ALL), Err(CustodyError::RecordNotFound));
    assert_eq!(refund_with(&mut ledger, &refunding(&made), &ALL), Err(CustodyError::RecordNotFound));
}

#[test]
fn take_with_needs_every_seal() {
    let (mut ledger, made) = staged();
    let ctx = taking(&made);
    for found in [
        Seals { escrow: false, vault: true, auth: true },
        Seals { escrow: true, vault: false, auth: true },
        Seals { escrow: true, vault: true, auth: false },
        Seals { escrow: false, vault: false, auth: false },
    ] {
        assert_eq!(ctx.check_with(&ledger, &found), Err(CustodyError::StructuralMismatch));
        assert_eq!(take_with(&mut ledger, &ctx, &found), Err(CustodyError::StructuralMismatch));
        assert_eq!(refund_with(&mut ledger, &refunding(&made), &found), Err(CustodyError::StructuralMismatch));
    }
    assert_eq!(balances(&ledger, &made), [900, 500, 0, 0, 100]);
    assert_eq!(ctx.check_with(&ledger, &ALL), Ok(()));
}

#[test]
fn take_without_resolved_accounts_fails() {
    let (mut ledger, made) = staged();
    assert_eq!(taking(&made).seals(&ledger), Seals { escrow: false, vault: false, auth: false });
    assert_eq!(take(&mut ledger, &taking(&made)), Err(CustodyError::StructuralMismatch));
    assert_eq!(refund(&mut ledger, &refunding(&made)), Err(CustodyError::StructuralMismatch));
    assert!(!authorize(&ledger, &made.escrow, &made.auth));
    assert_eq!(balances(&ledger, &made), [900, 500, 0, 0, 100]);
}

#[test]
fn seals_verify_each_derived_account() {
    let mut ledger = world();
    let made = making(1);
    assert_eq!(
        seals(&ledger, &made.escrow, &made.maker, &made.auth, &made.vault),
        Seals { escrow: false, vault: false, auth: false }
    );
    assert!(!authorize(&ledger, &made.escrow, &made.auth));
    assert_eq!(make(&mut ledger, &made, 1, 100, 50), Ok(()));
    assert_eq!(seals(&ledger, &made.escrow, &made.maker, &made.auth, &made.vault), ALL);
    assert_eq!(
        seals(&ledger, &made.escrow, &who(TAKER), &made.auth, &made.vault),
        Seals { escrow: false, vault: true, auth: true }
    );
    assert_eq!(
        seals(&ledger, &made.escrow, &made.maker, &made.auth, &who(MAKER_ATA)),
        Seals { escrow: true, vault: false, auth: true }
    );
    assert_eq!(
        seals(&ledger, &made.escrow, &made.maker, &who(TAKER), &made.vault),
        Seals { escrow: true, vault: true, auth: false }
    );
    assert!(authorize(&ledger, &made.escrow, &made.auth));
    assert!(!authorize(&ledger, &made.escrow, &who(TAKER)));
    assert_eq!(taking(&made).seals(&ledger), ALL);
    assert_eq!(refunding(&made).seals(&ledger), ALL);
}

#[test]
fn refund_with_returns_the_deposit() {
    let (mut ledger, made) = staged();
    let ctx = refunding(&made);
    assert_eq!(ctx.check_with(&ledger, &ALL), Ok(()));
    assert_eq!(refund_with(&mut ledger, &ctx, &ALL), Ok(()));
    assert_eq!(balances(&ledger, &made), [1000, 500, 0, 0, 0]);
    assert_eq!(ledger.escrow(&made.escrow), None);
    assert_eq!(ledger.holding(&made.vault), None);
}

#[test]
fn custody_steps_decide_on_what_they_are_given() {
    let (mut ledger, made) = staged();
    assert!(ledger.create_holding_account(who(TAKER_RECEIVE), who(TAKER), who(MAKER_TOKEN)));
    let (escrow, auth, vault) = (made.escrow, made.auth, made.vault);
    assert_eq!(
        check_custody(&ledger, &escrow, &who(MAKER), &who(MAKER_TOKEN), &auth, &vault, &ALL),
        Ok(())
    );
    assert_eq!(
        check_custody(&ledger, &who(77), &who(MAKER), &who(MAKER_TOKEN), &auth, &vault, &ALL),
        Err(CustodyError::RecordNotFound)
    );
    assert_eq!(
        check_custody(&ledger, &escrow, &who(TAKER), &who(MAKER_TOKEN), &auth, &vault, &ALL),
        Err(CustodyError::StructuralMismatch)
    );
    assert_eq!(
        check_custody(&ledger, &escrow, &who(MAKER), &who(MAKER_TOKEN), &auth, &who(78), &ALL),
        Err(CustodyError::AlreadyClosed)
    );
    assert_eq!(
        check_custody(&ledger, &escrow, &who(MAKER), &who(MAKER_TOKEN), &who(79), &vault, &ALL),
        Err(CustodyError::StructuralMismatch)
    );
    assert!(check_holding(&ledger, &vault, &auth, &who(MAKER_TOKEN)));
    assert!(!check_holding(&ledger, &vault, &auth, &who(TAKER_TOKEN)));
    assert!(!check_holding(&ledger, &vault, &who(MAKER), &who(MAKER_TOKEN)));
    assert!(!check_holding(&ledger, &who(78), &auth, &who(MAKER_TOKEN)));

    assert_eq!(
        empty_vault_step(&mut ledger, &escrow, &auth, &vault, &who(TAKER_RECEIVE), false),
        Err(CustodyError::StructuralMismatch)
    );
    assert_eq!(
        close_custody_step(&mut ledger, &escrow, &auth, &vault, &who(TAKER), false),
        Err(CustodyError::StructuralMismatch)
    );
    assert_eq!(
        close_custody_step(&mut ledger, &escrow, &auth, &vault, &who(TAKER), true),
        Err(CustodyError::CloseError)
    );
    assert_eq!(
        empty_vault_step(&mut ledger, &escrow, &who(MAKER), &vault, &who(TAKER_RECEIVE), true),
        Err(CustodyError::TransferError)
    );
    assert_eq!(ledger.balance(&vault), 100);
    assert_eq!(empty_vault_step(&mut ledger, &escrow, &auth, &vault, &who(TAKER_RECEIVE), true), Ok(()));
    assert_eq!(ledger.balance(&who(TAKER_RECEIVE)), 100);
    assert_eq!(close_custody_step(&mut ledger, &escrow, &auth, &vault, &vault, true), Err(CustodyError::CloseError));
    assert_eq!(close_custody_step(&mut ledger, &escrow, &auth, &vault, &who(TAKER), true), Ok(()));
    assert_eq!(
        empty_vault_step(&mut ledger, &escrow, &auth, &vault, &who(TAKER_RECEIVE), true),
        Err(CustodyError::AlreadyClosed)
    );
    assert_eq!(
        empty_vault_step(&mut ledger, &who(77), &auth, &vault, &who(TAKER_RECEIVE), true),
        Err(CustodyError::RecordNotFound)
    );
}

#[test]
fn transfer_step_reports_refusals_as_handler_errors() {
    let mut ledger = world();
    assert_eq!(
        transfer_step(&mut ledger, &who(MAKER_ATA), &who(TAKER_ATA), &who(MAKER), 1),
        Err(CustodyError::TransferError)
    );
    assert_eq!(
        transfer_step(&mut ledger, &who(MAKER_ATA), &who(MAKER_ATA), &who(MAKER), 1001),
        Err(CustodyError::InsufficientFunds)
    );
    assert!(ledger.create_holding_account(who(30), who(TAKER), who(MAKER_TOKEN)));
    assert_eq!(transfer_step(&mut ledger, &who(MAKER_ATA), &who(30), &who(MAKER), 1000), Ok(()));
    assert_eq!(ledger.balance(&who(30)), 1000);
    assert_eq!(ledger.balance(&who(MAKER_ATA)), 0);
}

#[test]
fn open_receiving_creates_both_or_neither() {
    let (mut ledger, made) = staged();
    let mut ctx = taking(&made);
    ctx.taker_receive_ata = who(MAKER_ATA);
    assert_eq!(ctx.open_receiving(&mut ledger), Err(CustodyError::StructuralMismatch));
    assert_eq!(ledger.holding(&who(MAKER_RECEIVE)), None);
    let ctx = taking(&made);
    assert_eq!(ctx.open_receiving(&mut ledger), Ok(()));
    assert_eq!(
        ledger.holding(&who(MAKER_RECEIVE)),
        Some(TokenAccount { mint: who(TAKER_TOKEN), owner: who(MAKER), amount: 0 })
    );
    assert_eq!(
        ledger.holding(&who(TAKER_RECEIVE)),
        Some(TokenAccount { mint: who(MAKER_TOKEN), owner: who(TAKER), amount: 0 })
    );
    assert_eq!(ctx.open_receiving(&mut ledger), Ok(()));
}

#[test]
fn records_can_be_filed_and_removed() {
    let (mut ledger, made) = staged();
    let record = ledger.escrow(&made.escrow).unwrap();
    ledger.put_escrow(who(60), record);
    assert_eq!(ledger.escrow(&who(60)), Some(record));
    ledger.remove_escrow(&made.escrow);
    assert_eq!(ledger.escrow(&made.escrow), None);
    assert_eq!(ledger.escrow(&who(60)), Some(record));
}
