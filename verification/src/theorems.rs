//! What holds of the handlers on every ledger. The theorems speak of the
//! deciding parts, so they hold whatever the resolver found.

use crate::address::{address_at, canonical_bump, is_canonical, verifies, Address};
use crate::escrow::{make_spec, refund_spec, take_spec, Make, Refund, Take};
use crate::ledger::{settles, LedgerState};
use crate::state::{fails_with, Bumps, CustodyError, Seals, VaultBumps, VaultSeals, VaultState};
use crate::vault::{
    deposit_spec, deposit_spl_spec, initialize_spec, withdraw_spec, withdraw_spl_spec, Deposit, DepositSpl, Initialize,
    Withdraw, WithdrawSpl,
};
use vstd::prelude::*;

verus! {

/// A bump other than the canonical one verifies an address only if the
/// label derives that very address under it too. A bump below the canonical
/// one derives nothing, so it verifies no address at all.
pub proof fn verify_rejects_other_bumps(program_id: Address, label: Seq<Seq<u8>>, address: Address, bump: u8, other: u8)
    requires
        canonical_bump(program_id, label) == Some(bump),
        verifies(program_id, address, label, bump),
        other != bump,
    ensures
        address_at(program_id, label, other) != Some(address@) ==> !verifies(program_id, address, label, other),
        other < bump ==> !verifies(program_id, address, label, other),
        forall|any: Address| other < bump ==> !verifies(program_id, any, label, other),
{
    assert(is_canonical(program_id, label, bump));
}

/// The canonical bump is the lowest bump under which the label derives an
/// address, and it verifies the address derived under it.
pub proof fn canonical_bump_verifies(program_id: Address, label: Seq<Seq<u8>>, address: Address, bump: u8)
    requires
        canonical_bump(program_id, label) == Some(bump),
        address_at(program_id, label, bump) == Some(address@),
    ensures
        verifies(program_id, address, label, bump),
        is_canonical(program_id, label, bump),
{
}

/// After a `make` that succeeded the record is open as written, the
/// program is the same, and the custody account exists under the derived
/// authority for the maker's token; unless the maker's account is the
/// custody account, the deposit left the one and is held in the other.
pub proof fn make_takes_deposit(s: LedgerState, ctx: Make, bumps: Bumps, seed: u64, deposit: u64, offer: u64)
    requires
        make_spec(s, ctx, bumps, seed, deposit, offer) is Ok,
    ensures
        made(s, make_spec(s, ctx, bumps, seed, deposit, offer)->Ok_0, ctx, bumps, seed, deposit, offer),
{
}

/// What a `make` leaves behind.
pub open spec fn made(pre: LedgerState, post: LedgerState, ctx: Make, bumps: Bumps, seed: u64, deposit: u64, offer: u64) -> bool {
    &&& post.program_id == pre.program_id
    &&& post.vaults == pre.vaults
    &&& !pre.escrows.contains_key(ctx.escrow)
    &&& post.escrows == pre.escrows.insert(ctx.escrow, ctx.record(bumps, seed, deposit, offer))
    &&& !pre.holdings.contains_key(ctx.vault)
    &&& post.holdings.contains_key(ctx.vault)
    &&& post.holdings[ctx.vault].owner == ctx.auth
    &&& post.holdings[ctx.vault].mint == ctx.maker_token
    &&& ctx.maker_ata != ctx.vault ==> {
        &&& post.balance(ctx.vault) == deposit
        &&& post.balance(ctx.maker_ata) == pre.balance(ctx.maker_ata) - deposit
    }
    &&& forall|a: Address|
        a != ctx.vault && a != ctx.maker_ata ==> (pre.holdings.contains_key(a) <==> #[trigger] post.holdings.contains_key(a))
            && (pre.holdings.contains_key(a) ==> post.holdings[a] == pre.holdings[a])
}

/// The derived accounts of two calls of `make` are the same.
pub open spec fn same_record(first: Make, second: Make) -> bool {
    &&& second.maker == first.maker
    &&& second.auth == first.auth
    &&& second.vault == first.vault
    &&& second.escrow == first.escrow
}

/// After a `make` that succeeded, a second `make` by the same maker under
/// the same seed fails with `AlreadyExists`, whatever else it presents.
pub proof fn make_twice_collides(s: LedgerState, first: Make, second: Make, seed: u64, deposit: u64, offer: u64, deposit_again: u64, offer_again: u64)
    requires
        make_spec(s, first, first.bumps_spec(s.program_id, seed), seed, deposit, offer) is Ok,
        same_record(first, second),
    ensures
        make_spec(s, first, first.bumps_spec(s.program_id, seed), seed, deposit, offer)->Ok_0.program_id == s.program_id,
        fails_with(
            make_spec(
                make_spec(s, first, first.bumps_spec(s.program_id, seed), seed, deposit, offer)->Ok_0,
                second,
                second.bumps_spec(s.program_id, seed),
                seed,
                deposit_again,
                offer_again,
            ),
            CustodyError::AlreadyExists,
        ),
{
}

/// The same of the deciding part alone: on the ledger that a `make` left,
/// a `make` at the address of its record fails, with `AlreadyExists`
/// whenever the resolver produced the three bumps.
pub proof fn make_at_open_record_collides(s: LedgerState, first: Make, bumps: Bumps, seed: u64, deposit: u64, offer: u64, second: Make, other_bumps: Bumps, other_seed: u64, other_deposit: u64, other_offer: u64)
    requires
        make_spec(s, first, bumps, seed, deposit, offer) is Ok,
        second.escrow == first.escrow,
    ensures
        make_spec(make_spec(s, first, bumps, seed, deposit, offer)->Ok_0, second, other_bumps, other_seed, other_deposit, other_offer) is Err,
        other_bumps.auth is Some && other_bumps.vault is Some && other_bumps.escrow is Some ==> fails_with(
            make_spec(make_spec(s, first, bumps, seed, deposit, offer)->Ok_0, second, other_bumps, other_seed, other_deposit, other_offer),
            CustodyError::AlreadyExists,
        ),
{
}

/// Both records are open, and unless an account of one exchange is an
/// account of the other, each custody account holds its deposit.
pub open spec fn both_open(s: LedgerState, first: Make, deposit: u64, second: Make, other_deposit: u64) -> bool {
    &&& s.escrows.contains_key(first.escrow)
    &&& s.escrows.contains_key(second.escrow)
    &&& s.holdings.contains_key(first.vault)
    &&& s.holdings.contains_key(second.vault)
    &&& second.maker_ata != second.vault && second.maker_ata != first.vault && first.maker_ata != first.vault ==> {
        &&& s.balance(first.vault) == deposit
        &&& s.balance(second.vault) == other_deposit
    }
}

/// Two records of one maker under different seeds do not stand in each
/// other's way: where the second `make` would succeed on the ledger before
/// the first, where the two seeds derive different records and custody
/// accounts, and where the maker's account still holds the second deposit
/// after the first, the second `make` succeeds after the first, and both
/// records are open with their deposits in custody.
pub proof fn make_other_seed_succeeds(s: LedgerState, first: Make, bumps: Bumps, seed: u64, deposit: u64, offer: u64, second: Make, other_bumps: Bumps, other_seed: u64, other_deposit: u64, other_offer: u64)
    requires
        second.maker == first.maker,
        seed != other_seed,
        make_spec(s, first, bumps, seed, deposit, offer) is Ok,
        make_spec(s, second, other_bumps, other_seed, other_deposit, other_offer) is Ok,
        second.escrow != first.escrow,
        second.vault != first.vault,
        other_deposit <= make_spec(s, first, bumps, seed, deposit, offer)->Ok_0.balance(second.maker_ata),
    ensures
        make_spec(make_spec(s, first, bumps, seed, deposit, offer)->Ok_0, second, other_bumps, other_seed, other_deposit, other_offer) is Ok,
        both_open(
            make_spec(make_spec(s, first, bumps, seed, deposit, offer)->Ok_0, second, other_bumps, other_seed, other_deposit, other_offer)->Ok_0,
            first,
            deposit,
            second,
            other_deposit,
        ),
{
    let mid = make_spec(s, first, bumps, seed, deposit, offer)->Ok_0;
    let written = first.init_spec(s, bumps, seed, deposit, offer)->Ok_0;
    let opened = first.open_vault_spec(written)->Ok_0;
    assert(mid == first.transfer_to_vault_spec(opened, deposit)->Ok_0);
    let written2 = second.init_spec(mid, other_bumps, other_seed, other_deposit, other_offer);
    assert(written2 is Ok);
    let opened2 = second.open_vault_spec(written2->Ok_0);
    assert(opened2 is Ok);
}

/// The four holding accounts of a `take` are four different accounts.
pub open spec fn take_accounts_distinct(ctx: Take) -> bool {
    &&& ctx.vault != ctx.taker_ata
    &&& ctx.vault != ctx.maker_receive_ata
    &&& ctx.vault != ctx.taker_receive_ata
    &&& ctx.taker_ata != ctx.maker_receive_ata
    &&& ctx.taker_ata != ctx.taker_receive_ata
    &&& ctx.maker_receive_ata != ctx.taker_receive_ata
}

/// The sum of the balances of the four holding accounts of a `take`.
pub open spec fn take_total(s: LedgerState, ctx: Take) -> nat {
    s.balance(ctx.vault) + s.balance(ctx.taker_ata) + s.balance(ctx.maker_receive_ata) + s.balance(
        ctx.taker_receive_ata,
    )
}

/// Every holding account but the four of the `take` is as it was.
pub open spec fn take_frame(pre: LedgerState, post: LedgerState, ctx: Take) -> bool {
    forall|a: Address|
        a != ctx.vault && a != ctx.taker_ata && a != ctx.maker_receive_ata && a != ctx.taker_receive_ata ==> (
        pre.holdings.contains_key(a) <==> #[trigger] post.holdings.contains_key(a)) && (pre.holdings.contains_key(a)
            ==> post.holdings[a] == pre.holdings[a])
}

/// What the parties have after a `take` between four different accounts:
/// the taker received what was in custody and paid the amount asked for,
/// the maker received that amount, and the four balances add up to what
/// they added up to before.
pub open spec fn take_settled(pre: LedgerState, post: LedgerState, ctx: Take) -> bool {
    let offer = pre.escrows[ctx.escrow].offer_amount;
    &&& post.balance(ctx.taker_receive_ata) == pre.balance(ctx.taker_receive_ata) + pre.balance(ctx.vault)
    &&& post.balance(ctx.maker_receive_ata) == pre.balance(ctx.maker_receive_ata) + offer
    &&& post.balance(ctx.taker_ata) == pre.balance(ctx.taker_ata) - offer
    &&& take_total(post, ctx) == take_total(pre, ctx)
}

/// After a `take` that succeeded the record is gone, the custody account
/// is gone and holds nothing, every other record, every vault state and
/// every account outside the exchange is as it was, and the exchange
/// between four different accounts is settled exactly.
pub proof fn take_exchanges(s: LedgerState, ctx: Take, found: Seals)
    requires
        take_spec(s, ctx, found) is Ok,
    ensures
        take_spec(s, ctx, found)->Ok_0.escrows == s.escrows.remove(ctx.escrow),
        !take_spec(s, ctx, found)->Ok_0.holdings.contains_key(ctx.vault),
        take_spec(s, ctx, found)->Ok_0.balance(ctx.vault) == 0,
        take_spec(s, ctx, found)->Ok_0.vaults == s.vaults,
        take_spec(s, ctx, found)->Ok_0.program_id == s.program_id,
        take_frame(s, take_spec(s, ctx, found)->Ok_0, ctx),
        take_accounts_distinct(ctx) ==> take_settled(s, take_spec(s, ctx, found)->Ok_0, ctx),
{
    let ready = ctx.open_receiving_spec(s)->Ok_0;
    let paid = ctx.deposit_to_maker_spec(ready)->Ok_0;
    let emptied = ctx.empty_vault_to_taker_spec(paid, found.auth)->Ok_0;
    let closed = ctx.close_vault_spec(emptied, found.auth)->Ok_0;
    assert(take_spec(s, ctx, found)->Ok_0 == closed.with_escrows(closed.escrows.remove(ctx.escrow)));
}

/// A `take` succeeds only where the resolver verified the three derived
/// accounts presented.
pub proof fn take_needs_verified_accounts(s: LedgerState, ctx: Take, found: Seals)
    requires
        take_spec(s, ctx, found) is Ok,
    ensures
        found.escrow && found.vault && found.auth,
        s.escrows.contains_key(ctx.escrow),
        s.escrows[ctx.escrow].maker == ctx.maker,
        s.escrows[ctx.escrow].maker_token == ctx.maker_token,
        s.escrows[ctx.escrow].taker_token == ctx.taker_token,
{
}

/// After a `refund` that succeeded the record and the custody account are
/// gone, and the maker's account, where it is not the custody account,
/// holds what was in custody on top of what it held.
pub proof fn refund_returns_deposit(s: LedgerState, ctx: Refund, found: Seals)
    requires
        refund_spec(s, ctx, found) is Ok,
    ensures
        refund_spec(s, ctx, found)->Ok_0.escrows == s.escrows.remove(ctx.escrow),
        !refund_spec(s, ctx, found)->Ok_0.holdings.contains_key(ctx.vault),
        refund_spec(s, ctx, found)->Ok_0.vaults == s.vaults,
        refund_spec(s, ctx, found)->Ok_0.program_id == s.program_id,
        ctx.maker_ata != ctx.vault ==> refund_spec(s, ctx, found)->Ok_0.balance(ctx.maker_ata) == s.balance(ctx.maker_ata)
            + s.balance(ctx.vault),
        found.escrow && found.vault && found.auth,
        s.escrows.contains_key(ctx.escrow) && s.escrows[ctx.escrow].maker == ctx.maker,
{
    let emptied = ctx.empty_vault_spec(s, found.auth)->Ok_0;
    let closed = ctx.close_vault_spec(emptied, found.auth)->Ok_0;
    assert(refund_spec(s, ctx, found)->Ok_0 == closed.with_escrows(closed.escrows.remove(ctx.escrow)));
}

/// A record is closed once: after a `refund` that succeeded, a `take` of
/// the same record finds no record.
pub proof fn refund_then_take_fails(s: LedgerState, first: Refund, found: Seals, then: Take, found_then: Seals)
    requires
        refund_spec(s, first, found) is Ok,
        then.escrow == first.escrow,
    ensures
        fails_with(take_spec(refund_spec(s, first, found)->Ok_0, then, found_then), CustodyError::RecordNotFound),
{
    refund_returns_deposit(s, first, found);
}

/// A record is closed once: after a `take` that succeeded, a `refund` of
/// the same record finds no record.
pub proof fn take_then_refund_fails(s: LedgerState, first: Take, found: Seals, then: Refund, found_then: Seals)
    requires
        take_spec(s, first, found) is Ok,
        then.escrow == first.escrow,
    ensures
        fails_with(refund_spec(take_spec(s, first, found)->Ok_0, then, found_then), CustodyError::RecordNotFound),
{
    take_exchanges(s, first, found);
}

/// A record is taken once: a second `take` of the same record finds no
/// record.
pub proof fn take_twice_fails(s: LedgerState, first: Take, found: Seals, then: Take, found_then: Seals)
    requires
        take_spec(s, first, found) is Ok,
        then.escrow == first.escrow,
    ensures
        fails_with(take_spec(take_spec(s, first, found)->Ok_0, then, found_then), CustodyError::RecordNotFound),
{
    take_exchanges(s, first, found);
}

/// A record is refunded once: a second `refund` of the same record finds
/// no record.
pub proof fn refund_twice_fails(s: LedgerState, first: Refund, found: Seals, then: Refund, found_then: Seals)
    requires
        refund_spec(s, first, found) is Ok,
        then.escrow == first.escrow,
    ensures
        fails_with(refund_spec(refund_spec(s, first, found)->Ok_0, then, found_then), CustodyError::RecordNotFound),
{
    refund_returns_deposit(s, first, found);
}

/// A vault state is created once: after an `initialize` that succeeded, a
/// second one at the same address fails, with `AlreadyExists` whenever the
/// resolver produced the two bumps, and the state written stays.
pub proof fn initialize_twice_collides(s: LedgerState, first: Initialize, bumps: VaultBumps, then: Initialize, other_bumps: VaultBumps)
    requires
        initialize_spec(s, first, bumps) is Ok,
        then.vault_state == first.vault_state,
    ensures
        initialize_spec(s, first, bumps)->Ok_0.vaults[first.vault_state].owner == first.owner,
        initialize_spec(s, first, bumps)->Ok_0.vaults[first.vault_state].score == 0,
        initialize_spec(s, first, bumps)->Ok_0.holdings == s.holdings,
        initialize_spec(initialize_spec(s, first, bumps)->Ok_0, then, other_bumps) is Err,
        other_bumps.auth is Some && other_bumps.vault is Some ==> fails_with(
            initialize_spec(initialize_spec(s, first, bumps)->Ok_0, then, other_bumps),
            CustodyError::AlreadyExists,
        ),
{
}

/// What a use of the vault leaves behind: one more use is counted, and
/// `amount` left the account `from` and is held in the account `to`.
pub open spec fn moved_and_counted(pre: LedgerState, post: LedgerState, vault_state: Address, from: Address, to: Address, amount: u64) -> bool {
    &&& pre.vaults.contains_key(vault_state)
    &&& post.vaults == pre.vaults.insert(
        vault_state,
        VaultState { score: (pre.vaults[vault_state].score + 1) as u8, ..pre.vaults[vault_state] },
    )
    &&& pre.vaults[vault_state].score < u8::MAX
    &&& post.escrows == pre.escrows
    &&& post.program_id == pre.program_id
    &&& from != to ==> {
        &&& post.balance(from) == pre.balance(from) - amount
        &&& post.balance(to) == pre.balance(to) + amount
    }
    &&& forall|a: Address|
        a != from && a != to ==> (pre.holdings.contains_key(a) <==> #[trigger] post.holdings.contains_key(a)) && (
        pre.holdings.contains_key(a) ==> post.holdings[a] == pre.holdings[a])
}

/// A `deposit` that succeeded was made by the owner under verified
/// accounts; it moved the amount from the owner's native balance into the
/// vault and counted the use.
pub proof fn deposit_moves_and_counts(s: LedgerState, ctx: Deposit, amount: u64, found: VaultSeals)
    requires
        deposit_spec(s, ctx, amount, found) is Ok,
    ensures
        found.auth && found.vault,
        s.vaults[ctx.vault_state].owner == ctx.owner,
        moved_and_counted(s, deposit_spec(s, ctx, amount, found)->Ok_0, ctx.vault_state, ctx.owner, ctx.vault, amount),
{
}

/// A `withdraw` that succeeded was made by the owner under verified
/// accounts; it moved the amount from the vault back to the owner's native
/// balance and counted the use.
pub proof fn withdraw_moves_and_counts(s: LedgerState, ctx: Withdraw, amount: u64, found: VaultSeals)
    requires
        withdraw_spec(s, ctx, amount, found) is Ok,
    ensures
        found.auth && found.vault,
        s.vaults[ctx.vault_state].owner == ctx.owner,
        amount <= s.balance(ctx.vault),
        moved_and_counted(s, withdraw_spec(s, ctx, amount, found)->Ok_0, ctx.vault_state, ctx.vault, ctx.owner, amount),
{
}

/// A `deposit_spl` that succeeded was made by the owner under the verified
/// authority; it moved the amount of tokens from the owner's account into
/// the vault's and counted the use.
pub proof fn deposit_spl_moves_and_counts(s: LedgerState, ctx: DepositSpl, amount: u64, auth_ok: bool)
    requires
        deposit_spl_spec(s, ctx, amount, auth_ok) is Ok,
    ensures
        auth_ok,
        s.vaults[ctx.vault_state].owner == ctx.owner,
        moved_and_counted(s, deposit_spl_spec(s, ctx, amount, auth_ok)->Ok_0, ctx.vault_state, ctx.owner_ata, ctx.vault_ata, amount),
{
}

/// A `withdraw_spl` that succeeded was made by the owner under the
/// verified authority; it moved the amount of tokens from the vault's
/// account back to the owner's and counted the use.
pub proof fn withdraw_spl_moves_and_counts(s: LedgerState, ctx: WithdrawSpl, amount: u64, auth_ok: bool)
    requires
        withdraw_spl_spec(s, ctx, amount, auth_ok) is Ok,
    ensures
        auth_ok,
        s.vaults[ctx.vault_state].owner == ctx.owner,
        amount <= s.balance(ctx.vault_ata),
        moved_and_counted(s, withdraw_spl_spec(s, ctx, amount, auth_ok)->Ok_0, ctx.vault_state, ctx.vault_ata, ctx.owner_ata, amount),
{
}

/// A withdrawal of more than the vault holds fails, and the ledger, with
/// the vault's balance and the usage counter, is as it was.
pub proof fn withdraw_over_balance_fails(s: LedgerState, ctx: Withdraw, amount: u64, found: VaultSeals, post: LedgerState, r: Result<(), CustodyError>)
    requires
        amount > s.balance(ctx.vault),
        settles(s, post, r, withdraw_spec(s, ctx, amount, found)),
    ensures
        r is Err,
        post == s,
        found.auth && found.vault && s.vaults.contains_key(ctx.vault_state) && s.vaults[ctx.vault_state].owner == ctx.owner
            ==> fails_with(r, CustodyError::InsufficientFunds),
{
}

/// A withdrawal of more tokens than the vault holds fails, and the ledger,
/// with the vault's balance and the usage counter, is as it was.
pub proof fn withdraw_spl_over_balance_fails(s: LedgerState, ctx: WithdrawSpl, amount: u64, auth_ok: bool, post: LedgerState, r: Result<(), CustodyError>)
    requires
        amount > s.balance(ctx.vault_ata),
        settles(s, post, r, withdraw_spl_spec(s, ctx, amount, auth_ok)),
    ensures
        r is Err,
        post == s,
{
}

} // verus!
