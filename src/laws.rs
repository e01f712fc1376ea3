use crate::market_core::{add_liquidity_outcome, first_shares, proportional_shares};
use crate::math::lemma_floor_sqrt_unique;
use crate::pool::{claimed_in, Contract as Pool, PoolError};
use crate::token::Contract as Ledger;
use crate::util::dec;
use vstd::prelude::*;

verus! {

/// A ledger's balances sum to its total supply. `init` builds a well-formed ledger
/// and every call keeps it well formed, so this holds in every reachable state.
pub proof fn lemma_ledger_balances_sum_to_supply(ledger: &Ledger)
    requires
        ledger.wf(),
    ensures
        ledger.accounts.total() == ledger.total_supply,
        forall|k: Seq<char>| #[trigger] ledger.balance_of(k) <= ledger.total_supply,
{
    assert forall|k: Seq<char>| #[trigger] ledger.balance_of(k) <= ledger.total_supply by {
        ledger.accounts.lemma_amount_le_total(k);
    }
}

/// The LP shares held sum to the pool's share supply. `init` builds a well-formed
/// pool and every action keeps it well formed, so this holds in every reachable state.
pub proof fn lemma_pool_shares_sum_to_supply(pool: &Pool)
    requires
        pool.wf(),
    ensures
        pool.balance.total() == pool.total_supply,
        forall|k: Seq<char>| #[trigger] pool.shares_of(k) <= pool.total_supply,
{
    assert forall|k: Seq<char>| #[trigger] pool.shares_of(k) <= pool.total_supply by {
        pool.balance.lemma_amount_le_total(k);
    }
}

/// A claim with nothing staged mints nothing, whatever the reserves and supply.
pub proof fn lemma_empty_deposit_refused(r0: u128, r1: u128, ts: u128)
    ensures
        add_liquidity_outcome(r0 as int, r1 as int, ts as int, 0, 0) is Err,
{
    assert(r0 * 0 == 0 && r1 * 0 == 0) by (nonlinear_arith);
    lemma_floor_sqrt_unique(0, 0);
    assert(dec(0) == 0);
    assert(first_shares(0, 0) == 0);
    if ts != 0 && dec(r0 as int) != 0 && dec(r1 as int) != 0 {
        assert(0 * dec(ts as int) == 0) by (nonlinear_arith);
        assert(proportional_shares(0, 0, ts as int, r0 as int, r1 as int) == 0);
    }
}

/// Staged liquidity is read by one claim only. `before` is a pool on which
/// `add_liquidity` for `sender` succeeds and `after` the pool it leaves, as its
/// contract states: both staged amounts are zero, and the same claim again is refused.
pub proof fn lemma_liquidity_claimed_once(before: &Pool, after: &Pool, sender: Seq<char>)
    requires
        before.add_liquidity_result(sender) is Ok,
        after.token_0 == before.token_0,
        after.token_1 == before.token_1,
        after.received_liquidity_amount@ == claimed_in(
            claimed_in(before.received_liquidity_amount@, sender, true),
            sender,
            before.side_1(),
        ),
    ensures
        after.staged_liquidity(sender, after.token_0@) == 0,
        after.staged_liquidity(sender, after.token_1@) == 0,
        after.add_liquidity_result(sender) is Err,
{
    lemma_empty_deposit_refused(after.reserve_0, after.reserve_1, after.total_supply);
}

/// A staged swap input is read by one swap only. `before` is a pool on which `swap`
/// for `sender` and `token` succeeds and `after` the pool it leaves, as its contract
/// states: the same swap again finds nothing staged and is refused.
pub proof fn lemma_swap_claimed_once(before: &Pool, after: &Pool, sender: Seq<char>, token: Seq<char>)
    requires
        before.swap_result(sender, token) is Ok,
        after.token_0 == before.token_0,
        after.token_1 == before.token_1,
        after.received_swap_amount@ == claimed_in(
            before.received_swap_amount@,
            sender,
            before.side_of(token) == Some(true),
        ),
    ensures
        after.staged_swap(sender, token) == 0,
        after.swap_result(sender, token) == Err::<int, PoolError>(PoolError::ZeroSwapAmount),
{
}

/// Shares are paid out once. `before` is a pool from which `sender` removes all of
/// its shares and `after` the pool that leaves, as `remove_liquidity` states: removing
/// the same number of shares again is refused (and a refused call changes nothing).
pub proof fn lemma_removal_not_repeated(before: &Pool, after: &Pool, sender: Seq<char>)
    requires
        before.remove_liquidity_result(sender, before.shares_of(sender) as int) is Ok,
        after.balance@ == before.balance@.insert(sender, 0),
    ensures
        after.shares_of(sender) == 0,
        after.remove_liquidity_result(sender, before.shares_of(sender) as int) == Err::<(int, int), PoolError>(
            PoolError::InsufficientShares,
        ),
{
    let held = before.shares_of(sender) as int;
    if held == 0 {
        assert(dec(0) == 0);
        assert(0 * dec(before.reserve_0 as int) == 0) by (nonlinear_arith);
    }
}

} // verus!
