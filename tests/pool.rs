use amm::account::AccountId;
use amm::market_core::{amount_in_with_fee, liquidity_shares, swap_amount_out};
use amm::pool::{Contract, PoolCall, PoolError, StorageKey};
use amm::promise::{CallResult, Reported};
use amm::util::{get_yocto, to_dec, to_yocto};

fn id(s: &str) -> AccountId {
    AccountId::new(s).unwrap()
}

fn tag(s: &str) -> String {
    s.to_string()
}

fn json_amount(v: u128) -> CallResult {
    CallResult::Successful(format!("\"{}\"", v).into_bytes())
}

fn new_pool() -> Contract {
    Contract::init(id("ykel.testnet"), id("token_1.testnet"), id("token_2.testnet"))
}

/// A pool where alice has added (100, 100) whole tokens and both reserves were refreshed.
fn funded_pool() -> Contract {
    let mut pool = new_pool();
    let t0 = id("token_1.testnet");
    let t1 = id("token_2.testnet");
    let alice = id("alice.testnet");
    pool.ft_on_transfer(&t0, &alice, to_yocto(100), &tag("ADD_LIQUIDITY")).unwrap();
    pool.ft_on_transfer(&t1, &alice, to_yocto(100), &tag("ADD_LIQUIDITY")).unwrap();
    pool.add_liquidity(&alice).unwrap();
    pool.resolve_reserve_0(&json_amount(to_yocto(100))).unwrap();
    pool.resolve_reserve_1(&json_amount(to_yocto(100))).unwrap();
    pool
}

#[test]
fn test_init() {
    let owner_id = id("ykel.testnet");
    let token_0 = id("token_1.testnet");
    let token_1 = id("token_2.testnet");
    let contract = Contract::init(owner_id, token_0.clone(), token_1.clone());
    assert_eq!(contract.token_0, token_0);
    assert_eq!(contract.reserve_0, 0);
    assert_eq!(contract.reserve_1, 0);
    assert_eq!(contract.total_supply, 0);
}

#[test]
fn test_add_deposit() {
    let owner_id = id("ykel.testnet");
    let token_0 = id("token_1.testnet");
    let token_1 = id("token_2.testnet");
    let contract = Contract::init(owner_id, token_0.clone(), token_1.clone());
    assert_eq!(contract.token_0, token_0);
    assert_eq!(contract.reserve_0, 0);
    assert_eq!(contract.reserve_1, 0);
    assert_eq!(contract.total_supply, 0);
}

#[test]
fn scaling_helpers() {
    assert_eq!(get_yocto(), 1_000_000_000_000_000_000_000_000);
    assert_eq!(to_yocto(3), 3_000_000_000_000_000_000_000_000);
    assert_eq!(to_dec(2_999_999_999_999_999_999_999_999), 2);
}

#[test]
fn staging_accumulates_per_intent() {
    let mut pool = new_pool();
    let t0 = id("token_1.testnet");
    let t1 = id("token_2.testnet");
    let bob = id("bob.testnet");
    assert_eq!(pool.ft_on_transfer(&t0, &bob, 40, &tag("ADD_LIQUIDITY")), Ok(0));
    assert_eq!(pool.ft_on_transfer(&t0, &bob, 2, &tag("ADD_LIQUIDITY")), Ok(0));
    assert_eq!(pool.ft_on_transfer(&t1, &bob, 7, &tag("SWAP_TOKEN")), Ok(0));
    assert_eq!(pool.get_received_liquidity_amount(&bob, &t0), 42);
    assert_eq!(pool.get_received_liquidity_amount(&bob, &t1), 0);
    assert_eq!(pool.get_received_swap_amount(&bob, &t1), 7);
    assert_eq!(pool.get_received_swap_amount(&bob, &t0), 0);
    assert_eq!(pool.get_received_liquidity_amount(&bob, &id("other.testnet")), 0);
}

#[test]
fn staging_refuses_bad_tag_token_and_overflow() {
    let mut pool = new_pool();
    let t0 = id("token_1.testnet");
    let bob = id("bob.testnet");
    assert_eq!(pool.ft_on_transfer(&t0, &bob, 5, &tag("DEPOSIT")), Err(PoolError::InvalidAction));
    assert_eq!(
        pool.ft_on_transfer(&id("stranger.testnet"), &bob, 5, &tag("SWAP_TOKEN")),
        Err(PoolError::InvalidToken)
    );
    assert_eq!(pool.ft_on_transfer(&t0, &bob, u128::MAX, &tag("SWAP_TOKEN")), Ok(0));
    assert_eq!(pool.ft_on_transfer(&t0, &bob, 1, &tag("SWAP_TOKEN")), Err(PoolError::StagedOverflow));
    assert_eq!(pool.get_received_swap_amount(&bob, &t0), u128::MAX);
}

#[test]
fn first_deposit_mints_root_of_amounts() {
    let mut pool = new_pool();
    let t0 = id("token_1.testnet");
    let t1 = id("token_2.testnet");
    let alice = id("alice.testnet");
    pool.ft_on_transfer(&t0, &alice, to_yocto(100), &tag("ADD_LIQUIDITY")).unwrap();
    pool.ft_on_transfer(&t1, &alice, to_yocto(100), &tag("ADD_LIQUIDITY")).unwrap();
    let applied = pool.add_liquidity(&alice).unwrap();
    assert_eq!(applied.event.shares, to_yocto(100));
    assert_eq!(applied.event.amount_0, to_yocto(100));
    assert_eq!(applied.event.amount_1, to_yocto(100));
    assert_eq!(applied.event.account_id, alice);
    assert!(matches!(applied.calls.as_slice(), [PoolCall::RefreshReserve0, PoolCall::RefreshReserve1]));
    assert_eq!(pool.get_balance_of(&alice), to_yocto(100));
    assert_eq!(pool.get_total_supply(), to_yocto(100));
    assert_eq!(pool.get_received_liquidity_amount(&alice, &t0), 0);
    assert_eq!(pool.get_received_liquidity_amount(&alice, &t1), 0);
}

#[test]
fn claiming_liquidity_twice_is_refused() {
    let mut pool = funded_pool();
    let alice = id("alice.testnet");
    assert_eq!(pool.add_liquidity(&alice).err(), Some(PoolError::ZeroShares));
    assert_eq!(pool.get_total_supply(), to_yocto(100));
}

#[test]
fn first_deposit_uncommon_amounts() {
    // sqrt(2 * 50) = 10 whole tokens.
    assert_eq!(liquidity_shares(0, 0, 0, to_yocto(2), to_yocto(50)), Ok(to_yocto(10)));
    // sqrt(3 * 5) rounds down to 3.
    assert_eq!(liquidity_shares(0, 0, 0, to_yocto(3), to_yocto(5)), Ok(to_yocto(3)));
}

#[test]
fn second_deposit_mints_proportional_shares() {
    let mut pool = funded_pool();
    assert_eq!(pool.get_reserve_0(), to_yocto(100));
    assert_eq!(pool.get_reserve_1(), to_yocto(100));
    let t0 = id("token_1.testnet");
    let t1 = id("token_2.testnet");
    let carol = id("carol.testnet");
    pool.ft_on_transfer(&t0, &carol, to_yocto(50), &tag("ADD_LIQUIDITY")).unwrap();
    pool.ft_on_transfer(&t1, &carol, to_yocto(50), &tag("ADD_LIQUIDITY")).unwrap();
    let applied = pool.add_liquidity(&carol).unwrap();
    assert_eq!(applied.event.shares, to_yocto(50));
    assert_eq!(pool.get_total_supply(), to_yocto(150));
    assert_eq!(pool.get_balance_of(&carol), to_yocto(50));
}

#[test]
fn deposit_off_ratio_is_refused() {
    let mut pool = funded_pool();
    let t0 = id("token_1.testnet");
    let t1 = id("token_2.testnet");
    let carol = id("carol.testnet");
    pool.ft_on_transfer(&t0, &carol, to_yocto(50), &tag("ADD_LIQUIDITY")).unwrap();
    pool.ft_on_transfer(&t1, &carol, to_yocto(51), &tag("ADD_LIQUIDITY")).unwrap();
    assert_eq!(pool.add_liquidity(&carol).err(), Some(PoolError::RatioMismatch));
    // Nothing was claimed.
    assert_eq!(pool.get_received_liquidity_amount(&carol, &t0), to_yocto(50));
    assert_eq!(pool.get_total_supply(), to_yocto(100));
}

#[test]
fn share_errors_from_formula() {
    // A deposit under one whole token mints nothing.
    assert_eq!(liquidity_shares(0, 0, 0, 100, 100), Err(PoolError::ZeroShares));
    // Reserves under one whole token cannot price a later deposit.
    assert_eq!(liquidity_shares(5, 5, to_yocto(1), 5, 5), Err(PoolError::EmptyReserve));
    // The proportional share overflows once scaled back.
    let big: u128 = 100_000_000_000_000_000_000_000_000_000_000_000_000;
    assert_eq!(liquidity_shares(to_yocto(1), to_yocto(1), big, big, big), Err(PoolError::SharesOverflow));
    // The ratio check is exact even where the products exceed 128 bits.
    assert_eq!(
        liquidity_shares(to_yocto(100), to_yocto(100), to_yocto(100), to_yocto(50), to_yocto(50)),
        Ok(to_yocto(50))
    );
    assert_eq!(
        liquidity_shares(to_yocto(100), to_yocto(100), to_yocto(100), to_yocto(50), to_yocto(50) + 1),
        Err(PoolError::RatioMismatch)
    );
}

#[test]
fn swap_formula_truncates() {
    assert_eq!(amount_in_with_fee(10), Some(9));
    assert_eq!(swap_amount_out(10, 100, 100), Some(8));
    assert_eq!(swap_amount_out(0, 0, 100), None);
    assert_eq!(amount_in_with_fee(u128::MAX), None);
}

#[test]
fn swap_token_0_pays_token_1() {
    let mut pool = funded_pool();
    let t0 = id("token_1.testnet");
    let bob = id("bob.testnet");
    pool.ft_on_transfer(&t0, &bob, to_yocto(10), &tag("SWAP_TOKEN")).unwrap();
    let applied = pool.swap(&bob, &t0).unwrap();
    assert_eq!(applied.event.amount_out, to_yocto(8));
    assert_eq!(applied.event.token_in, t0);
    match &applied.calls[0] {
        PoolCall::Transfer { token_id, receiver_id, amount } => {
            assert_eq!(*token_id, id("token_2.testnet"));
            assert_eq!(*receiver_id, bob);
            assert_eq!(*amount, to_yocto(8));
        }
        _ => panic!("expected a transfer first"),
    }
    assert!(matches!(applied.calls[1], PoolCall::RefreshReserve0));
    assert!(matches!(applied.calls[2], PoolCall::RefreshReserve1));
    assert_eq!(pool.get_received_swap_amount(&bob, &t0), 0);
    assert_eq!(pool.swap(&bob, &t0).err(), Some(PoolError::ZeroSwapAmount));
}

#[test]
fn swap_token_1_uses_token_1_reserve_as_input() {
    let mut pool = funded_pool();
    pool.resolve_reserve_1(&json_amount(to_yocto(200))).unwrap();
    let t1 = id("token_2.testnet");
    let bob = id("bob.testnet");
    pool.ft_on_transfer(&t1, &bob, to_yocto(10), &tag("SWAP_TOKEN")).unwrap();
    let applied = pool.swap(&bob, &t1).unwrap();
    // 100 * 9 / (200 + 9) = 4
    assert_eq!(applied.event.amount_out, to_yocto(4));
    match &applied.calls[0] {
        PoolCall::Transfer { token_id, .. } => assert_eq!(*token_id, id("token_1.testnet")),
        _ => panic!("expected a transfer first"),
    }
}

#[test]
fn swap_errors() {
    let mut pool = new_pool();
    let t0 = id("token_1.testnet");
    let bob = id("bob.testnet");
    assert_eq!(pool.swap(&bob, &id("stranger.testnet")).err(), Some(PoolError::InvalidToken));
    assert_eq!(pool.swap(&bob, &t0).err(), Some(PoolError::ZeroSwapAmount));
    pool.ft_on_transfer(&t0, &bob, 10, &tag("SWAP_TOKEN")).unwrap();
    // Empty reserves and an input under one token leave nothing to divide by.
    assert_eq!(pool.swap(&bob, &t0).err(), Some(PoolError::EmptyReserve));
    assert_eq!(pool.get_received_swap_amount(&bob, &t0), 10);
}

#[test]
fn remove_liquidity_pays_out_against_supply_before_burn() {
    let mut pool = funded_pool();
    let alice = id("alice.testnet");
    let applied = pool.remove_liquidity(&alice, to_yocto(40)).unwrap();
    assert_eq!(applied.event.amount_0, to_yocto(40));
    assert_eq!(applied.event.amount_1, to_yocto(40));
    assert_eq!(applied.calls.len(), 4);
    match &applied.calls[1] {
        PoolCall::Transfer { token_id, receiver_id, amount } => {
            assert_eq!(*token_id, id("token_2.testnet"));
            assert_eq!(*receiver_id, alice);
            assert_eq!(*amount, to_yocto(40));
        }
        _ => panic!("expected the token-1 transfer second"),
    }
    assert_eq!(pool.get_balance_of(&alice), to_yocto(60));
    assert_eq!(pool.get_total_supply(), to_yocto(60));
}

#[test]
fn removing_twice_is_refused() {
    let mut pool = funded_pool();
    let alice = id("alice.testnet");
    let all = pool.get_balance_of(&alice);
    pool.remove_liquidity(&alice, all).unwrap();
    assert_eq!(pool.get_balance_of(&alice), 0);
    assert_eq!(pool.get_total_supply(), 0);
    let reserves = (pool.get_reserve_0(), pool.get_reserve_1());
    assert_eq!(pool.remove_liquidity(&alice, all).err(), Some(PoolError::InsufficientShares));
    assert_eq!(pool.remove_liquidity(&alice, 0).err(), Some(PoolError::ZeroPayout));
    assert_eq!((pool.get_reserve_0(), pool.get_reserve_1()), reserves);
    assert_eq!(pool.get_total_supply(), 0);
}

#[test]
fn dust_removal_is_refused() {
    let mut pool = funded_pool();
    let alice = id("alice.testnet");
    assert_eq!(pool.remove_liquidity(&alice, 1).err(), Some(PoolError::ZeroPayout));
    assert_eq!(pool.get_balance_of(&alice), to_yocto(100));
}

#[test]
fn reserve_callbacks() {
    let mut pool = new_pool();
    assert_eq!(pool.resolve_reserve_0(&json_amount(123)), Ok(123));
    assert_eq!(pool.get_reserve_0(), 123);
    assert_eq!(pool.resolve_reserve_1(&CallResult::Successful(b"\"77\"".to_vec())), Ok(77));
    assert_eq!(pool.get_reserve_1(), 77);
    // A failed query keeps the cached reserve.
    assert_eq!(pool.resolve_reserve_0(&CallResult::Failed), Ok(0));
    assert_eq!(pool.get_reserve_0(), 123);
    assert_eq!(
        pool.resolve_reserve_1(&CallResult::Successful(b"not json".to_vec())),
        Err(PoolError::ReserveUpdateFailed)
    );
    assert_eq!(pool.get_reserve_1(), 77);
    assert_eq!(pool.apply_reported_reserve(false, Reported::Amount(5)), Ok(5));
    assert_eq!(pool.get_reserve_1(), 5);
}

#[test]
fn pool_storage_keys() {
    assert_eq!(StorageKey::Shares.try_to_vec(), vec![0u8]);
    assert_eq!(StorageKey::ReceivedLiquidityAmount.try_to_vec(), vec![1u8]);
    assert_eq!(StorageKey::ReceivedSwap.try_to_vec(), vec![2u8]);
}
