use amm::account::AccountId;
use amm::metadata::{FungibleTokenMetadata, FungibleTokenMetadataProvider};
use amm::promise::{CallResult, Reported};
use amm::storage::StorageBalance;
use amm::token::{Contract, StorageKey, TokenError};

fn id(s: &str) -> AccountId {
    AccountId::new(s).unwrap()
}

fn ledger_with(owner: &str, supply: u128) -> Contract {
    Contract::init_default(id(owner), supply, 125)
}

#[test]
fn account_ids_follow_the_rule() {
    assert!(AccountId::new("alice.near").is_some());
    assert!(AccountId::new("a-b_c.d0").is_some());
    assert_eq!(AccountId::new("token_1.testnet").unwrap().as_str(), "token_1.testnet");
    assert!(AccountId::new("a").is_none());
    assert!(AccountId::new("Alice.near").is_none());
    assert!(AccountId::new("a..b").is_none());
    assert!(AccountId::new(".ab").is_none());
    assert!(AccountId::new("ab-").is_none());
    assert!(AccountId::new("").is_none());
    assert!(AccountId::new(&"a".repeat(65)).is_none());
    assert!(AccountId::new(&"a".repeat(64)).is_some());
}

#[test]
fn init_gives_supply_to_owner() {
    let ledger = ledger_with("owner.testnet", 1000);
    assert_eq!(ledger.ft_total_supply(), 1000);
    assert_eq!(ledger.ft_balance_of(&id("owner.testnet")), 1000);
    assert_eq!(ledger.ft_balance_of(&id("nobody.testnet")), 0);
    let meta = ledger.set_metadata();
    assert_eq!(meta.name, "MATRIX");
    assert_eq!(meta.symbol, "MTR");
    assert_eq!(meta.decimal, 24);
    let custom = Contract::init(
        id("owner.testnet"),
        5,
        FungibleTokenMetadata { name: "X".to_string(), symbol: "XX".to_string(), decimal: 6 },
        0,
    );
    assert_eq!(custom.set_metadata().decimal, 6);
}

#[test]
fn transfer_moves_balance() {
    let mut ledger = ledger_with("owner.testnet", 1000);
    let owner = id("owner.testnet");
    let alice = id("alice.testnet");
    assert_eq!(ledger.ft_transfer(&owner, &alice, 300, 1), Ok(()));
    assert_eq!(ledger.ft_balance_of(&owner), 700);
    assert_eq!(ledger.ft_balance_of(&alice), 300);
    assert_eq!(ledger.ft_transfer(&alice, &alice, 300, 1), Ok(()));
    assert_eq!(ledger.ft_balance_of(&alice), 300);
    assert_eq!(ledger.ft_total_supply(), 1000);
}

#[test]
fn transfer_errors() {
    let mut ledger = ledger_with("owner.testnet", 1000);
    let owner = id("owner.testnet");
    let alice = id("alice.testnet");
    assert_eq!(ledger.ft_transfer(&owner, &alice, 10, 0), Err(TokenError::RequiresOneYocto));
    assert_eq!(ledger.ft_transfer(&owner, &alice, 10, 2), Err(TokenError::RequiresOneYocto));
    assert_eq!(ledger.ft_transfer(&owner, &alice, 1001, 1), Err(TokenError::InsufficientBalance));
    assert_eq!(ledger.ft_balance_of(&owner), 1000);
    assert_eq!(ledger.ft_balance_of(&alice), 0);
    assert_eq!(
        ledger.ft_transfer_call(&alice, &owner, 1, "SWAP_TOKEN".to_string(), 1).err(),
        Some(TokenError::InsufficientBalance)
    );
}

#[test]
fn transfer_call_credits_before_notifying() {
    let mut ledger = ledger_with("owner.testnet", 1000);
    let owner = id("owner.testnet");
    let pool = id("pool.testnet");
    let call = ledger.ft_transfer_call(&owner, &pool, 100, "ADD_LIQUIDITY".to_string(), 1).unwrap();
    assert_eq!(call.sender_id, owner);
    assert_eq!(call.receiver_id, pool);
    assert_eq!(call.amount, 100);
    assert_eq!(call.msg, "ADD_LIQUIDITY");
    assert_eq!(ledger.ft_balance_of(&pool), 100);
    assert_eq!(ledger.ft_balance_of(&owner), 900);
}

/// Sends 100 from owner to the receiver, which then forwards `spent` elsewhere.
fn after_notified_transfer(spent: u128) -> Contract {
    let mut ledger = ledger_with("owner.testnet", 1000);
    let owner = id("owner.testnet");
    let receiver = id("receiver.testnet");
    ledger.ft_transfer_call(&owner, &receiver, 100, "x".to_string(), 1).unwrap();
    if spent > 0 {
        ledger.ft_transfer(&receiver, &id("elsewhere.testnet"), spent, 1).unwrap();
    }
    ledger
}

#[test]
fn resolve_refund_is_capped_by_receiver_balance() {
    let mut ledger = after_notified_transfer(70);
    let owner = id("owner.testnet");
    let receiver = id("receiver.testnet");
    let used = ledger.ft_resolve_transfer(&owner, &receiver, 100, &CallResult::Successful(b"\"40\"".to_vec()));
    assert_eq!(used, 70);
    assert_eq!(ledger.ft_balance_of(&receiver), 0);
    assert_eq!(ledger.ft_balance_of(&owner), 930);
    assert_eq!(ledger.ft_total_supply(), 1000);
}

#[test]
fn resolve_without_receiver_balance_refunds_nothing() {
    let mut ledger = after_notified_transfer(100);
    let owner = id("owner.testnet");
    let receiver = id("receiver.testnet");
    let used = ledger.resolve_reported(&owner, &receiver, 100, Reported::Amount(40));
    assert_eq!(used, 100);
    assert_eq!(ledger.ft_balance_of(&owner), 900);
}

#[test]
fn resolve_partial_unused() {
    let mut ledger = after_notified_transfer(0);
    let owner = id("owner.testnet");
    let receiver = id("receiver.testnet");
    let used = ledger.ft_resolve_transfer(&owner, &receiver, 100, &CallResult::Successful(b"\"40\"".to_vec()));
    assert_eq!(used, 60);
    assert_eq!(ledger.ft_balance_of(&receiver), 60);
    assert_eq!(ledger.ft_balance_of(&owner), 940);
}

#[test]
fn resolve_fully_used() {
    let mut ledger = after_notified_transfer(0);
    let owner = id("owner.testnet");
    let receiver = id("receiver.testnet");
    let used = ledger.ft_resolve_transfer(&owner, &receiver, 100, &CallResult::Successful(b"\"0\"".to_vec()));
    assert_eq!(used, 100);
    assert_eq!(ledger.ft_balance_of(&receiver), 100);
}

#[test]
fn resolve_failed_or_unreadable_counts_all_unused() {
    let owner = id("owner.testnet");
    let receiver = id("receiver.testnet");
    let mut failed = after_notified_transfer(0);
    assert_eq!(failed.ft_resolve_transfer(&owner, &receiver, 100, &CallResult::Failed), 0);
    assert_eq!(failed.ft_balance_of(&owner), 1000);
    let mut garbled = after_notified_transfer(0);
    assert_eq!(garbled.ft_resolve_transfer(&owner, &receiver, 100, &CallResult::Successful(b"40".to_vec())), 0);
    assert_eq!(garbled.ft_balance_of(&receiver), 0);
    // A receiver claiming more unused than it received is held to the amount.
    let mut greedy = after_notified_transfer(0);
    assert_eq!(greedy.ft_resolve_transfer(&owner, &receiver, 100, &CallResult::Successful(b"\"500\"".to_vec())), 0);
    assert_eq!(greedy.ft_balance_of(&owner), 1000);
    assert_eq!(greedy.ft_total_supply(), 1000);
}

#[test]
fn storage_registration() {
    let mut ledger = ledger_with("owner.testnet", 1000);
    let cost: u128 = 125 * 10_000_000_000_000_000_000;
    let bounds = ledger.storage_balance_bounds();
    assert_eq!(bounds.min, cost);
    assert_eq!(bounds.max, Some(cost));
    let alice = id("alice.testnet");
    assert_eq!(ledger.storage_balance_of(&alice), None);
    assert_eq!(
        ledger.storage_deposit(&alice, None, cost - 1).err(),
        Some(TokenError::InsufficientStorageDeposit)
    );
    let done = ledger.storage_deposit(&alice, None, cost + 5).unwrap();
    assert_eq!(done.refund, 5);
    assert_eq!(done.balance, StorageBalance { total: cost, available: 0 });
    assert_eq!(ledger.storage_balance_of(&alice), Some(StorageBalance { total: cost, available: 0 }));
    let again = ledger.storage_deposit(&id("bob.testnet"), Some(alice.clone()), 9).unwrap();
    assert_eq!(again.refund, 9);
    assert_eq!(ledger.ft_balance_of(&alice), 0);
}

#[test]
fn ledger_storage_keys() {
    assert_eq!(StorageKey::Accounts.try_to_vec(), vec![0u8]);
    assert_eq!(StorageKey::Metadata.try_to_vec(), vec![1u8]);
}
