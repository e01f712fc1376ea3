use crate::account::AccountId;
use crate::token::{Contract, TokenError};
use vstd::prelude::*;

verus! {

/// The price of one byte of storage, in yoctoNEAR.
pub open spec fn byte_cost() -> int {
    10_000_000_000_000_000_000
}

/// Relies on near_sdk::env::storage_byte_cost, which returns the constant
/// STORAGE_PRICE_PER_BYTE, 10^19 yoctoNEAR.
#[verifier::external_body]
fn storage_byte_cost() -> (r: u128)
    ensures
        r == byte_cost(),
{
    near_sdk::env::storage_byte_cost()
}

/// What an account has paid for storage, and how much of it is free.
#[derive(Debug, Clone, Copy, PartialEq, Eq, Structural)]
pub struct StorageBalance {
    pub total: u128,
    pub available: u128,
}

/// The least and the most an account's storage can cost.
#[derive(Debug, Clone, Copy, PartialEq, Eq, Structural)]
pub struct StorageBalanceBounds {
    pub min: u128,
    pub max: Option<u128>,
}

/// The outcome of a storage deposit: the account's storage balance, and the part of
/// the deposit that the host is to send back to the caller.
#[derive(Debug, Clone, Copy, PartialEq, Eq, Structural)]
pub struct StorageDeposit {
    pub balance: StorageBalance,
    pub refund: u128,
}

impl Contract {
    /// The cost of an account's storage: the longest identifier's bytes at the byte price.
    pub open spec fn storage_cost(&self) -> int {
        self.bytes_for_longest_account_id * byte_cost()
    }

    /// The storage cost is the same for every account: the minimum is the maximum.
    pub fn storage_balance_bounds(&self) -> (r: StorageBalanceBounds)
        ensures
            r.min == self.storage_cost(),
            r.max == Some(r.min),
    {
        let cost = storage_byte_cost();
        assert(self.bytes_for_longest_account_id * byte_cost() <= u128::MAX) by (nonlinear_arith)
            requires
                self.bytes_for_longest_account_id <= u64::MAX,
        ;
        let min = (self.bytes_for_longest_account_id as u128) * cost;
        StorageBalanceBounds { min, max: Some(min) }
    }

    /// Registers `account_id`, or the caller `predecessor_id` when none is named, against
    /// the `attached_deposit`. An account already registered gets the whole deposit
    /// back; a new one pays the storage cost and gets the rest back. A deposit under
    /// the cost is refused.
    pub fn storage_deposit(
        &mut self,
        predecessor_id: &AccountId,
        account_id: Option<AccountId>,
        attached_deposit: u128,
    ) -> (r: Result<StorageDeposit, TokenError>)
        requires
            old(self).wf(),
        ensures
            final(self).wf(),
            ({
                let who = match account_id {
                    Some(a) => a@,
                    None => predecessor_id@,
                };
                let balance = StorageBalance { total: old(self).storage_cost() as u128, available: 0 };
                if old(self).accounts@.contains_key(who) {
                    r == Ok::<StorageDeposit, TokenError>(StorageDeposit { balance, refund: attached_deposit })
                        && *final(self) == *old(self)
                } else if attached_deposit < old(self).storage_cost() {
                    r == Err::<StorageDeposit, TokenError>(TokenError::InsufficientStorageDeposit) && *final(self)
                        == *old(self)
                } else {
                    r == Ok::<StorageDeposit, TokenError>(
                        StorageDeposit { balance, refund: (attached_deposit - old(self).storage_cost()) as u128 },
                    ) && final(self).accounts@ == old(self).accounts@.insert(who, 0)
                        && final(self).total_supply == old(self).total_supply && final(self).metadata
                        == old(self).metadata && final(self).bytes_for_longest_account_id
                        == old(self).bytes_for_longest_account_id
                }
            }),
    {
        let who = match account_id {
            Some(a) => a,
            None => predecessor_id.clone(),
        };
        let min = self.storage_balance_bounds().min;
        let balance = StorageBalance { total: min, available: 0 };
        if self.accounts.contains_key(&who) {
            return Ok(StorageDeposit { balance, refund: attached_deposit });
        }
        if attached_deposit < min {
            return Err(TokenError::InsufficientStorageDeposit);
        }
        self.accounts.set_amount(&who, 0);
        Ok(StorageDeposit { balance, refund: attached_deposit - min })
    }

    /// The storage balance of a registered account; `None` for any other.
    pub fn storage_balance_of(&self, account_id: &AccountId) -> (r: Option<StorageBalance>)
        requires
            self.wf(),
        ensures
            r == (if self.accounts@.contains_key(account_id@) {
                Some(StorageBalance { total: self.storage_cost() as u128, available: 0 })
            } else {
                None
            }),
    {
        if self.accounts.contains_key(account_id) {
            Some(StorageBalance { total: self.storage_balance_bounds().min, available: 0 })
        } else {
            None
        }
    }
}

} // verus!
