use crate::account::AccountId;
use crate::account_map::{amount_in, AccountMap};
use crate::metadata::{FungibleTokenMetadata, FungibleTokenMetadataProvider};
use vstd::prelude::*;

verus! {

/// Why a ledger call was refused; a refused call leaves the ledger as it was.
#[derive(Clone, Copy, Debug, PartialEq, Eq, Structural)]
pub enum TokenError {
    /// The call must come with exactly one yoctoNEAR attached.
    RequiresOneYocto,
    /// The sender holds less than the amount.
    InsufficientBalance,
    /// The deposit is below the storage cost of an account.
    InsufficientStorageDeposit,
}

/// Keys of the ledger's persistent collections.
#[derive(Clone, Copy, Debug, PartialEq, Eq, Structural)]
pub enum StorageKey {
    Accounts,
    Metadata,
}

impl StorageKey {
    /// The key's storage prefix: its Borsh encoding, the variant's index as one byte.
    pub fn try_to_vec(&self) -> (r: Vec<u8>)
        ensures
            r@ == seq![match *self {
                StorageKey::Accounts => 0u8,
                StorageKey::Metadata => 1u8,
            }],
    {
        let b: u8 = match self {
            StorageKey::Accounts => 0,
            StorageKey::Metadata => 1,
        };
        vec![b]
    }
}

/// `m` after `amount` moved from `from` to `to`: first the debit, then the credit.
pub open spec fn transferred(m: Map<Seq<char>, u128>, from: Seq<char>, to: Seq<char>, amount: int) -> Map<Seq<char>, u128> {
    let debited = m.insert(from, (amount_in(m, from) - amount) as u128);
    debited.insert(to, (amount_in(debited, to) + amount) as u128)
}

/// A fungible-token ledger: a balance per account and the total supply.
#[derive(Debug)]
pub struct Contract {
    /// Balances of the registered accounts, and of any account credited since.
    pub accounts: AccountMap<u128>,
    pub total_supply: u128,
    pub metadata: FungibleTokenMetadata,
    /// Storage that the longest account identifier takes, in bytes.
    pub bytes_for_longest_account_id: u64,
}

impl Contract {
    /// The ledger's invariant: the balances sum to the total supply.
    pub open spec fn wf(&self) -> bool {
        &&& self.accounts.wf()
        &&& self.accounts.total() == self.total_supply
    }

    pub open spec fn balance_of(&self, account: Seq<char>) -> u128 {
        amount_in(self.accounts@, account)
    }

    /// A ledger whose whole `total_supply` belongs to `owner_id`.
    /// `bytes_for_longest_account_id` is what the host measured an account's entry to take.
    pub fn init(
        owner_id: AccountId,
        total_supply: u128,
        metadata: FungibleTokenMetadata,
        bytes_for_longest_account_id: u64,
    ) -> (r: Self)
        ensures
            r.wf(),
            r.total_supply == total_supply,
            r.accounts@ == Map::<Seq<char>, u128>::empty().insert(owner_id@, total_supply),
            r.metadata == metadata,
            r.bytes_for_longest_account_id == bytes_for_longest_account_id,
    {
        let mut accounts = AccountMap::new_amounts();
        accounts.set_amount(&owner_id, total_supply);
        Contract { accounts, total_supply, metadata, bytes_for_longest_account_id }
    }

    /// `init` with the metadata of the MATRIX token (symbol MTR, 24 decimals).
    pub fn init_default(owner_id: AccountId, total_supply: u128, bytes_for_longest_account_id: u64) -> (r: Self)
        ensures
            r.wf(),
            r.total_supply == total_supply,
            r.accounts@ == Map::<Seq<char>, u128>::empty().insert(owner_id@, total_supply),
            r.metadata.name@ == "MATRIX"@,
            r.metadata.symbol@ == "MTR"@,
            r.metadata.decimal == 24,
            r.bytes_for_longest_account_id == bytes_for_longest_account_id,
    {
        let metadata = FungibleTokenMetadata { name: "MATRIX".to_owned(), symbol: "MTR".to_owned(), decimal: 24 };
        Self::init(owner_id, total_supply, metadata, bytes_for_longest_account_id)
    }
}

impl FungibleTokenMetadataProvider for Contract {
    fn set_metadata(&self) -> (r: FungibleTokenMetadata)
        ensures
            r == self.metadata,
    {
        self.metadata.clone()
    }
}

} // verus!
