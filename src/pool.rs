use crate::account::AccountId;
use crate::account_map::{amount_in, AccountMap};
use crate::market_types::{empty_pair, slot, with_slot, LiquidityReceived, StagedPair};
use crate::promise::{read_reported, reported_of, CallResult, Reported};
use vstd::prelude::*;

verus! {

/// Why a pool action was refused; a refused action leaves the pool as it was.
#[derive(Clone, Copy, Debug, PartialEq, Eq, Structural)]
pub enum PoolError {
    /// A transfer came with a tag other than `ADD_LIQUIDITY` or `SWAP_TOKEN`.
    InvalidAction,
    /// The token is not one of the pool's two.
    InvalidToken,
    /// The staged amount would overflow.
    StagedOverflow,
    /// The deposit's ratio differs from the reserves' ratio.
    RatioMismatch,
    /// A reserve, or the pair of a reserve and a swap input, is below one whole token.
    EmptyReserve,
    /// The deposit would mint no shares.
    ZeroShares,
    /// The shares, or the share supply, would overflow.
    SharesOverflow,
    /// The account holds fewer shares than it asked to remove.
    InsufficientShares,
    /// One of the two payouts of a removal rounds to zero.
    ZeroPayout,
    /// Nothing is staged for the swap.
    ZeroSwapAmount,
    /// A reserve query answered with something other than an amount.
    ReserveUpdateFailed,
}

/// A cross-contract call that an action leaves for the host to make.
#[derive(Debug)]
pub enum PoolCall {
    /// `ft_transfer(receiver_id, amount)` on the ledger `token_id`, one yoctoNEAR attached.
    Transfer { token_id: AccountId, receiver_id: AccountId, amount: u128 },
    /// Ask token 0's ledger for the pool's balance, then call `resolve_reserve_0` with the answer.
    RefreshReserve0,
    /// Ask token 1's ledger for the pool's balance, then call `resolve_reserve_1` with the answer.
    RefreshReserve1,
}

/// An action's record and the calls it leaves for the host, in order.
#[derive(Debug)]
pub struct Applied<E> {
    pub event: E,
    pub calls: Vec<PoolCall>,
}

/// Keys of the pool's persistent collections.
#[derive(Clone, Copy, Debug, PartialEq, Eq, Structural)]
pub enum StorageKey {
    Shares,
    ReceivedLiquidityAmount,
    ReceivedSwap,
}

impl StorageKey {
    /// The key's storage prefix: its Borsh encoding, the variant's index as one byte.
    pub fn try_to_vec(&self) -> (r: Vec<u8>)
        ensures
            r@ == seq![match *self {
                StorageKey::Shares => 0u8,
                StorageKey::ReceivedLiquidityAmount => 1u8,
                StorageKey::ReceivedSwap => 2u8,
            }],
    {
        let b: u8 = match self {
            StorageKey::Shares => 0,
            StorageKey::ReceivedLiquidityAmount => 1,
            StorageKey::ReceivedSwap => 2,
        };
        vec![b]
    }
}

/// The staged entries of `k` in `m`; empty for an account that never staged.
pub open spec fn pair_in(m: Map<Seq<char>, StagedPair>, k: Seq<char>) -> StagedPair {
    if m.contains_key(k) {
        m[k]
    } else {
        empty_pair()
    }
}

/// `m` after `amount` more of side `first` arrived from `k`.
pub open spec fn staged_into(m: Map<Seq<char>, StagedPair>, k: Seq<char>, first: bool, amount: int) -> Map<
    Seq<char>,
    StagedPair,
> {
    let p = pair_in(m, k);
    m.insert(k, with_slot(p, first, LiquidityReceived { received: true, amount: (slot(p, first).amount + amount) as u128 }))
}

/// `m` after `k` claimed what it staged on side `first`: the amount is zeroed, the
/// entry kept.
pub open spec fn claimed_in(m: Map<Seq<char>, StagedPair>, k: Seq<char>, first: bool) -> Map<Seq<char>, StagedPair> {
    if m.contains_key(k) {
        m.insert(k, with_slot(m[k], first, LiquidityReceived { received: slot(m[k], first).received, amount: 0 }))
    } else {
        m
    }
}

/// The pool: two cached reserves, the LP-share ledger and the two staging areas.
#[derive(Debug)]
pub struct Contract {
    pub reserve_0: u128,
    pub reserve_1: u128,
    /// The number of LP shares in existence.
    pub total_supply: u128,
    pub token_0: AccountId,
    pub token_1: AccountId,
    /// LP shares held by each account.
    pub balance: AccountMap<u128>,
    /// Amounts sent with `ADD_LIQUIDITY`, by account and token.
    pub received_liquidity_amount: AccountMap<StagedPair>,
    /// Amounts sent with `SWAP_TOKEN`, by account and token.
    pub received_swap_amount: AccountMap<StagedPair>,
}

impl Contract {
    /// The pool's invariant: the shares held sum to the share supply.
    pub open spec fn wf(&self) -> bool {
        &&& self.balance.wf()
        &&& self.balance.total() == self.total_supply
        &&& self.received_liquidity_amount.wf()
        &&& self.received_swap_amount.wf()
    }

    /// Which side a token is on: `Some(true)` for token 0, `Some(false)` for token 1.
    pub open spec fn side_of(&self, token: Seq<char>) -> Option<bool> {
        if token == self.token_0@ {
            Some(true)
        } else if token == self.token_1@ {
            Some(false)
        } else {
            None
        }
    }

    /// The side that token 1 is looked up on (token 0's, where both are the same).
    pub open spec fn side_1(&self) -> bool {
        self.token_1@ == self.token_0@
    }

    pub open spec fn shares_of(&self, account: Seq<char>) -> u128 {
        amount_in(self.balance@, account)
    }

    /// What `account` has staged with `ADD_LIQUIDITY` in `token`.
    pub open spec fn staged_liquidity(&self, account: Seq<char>, token: Seq<char>) -> u128 {
        match self.side_of(token) {
            Some(first) => slot(pair_in(self.received_liquidity_amount@, account), first).amount,
            None => 0,
        }
    }

    /// What `account` has staged with `SWAP_TOKEN` in `token`.
    pub open spec fn staged_swap(&self, account: Seq<char>, token: Seq<char>) -> u128 {
        match self.side_of(token) {
            Some(first) => slot(pair_in(self.received_swap_amount@, account), first).amount,
            None => 0,
        }
    }

    /// A new pool for the pair (`token_0`, `token_1`): no reserves, no shares, nothing staged.
    pub fn init(owner_id: AccountId, token_0: AccountId, token_1: AccountId) -> (r: Self)
        ensures
            r.wf(),
            r.reserve_0 == 0,
            r.reserve_1 == 0,
            r.total_supply == 0,
            r.token_0 == token_0,
            r.token_1 == token_1,
            r.balance@ == Map::<Seq<char>, u128>::empty(),
            r.received_liquidity_amount@ == Map::<Seq<char>, StagedPair>::empty(),
            r.received_swap_amount@ == Map::<Seq<char>, StagedPair>::empty(),
    {
        Contract {
            reserve_0: 0,
            reserve_1: 0,
            total_supply: 0,
            token_0,
            token_1,
            balance: AccountMap::new_amounts(),
            received_liquidity_amount: AccountMap::new(),
            received_swap_amount: AccountMap::new(),
        }
    }

    /// The side `token` is on, as `side_of` says.
    pub fn side(&self, token: &AccountId) -> (r: Option<bool>)
        ensures
            r == self.side_of(token@),
    {
        if *token == self.token_0 {
            Some(true)
        } else if *token == self.token_1 {
            Some(false)
        } else {
            None
        }
    }

    pub fn get_reserve_0(&self) -> (r: u128)
        ensures
            r == self.reserve_0,
    {
        self.reserve_0
    }

    pub fn get_reserve_1(&self) -> (r: u128)
        ensures
            r == self.reserve_1,
    {
        self.reserve_1
    }

    pub fn get_token_0(&self) -> (r: AccountId)
        ensures
            r == self.token_0,
    {
        self.token_0.clone()
    }

    pub fn get_token_1(&self) -> (r: AccountId)
        ensures
            r == self.token_1,
    {
        self.token_1.clone()
    }

    pub fn get_total_supply(&self) -> (r: u128)
        ensures
            r == self.total_supply,
    {
        self.total_supply
    }

    pub fn get_balance_of(&self, account_id: &AccountId) -> (r: u128)
        requires
            self.wf(),
        ensures
            r == self.shares_of(account_id@),
    {
        self.balance.amount_of(account_id)
    }

    pub fn get_received_liquidity_amount(&self, account_id: &AccountId, token_id: &AccountId) -> (r: u128)
        requires
            self.wf(),
        ensures
            r == self.staged_liquidity(account_id@, token_id@),
    {
        match self.side(token_id) {
            Some(first) => match self.received_liquidity_amount.get(account_id) {
                Some(p) => p.get(first).amount,
                None => 0,
            },
            None => 0,
        }
    }

    pub fn get_received_swap_amount(&self, account_id: &AccountId, token_id: &AccountId) -> (r: u128)
        requires
            self.wf(),
        ensures
            r == self.staged_swap(account_id@, token_id@),
    {
        match self.side(token_id) {
            Some(first) => match self.received_swap_amount.get(account_id) {
                Some(p) => p.get(first).amount,
                None => 0,
            },
            None => 0,
        }
    }

    /// Creates `shares` for `sender_id`; refused when the supply would overflow.
    pub(crate) fn mint(&mut self, sender_id: &AccountId, shares: u128) -> (r: Result<(), PoolError>)
        requires
            old(self).wf(),
        ensures
            final(self).wf(),
            old(self).total_supply + shares <= u128::MAX ==> r is Ok && final(self).total_supply
                == old(self).total_supply + shares && final(self).balance@ == old(self).balance@.insert(
                sender_id@,
                (old(self).shares_of(sender_id@) + shares) as u128,
            ) && final(self).reserve_0 == old(self).reserve_0 && final(self).reserve_1
                == old(self).reserve_1 && final(self).token_0 == old(self).token_0
                && final(self).token_1 == old(self).token_1 && final(self).received_liquidity_amount
                == old(self).received_liquidity_amount && final(self).received_swap_amount
                == old(self).received_swap_amount,
            old(self).total_supply + shares > u128::MAX ==> r == Err::<(), PoolError>(
                PoolError::SharesOverflow,
            ) && *final(self) == *old(self),
    {
        if self.total_supply > u128::MAX - shares {
            return Err(PoolError::SharesOverflow);
        }
        let held = self.balance.amount_of(sender_id);
        proof {
            self.balance.lemma_amount_le_total(sender_id@);
        }
        self.balance.set_amount(sender_id, held + shares);
        self.total_supply = self.total_supply + shares;
        Ok(())
    }

    /// Destroys `shares` of `sender_id`'s; refused when it holds fewer.
    pub(crate) fn burn(&mut self, sender_id: &AccountId, shares: u128) -> (r: Result<(), PoolError>)
        requires
            old(self).wf(),
        ensures
            final(self).wf(),
            shares <= old(self).shares_of(sender_id@) ==> r is Ok && final(self).total_supply
                == old(self).total_supply - shares && final(self).balance@ == old(self).balance@.insert(
                sender_id@,
                (old(self).shares_of(sender_id@) - shares) as u128,
            ) && final(self).reserve_0 == old(self).reserve_0 && final(self).reserve_1
                == old(self).reserve_1 && final(self).token_0 == old(self).token_0
                && final(self).token_1 == old(self).token_1 && final(self).received_liquidity_amount
                == old(self).received_liquidity_amount && final(self).received_swap_amount
                == old(self).received_swap_amount,
            shares > old(self).shares_of(sender_id@) ==> r == Err::<(), PoolError>(
                PoolError::InsufficientShares,
            ) && *final(self) == *old(self),
    {
        let held = self.balance.amount_of(sender_id);
        if held < shares {
            return Err(PoolError::InsufficientShares);
        }
        proof {
            self.balance.lemma_amount_le_total(sender_id@);
        }
        self.balance.set_amount(sender_id, held - shares);
        self.total_supply = self.total_supply - shares;
        Ok(())
    }

    /// Takes a reserve query's answer for side `first`. An amount replaces the cached
    /// reserve and is returned. A failed query leaves the cached reserve as it was and
    /// returns 0: zeroing it would let one transient failure wreck the pool's prices.
    /// An answer that is no amount is refused.
    pub fn apply_reported_reserve(&mut self, first: bool, reported: Reported) -> (r: Result<u128, PoolError>)
        ensures
            match reported {
                Reported::Amount(v) => r == Ok::<u128, PoolError>(v) && *final(self) == (if first {
                    Contract { reserve_0: v, ..*old(self) }
                } else {
                    Contract { reserve_1: v, ..*old(self) }
                }),
                Reported::Unreadable => r == Err::<u128, PoolError>(PoolError::ReserveUpdateFailed)
                    && *final(self) == *old(self),
                Reported::Failed => r == Ok::<u128, PoolError>(0) && *final(self) == *old(self),
            },
    {
        match reported {
            Reported::Amount(v) => {
                if first {
                    self.reserve_0 = v;
                } else {
                    self.reserve_1 = v;
                }
                Ok(v)
            },
            Reported::Unreadable => Err(PoolError::ReserveUpdateFailed),
            Reported::Failed => Ok(0),
        }
    }

    /// Callback of the token-0 reserve query.
    pub fn resolve_reserve_0(&mut self, result: &CallResult) -> (r: Result<u128, PoolError>)
        ensures
            match reported_of(*result) {
                Reported::Amount(v) => r == Ok::<u128, PoolError>(v) && *final(self) == (Contract {
                    reserve_0: v,
                    ..*old(self)
                }),
                Reported::Unreadable => r == Err::<u128, PoolError>(PoolError::ReserveUpdateFailed)
                    && *final(self) == *old(self),
                Reported::Failed => r == Ok::<u128, PoolError>(0) && *final(self) == *old(self),
            },
    {
        let reported = read_reported(result);
        self.apply_reported_reserve(true, reported)
    }

    /// Callback of the token-1 reserve query.
    pub fn resolve_reserve_1(&mut self, result: &CallResult) -> (r: Result<u128, PoolError>)
        ensures
            match reported_of(*result) {
                Reported::Amount(v) => r == Ok::<u128, PoolError>(v) && *final(self) == (Contract {
                    reserve_1: v,
                    ..*old(self)
                }),
                Reported::Unreadable => r == Err::<u128, PoolError>(PoolError::ReserveUpdateFailed)
                    && *final(self) == *old(self),
                Reported::Failed => r == Ok::<u128, PoolError>(0) && *final(self) == *old(self),
            },
    {
        let reported = read_reported(result);
        self.apply_reported_reserve(false, reported)
    }
}

} // verus!
