use crate::account::AccountId;
use vstd::prelude::*;

verus! {

/// Record of shares minted against a claimed deposit.
#[derive(Debug)]
pub struct LiquidityAdded {
    pub account_id: AccountId,
    pub shares: u128,
    pub amount_0: u128,
    pub amount_1: u128,
}

/// Record of shares burned and the amounts paid out for them.
#[derive(Debug)]
pub struct LiquidityRemoved {
    pub account_id: AccountId,
    pub shares: u128,
    pub amount_0: u128,
    pub amount_1: u128,
}

/// Record of tokens staged with the pool.
#[derive(Debug)]
pub struct LiquidityReceived {
    pub account_id: AccountId,
    pub token_id: AccountId,
    pub amount: u128,
}

/// Record of a swap: the token that came in and the amount sent out.
#[derive(Debug)]
pub struct TokensSwaped {
    pub account_id: AccountId,
    pub token_in: AccountId,
    pub amount_out: u128,
}

} // verus!
