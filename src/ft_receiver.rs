use crate::account::AccountId;
use crate::market_types::slot;
use crate::market_writer::stage_amount;
use crate::pool::{pair_in, staged_into, Contract, PoolError};
use vstd::prelude::*;

verus! {

/// The tag of a transfer meant as liquidity.
pub open spec fn add_liquidity_tag() -> Seq<char> {
    "ADD_LIQUIDITY"@
}

/// The tag of a transfer meant as a swap input.
pub open spec fn swap_token_tag() -> Seq<char> {
    "SWAP_TOKEN"@
}

impl Contract {
    /// What `ft_on_transfer` does: `Ok(true)` stages liquidity, `Ok(false)` a swap
    /// input, on the side of `token`; or the reason it is refused.
    pub open spec fn on_transfer_result(&self, token: Seq<char>, sender: Seq<char>, amount: int, msg: Seq<char>) -> Result<
        bool,
        PoolError,
    > {
        if msg != add_liquidity_tag() && msg != swap_token_tag() {
            Err(PoolError::InvalidAction)
        } else {
            match self.side_of(token) {
                None => Err(PoolError::InvalidToken),
                Some(first) => {
                    let m = if msg == add_liquidity_tag() {
                        self.received_liquidity_amount@
                    } else {
                        self.received_swap_amount@
                    };
                    if slot(pair_in(m, sender), first).amount + amount > u128::MAX {
                        Err(PoolError::StagedOverflow)
                    } else {
                        Ok(msg == add_liquidity_tag())
                    }
                },
            }
        }
    }

    /// Called by the ledger `token_id` after it credited the pool with `amount` from
    /// `sender_id`: adds the amount to what `sender_id` has staged in that token, as
    /// liquidity or as swap input by the tag `msg`. Reports the whole amount as used.
    pub fn ft_on_transfer(
        &mut self,
        token_id: &AccountId,
        sender_id: &AccountId,
        amount: u128,
        msg: &String,
    ) -> (r: Result<u128, PoolError>)
        requires
            old(self).wf(),
        ensures
            final(self).wf(),
            match old(self).on_transfer_result(token_id@, sender_id@, amount as int, msg@) {
                Ok(liquidity) => r == Ok::<u128, PoolError>(0) && (if liquidity {
                    final(self).received_liquidity_amount@ == staged_into(
                        old(self).received_liquidity_amount@,
                        sender_id@,
                        old(self).side_of(token_id@) == Some(true),
                        amount as int,
                    ) && final(self).received_swap_amount == old(self).received_swap_amount
                } else {
                    final(self).received_swap_amount@ == staged_into(
                        old(self).received_swap_amount@,
                        sender_id@,
                        old(self).side_of(token_id@) == Some(true),
                        amount as int,
                    ) && final(self).received_liquidity_amount == old(self).received_liquidity_amount
                }) && final(self).balance == old(self).balance && final(self).total_supply
                    == old(self).total_supply && final(self).reserve_0 == old(self).reserve_0
                    && final(self).reserve_1 == old(self).reserve_1 && final(self).token_0
                    == old(self).token_0 && final(self).token_1 == old(self).token_1,
                Err(e) => r == Err::<u128, PoolError>(e) && *final(self) == *old(self),
            },
    {
        let add_tag = "ADD_LIQUIDITY".to_owned();
        let swap_tag = "SWAP_TOKEN".to_owned();
        let is_liquidity = *msg == add_tag;
        if !is_liquidity && !(*msg == swap_tag) {
            return Err(PoolError::InvalidAction);
        }
        let first = match self.side(token_id) {
            Some(f) => f,
            None => return Err(PoolError::InvalidToken),
        };
        if is_liquidity {
            self.process_received_liquidity(first, sender_id, amount)
        } else {
            self.process_swap(first, sender_id, amount)
        }
    }

    /// Stages `amount` of side `first` from `sender_id` as liquidity.
    fn process_received_liquidity(&mut self, first: bool, sender_id: &AccountId, amount: u128) -> (r: Result<
        u128,
        PoolError,
    >)
        requires
            old(self).wf(),
        ensures
            final(self).wf(),
            slot(pair_in(old(self).received_liquidity_amount@, sender_id@), first).amount + amount <= u128::MAX
                ==> r == Ok::<u128, PoolError>(0) && *final(self) == (Contract {
                received_liquidity_amount: final(self).received_liquidity_amount,
                ..*old(self)
            }) && final(self).received_liquidity_amount@ == staged_into(
                old(self).received_liquidity_amount@,
                sender_id@,
                first,
                amount as int,
            ),
            slot(pair_in(old(self).received_liquidity_amount@, sender_id@), first).amount + amount > u128::MAX
                ==> r == Err::<u128, PoolError>(PoolError::StagedOverflow) && *final(self) == *old(self),
    {
        match stage_amount(&mut self.received_liquidity_amount, sender_id, first, amount) {
            Ok(()) => Ok(0),
            Err(e) => Err(e),
        }
    }

    /// Stages `amount` of side `first` from `sender_id` as swap input.
    fn process_swap(&mut self, first: bool, sender_id: &AccountId, amount: u128) -> (r: Result<u128, PoolError>)
        requires
            old(self).wf(),
        ensures
            final(self).wf(),
            slot(pair_in(old(self).received_swap_amount@, sender_id@), first).amount + amount <= u128::MAX
                ==> r == Ok::<u128, PoolError>(0) && *final(self) == (Contract {
                received_swap_amount: final(self).received_swap_amount,
                ..*old(self)
            }) && final(self).received_swap_amount@ == staged_into(
                old(self).received_swap_amount@,
                sender_id@,
                first,
                amount as int,
            ),
            slot(pair_in(old(self).received_swap_amount@, sender_id@), first).amount + amount > u128::MAX
                ==> r == Err::<u128, PoolError>(PoolError::StagedOverflow) && *final(self) == *old(self),
    {
        match stage_amount(&mut self.received_swap_amount, sender_id, first, amount) {
            Ok(()) => Ok(0),
            Err(e) => Err(e),
        }
    }
}

} // verus!
