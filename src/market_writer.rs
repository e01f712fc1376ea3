use crate::account::AccountId;
use crate::account_map::AccountMap;
use crate::market_types::{slot, with_slot, LiquidityReceived, StagedPair};
use crate::pool::{claimed_in, pair_in, staged_into, PoolError};
use vstd::prelude::*;

verus! {

/// Adds `amount` to what `account_id` staged on side `first` in `staging`, marking it
/// received; refused, with nothing changed, when the sum would overflow.
pub(crate) fn stage_amount(
    staging: &mut AccountMap<StagedPair>,
    account_id: &AccountId,
    first: bool,
    amount: u128,
) -> (r: Result<(), PoolError>)
    requires
        old(staging).wf(),
    ensures
        final(staging).wf(),
        slot(pair_in(old(staging)@, account_id@), first).amount + amount <= u128::MAX ==> r is Ok
            && final(staging)@ == staged_into(old(staging)@, account_id@, first, amount as int),
        slot(pair_in(old(staging)@, account_id@), first).amount + amount > u128::MAX ==> r
            == Err::<(), PoolError>(PoolError::StagedOverflow) && *final(staging) == *old(staging),
{
    let pair = match staging.get(account_id) {
        Some(p) => p,
        None => StagedPair::empty(),
    };
    let current = pair.get(first);
    match current.amount.checked_add(amount) {
        Some(total) => {
            let entry = LiquidityReceived { received: true, amount: total };
            staging.insert(account_id, pair.with(first, entry));
            Ok(())
        },
        None => Err(PoolError::StagedOverflow),
    }
}

/// Zeroes what `account_id` staged on side `first` in `staging`, keeping its entry.
pub(crate) fn claim_amount(staging: &mut AccountMap<StagedPair>, account_id: &AccountId, first: bool)
    requires
        old(staging).wf(),
    ensures
        final(staging).wf(),
        final(staging)@ == claimed_in(old(staging)@, account_id@, first),
{
    if let Some(pair) = staging.get(account_id) {
        let current = pair.get(first);
        let entry = LiquidityReceived { received: current.received, amount: 0 };
        staging.insert(account_id, pair.with(first, entry));
    }
}

} // verus!
