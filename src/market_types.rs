use crate::account::AccountId;
use vstd::prelude::*;

verus! {

/// What an account has sent the pool for one token and one intent, and not yet claimed.
#[derive(Clone, Copy, Debug, PartialEq, Eq, Structural)]
pub struct LiquidityReceived {
    /// Set by the first notified transfer; claiming leaves it set.
    pub received: bool,
    pub amount: u128,
}

impl Default for LiquidityReceived {
    fn default() -> (r: Self)
        ensures
            r == (LiquidityReceived { received: false, amount: 0 }),
    {
        LiquidityReceived { received: false, amount: 0 }
    }
}

/// An account's staged entries for the pool's two tokens.
#[derive(Clone, Copy, Debug, PartialEq, Eq, Structural)]
pub struct StagedPair {
    pub token_0: LiquidityReceived,
    pub token_1: LiquidityReceived,
}

/// The entries of an account that has staged nothing yet.
pub open spec fn empty_pair() -> StagedPair {
    StagedPair {
        token_0: LiquidityReceived { received: false, amount: 0 },
        token_1: LiquidityReceived { received: false, amount: 0 },
    }
}

/// The entry of `p` for the token on side `first` (token 0) or not (token 1).
pub open spec fn slot(p: StagedPair, first: bool) -> LiquidityReceived {
    if first {
        p.token_0
    } else {
        p.token_1
    }
}

/// `p` with the entry for side `first` replaced by `e`.
pub open spec fn with_slot(p: StagedPair, first: bool, e: LiquidityReceived) -> StagedPair {
    if first {
        StagedPair { token_0: e, token_1: p.token_1 }
    } else {
        StagedPair { token_0: p.token_0, token_1: e }
    }
}

impl StagedPair {
    pub fn empty() -> (r: Self)
        ensures
            r == empty_pair(),
    {
        StagedPair { token_0: LiquidityReceived::default(), token_1: LiquidityReceived::default() }
    }

    pub fn get(&self, first: bool) -> (r: LiquidityReceived)
        ensures
            r == slot(*self, first),
    {
        if first {
            self.token_0
        } else {
            self.token_1
        }
    }

    pub fn with(&self, first: bool, e: LiquidityReceived) -> (r: StagedPair)
        ensures
            r == with_slot(*self, first, e),
    {
        if first {
            StagedPair { token_0: e, token_1: self.token_1 }
        } else {
            StagedPair { token_0: self.token_0, token_1: e }
        }
    }
}

/// A staged swap input: an amount of the token it came in.
#[derive(Debug)]
pub struct SwapReceived {
    pub amount: u128,
    pub token_in: AccountId,
}

} // verus!
