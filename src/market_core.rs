use crate::account::AccountId;
use crate::events::{LiquidityAdded, LiquidityRemoved, TokensSwaped};
use crate::market_writer::claim_amount;
use crate::math::{floor_sqrt, isqrt, products_equal};
use crate::pool::{claimed_in, Applied, Contract, PoolCall, PoolError};
use crate::util::{dec, get_yocto, lemma_dec_bounds, to_dec, to_yocto, yocto};
use vstd::arithmetic::div_mod::{lemma_div_by_multiple, lemma_div_is_ordered};
use vstd::prelude::*;

verus! {

/// The largest whole-token count of a `u128` amount.
pub open spec fn max_dec() -> int {
    340_282_366_920_938
}

pub open spec fn min_of(a: int, b: int) -> int {
    if a <= b {
        a
    } else {
        b
    }
}

/// Shares for the first deposit: the root of the product of the whole-token amounts,
/// in smallest units.
pub open spec fn first_shares(a0: int, a1: int) -> int {
    yocto() * floor_sqrt(dec(a0) * dec(a1))
}

/// Shares for a later deposit: the smaller of the two proportional shares, counted in
/// whole tokens and given back in smallest units.
pub open spec fn proportional_shares(a0: int, a1: int, ts: int, r0: int, r1: int) -> int {
    yocto() * min_of(dec(a0) * dec(ts) / dec(r0), dec(a1) * dec(ts) / dec(r1))
}

/// What claiming the deposit (`a0`, `a1`) against reserves (`r0`, `r1`) and a share
/// supply `ts` gives: the shares minted, or the reason it is refused.
pub open spec fn add_liquidity_outcome(r0: int, r1: int, ts: int, a0: int, a1: int) -> Result<int, PoolError> {
    if (r0 > 0 || r1 > 0) && r0 * a1 != r1 * a0 {
        Err(PoolError::RatioMismatch)
    } else if ts != 0 && (dec(r0) == 0 || dec(r1) == 0) {
        Err(PoolError::EmptyReserve)
    } else {
        let s = if ts == 0 {
            first_shares(a0, a1)
        } else {
            proportional_shares(a0, a1, ts, r0, r1)
        };
        if s > u128::MAX {
            Err(PoolError::SharesOverflow)
        } else if s == 0 {
            Err(PoolError::ZeroShares)
        } else if ts + s > u128::MAX {
            Err(PoolError::SharesOverflow)
        } else {
            Ok(s)
        }
    }
}

/// The swap input after the 3% fee, rounded down.
pub open spec fn fee_adjusted(amount_in: int) -> int {
    amount_in * 97 / 100
}

/// The constant-product output, all in the same unit: `reserve_out * f / (reserve_in + f)`
/// for the fee-adjusted input `f`.
pub open spec fn constant_product_out(amount_in: int, reserve_in: int, reserve_out: int) -> int {
    reserve_out * fee_adjusted(amount_in) / (reserve_in + fee_adjusted(amount_in))
}

/// What swapping `amount_in` against (`reserve_in`, `reserve_out`) pays out, in smallest
/// units; the formula runs on whole-token counts.
pub open spec fn swap_outcome(amount_in: int, reserve_in: int, reserve_out: int) -> Result<int, PoolError> {
    if dec(reserve_in) + fee_adjusted(dec(amount_in)) == 0 {
        Err(PoolError::EmptyReserve)
    } else {
        Ok(yocto() * constant_product_out(dec(amount_in), dec(reserve_in), dec(reserve_out)))
    }
}

/// A removal's payout of one token, in smallest units: the shares' part of the
/// reserve, counted in whole tokens; nothing where the supply is under one token.
pub open spec fn payout(shares: int, reserve: int, ts: int) -> int {
    if dec(ts) == 0 {
        0
    } else {
        yocto() * (dec(shares) * dec(reserve) / dec(ts))
    }
}

/// `x * s / t` is at most `x` when `s <= t`.
pub proof fn lemma_scaled_le(x: int, s: int, t: int)
    requires
        0 <= x,
        0 <= s <= t,
        0 < t,
    ensures
        0 <= x * s / t <= x,
{
    assert(0 <= x * s <= x * t) by (nonlinear_arith)
        requires
            0 <= x,
            0 <= s <= t,
    ;
    lemma_div_is_ordered(x * s, x * t, t);
    lemma_div_by_multiple(x, t);
    lemma_div_is_ordered(0, x * s, t);
}

proof fn lemma_dec_product(a: u128, b: u128)
    ensures
        0 <= dec(a as int) * dec(b as int) <= u128::MAX,
{
    lemma_dec_bounds(a);
    lemma_dec_bounds(b);
    assert(0 <= dec(a as int) * dec(b as int) <= max_dec() * max_dec()) by (nonlinear_arith)
        requires
            0 <= dec(a as int) <= max_dec(),
            0 <= dec(b as int) <= max_dec(),
    ;
}

/// The input left after the 3% fee, `amount_in * 97 / 100`; `None` when the product
/// overflows.
pub fn amount_in_with_fee(amount_in: u128) -> (r: Option<u128>)
    ensures
        r == (if amount_in * 97 <= u128::MAX {
            Some(fee_adjusted(amount_in as int) as u128)
        } else {
            None
        }),
{
    match amount_in.checked_mul(97) {
        Some(p) => Some(p / 100),
        None => None,
    }
}

/// The constant-product output for a fee-adjusted input; `None` when a step overflows
/// or the denominator is zero.
pub fn swap_amount_out(amount_in: u128, reserve_in: u128, reserve_out: u128) -> (r: Option<u128>)
    ensures
        r == (if amount_in * 97 > u128::MAX || reserve_out * fee_adjusted(amount_in as int) > u128::MAX
            || reserve_in + fee_adjusted(amount_in as int) > u128::MAX || reserve_in + fee_adjusted(
            amount_in as int,
        ) == 0 {
            None
        } else {
            Some(constant_product_out(amount_in as int, reserve_in as int, reserve_out as int) as u128)
        }),
{
    let fee = match amount_in_with_fee(amount_in) {
        Some(f) => f,
        None => return None,
    };
    let num = match reserve_out.checked_mul(fee) {
        Some(n) => n,
        None => return None,
    };
    let den = match reserve_in.checked_add(fee) {
        Some(d) => d,
        None => return None,
    };
    if den == 0 {
        return None;
    }
    Some(num / den)
}

/// The shares that claiming (`amount_0`, `amount_1`) mints, as `add_liquidity_outcome` says.
pub fn liquidity_shares(reserve_0: u128, reserve_1: u128, total_supply: u128, amount_0: u128, amount_1: u128) -> (r:
    Result<u128, PoolError>)
    ensures
        r == (match add_liquidity_outcome(
            reserve_0 as int,
            reserve_1 as int,
            total_supply as int,
            amount_0 as int,
            amount_1 as int,
        ) {
            Ok(s) => Ok::<u128, PoolError>(s as u128),
            Err(e) => Err::<u128, PoolError>(e),
        }),
        r is Ok ==> add_liquidity_outcome(
            reserve_0 as int,
            reserve_1 as int,
            total_supply as int,
            amount_0 as int,
            amount_1 as int,
        ) == Ok::<int, PoolError>(r->Ok_0 as int),
{
    if (reserve_0 > 0 || reserve_1 > 0) && !products_equal(reserve_0, amount_1, reserve_1, amount_0) {
        return Err(PoolError::RatioMismatch);
    }
    let a0 = to_dec(amount_0);
    let a1 = to_dec(amount_1);
    let whole: u128 = if total_supply == 0 {
        proof {
            lemma_dec_product(amount_0, amount_1);
        }
        isqrt(a0 * a1)
    } else {
        let ts = to_dec(total_supply);
        let r0 = to_dec(reserve_0);
        let r1 = to_dec(reserve_1);
        if r0 == 0 || r1 == 0 {
            return Err(PoolError::EmptyReserve);
        }
        proof {
            lemma_dec_product(amount_0, total_supply);
            lemma_dec_product(amount_1, total_supply);
        }
        let s0 = a0 * ts / r0;
        let s1 = a1 * ts / r1;
        if s0 <= s1 {
            s0
        } else {
            s1
        }
    };
    let shares = match whole.checked_mul(get_yocto()) {
        Some(s) => s,
        None => return Err(PoolError::SharesOverflow),
    };
    if shares == 0 {
        return Err(PoolError::ZeroShares);
    }
    if total_supply > u128::MAX - shares {
        return Err(PoolError::SharesOverflow);
    }
    Ok(shares)
}

/// One payout of a removal, as `payout` says.
fn payout_of(shares: u128, reserve: u128, total_supply: u128) -> (r: u128)
    requires
        shares <= total_supply,
    ensures
        r == payout(shares as int, reserve as int, total_supply as int),
{
    let ts = to_dec(total_supply);
    if ts == 0 {
        return 0;
    }
    let s = to_dec(shares);
    let rv = to_dec(reserve);
    proof {
        lemma_dec_product(shares, reserve);
        lemma_dec_bounds(reserve);
        vstd::arithmetic::div_mod::lemma_div_is_ordered(shares as int, total_supply as int, yocto());
        lemma_scaled_le(rv as int, s as int, ts as int);
        assert(rv * s == s * rv) by (nonlinear_arith);
    }
    to_yocto(s * rv / ts)
}

impl Contract {
    /// What `add_liquidity` does for `sender`, decided from the state alone.
    pub open spec fn add_liquidity_result(&self, sender: Seq<char>) -> Result<int, PoolError> {
        add_liquidity_outcome(
            self.reserve_0 as int,
            self.reserve_1 as int,
            self.total_supply as int,
            self.staged_liquidity(sender, self.token_0@) as int,
            self.staged_liquidity(sender, self.token_1@) as int,
        )
    }

    /// What `remove_liquidity` does for `sender` and `shares`: the two payouts, or the
    /// reason it is refused.
    pub open spec fn remove_liquidity_result(&self, sender: Seq<char>, shares: int) -> Result<(int, int), PoolError> {
        if shares > self.shares_of(sender) {
            Err(PoolError::InsufficientShares)
        } else if payout(shares, self.reserve_0 as int, self.total_supply as int) == 0 || payout(
            shares,
            self.reserve_1 as int,
            self.total_supply as int,
        ) == 0 {
            Err(PoolError::ZeroPayout)
        } else {
            Ok(
                (
                    payout(shares, self.reserve_0 as int, self.total_supply as int),
                    payout(shares, self.reserve_1 as int, self.total_supply as int),
                ),
            )
        }
    }

    /// What `swap` does for `sender` and `token`: the amount paid out, or the reason
    /// it is refused.
    pub open spec fn swap_result(&self, sender: Seq<char>, token: Seq<char>) -> Result<int, PoolError> {
        match self.side_of(token) {
            None => Err(PoolError::InvalidToken),
            Some(first) => if self.staged_swap(sender, token) == 0 {
                Err(PoolError::ZeroSwapAmount)
            } else if first {
                swap_outcome(self.staged_swap(sender, token) as int, self.reserve_0 as int, self.reserve_1 as int)
            } else {
                swap_outcome(self.staged_swap(sender, token) as int, self.reserve_1 as int, self.reserve_0 as int)
            },
        }
    }

    /// Claims both of `sender_id`'s staged liquidity amounts and mints shares for them.
    /// A later deposit must keep the reserves' ratio exactly. On success the staged
    /// amounts are zero and both reserves are to be refreshed.
    pub fn add_liquidity(&mut self, sender_id: &AccountId) -> (r: Result<Applied<LiquidityAdded>, PoolError>)
        requires
            old(self).wf(),
        ensures
            final(self).wf(),
            match old(self).add_liquidity_result(sender_id@) {
                Ok(s) => r is Ok && r->Ok_0.event == (LiquidityAdded {
                    account_id: *sender_id,
                    shares: s as u128,
                    amount_0: old(self).staged_liquidity(sender_id@, old(self).token_0@),
                    amount_1: old(self).staged_liquidity(sender_id@, old(self).token_1@),
                }) && r->Ok_0.calls@ == seq![PoolCall::RefreshReserve0, PoolCall::RefreshReserve1]
                    && final(self).total_supply == old(self).total_supply + s && final(self).balance@
                    == old(self).balance@.insert(sender_id@, (old(self).shares_of(sender_id@) + s) as u128)
                    && final(self).received_liquidity_amount@ == claimed_in(
                    claimed_in(old(self).received_liquidity_amount@, sender_id@, true),
                    sender_id@,
                    old(self).side_1(),
                ) && final(self).received_swap_amount == old(self).received_swap_amount
                    && final(self).reserve_0 == old(self).reserve_0 && final(self).reserve_1
                    == old(self).reserve_1 && final(self).token_0 == old(self).token_0
                    && final(self).token_1 == old(self).token_1,
                Err(e) => r is Err && r->Err_0 == e && *final(self) == *old(self),
            },
    {
        let amount_0 = self.get_received_liquidity_amount(sender_id, &self.token_0);
        let amount_1 = self.get_received_liquidity_amount(sender_id, &self.token_1);
        let shares = match liquidity_shares(self.reserve_0, self.reserve_1, self.total_supply, amount_0, amount_1) {
            Ok(s) => s,
            Err(e) => return Err(e),
        };
        let minted = self.mint(sender_id, shares);
        proof {
            assert(minted is Ok);
        }
        let side_1 = self.token_1 == self.token_0;
        claim_amount(&mut self.received_liquidity_amount, sender_id, true);
        claim_amount(&mut self.received_liquidity_amount, sender_id, side_1);
        let event = LiquidityAdded { account_id: sender_id.clone(), shares, amount_0, amount_1 };
        Ok(Applied { event, calls: vec![PoolCall::RefreshReserve0, PoolCall::RefreshReserve1] })
    }

    /// Burns `shares` of `sender_id`'s and pays out the shares' part of both reserves,
    /// computed against the supply before the burn. Both reserves are then to be refreshed.
    pub fn remove_liquidity(&mut self, sender_id: &AccountId, shares: u128) -> (r: Result<
        Applied<LiquidityRemoved>,
        PoolError,
    >)
        requires
            old(self).wf(),
        ensures
            final(self).wf(),
            match old(self).remove_liquidity_result(sender_id@, shares as int) {
                Ok((p0, p1)) => r is Ok && r->Ok_0.event == (LiquidityRemoved {
                    account_id: *sender_id,
                    shares,
                    amount_0: p0 as u128,
                    amount_1: p1 as u128,
                }) && r->Ok_0.calls@ == seq![
                    PoolCall::Transfer { token_id: old(self).token_0, receiver_id: *sender_id, amount: p0 as u128 },
                    PoolCall::Transfer { token_id: old(self).token_1, receiver_id: *sender_id, amount: p1 as u128 },
                    PoolCall::RefreshReserve0,
                    PoolCall::RefreshReserve1,
                ] && final(self).total_supply == old(self).total_supply - shares && final(self).balance@
                    == old(self).balance@.insert(sender_id@, (old(self).shares_of(sender_id@) - shares) as u128)
                    && final(self).received_liquidity_amount == old(self).received_liquidity_amount
                    && final(self).received_swap_amount == old(self).received_swap_amount
                    && final(self).reserve_0 == old(self).reserve_0 && final(self).reserve_1
                    == old(self).reserve_1 && final(self).token_0 == old(self).token_0
                    && final(self).token_1 == old(self).token_1,
                Err(e) => r is Err && r->Err_0 == e && *final(self) == *old(self),
            },
    {
        let held = self.get_balance_of(sender_id);
        if shares > held {
            return Err(PoolError::InsufficientShares);
        }
        proof {
            self.balance.lemma_amount_le_total(sender_id@);
        }
        let amount_0 = payout_of(shares, self.reserve_0, self.total_supply);
        let amount_1 = payout_of(shares, self.reserve_1, self.total_supply);
        if amount_0 == 0 || amount_1 == 0 {
            return Err(PoolError::ZeroPayout);
        }
        let burned = self.burn(sender_id, shares);
        proof {
            assert(burned is Ok);
        }
        let calls = vec![
            PoolCall::Transfer { token_id: self.token_0.clone(), receiver_id: sender_id.clone(), amount: amount_0 },
            PoolCall::Transfer { token_id: self.token_1.clone(), receiver_id: sender_id.clone(), amount: amount_1 },
            PoolCall::RefreshReserve0,
            PoolCall::RefreshReserve1,
        ];
        let event = LiquidityRemoved { account_id: sender_id.clone(), shares, amount_0, amount_1 };
        Ok(Applied { event, calls })
    }

    /// Claims what `sender_id` staged for a swap in `token_id` and pays out the other
    /// token at the constant-product price after a 3% fee, using the cached reserves.
    /// Both reserves are then to be refreshed.
    pub fn swap(&mut self, sender_id: &AccountId, token_id: &AccountId) -> (r: Result<Applied<TokensSwaped>, PoolError>)
        requires
            old(self).wf(),
        ensures
            final(self).wf(),
            match old(self).swap_result(sender_id@, token_id@) {
                Ok(out) => r is Ok && r->Ok_0.event == (TokensSwaped {
                    account_id: *sender_id,
                    token_in: *token_id,
                    amount_out: out as u128,
                }) && r->Ok_0.calls@ == seq![
                    PoolCall::Transfer {
                        token_id: if old(self).side_of(token_id@) == Some(true) {
                            old(self).token_1
                        } else {
                            old(self).token_0
                        },
                        receiver_id: *sender_id,
                        amount: out as u128,
                    },
                    PoolCall::RefreshReserve0,
                    PoolCall::RefreshReserve1,
                ] && final(self).received_swap_amount@ == claimed_in(
                    old(self).received_swap_amount@,
                    sender_id@,
                    old(self).side_of(token_id@) == Some(true),
                ) && final(self).received_liquidity_amount == old(self).received_liquidity_amount
                    && final(self).balance == old(self).balance && final(self).total_supply
                    == old(self).total_supply && final(self).reserve_0 == old(self).reserve_0
                    && final(self).reserve_1 == old(self).reserve_1 && final(self).token_0
                    == old(self).token_0 && final(self).token_1 == old(self).token_1,
                Err(e) => r is Err && r->Err_0 == e && *final(self) == *old(self),
            },
    {
        let first = match self.side(token_id) {
            Some(f) => f,
            None => return Err(PoolError::InvalidToken),
        };
        let amount_in = self.get_received_swap_amount(sender_id, token_id);
        if amount_in == 0 {
            return Err(PoolError::ZeroSwapAmount);
        }
        let (reserve_in, reserve_out, token_out) = if first {
            (self.reserve_0, self.reserve_1, self.token_1.clone())
        } else {
            (self.reserve_1, self.reserve_0, self.token_0.clone())
        };
        let a = to_dec(amount_in);
        let rin = to_dec(reserve_in);
        let rout = to_dec(reserve_out);
        proof {
            lemma_dec_bounds(amount_in);
            lemma_dec_bounds(reserve_in);
            lemma_dec_bounds(reserve_out);
            let f = fee_adjusted(a as int);
            assert(0 <= f <= a);
            assert(0 <= rout * f <= max_dec() * max_dec()) by (nonlinear_arith)
                requires
                    0 <= rout <= max_dec(),
                    0 <= f <= max_dec(),
            ;
            if rin + f > 0 {
                lemma_scaled_le(rout as int, f, rin + f);
            }
        }
        let whole = match swap_amount_out(a, rin, rout) {
            Some(w) => w,
            None => return Err(PoolError::EmptyReserve),
        };
        let amount_out = to_yocto(whole);
        claim_amount(&mut self.received_swap_amount, sender_id, first);
        let calls = vec![
            PoolCall::Transfer { token_id: token_out, receiver_id: sender_id.clone(), amount: amount_out },
            PoolCall::RefreshReserve0,
            PoolCall::RefreshReserve1,
        ];
        let event = TokensSwaped { account_id: sender_id.clone(), token_in: token_id.clone(), amount_out };
        Ok(Applied { event, calls })
    }
}

} // verus!
