use crate::account::AccountId;
use crate::promise::{read_reported, reported_of, CallResult, Reported};
use crate::token::{transferred, Contract, TokenError};
use vstd::prelude::*;

verus! {

/// The calls a `ft_transfer_call` leaves for the host: `ft_on_transfer(sender_id,
/// amount, msg)` on `receiver_id`, and once that has settled, this ledger's
/// `ft_resolve_transfer(sender_id, receiver_id, amount)` with its result.
#[derive(Debug)]
pub struct TransferCall {
    pub sender_id: AccountId,
    pub receiver_id: AccountId,
    pub amount: u128,
    pub msg: String,
}

/// The part of a notified transfer that the receiver did not use: what it reported,
/// at most the amount; the whole amount where its answer failed or was no amount.
pub open spec fn unused_of(amount: int, reported: Reported) -> int {
    match reported {
        Reported::Amount(v) => if v < amount {
            v as int
        } else {
            amount
        },
        _ => amount,
    }
}

/// What goes back to the sender: the unused part, at most what the receiver still
/// holds; nothing where the receiver holds nothing.
pub open spec fn refund_of(amount: int, reported: Reported, receiver_balance: int) -> int {
    let unused = unused_of(amount, reported);
    if unused > 0 && receiver_balance > 0 {
        if receiver_balance < unused {
            receiver_balance
        } else {
            unused
        }
    } else {
        0
    }
}

impl Contract {
    /// Moves `amount` from `sender_id` to `receiver_id`; refused when the sender holds less.
    pub fn internal_transfer(&mut self, sender_id: &AccountId, receiver_id: &AccountId, amount: u128) -> (r: Result<
        (),
        TokenError,
    >)
        requires
            old(self).wf(),
        ensures
            final(self).wf(),
            amount <= old(self).balance_of(sender_id@) ==> r is Ok && final(self).accounts@ == transferred(
                old(self).accounts@,
                sender_id@,
                receiver_id@,
                amount as int,
            ) && final(self).total_supply == old(self).total_supply && final(self).metadata
                == old(self).metadata && final(self).bytes_for_longest_account_id
                == old(self).bytes_for_longest_account_id,
            amount > old(self).balance_of(sender_id@) ==> r == Err::<(), TokenError>(
                TokenError::InsufficientBalance,
            ) && *final(self) == *old(self),
    {
        let held = self.accounts.amount_of(sender_id);
        if held < amount {
            return Err(TokenError::InsufficientBalance);
        }
        proof {
            self.accounts.lemma_amount_le_total(sender_id@);
        }
        self.accounts.set_amount(sender_id, held - amount);
        let credited = self.accounts.amount_of(receiver_id);
        proof {
            self.accounts.lemma_amount_le_total(receiver_id@);
        }
        self.accounts.set_amount(receiver_id, credited + amount);
        Ok(())
    }

    /// `ft_transfer`: moves `amount` from the caller `sender_id` to `receiver_id`. The
    /// call must carry exactly one yoctoNEAR, as proof that a full-access key signed it.
    pub fn ft_transfer(
        &mut self,
        sender_id: &AccountId,
        receiver_id: &AccountId,
        amount: u128,
        attached_deposit: u128,
    ) -> (r: Result<(), TokenError>)
        requires
            old(self).wf(),
        ensures
            final(self).wf(),
            attached_deposit != 1 ==> r == Err::<(), TokenError>(TokenError::RequiresOneYocto) && *final(self)
                == *old(self),
            attached_deposit == 1 && amount <= old(self).balance_of(sender_id@) ==> r is Ok
                && final(self).accounts@ == transferred(old(self).accounts@, sender_id@, receiver_id@, amount as int)
                && final(self).total_supply == old(self).total_supply && final(self).metadata
                == old(self).metadata && final(self).bytes_for_longest_account_id
                == old(self).bytes_for_longest_account_id,
            attached_deposit == 1 && amount > old(self).balance_of(sender_id@) ==> r == Err::<(), TokenError>(
                TokenError::InsufficientBalance,
            ) && *final(self) == *old(self),
    {
        if attached_deposit != 1 {
            return Err(TokenError::RequiresOneYocto);
        }
        self.internal_transfer(sender_id, receiver_id, amount)
    }

    /// `ft_transfer_call`: credits `receiver_id` at once, before it has acknowledged
    /// anything, and returns the notification and resolution calls for the host.
    pub fn ft_transfer_call(
        &mut self,
        sender_id: &AccountId,
        receiver_id: &AccountId,
        amount: u128,
        msg: String,
        attached_deposit: u128,
    ) -> (r: Result<TransferCall, TokenError>)
        requires
            old(self).wf(),
        ensures
            final(self).wf(),
            attached_deposit != 1 ==> r is Err && r->Err_0 == TokenError::RequiresOneYocto && *final(self)
                == *old(self),
            attached_deposit == 1 && amount <= old(self).balance_of(sender_id@) ==> r is Ok && r->Ok_0 == (
            TransferCall { sender_id: *sender_id, receiver_id: *receiver_id, amount, msg })
                && final(self).accounts@ == transferred(old(self).accounts@, sender_id@, receiver_id@, amount as int)
                && final(self).total_supply == old(self).total_supply && final(self).metadata
                == old(self).metadata && final(self).bytes_for_longest_account_id
                == old(self).bytes_for_longest_account_id,
            attached_deposit == 1 && amount > old(self).balance_of(sender_id@) ==> r is Err && r->Err_0
                == TokenError::InsufficientBalance && *final(self) == *old(self),
    {
        if attached_deposit != 1 {
            return Err(TokenError::RequiresOneYocto);
        }
        match self.internal_transfer(sender_id, receiver_id, amount) {
            Ok(()) => Ok(TransferCall { sender_id: sender_id.clone(), receiver_id: receiver_id.clone(), amount, msg }),
            Err(e) => Err(e),
        }
    }

    pub fn ft_total_supply(&self) -> (r: u128)
        ensures
            r == self.total_supply,
    {
        self.total_supply
    }

    pub fn ft_balance_of(&self, account_id: &AccountId) -> (r: u128)
        requires
            self.wf(),
        ensures
            r == self.balance_of(account_id@),
    {
        self.accounts.amount_of(account_id)
    }

    /// Settles a notified transfer of `amount` from `sender_id` to `receiver_id`, given
    /// what the receiver reported as unused: refunds `refund_of` from the receiver to
    /// the sender and returns the amount that counts as used.
    pub fn resolve_reported(
        &mut self,
        sender_id: &AccountId,
        receiver_id: &AccountId,
        amount: u128,
        reported: Reported,
    ) -> (r: u128)
        requires
            old(self).wf(),
        ensures
            final(self).wf(),
            r == amount - refund_of(amount as int, reported, old(self).balance_of(receiver_id@) as int),
            final(self).accounts@ == (if refund_of(
                amount as int,
                reported,
                old(self).balance_of(receiver_id@) as int,
            ) > 0 {
                transferred(
                    old(self).accounts@,
                    receiver_id@,
                    sender_id@,
                    refund_of(amount as int, reported, old(self).balance_of(receiver_id@) as int),
                )
            } else {
                old(self).accounts@
            }),
            final(self).total_supply == old(self).total_supply,
            final(self).metadata == old(self).metadata,
            final(self).bytes_for_longest_account_id == old(self).bytes_for_longest_account_id,
    {
        let unused = match reported {
            Reported::Amount(v) => if v < amount {
                v
            } else {
                amount
            },
            _ => amount,
        };
        if unused > 0 {
            let receiver_balance = self.accounts.amount_of(receiver_id);
            if receiver_balance > 0 {
                let refund = if receiver_balance < unused {
                    receiver_balance
                } else {
                    unused
                };
                let moved = self.internal_transfer(receiver_id, sender_id, refund);
                proof {
                    assert(moved is Ok);
                }
                return amount - refund;
            }
        }
        amount
    }

    /// Callback of a notified transfer: reads the receiver's answer and settles as
    /// `resolve_reported` does.
    pub fn ft_resolve_transfer(
        &mut self,
        sender_id: &AccountId,
        receiver_id: &AccountId,
        amount: u128,
        result: &CallResult,
    ) -> (r: u128)
        requires
            old(self).wf(),
        ensures
            final(self).wf(),
            r == amount - refund_of(amount as int, reported_of(*result), old(self).balance_of(receiver_id@) as int),
            final(self).accounts@ == (if refund_of(
                amount as int,
                reported_of(*result),
                old(self).balance_of(receiver_id@) as int,
            ) > 0 {
                transferred(
                    old(self).accounts@,
                    receiver_id@,
                    sender_id@,
                    refund_of(amount as int, reported_of(*result), old(self).balance_of(receiver_id@) as int),
                )
            } else {
                old(self).accounts@
            }),
            final(self).total_supply == old(self).total_supply,
            final(self).metadata == old(self).metadata,
    {
        let reported = read_reported(result);
        self.resolve_reported(sender_id, receiver_id, amount, reported)
    }
}

} // verus!
