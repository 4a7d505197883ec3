//! Referral-earnings accounting.
//!
//! One record exists per referrer wallet; a trade routed through a referral
//! link credits the referrer's cut here. Earnings sit in the record's own
//! balance and are withdrawn by a claim, which must leave the record's
//! rent-exempt floor behind.

use vstd::prelude::*;

use crate::errors::{AdminError, MathError};
use crate::global::AccountId;

verus! {

/// Cumulative referral earnings of one referrer wallet.
#[derive(Clone, Copy, Debug, PartialEq, Eq, Structural)]
pub struct Referral {
    /// The referrer's wallet.
    pub referrer: AccountId,
    /// Cumulative base-currency units credited to this referrer.
    pub total_earned: u64,
    /// How many trades were routed through this referrer.
    pub trade_count: u64,
}

impl Referral {
    /// The record a registration creates: counters start at zero. Whether a
    /// record already exists for the wallet is enforced by the caller's
    /// storage layer, not re-validated here.
    pub fn register(referrer: AccountId) -> (r: Referral)
        ensures
            r.referrer == referrer,
            r.total_earned == 0,
            r.trade_count == 0,
    {
        Referral { referrer, total_earned: 0, trade_count: 0 }
    }

    /// Credits one trade's referral cut: adds `amount` to the cumulative
    /// earnings and counts the trade, both checked. On overflow nothing
    /// changes and the call fails with `Overflow`.
    pub fn credit(&mut self, amount: u64) -> (r: Result<(), MathError>)
        ensures
            old(self).total_earned + amount <= u64::MAX && old(self).trade_count + 1 <= u64::MAX
                ==> {
                    &&& r == Ok::<(), MathError>(())
                    &&& final(self).referrer == old(self).referrer
                    &&& final(self).total_earned == old(self).total_earned + amount
                    &&& final(self).trade_count == old(self).trade_count + 1
                },
            old(self).total_earned + amount > u64::MAX || old(self).trade_count + 1 > u64::MAX
                ==> r == Err::<(), MathError>(MathError::Overflow) && *final(self) == *old(self),
    {
        let new_earned = match self.total_earned.checked_add(amount) {
            Some(e) => e,
            None => {
                return Err(MathError::Overflow);
            },
        };
        let new_count = match self.trade_count.checked_add(1) {
            Some(c) => c,
            None => {
                return Err(MathError::Overflow);
            },
        };
        self.total_earned = new_earned;
        self.trade_count = new_count;
        Ok(())
    }
}

/// The amount a claim may withdraw from a record whose balance is
/// `balance` and whose rent-exempt floor is `rent_floor`: everything above
/// the floor. Fails with `NotEnoughLamports` exactly when the balance is
/// below the floor; a balance exactly at the floor yields `Ok(0)`, so the
/// claim succeeds and moves nothing. Claiming never touches the record's
/// `total_earned` or `trade_count`.
pub fn claim_withdrawable(balance: u64, rent_floor: u64) -> (r: Result<u64, AdminError>)
    ensures
        balance >= rent_floor ==> r == Ok::<u64, AdminError>((balance - rent_floor) as u64),
        balance < rent_floor ==> r == Err::<u64, AdminError>(AdminError::NotEnoughLamports),
{
    if balance >= rent_floor {
        Ok(balance - rent_floor)
    } else {
        Err(AdminError::NotEnoughLamports)
    }
}

} // verus!
