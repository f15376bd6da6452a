//! The two records kept for each caller: the counters of their deposits and
//! withdrawals, and the ledger of all they have ever deposited.

use crate::error::{checked_increase, checked_quotient, ErrorCode};
use vstd::prelude::*;

verus! {

/// The part of the deposited total that one withdrawal pays out: a tenth.
pub const WITHDRAWAL_DIVISOR: u64 = 10;

/// How often a caller has deposited and withdrawn.
#[derive(Clone, Copy, Debug, PartialEq, Eq, Structural)]
pub struct UserInteractions {
    pub total_deposits: u64,
    pub total_withdrawals: u64,
}

/// All that a caller has ever deposited. A withdrawal never lowers it.
#[derive(Clone, Copy, Debug, PartialEq, Eq, Structural)]
pub struct UserBalance {
    pub total_amount_deposited: u64,
}

impl UserInteractions {
    /// The counters of a caller who has done nothing yet.
    pub open spec fn zero() -> UserInteractions {
        UserInteractions { total_deposits: 0, total_withdrawals: 0 }
    }

    /// The counters of a caller who has done nothing yet.
    pub fn new() -> (r: UserInteractions)
        ensures
            r == UserInteractions::zero(),
    {
        UserInteractions { total_deposits: 0, total_withdrawals: 0 }
    }

    /// Counts one more deposit, or fails with `Overflow` and counts nothing
    /// where the counter is at its maximum.
    pub fn record_deposit(&mut self) -> (r: Result<(), ErrorCode>)
        ensures
            old(self).total_deposits < u64::MAX ==> r is Ok
                && final(self).total_deposits == old(self).total_deposits + 1
                && final(self).total_withdrawals == old(self).total_withdrawals,
            old(self).total_deposits == u64::MAX ==> r == Err::<(), ErrorCode>(ErrorCode::Overflow)
                && *final(self) == *old(self),
    {
        match checked_increase(self.total_deposits, 1) {
            Ok(count) => {
                self.total_deposits = count;
                Ok(())
            },
            Err(e) => Err(e),
        }
    }

    /// Counts one more withdrawal, or fails with `Overflow` and counts nothing
    /// where the counter is at its maximum.
    pub fn record_withdrawal(&mut self) -> (r: Result<(), ErrorCode>)
        ensures
            old(self).total_withdrawals < u64::MAX ==> r is Ok
                && final(self).total_withdrawals == old(self).total_withdrawals + 1
                && final(self).total_deposits == old(self).total_deposits,
            old(self).total_withdrawals == u64::MAX ==> r == Err::<(), ErrorCode>(
                ErrorCode::Overflow,
            ) && *final(self) == *old(self),
    {
        match checked_increase(self.total_withdrawals, 1) {
            Ok(count) => {
                self.total_withdrawals = count;
                Ok(())
            },
            Err(e) => Err(e),
        }
    }
}

impl UserBalance {
    /// The ledger of a caller who has deposited nothing yet.
    pub open spec fn zero() -> UserBalance {
        UserBalance { total_amount_deposited: 0 }
    }

    /// What one withdrawal pays out: a tenth of the deposited total, rounded
    /// down.
    pub open spec fn tenth(self) -> u64 {
        self.total_amount_deposited / WITHDRAWAL_DIVISOR
    }

    /// The ledger of a caller who has deposited nothing yet.
    pub fn new() -> (r: UserBalance)
        ensures
            r == UserBalance::zero(),
    {
        UserBalance { total_amount_deposited: 0 }
    }

    /// Adds `amount` to the deposited total, or fails with `Overflow` and adds
    /// nothing where the total would leave the 64-bit range.
    pub fn record_deposit(&mut self, amount: u64) -> (r: Result<(), ErrorCode>)
        ensures
            old(self).total_amount_deposited + amount <= u64::MAX ==> r is Ok
                && final(self).total_amount_deposited == old(self).total_amount_deposited + amount,
            old(self).total_amount_deposited + amount > u64::MAX ==> r == Err::<(), ErrorCode>(
                ErrorCode::Overflow,
            ) && *final(self) == *old(self),
    {
        match checked_increase(self.total_amount_deposited, amount) {
            Ok(total) => {
                self.total_amount_deposited = total;
                Ok(())
            },
            Err(e) => Err(e),
        }
    }

    /// What one withdrawal pays out. The division is checked, yet the divisor
    /// is ten, so `DivideByZero` never comes out.
    pub fn withdrawal_amount(&self) -> (r: Result<u64, ErrorCode>)
        ensures
            r == Ok::<u64, ErrorCode>(self.tenth()),
    {
        checked_quotient(self.total_amount_deposited, WITHDRAWAL_DIVISOR)
    }
}

} // verus!
