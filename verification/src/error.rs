//! The failures of an operation, and the checked arithmetic that raises
//! them.

use vstd::prelude::*;

verus! {

/// The failures that the program itself defines.
#[derive(Clone, Copy, Debug, PartialEq, Eq, Structural)]
pub enum ErrorCode {
    /// A 64-bit counter or amount would leave its range.
    Overflow,
    /// A division by zero was attempted.
    DivideByZero,
    /// An account presented is not the caller's, or the vault is not held by
    /// the system program.
    InvalidAccountOwner,
}

impl ErrorCode {
    /// What the failure says of itself.
    pub open spec fn text(self) -> Seq<char> {
        match self {
            ErrorCode::Overflow => "Operation overflowed."@,
            ErrorCode::DivideByZero => "Division by zero error."@,
            ErrorCode::InvalidAccountOwner => "Invalid account owner."@,
        }
    }

    /// What the failure says of itself.
    pub fn message(&self) -> (r: String)
        ensures
            r@ == self.text(),
    {
        match self {
            ErrorCode::Overflow => "Operation overflowed.".to_owned(),
            ErrorCode::DivideByZero => "Division by zero error.".to_owned(),
            ErrorCode::InvalidAccountOwner => "Invalid account owner.".to_owned(),
        }
    }
}

/// Every way in which an operation can fail.
#[derive(Clone, Copy, Debug, PartialEq, Eq, Structural)]
pub enum ErrorKind {
    /// One of the program's own failures.
    Program(ErrorCode),
    /// The paying account holds less than the amount to move.
    InsufficientFunds,
    /// The caller has no counters or no ledger yet.
    RecordNotFound,
}

/// `value + by`, or `Overflow` where the sum leaves the 64-bit range.
pub fn checked_increase(value: u64, by: u64) -> (r: Result<u64, ErrorCode>)
    ensures
        value + by <= u64::MAX ==> r == Ok::<u64, ErrorCode>((value + by) as u64),
        value + by > u64::MAX ==> r == Err::<u64, ErrorCode>(ErrorCode::Overflow),
{
    value.checked_add(by).ok_or(ErrorCode::Overflow)
}

/// `value / divisor` rounded down, or `DivideByZero` where the divisor is zero.
pub fn checked_quotient(value: u64, divisor: u64) -> (r: Result<u64, ErrorCode>)
    ensures
        divisor != 0 ==> r == Ok::<u64, ErrorCode>(value / divisor),
        divisor == 0 ==> r == Err::<u64, ErrorCode>(ErrorCode::DivideByZero),
{
    value.checked_div(divisor).ok_or(ErrorCode::DivideByZero)
}

} // verus!
