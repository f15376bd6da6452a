//! A custodial vault with a fixed withdrawal policy: a caller deposits value
//! into a vault derived from their identity and may withdraw a tenth of all
//! they have ever deposited, once per call.
//!
//! The ledger that holds the accounts is not part of this library. An
//! operation is handed the accounts as plain values, decides whether it goes
//! through, and leaves in them what the ledger holds once it has.

pub mod accounts;
pub mod address;
pub mod deposit;
pub mod error;
pub mod laws;
pub mod records;
pub mod resolver;
pub mod transfer;
pub mod withdraw;

pub use accounts::{Deposit, RecordAccount, SignerAccount, VaultAccount, Withdraw};
pub use address::Address;
pub use deposit::{deposit, deposit_resolved};
pub use error::{ErrorCode, ErrorKind};
pub use records::{UserBalance, UserInteractions};
pub use withdraw::{withdraw, withdraw_resolved, Withdrawal};
