//! The accounts that an operation is handed: plain values that say what each
//! account on the ledger holds when the operation begins.

use crate::address::Address;
use crate::records::{UserBalance, UserInteractions};
use vstd::prelude::*;

verus! {

/// The account of the caller who signed the operation.
#[derive(Clone, Copy, Debug, PartialEq, Eq)]
pub struct SignerAccount {
    pub key: Address,
    pub lamports: u64,
}

/// The account that holds a caller's deposited value. It carries no data,
/// only its balance.
#[derive(Clone, Copy, Debug, PartialEq, Eq)]
pub struct VaultAccount {
    pub key: Address,
    pub owner: Address,
    pub lamports: u64,
}

/// An account that holds a record once the record has been created.
#[derive(Copy, Debug, PartialEq, Eq)]
pub struct RecordAccount<T> {
    pub key: Address,
    pub data: Option<T>,
}

impl<T: Copy> Clone for RecordAccount<T> {
    fn clone(&self) -> (r: Self)
        ensures
            r == *self,
    {
        *self
    }
}

/// The accounts of a deposit.
#[derive(Clone, Copy, Debug, PartialEq, Eq)]
pub struct Deposit {
    pub user_vault_account: VaultAccount,
    pub user_interactions_counter: RecordAccount<UserInteractions>,
    pub user_balance: RecordAccount<UserBalance>,
    pub signer: SignerAccount,
    pub system_program: Address,
}

/// The accounts of a withdrawal.
#[derive(Clone, Copy, Debug, PartialEq, Eq)]
pub struct Withdraw {
    pub signer: SignerAccount,
    pub user_vault_account: VaultAccount,
    pub user_interactions_counter: RecordAccount<UserInteractions>,
    pub user_balance: RecordAccount<UserBalance>,
    pub system_program: Address,
}

impl Deposit {
    /// The counters as the deposit finds them: those on record, or zero for a
    /// caller who has none yet.
    pub open spec fn counters(self) -> UserInteractions {
        match self.user_interactions_counter.data {
            Some(counters) => counters,
            None => UserInteractions::zero(),
        }
    }

    /// The ledger as the deposit finds it: the one on record, or zero for a
    /// caller who has none yet.
    pub open spec fn ledger(self) -> UserBalance {
        match self.user_balance.data {
            Some(ledger) => ledger,
            None => UserBalance::zero(),
        }
    }

    /// The caller has neither counters nor a ledger yet.
    pub open spec fn is_fresh(self) -> bool {
        self.user_interactions_counter.data is None && self.user_balance.data is None
    }
}

impl Withdraw {
    /// Both records of the caller exist.
    pub open spec fn has_records(self) -> bool {
        self.user_interactions_counter.data is Some && self.user_balance.data is Some
    }

    /// The counters on record.
    pub open spec fn counters(self) -> UserInteractions
        recommends
            self.has_records(),
    {
        self.user_interactions_counter.data->0
    }

    /// The ledger on record.
    pub open spec fn ledger(self) -> UserBalance
        recommends
            self.has_records(),
    {
        self.user_balance.data->0
    }
}

} // verus!
