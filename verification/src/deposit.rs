//! The deposit: value moves from the caller into their vault, and the
//! counters and the ledger take note of it, all of it or none.

use crate::accounts::{Deposit, RecordAccount, SignerAccount, VaultAccount};
use crate::address::{system_program, system_program_id};
use crate::error::{ErrorCode, ErrorKind};
use crate::records::{UserBalance, UserInteractions};
use crate::resolver::{is_address_of, lemma_resolved_as, resolve, Resolved, Tag};
use crate::transfer::{transfer, transfer_failure};
use vstd::prelude::*;

verus! {

impl Deposit {
    /// The program presented is the system program, and it holds the vault.
    pub open spec fn vault_held_by_system_program(self) -> bool {
        &&& self.system_program == system_program_id()
        &&& self.user_vault_account.owner == self.system_program
    }

    /// The accounts presented are those that `resolved` holds for the signer,
    /// and the vault is held by the system program.
    pub open spec fn accepted_by(self, resolved: Resolved) -> bool {
        &&& resolved.resolved_as(
            self.signer.key,
            self.user_vault_account.key,
            self.user_interactions_counter.key,
            self.user_balance.key,
        )
        &&& self.vault_held_by_system_program()
    }

    /// The accounts presented are the three derived for the signer, and the
    /// vault is held by the system program.
    pub open spec fn well_derived(self) -> bool {
        &&& is_address_of(Tag::Vault, self.signer.key, self.user_vault_account.key)
        &&& is_address_of(Tag::Counter, self.signer.key, self.user_interactions_counter.key)
        &&& is_address_of(Tag::Balance, self.signer.key, self.user_balance.key)
        &&& self.vault_held_by_system_program()
    }

    /// Whether the accounts presented are those that `resolved` holds for the
    /// signer, and the vault is held by the system program.
    pub fn is_accepted_by(&self, resolved: &Resolved) -> (r: bool)
        ensures
            r == self.accepted_by(*resolved),
    {
        resolved.is_resolved_as(
            &self.signer.key,
            &self.user_vault_account.key,
            &self.user_interactions_counter.key,
            &self.user_balance.key,
        ) && self.system_program == system_program()
            && self.user_vault_account.owner == self.system_program
    }
}

/// Why a deposit of `amount` fails, if it fails, given whether the accounts
/// were accepted. The checks come in this order: the accounts, the transfer,
/// the counter, the ledger.
pub open spec fn deposit_failure(accepted: bool, pre: Deposit, amount: u64) -> Option<ErrorKind> {
    if !accepted {
        Some(ErrorKind::Program(ErrorCode::InvalidAccountOwner))
    } else if transfer_failure(
        pre.signer.lamports,
        pre.user_vault_account.lamports,
        amount,
    ) is Some {
        transfer_failure(pre.signer.lamports, pre.user_vault_account.lamports, amount)
    } else if pre.counters().total_deposits == u64::MAX {
        Some(ErrorKind::Program(ErrorCode::Overflow))
    } else if pre.ledger().total_amount_deposited + amount > u64::MAX {
        Some(ErrorKind::Program(ErrorCode::Overflow))
    } else {
        None
    }
}

/// The accounts once a deposit of `amount` has gone through: the amount has
/// moved from the signer to the vault, the deposit is counted and the amount
/// is on the ledger. Records that the caller lacked start from zero.
pub open spec fn deposited(pre: Deposit, amount: u64) -> Deposit {
    Deposit {
        user_vault_account: VaultAccount {
            key: pre.user_vault_account.key,
            owner: pre.user_vault_account.owner,
            lamports: (pre.user_vault_account.lamports + amount) as u64,
        },
        user_interactions_counter: RecordAccount {
            key: pre.user_interactions_counter.key,
            data: Some(
                UserInteractions {
                    total_deposits: (pre.counters().total_deposits + 1) as u64,
                    total_withdrawals: pre.counters().total_withdrawals,
                },
            ),
        },
        user_balance: RecordAccount {
            key: pre.user_balance.key,
            data: Some(
                UserBalance {
                    total_amount_deposited: (pre.ledger().total_amount_deposited + amount) as u64,
                },
            ),
        },
        signer: SignerAccount {
            key: pre.signer.key,
            lamports: (pre.signer.lamports - amount) as u64,
        },
        system_program: pre.system_program,
    }
}

/// The accounts after a deposit of `amount` was tried: changed where it went
/// through, as they were where it failed.
pub open spec fn after_deposit(accepted: bool, pre: Deposit, amount: u64) -> Deposit {
    if deposit_failure(accepted, pre, amount) is None {
        deposited(pre, amount)
    } else {
        pre
    }
}

/// Deposits `amount` for the signer, whose three addresses `resolved` holds.
///
/// The accounts presented must be the resolved ones, and the vault must be
/// held by the system program, else the deposit fails with
/// `InvalidAccountOwner`. Then `amount` moves from the signer to the vault,
/// the counters and the ledger are created at zero where the caller has none,
/// the deposit is counted and `amount` is added to the ledger. Where any step
/// fails, the accounts are left as they were.
pub fn deposit_resolved(ctx: &mut Deposit, resolved: &Resolved, amount: u64) -> (r: Result<
    (),
    ErrorKind,
>)
    ensures
        deposit_failure(old(ctx).accepted_by(*resolved), *old(ctx), amount) matches Some(e) ==> r
            == Err::<(), ErrorKind>(e),
        deposit_failure(old(ctx).accepted_by(*resolved), *old(ctx), amount) is None ==> r is Ok,
        *final(ctx) == after_deposit(old(ctx).accepted_by(*resolved), *old(ctx), amount),
{
    if !ctx.is_accepted_by(resolved) {
        return Err(ErrorKind::Program(ErrorCode::InvalidAccountOwner));
    }
    let mut paid: u64 = ctx.signer.lamports;
    let mut held: u64 = ctx.user_vault_account.lamports;
    match transfer(&mut paid, &mut held, amount) {
        Ok(()) => {},
        Err(e) => {
            return Err(e);
        },
    }
    let mut counters = match ctx.user_interactions_counter.data {
        Some(counters) => counters,
        None => UserInteractions::new(),
    };
    let mut ledger = match ctx.user_balance.data {
        Some(ledger) => ledger,
        None => UserBalance::new(),
    };
    match counters.record_deposit() {
        Ok(()) => {},
        Err(e) => {
            return Err(ErrorKind::Program(e));
        },
    }
    match ledger.record_deposit(amount) {
        Ok(()) => {},
        Err(e) => {
            return Err(ErrorKind::Program(e));
        },
    }
    ctx.signer.lamports = paid;
    ctx.user_vault_account.lamports = held;
    ctx.user_interactions_counter.data = Some(counters);
    ctx.user_balance.data = Some(ledger);
    Ok(())
}

/// Deposits `amount` for the signer: resolves the signer's three addresses
/// and goes on as `deposit_resolved` does.
pub fn deposit(ctx: &mut Deposit, amount: u64) -> (r: Result<(), ErrorKind>)
    ensures
        deposit_failure(old(ctx).well_derived(), *old(ctx), amount) matches Some(e) ==> r
            == Err::<(), ErrorKind>(e),
        deposit_failure(old(ctx).well_derived(), *old(ctx), amount) is None ==> r is Ok,
        *final(ctx) == after_deposit(old(ctx).well_derived(), *old(ctx), amount),
{
    let resolved = resolve(&ctx.signer.key);
    proof {
        lemma_resolved_as(
            ctx.signer.key,
            resolved,
            ctx.user_vault_account.key,
            ctx.user_interactions_counter.key,
            ctx.user_balance.key,
        );
    }
    deposit_resolved(ctx, &resolved, amount)
}

} // verus!
