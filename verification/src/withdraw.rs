//! The withdrawal: a tenth of all the caller ever deposited moves from their
//! vault back to them, authorized by the vault's derivation in place of a
//! signature, and the counters take note of it.

use crate::accounts::{RecordAccount, SignerAccount, VaultAccount, Withdraw};
use crate::error::{ErrorCode, ErrorKind};
use crate::records::UserInteractions;
use crate::resolver::{
    derives, is_address_of, lemma_resolved_as, resolve, Derived, ProofMaterial, Resolved, Tag,
};
use crate::transfer::{is_system_transfer, system_transfer, transfer, transfer_failure, Instruction};
use vstd::prelude::*;

verus! {

/// What a withdrawal asks of the ledger: the transfer out of the vault, and
/// the proof material that signs for the vault.
#[derive(Debug, PartialEq, Eq)]
pub struct Withdrawal {
    pub amount: u64,
    pub instruction: Instruction,
    pub signer_seeds: ProofMaterial,
}

impl Withdraw {
    /// The accounts presented are those that `resolved` holds for the signer.
    pub open spec fn accepted_by(self, resolved: Resolved) -> bool {
        resolved.resolved_as(
            self.signer.key,
            self.user_vault_account.key,
            self.user_interactions_counter.key,
            self.user_balance.key,
        )
    }

    /// The accounts presented are the three derived for the signer.
    pub open spec fn well_derived(self) -> bool {
        &&& is_address_of(Tag::Vault, self.signer.key, self.user_vault_account.key)
        &&& is_address_of(Tag::Counter, self.signer.key, self.user_interactions_counter.key)
        &&& is_address_of(Tag::Balance, self.signer.key, self.user_balance.key)
    }

    /// Whether the accounts presented are those that `resolved` holds for the
    /// signer.
    pub fn is_accepted_by(&self, resolved: &Resolved) -> (r: bool)
        ensures
            r == self.accepted_by(*resolved),
    {
        resolved.is_resolved_as(
            &self.signer.key,
            &self.user_vault_account.key,
            &self.user_interactions_counter.key,
            &self.user_balance.key,
        )
    }
}

/// Why a withdrawal fails, if it fails, given whether the accounts were
/// accepted. The checks come in this order: the records, the accounts, the
/// transfer, the counter.
pub open spec fn withdraw_failure(accepted: bool, pre: Withdraw) -> Option<ErrorKind> {
    if !pre.has_records() {
        Some(ErrorKind::RecordNotFound)
    } else if !accepted {
        Some(ErrorKind::Program(ErrorCode::InvalidAccountOwner))
    } else if transfer_failure(
        pre.user_vault_account.lamports,
        pre.signer.lamports,
        pre.ledger().tenth(),
    ) is Some {
        transfer_failure(pre.user_vault_account.lamports, pre.signer.lamports, pre.ledger().tenth())
    } else if pre.counters().total_withdrawals == u64::MAX {
        Some(ErrorKind::Program(ErrorCode::Overflow))
    } else {
        None
    }
}

/// The accounts once a withdrawal has gone through: a tenth of the ledger's
/// total has moved from the vault to the signer, and the withdrawal is
/// counted. The ledger is as it was.
pub open spec fn withdrawn(pre: Withdraw) -> Withdraw {
    Withdraw {
        signer: SignerAccount {
            key: pre.signer.key,
            lamports: (pre.signer.lamports + pre.ledger().tenth()) as u64,
        },
        user_vault_account: VaultAccount {
            key: pre.user_vault_account.key,
            owner: pre.user_vault_account.owner,
            lamports: (pre.user_vault_account.lamports - pre.ledger().tenth()) as u64,
        },
        user_interactions_counter: RecordAccount {
            key: pre.user_interactions_counter.key,
            data: Some(
                UserInteractions {
                    total_deposits: pre.counters().total_deposits,
                    total_withdrawals: (pre.counters().total_withdrawals + 1) as u64,
                },
            ),
        },
        user_balance: pre.user_balance,
        system_program: pre.system_program,
    }
}

/// The accounts after a withdrawal was tried: changed where it went through,
/// as they were where it failed.
pub open spec fn after_withdrawal(accepted: bool, pre: Withdraw) -> Withdraw {
    if withdraw_failure(accepted, pre) is None {
        withdrawn(pre)
    } else {
        pre
    }
}

/// `request` is what a withdrawal from the accounts `pre` asks of the ledger:
/// a tenth of the ledger's total, from the vault to the signer, signed for
/// with the seeds of the signer's vault and the bump seed `bump`.
pub open spec fn requests(request: Withdrawal, pre: Withdraw, bump: u8) -> bool {
    &&& request.amount == pre.ledger().tenth()
    &&& is_system_transfer(
        request.instruction,
        pre.user_vault_account.key,
        pre.signer.key,
        pre.ledger().tenth(),
    )
    &&& request.signer_seeds == ProofMaterial { tag: Tag::Vault, caller: pre.signer.key, bump }
}

/// The bump seed in `request` is the one that derives the vault presented
/// from the signer's identity.
pub open spec fn signs_for_vault(request: Withdrawal, pre: Withdraw) -> bool {
    derives(
        Tag::Vault,
        pre.signer.key,
        Some(Derived { address: pre.user_vault_account.key, proof: request.signer_seeds }),
    )
}

/// Withdraws for the signer, whose three addresses `resolved` holds.
///
/// Both records must exist, else the withdrawal fails with `RecordNotFound`;
/// the accounts presented must be the resolved ones, else it fails with
/// `InvalidAccountOwner`. Then a tenth of the ledger's total moves from the
/// vault to the signer under the proof material of the vault's derivation,
/// and the withdrawal is counted. The ledger is never touched. Where any step
/// fails, the accounts are left as they were.
pub fn withdraw_resolved(ctx: &mut Withdraw, resolved: &Resolved) -> (r: Result<
    Withdrawal,
    ErrorKind,
>)
    ensures
        withdraw_failure(old(ctx).accepted_by(*resolved), *old(ctx)) matches Some(e) ==> r
            == Err::<Withdrawal, ErrorKind>(e),
        withdraw_failure(old(ctx).accepted_by(*resolved), *old(ctx)) is None ==> r is Ok
            && requests(r->Ok_0, *old(ctx), resolved.vault->0.proof.bump),
        *final(ctx) == after_withdrawal(old(ctx).accepted_by(*resolved), *old(ctx)),
        !old(ctx).has_records() ==> r == Err::<Withdrawal, ErrorKind>(ErrorKind::RecordNotFound)
            && *final(ctx) == *old(ctx),
{
    let (mut counters, ledger) = match (ctx.user_interactions_counter.data, ctx.user_balance.data) {
        (Some(counters), Some(ledger)) => (counters, ledger),
        _ => {
            return Err(ErrorKind::RecordNotFound);
        },
    };
    let signer_seeds = match resolved.vault {
        Some(vault) => vault.proof,
        None => {
            return Err(ErrorKind::Program(ErrorCode::InvalidAccountOwner));
        },
    };
    if !ctx.is_accepted_by(resolved) {
        return Err(ErrorKind::Program(ErrorCode::InvalidAccountOwner));
    }
    let amount = match ledger.withdrawal_amount() {
        Ok(amount) => amount,
        Err(e) => {
            return Err(ErrorKind::Program(e));
        },
    };
    let mut held: u64 = ctx.user_vault_account.lamports;
    let mut paid: u64 = ctx.signer.lamports;
    match transfer(&mut held, &mut paid, amount) {
        Ok(()) => {},
        Err(e) => {
            return Err(e);
        },
    }
    match counters.record_withdrawal() {
        Ok(()) => {},
        Err(e) => {
            return Err(ErrorKind::Program(e));
        },
    }
    let instruction = system_transfer(&ctx.user_vault_account.key, &ctx.signer.key, amount);
    ctx.user_vault_account.lamports = held;
    ctx.signer.lamports = paid;
    ctx.user_interactions_counter.data = Some(counters);
    Ok(Withdrawal { amount, instruction, signer_seeds })
}

/// Withdraws for the signer: resolves the signer's three addresses and goes
/// on as `withdraw_resolved` does. The bump seed that signs for the vault is
/// the one of the vault's derivation.
pub fn withdraw(ctx: &mut Withdraw) -> (r: Result<Withdrawal, ErrorKind>)
    ensures
        withdraw_failure(old(ctx).well_derived(), *old(ctx)) matches Some(e) ==> r
            == Err::<Withdrawal, ErrorKind>(e),
        withdraw_failure(old(ctx).well_derived(), *old(ctx)) is None ==> r is Ok
            && requests(r->Ok_0, *old(ctx), r->Ok_0.signer_seeds.bump)
            && signs_for_vault(r->Ok_0, *old(ctx)),
        *final(ctx) == after_withdrawal(old(ctx).well_derived(), *old(ctx)),
        !old(ctx).has_records() ==> r == Err::<Withdrawal, ErrorKind>(ErrorKind::RecordNotFound)
            && *final(ctx) == *old(ctx),
{
    let resolved = resolve(&ctx.signer.key);
    proof {
        lemma_resolved_as(
            ctx.signer.key,
            resolved,
            ctx.user_vault_account.key,
            ctx.user_interactions_counter.key,
            ctx.user_balance.key,
        );
    }
    withdraw_resolved(ctx, &resolved)
}

} // verus!
