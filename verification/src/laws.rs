//! What holds of deposits and withdrawals taken together.

use crate::accounts::{Deposit, Withdraw};
use crate::deposit::{after_deposit, deposit_failure, deposited};
use crate::error::{ErrorCode, ErrorKind};
use crate::records::{UserBalance, UserInteractions};
use crate::withdraw::{after_withdrawal, withdraw_failure, withdrawn};
use vstd::prelude::*;

verus! {

/// The accounts after the deposits `amounts` were tried one after the other.
pub open spec fn after_deposits(accepted: bool, pre: Deposit, amounts: Seq<u64>) -> Deposit
    decreases amounts.len(),
{
    if amounts.len() == 0 {
        pre
    } else {
        after_deposit(accepted, after_deposits(accepted, pre, amounts.drop_last()), amounts.last())
    }
}

/// Each of the deposits `amounts`, tried one after the other, goes through.
pub open spec fn all_go_through(accepted: bool, pre: Deposit, amounts: Seq<u64>) -> bool
    decreases amounts.len(),
{
    amounts.len() == 0 || {
        &&& all_go_through(accepted, pre, amounts.drop_last())
        &&& deposit_failure(
            accepted,
            after_deposits(accepted, pre, amounts.drop_last()),
            amounts.last(),
        ) is None
    }
}

/// The sum of the amounts.
pub open spec fn total(amounts: Seq<u64>) -> int
    decreases amounts.len(),
{
    if amounts.len() == 0 {
        0
    } else {
        total(amounts.drop_last()) + amounts.last()
    }
}

/// The first deposit of a caller, where it goes through, leaves one deposit
/// counted, the amount on the ledger and the amount more in the vault.
pub proof fn lemma_first_deposit(accepted: bool, pre: Deposit, amount: u64)
    requires
        pre.is_fresh(),
        deposit_failure(accepted, pre, amount) is None,
    ensures
        deposited(pre, amount).user_interactions_counter.data == Some(
            UserInteractions { total_deposits: 1, total_withdrawals: 0 },
        ),
        deposited(pre, amount).user_balance.data == Some(
            UserBalance { total_amount_deposited: amount },
        ),
        deposited(pre, amount).user_vault_account.lamports == pre.user_vault_account.lamports
            + amount,
        deposited(pre, amount).signer.lamports == pre.signer.lamports - amount,
{
}

/// Deposits that all go through are all counted, and the ledger grows by
/// their sum: for a caller who had no records, the counter ends at their
/// number and the ledger at their sum. The vault grows by the same sum.
pub proof fn lemma_deposits_add_up(accepted: bool, pre: Deposit, amounts: Seq<u64>)
    requires
        all_go_through(accepted, pre, amounts),
    ensures
        after_deposits(accepted, pre, amounts).counters().total_deposits
            == pre.counters().total_deposits + amounts.len(),
        after_deposits(accepted, pre, amounts).counters().total_withdrawals
            == pre.counters().total_withdrawals,
        after_deposits(accepted, pre, amounts).ledger().total_amount_deposited
            == pre.ledger().total_amount_deposited + total(amounts),
        after_deposits(accepted, pre, amounts).user_vault_account.lamports
            == pre.user_vault_account.lamports + total(amounts),
        after_deposits(accepted, pre, amounts).signer.lamports
            == pre.signer.lamports - total(amounts),
        pre.is_fresh() ==> {
            &&& after_deposits(accepted, pre, amounts).counters().total_deposits == amounts.len()
            &&& after_deposits(accepted, pre, amounts).ledger().total_amount_deposited
                == total(amounts)
        },
    decreases amounts.len(),
{
    if amounts.len() > 0 {
        lemma_deposits_add_up(accepted, pre, amounts.drop_last());
    }
}

/// Deposits all go through where the accounts are accepted, the signer can
/// pay their sum, and neither the counter nor the ledger nor the vault would
/// leave its range at the end: no partial sum overflows then. With
/// `lemma_deposits_add_up` this gives the totals from the amounts alone.
pub proof fn lemma_deposits_go_through(accepted: bool, pre: Deposit, amounts: Seq<u64>)
    requires
        accepted,
        pre.signer.lamports >= total(amounts),
        pre.user_vault_account.lamports + total(amounts) <= u64::MAX,
        pre.counters().total_deposits + amounts.len() <= u64::MAX,
        pre.ledger().total_amount_deposited + total(amounts) <= u64::MAX,
    ensures
        all_go_through(accepted, pre, amounts),
    decreases amounts.len(),
{
    if amounts.len() > 0 {
        lemma_deposits_go_through(accepted, pre, amounts.drop_last());
        lemma_deposits_add_up(accepted, pre, amounts.drop_last());
    }
}

/// A deposit that would take the ledger out of the 64-bit range fails and
/// leaves the accounts as they were; where nothing else stands against it, it
/// fails with `Overflow`.
pub proof fn lemma_deposit_past_range_fails(accepted: bool, pre: Deposit, amount: u64)
    requires
        pre.ledger().total_amount_deposited + amount > u64::MAX,
    ensures
        deposit_failure(accepted, pre, amount) is Some,
        after_deposit(accepted, pre, amount) == pre,
        accepted && pre.signer.lamports >= amount ==> deposit_failure(accepted, pre, amount)
            == Some(ErrorKind::Program(ErrorCode::Overflow)),
{
}

/// A deposit by a caller whose deposits counter is at its maximum fails with
/// `Overflow` and leaves the vault, the ledger and all else as they were,
/// where the accounts are the caller's own and the caller can pay.
pub proof fn lemma_deposit_counter_at_maximum(accepted: bool, pre: Deposit, amount: u64)
    requires
        accepted,
        pre.signer.lamports >= amount,
        pre.counters().total_deposits == u64::MAX,
    ensures
        deposit_failure(accepted, pre, amount) == Some(ErrorKind::Program(ErrorCode::Overflow)),
        after_deposit(accepted, pre, amount) == pre,
{
}

/// A withdrawal leaves the ledger as it was, so the next withdrawal pays out
/// the same amount: two withdrawals in a row that both go through each move a
/// tenth of the same total out of the vault, and both are counted.
pub proof fn lemma_withdraw_twice(accepted: bool, pre: Withdraw)
    requires
        withdraw_failure(accepted, pre) is None,
    ensures
        withdrawn(pre).user_balance == pre.user_balance,
        withdrawn(pre).ledger().tenth() == pre.ledger().tenth(),
        withdrawn(pre).user_vault_account.lamports == pre.user_vault_account.lamports
            - pre.ledger().tenth(),
        withdraw_failure(accepted, withdrawn(pre)) is None ==> {
            &&& withdrawn(withdrawn(pre)).user_balance == pre.user_balance
            &&& withdrawn(withdrawn(pre)).user_vault_account.lamports
                == pre.user_vault_account.lamports - 2 * pre.ledger().tenth()
            &&& withdrawn(withdrawn(pre)).counters().total_withdrawals
                == pre.counters().total_withdrawals + 2
        },
{
}

/// A withdrawal by a caller who lacks a record fails with `RecordNotFound`
/// and creates nothing.
pub proof fn lemma_withdraw_without_records(accepted: bool, pre: Withdraw)
    requires
        !pre.has_records(),
    ensures
        withdraw_failure(accepted, pre) == Some(ErrorKind::RecordNotFound),
        after_withdrawal(accepted, pre) == pre,
{
}

/// No operation lowers a counter or the ledger, and a withdrawal leaves the
/// ledger untouched: a deposit may raise the deposits counter, the ledger and
/// the vault, a withdrawal may raise the withdrawals counter and lower the
/// vault, and nothing else of the records changes.
pub proof fn lemma_records_only_grow(accepted: bool, d: Deposit, amount: u64, w: Withdraw)
    ensures
        after_deposit(accepted, d, amount).counters().total_deposits >= d.counters().total_deposits,
        after_deposit(accepted, d, amount).counters().total_withdrawals
            == d.counters().total_withdrawals,
        after_deposit(accepted, d, amount).ledger().total_amount_deposited
            >= d.ledger().total_amount_deposited,
        after_deposit(accepted, d, amount).user_vault_account.lamports
            >= d.user_vault_account.lamports,
        after_withdrawal(accepted, w).user_balance == w.user_balance,
        after_withdrawal(accepted, w).user_vault_account.lamports <= w.user_vault_account.lamports,
        w.has_records() ==> {
            &&& after_withdrawal(accepted, w).counters().total_deposits
                == w.counters().total_deposits
            &&& after_withdrawal(accepted, w).counters().total_withdrawals
                >= w.counters().total_withdrawals
        },
{
}

} // verus!
