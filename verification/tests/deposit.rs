use solana_withdraw_10_deposit::resolver::{resolve, Derived, ProofMaterial, Resolved, Tag};
use solana_withdraw_10_deposit::{
    deposit, deposit_resolved, Address, Deposit, ErrorCode, ErrorKind, RecordAccount,
    SignerAccount, UserBalance, UserInteractions, VaultAccount,
};

fn system_program() -> Address {
    solana_withdraw_10_deposit::address::system_program()
}

fn fresh(caller: Address, wallet: u64, vault: u64) -> Deposit {
    let resolved = resolve(&caller);
    Deposit {
        user_vault_account: VaultAccount {
            key: resolved.vault.unwrap().address,
            owner: system_program(),
            lamports: vault,
        },
        user_interactions_counter: RecordAccount {
            key: resolved.counter.unwrap().address,
            data: None,
        },
        user_balance: RecordAccount { key: resolved.balance.unwrap().address, data: None },
        signer: SignerAccount { key: caller, lamports: wallet },
        system_program: system_program(),
    }
}

fn with_records(mut ctx: Deposit, deposits: u64, withdrawals: u64, total: u64) -> Deposit {
    ctx.user_interactions_counter.data =
        Some(UserInteractions { total_deposits: deposits, total_withdrawals: withdrawals });
    ctx.user_balance.data = Some(UserBalance { total_amount_deposited: total });
    ctx
}

fn alice() -> Address {
    Address { bytes: [0xA1; 32] }
}

fn invalid_account_owner() -> Result<(), ErrorKind> {
    Err(ErrorKind::Program(ErrorCode::InvalidAccountOwner))
}

fn overflow() -> Result<(), ErrorKind> {
    Err(ErrorKind::Program(ErrorCode::Overflow))
}

#[test]
fn first_deposit_creates_the_records() {
    let mut ctx = fresh(alice(), 1_000, 0);
    let before = ctx;
    assert_eq!(deposit(&mut ctx, 250), Ok(()));
    assert_eq!(
        ctx.user_interactions_counter.data,
        Some(UserInteractions { total_deposits: 1, total_withdrawals: 0 })
    );
    assert_eq!(ctx.user_balance.data, Some(UserBalance { total_amount_deposited: 250 }));
    assert_eq!(ctx.user_vault_account.lamports, 250);
    assert_eq!(ctx.signer.lamports, 750);
    assert_eq!(ctx.user_vault_account.key, before.user_vault_account.key);
    assert_eq!(ctx.user_vault_account.owner, before.user_vault_account.owner);
    assert_eq!(ctx.user_interactions_counter.key, before.user_interactions_counter.key);
    assert_eq!(ctx.user_balance.key, before.user_balance.key);
    assert_eq!(ctx.signer.key, before.signer.key);
    assert_eq!(ctx.system_program, before.system_program);
}

#[test]
fn first_deposit_raises_a_funded_vault_by_the_amount() {
    let mut ctx = fresh(alice(), 1_000, 40);
    assert_eq!(deposit(&mut ctx, 1_000), Ok(()));
    assert_eq!(ctx.user_vault_account.lamports, 1_040);
    assert_eq!(ctx.signer.lamports, 0);
    assert_eq!(ctx.user_balance.data, Some(UserBalance { total_amount_deposited: 1_000 }));
}

#[test]
fn deposits_are_counted_and_summed() {
    let amounts = [5u64, 0, 120, 33, 1];
    let mut ctx = fresh(alice(), 1_000, 0);
    for amount in amounts {
        assert_eq!(deposit(&mut ctx, amount), Ok(()));
    }
    assert_eq!(
        ctx.user_interactions_counter.data,
        Some(UserInteractions { total_deposits: 5, total_withdrawals: 0 })
    );
    assert_eq!(ctx.user_balance.data, Some(UserBalance { total_amount_deposited: 159 }));
    assert_eq!(ctx.user_vault_account.lamports, 159);
    assert_eq!(ctx.signer.lamports, 841);
}

#[test]
fn deposit_keeps_the_withdrawals_counter() {
    let mut ctx = with_records(fresh(alice(), 50, 7), 3, 2, 70);
    assert_eq!(deposit(&mut ctx, 50), Ok(()));
    assert_eq!(
        ctx.user_interactions_counter.data,
        Some(UserInteractions { total_deposits: 4, total_withdrawals: 2 })
    );
    assert_eq!(ctx.user_balance.data, Some(UserBalance { total_amount_deposited: 120 }));
    assert_eq!(ctx.user_vault_account.lamports, 57);
}

#[test]
fn deposit_creates_the_record_that_is_missing() {
    let mut ctx = fresh(alice(), 50, 0);
    ctx.user_balance.data = Some(UserBalance { total_amount_deposited: 9 });
    assert_eq!(deposit(&mut ctx, 1), Ok(()));
    assert_eq!(
        ctx.user_interactions_counter.data,
        Some(UserInteractions { total_deposits: 1, total_withdrawals: 0 })
    );
    assert_eq!(ctx.user_balance.data, Some(UserBalance { total_amount_deposited: 10 }));
}

#[test]
fn deposit_of_nothing_is_counted() {
    let mut ctx = fresh(alice(), 0, 0);
    assert_eq!(deposit(&mut ctx, 0), Ok(()));
    assert_eq!(
        ctx.user_interactions_counter.data,
        Some(UserInteractions { total_deposits: 1, total_withdrawals: 0 })
    );
    assert_eq!(ctx.user_balance.data, Some(UserBalance { total_amount_deposited: 0 }));
    assert_eq!(ctx.user_vault_account.lamports, 0);
}

#[test]
fn deposit_fails_where_the_caller_holds_too_little() {
    let mut ctx = fresh(alice(), 99, 0);
    let before = ctx;
    assert_eq!(deposit(&mut ctx, 100), Err(ErrorKind::InsufficientFunds));
    assert_eq!(ctx, before);
    assert_eq!(ctx.user_interactions_counter.data, None);
    assert_eq!(ctx.user_balance.data, None);
}

#[test]
fn deposit_past_the_range_of_the_ledger_fails_and_changes_nothing() {
    let mut ctx = with_records(fresh(alice(), 1_000, 0), 2, 0, u64::MAX - 10);
    let before = ctx;
    assert_eq!(deposit(&mut ctx, 11), overflow());
    assert_eq!(ctx, before);
    assert_eq!(deposit(&mut ctx, 10), Ok(()));
    assert_eq!(ctx.user_balance.data, Some(UserBalance { total_amount_deposited: u64::MAX }));
    assert_eq!(
        ctx.user_interactions_counter.data,
        Some(UserInteractions { total_deposits: 3, total_withdrawals: 0 })
    );
    assert_eq!(ctx.user_vault_account.lamports, 10);
}

#[test]
fn deposit_with_the_counter_at_its_maximum_fails_and_changes_nothing() {
    let mut ctx = with_records(fresh(alice(), 1_000, 500), u64::MAX, 4, 500);
    let before = ctx;
    assert_eq!(deposit(&mut ctx, 100), overflow());
    assert_eq!(ctx, before);
    assert_eq!(ctx.user_vault_account.lamports, 500);
    assert_eq!(ctx.signer.lamports, 1_000);
    assert_eq!(ctx.user_balance.data, Some(UserBalance { total_amount_deposited: 500 }));
}

#[test]
fn deposit_past_the_range_of_the_vault_fails_and_changes_nothing() {
    let mut ctx = fresh(alice(), 1_000, u64::MAX - 5);
    let before = ctx;
    assert_eq!(deposit(&mut ctx, 6), overflow());
    assert_eq!(ctx, before);
    assert_eq!(deposit(&mut ctx, 5), Ok(()));
    assert_eq!(ctx.user_vault_account.lamports, u64::MAX);
}

#[test]
fn deposit_reports_the_transfer_before_the_counter() {
    let mut ctx = with_records(fresh(alice(), 10, 0), u64::MAX, 0, u64::MAX);
    let before = ctx;
    assert_eq!(deposit(&mut ctx, 11), Err(ErrorKind::InsufficientFunds));
    assert_eq!(ctx, before);
}

#[test]
fn deposit_refuses_a_vault_not_held_by_the_system_program() {
    let mut ctx = fresh(alice(), 1_000, 0);
    ctx.user_vault_account.owner = Address { bytes: [9u8; 32] };
    let before = ctx;
    assert_eq!(deposit(&mut ctx, 100), invalid_account_owner());
    assert_eq!(ctx, before);
}

#[test]
fn deposit_refuses_a_program_that_is_not_the_system_program() {
    let other = Address { bytes: [9u8; 32] };
    let mut ctx = fresh(alice(), 1_000, 0);
    ctx.system_program = other;
    let before = ctx;
    assert_eq!(deposit(&mut ctx, 100), invalid_account_owner());
    assert_eq!(ctx, before);

    ctx.user_vault_account.owner = other;
    let before = ctx;
    assert_eq!(deposit(&mut ctx, 100), invalid_account_owner());
    assert_eq!(ctx, before);
}

#[test]
fn deposit_refuses_a_vault_of_another_caller() {
    let bob = Address { bytes: [0xB0; 32] };
    let mut ctx = fresh(alice(), 1_000, 0);
    ctx.user_vault_account.key = resolve(&bob).vault.unwrap().address;
    let before = ctx;
    assert_eq!(deposit(&mut ctx, 100), invalid_account_owner());
    assert_eq!(ctx, before);
}

#[test]
fn deposit_refuses_records_of_another_caller() {
    let bob = Address { bytes: [0xB0; 32] };
    let mut ctx = fresh(alice(), 1_000, 0);
    ctx.user_interactions_counter.key = resolve(&bob).counter.unwrap().address;
    assert_eq!(deposit(&mut ctx, 100), invalid_account_owner());

    let mut ctx = fresh(alice(), 1_000, 0);
    ctx.user_balance.key = resolve(&bob).balance.unwrap().address;
    assert_eq!(deposit(&mut ctx, 100), invalid_account_owner());

    let mut ctx = fresh(alice(), 1_000, 0);
    let counter = ctx.user_interactions_counter.key;
    ctx.user_interactions_counter.key = ctx.user_balance.key;
    ctx.user_balance.key = counter;
    let before = ctx;
    assert_eq!(deposit(&mut ctx, 100), invalid_account_owner());
    assert_eq!(ctx, before);
}

#[test]
fn deposit_reports_the_accounts_before_the_transfer() {
    let mut ctx = fresh(alice(), 10, 0);
    ctx.user_vault_account.owner = alice();
    assert_eq!(deposit(&mut ctx, 11), invalid_account_owner());
}

#[test]
fn deposit_resolved_goes_by_the_addresses_it_is_given() {
    let caller = alice();
    let key = |byte: u8| Address { bytes: [byte; 32] };
    let derived = |tag: Tag, byte: u8| {
        Some(Derived { address: key(byte), proof: ProofMaterial { tag, caller, bump: 255 } })
    };
    let resolved = Resolved {
        vault: derived(Tag::Vault, 1),
        counter: derived(Tag::Counter, 2),
        balance: derived(Tag::Balance, 3),
    };
    let accounts = Deposit {
        user_vault_account: VaultAccount { key: key(1), owner: system_program(), lamports: 0 },
        user_interactions_counter: RecordAccount { key: key(2), data: None },
        user_balance: RecordAccount { key: key(3), data: None },
        signer: SignerAccount { key: caller, lamports: 100 },
        system_program: system_program(),
    };

    let mut ctx = accounts;
    assert_eq!(deposit_resolved(&mut ctx, &resolved, 60), Ok(()));
    assert_eq!(ctx.user_vault_account.lamports, 60);
    assert_eq!(ctx.signer.lamports, 40);
    assert_eq!(ctx.user_balance.data, Some(UserBalance { total_amount_deposited: 60 }));

    let mut ctx = accounts;
    assert_eq!(deposit(&mut ctx, 60), invalid_account_owner());
    assert_eq!(ctx, accounts);

    let mut ctx = accounts;
    let other = Address { bytes: [0xB0; 32] };
    let foreign = Resolved {
        vault: Some(Derived {
            address: key(1),
            proof: ProofMaterial { tag: Tag::Vault, caller: other, bump: 255 },
        }),
        ..resolved
    };
    assert_eq!(deposit_resolved(&mut ctx, &foreign, 60), invalid_account_owner());
    let mislabelled = Resolved { counter: derived(Tag::Balance, 2), ..resolved };
    assert_eq!(deposit_resolved(&mut ctx, &mislabelled, 60), invalid_account_owner());
    let unresolved = Resolved { vault: None, ..resolved };
    assert_eq!(deposit_resolved(&mut ctx, &unresolved, 60), invalid_account_owner());
    let unresolved = Resolved { counter: None, ..resolved };
    assert_eq!(deposit_resolved(&mut ctx, &unresolved, 60), invalid_account_owner());
    let unresolved = Resolved { balance: None, ..resolved };
    assert_eq!(deposit_resolved(&mut ctx, &unresolved, 60), invalid_account_owner());
    assert_eq!(ctx, accounts);
}
