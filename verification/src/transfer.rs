//! Moving value between two accounts, and the instruction that asks the
//! system program to do so.

use crate::address::{system_program_id, Address};
use crate::error::{ErrorCode, ErrorKind};
use anchor_lang::solana_program::pubkey::Pubkey;
use anchor_lang::solana_program::system_instruction;
use vstd::prelude::*;

verus! {

/// Why `amount` cannot move from a balance of `from` to a balance of `to`, if
/// it cannot: the payer holds too little, or the payee's balance would leave
/// the 64-bit range.
pub open spec fn transfer_failure(from: u64, to: u64, amount: u64) -> Option<ErrorKind> {
    if from < amount {
        Some(ErrorKind::InsufficientFunds)
    } else if to + amount > u64::MAX {
        Some(ErrorKind::Program(ErrorCode::Overflow))
    } else {
        None
    }
}

/// Moves `amount` from one balance to the other, or fails and moves nothing.
pub fn transfer(from: &mut u64, to: &mut u64, amount: u64) -> (r: Result<(), ErrorKind>)
    ensures
        transfer_failure(*old(from), *old(to), amount) matches Some(e) ==> r
            == Err::<(), ErrorKind>(e) && *final(from) == *old(from) && *final(to) == *old(to),
        transfer_failure(*old(from), *old(to), amount) is None ==> r is Ok
            && *final(from) == *old(from) - amount && *final(to) == *old(to) + amount,
{
    if *from < amount {
        return Err(ErrorKind::InsufficientFunds);
    }
    match to.checked_add(amount) {
        Some(credited) => {
            *from = *from - amount;
            *to = credited;
            Ok(())
        },
        None => Err(ErrorKind::Program(ErrorCode::Overflow)),
    }
}

/// One account that an instruction touches.
#[derive(Clone, Copy, Debug, PartialEq, Eq)]
pub struct AccountMeta {
    pub pubkey: Address,
    pub is_signer: bool,
    pub is_writable: bool,
}

/// An instruction for a program of the ledger.
#[derive(Debug, PartialEq, Eq)]
pub struct Instruction {
    pub program_id: Address,
    pub accounts: Vec<AccountMeta>,
    pub data: Vec<u8>,
}

/// The data of the instruction that `system_instruction::transfer` builds:
/// the serialized request to move `lamports`.
pub uninterp spec fn system_transfer_data(from: Seq<u8>, to: Seq<u8>, lamports: u64) -> Seq<u8>;

/// Calls `system_instruction::transfer` and hands its instruction out field by
/// field. The contract claims that the instruction is for the system program,
/// that it names the payer as a writable signer and then the payee as
/// writable, and that its data is a function of the arguments.
#[verifier::external_body]
pub(crate) fn system_transfer(from: &Address, to: &Address, lamports: u64) -> (ix: Instruction)
    ensures
        ix.program_id == system_program_id(),
        ix.accounts@ == seq![
            (AccountMeta { pubkey: *from, is_signer: true, is_writable: true }),
            (AccountMeta { pubkey: *to, is_signer: false, is_writable: true }),
        ],
        ix.data@ == system_transfer_data(from@, to@, lamports),
{
    let from = Pubkey::new_from_array(from.bytes);
    let to = Pubkey::new_from_array(to.bytes);
    let ix = system_instruction::transfer(&from, &to, lamports);
    let accounts = ix.accounts.iter().map(
        |meta| AccountMeta {
            pubkey: Address { bytes: meta.pubkey.to_bytes() },
            is_signer: meta.is_signer,
            is_writable: meta.is_writable,
        },
    ).collect();
    Instruction { program_id: Address { bytes: ix.program_id.to_bytes() }, accounts, data: ix.data }
}

/// `ix` asks the system program to move `lamports` from `from` to `to`.
pub open spec fn is_system_transfer(ix: Instruction, from: Address, to: Address, lamports: u64)
    -> bool {
    &&& ix.program_id == system_program_id()
    &&& ix.accounts@ == seq![
        AccountMeta { pubkey: from, is_signer: true, is_writable: true },
        AccountMeta { pubkey: to, is_signer: false, is_writable: true },
    ]
    &&& ix.data@ == system_transfer_data(from@, to@, lamports)
}

} // verus!
