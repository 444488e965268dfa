//! Requests that make the program pass an account operation on to the system
//! program.

use crate::account::{AccountAddress, AccountMeta, InstructionRequest, WellKnownAccount};
use vstd::prelude::*;

verus! {

/// The account operations that the program passes on.
#[derive(Clone, Copy, Debug, PartialEq, Eq, Structural)]
pub enum SystemTestInstruction {
    CreateAccount(CreateAccount),
    TransferLamports(TransferLamports),
    Allocate(Allocate),
}

/// Create an account of `space` bytes.
///
/// Accounts: the payer (writable, signer), the new account (writable,
/// signer), the system program.
#[derive(Clone, Copy, Debug, PartialEq, Eq, Structural)]
pub struct CreateAccount {
    pub space: u64,
}

/// Move `amount` lamports.
///
/// Accounts: the sender (writable, signer), the receiver (writable), the
/// system program.
#[derive(Clone, Copy, Debug, PartialEq, Eq, Structural)]
pub struct TransferLamports {
    pub amount: u64,
}

/// Give an account `space` bytes.
///
/// Accounts: the payer (writable, signer), the new account (writable,
/// signer), the system program.
#[derive(Clone, Copy, Debug, PartialEq, Eq, Structural)]
pub struct Allocate {
    pub space: u64,
}

/// The account list shared by all three operations: the first account
/// signs, the second signs only where `second_signs`, both are writable, and
/// the system program comes last, read only.
pub open spec fn spec_accounts(first: [u8; 32], second: [u8; 32], second_signs: bool) -> Seq<
    AccountMeta,
> {
    seq![
        AccountMeta { pubkey: AccountAddress::Key(first), is_signer: true, is_writable: true },
        AccountMeta {
            pubkey: AccountAddress::Key(second),
            is_signer: second_signs,
            is_writable: true,
        },
        AccountMeta {
            pubkey: AccountAddress::WellKnown(WellKnownAccount::SystemProgram),
            is_signer: false,
            is_writable: false,
        },
    ]
}

/// Builds the account list shared by all three operations.
fn accounts(first: &[u8; 32], second: &[u8; 32], second_signs: bool) -> (list: Vec<AccountMeta>)
    ensures
        list@ == spec_accounts(*first, *second, second_signs),
{
    let mut list: Vec<AccountMeta> = Vec::new();
    list.push(AccountMeta::new(AccountAddress::Key(*first), true));
    list.push(AccountMeta::new(AccountAddress::Key(*second), second_signs));
    list.push(
        AccountMeta::new_readonly(AccountAddress::WellKnown(WellKnownAccount::SystemProgram), false),
    );
    assert(list@ =~= spec_accounts(*first, *second, second_signs));
    list
}

impl CreateAccount {
    /// The request that creates `new_account` with `space` bytes, paid for by
    /// `payer`.
    pub fn build_instruction(
        program_id: &[u8; 32],
        payer: &[u8; 32],
        new_account: &[u8; 32],
        space: u64,
    ) -> (r: InstructionRequest<SystemTestInstruction>)
        ensures
            r.program_id == *program_id,
            r.accounts@ == spec_accounts(*payer, *new_account, true),
            r.instruction == SystemTestInstruction::CreateAccount(CreateAccount { space }),
    {
        InstructionRequest {
            program_id: *program_id,
            accounts: accounts(payer, new_account, true),
            instruction: SystemTestInstruction::CreateAccount(CreateAccount { space }),
        }
    }
}

impl TransferLamports {
    /// The request that moves `amount` lamports from `from` to `to`.
    pub fn build_instruction(
        program_id: &[u8; 32],
        from: &[u8; 32],
        to: &[u8; 32],
        amount: u64,
    ) -> (r: InstructionRequest<SystemTestInstruction>)
        ensures
            r.program_id == *program_id,
            r.accounts@ == spec_accounts(*from, *to, false),
            r.instruction == SystemTestInstruction::TransferLamports(TransferLamports { amount }),
    {
        InstructionRequest {
            program_id: *program_id,
            accounts: accounts(from, to, false),
            instruction: SystemTestInstruction::TransferLamports(TransferLamports { amount }),
        }
    }
}

impl Allocate {
    /// The request that gives `new_account` `space` bytes, paid for by
    /// `payer`.
    pub fn build_instruction(
        program_id: &[u8; 32],
        payer: &[u8; 32],
        new_account: &[u8; 32],
        space: u64,
    ) -> (r: InstructionRequest<SystemTestInstruction>)
        ensures
            r.program_id == *program_id,
            r.accounts@ == spec_accounts(*payer, *new_account, true),
            r.instruction == SystemTestInstruction::Allocate(Allocate { space }),
    {
        InstructionRequest {
            program_id: *program_id,
            accounts: accounts(payer, new_account, true),
            instruction: SystemTestInstruction::Allocate(Allocate { space }),
        }
    }
}

} // verus!
