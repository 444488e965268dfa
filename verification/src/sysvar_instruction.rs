//! The request that makes the program read the platform's sysvar accounts.

use crate::account::{AccountAddress, AccountMeta, InstructionRequest, WellKnownAccount};
use vstd::prelude::*;

verus! {

/// Amount that a request is built with.
pub const TEST_AMOUNT: u64 = 1_000;

/// Read the sysvar accounts.
///
/// Accounts: the payer (writable, signer), then, read only, the system
/// program, clock, epoch schedule, instructions, rent, slot hashes, slot
/// history and stake history.
#[derive(Clone, Copy, Debug, PartialEq, Eq, Structural)]
pub struct SysvarInstruction {
    pub test_amount: u64,
}

/// A read-only account that the platform fixes and that does not sign.
pub open spec fn spec_fixed(account: WellKnownAccount) -> AccountMeta {
    AccountMeta { pubkey: AccountAddress::WellKnown(account), is_signer: false, is_writable: false }
}

/// The nine accounts of the request, in order.
pub open spec fn spec_accounts(payer: [u8; 32]) -> Seq<AccountMeta> {
    seq![
        AccountMeta { pubkey: AccountAddress::Key(payer), is_signer: true, is_writable: true },
        spec_fixed(WellKnownAccount::SystemProgram),
        spec_fixed(WellKnownAccount::Clock),
        spec_fixed(WellKnownAccount::EpochSchedule),
        spec_fixed(WellKnownAccount::Instructions),
        spec_fixed(WellKnownAccount::Rent),
        spec_fixed(WellKnownAccount::SlotHashes),
        spec_fixed(WellKnownAccount::SlotHistory),
        spec_fixed(WellKnownAccount::StakeHistory),
    ]
}

/// A read-only account that the platform fixes and that does not sign.
fn fixed(account: WellKnownAccount) -> (meta: AccountMeta)
    ensures
        meta == spec_fixed(account),
{
    AccountMeta::new_readonly(AccountAddress::WellKnown(account), false)
}

impl SysvarInstruction {
    /// The request, paid for by `payer`, with [`TEST_AMOUNT`] as its amount.
    pub fn build_instruction(payer: &[u8; 32], program_id: &[u8; 32]) -> (r: InstructionRequest<
        SysvarInstruction,
    >)
        ensures
            r.program_id == *program_id,
            r.accounts@ == spec_accounts(*payer),
            r.instruction == (SysvarInstruction { test_amount: TEST_AMOUNT }),
    {
        let mut accounts: Vec<AccountMeta> = Vec::new();
        accounts.push(AccountMeta::new(AccountAddress::Key(*payer), true));
        accounts.push(fixed(WellKnownAccount::SystemProgram));
        accounts.push(fixed(WellKnownAccount::Clock));
        accounts.push(fixed(WellKnownAccount::EpochSchedule));
        accounts.push(fixed(WellKnownAccount::Instructions));
        accounts.push(fixed(WellKnownAccount::Rent));
        accounts.push(fixed(WellKnownAccount::SlotHashes));
        accounts.push(fixed(WellKnownAccount::SlotHistory));
        accounts.push(fixed(WellKnownAccount::StakeHistory));
        assert(accounts@ =~= spec_accounts(*payer));
        InstructionRequest {
            program_id: *program_id,
            accounts,
            instruction: SysvarInstruction { test_amount: TEST_AMOUNT },
        }
    }
}

} // verus!
