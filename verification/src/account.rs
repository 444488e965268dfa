//! Accounts as an instruction names them.

use vstd::prelude::*;

verus! {

/// The accounts whose addresses the platform fixes. The library names them;
/// whoever assembles the transaction supplies the platform's address.
#[derive(Clone, Copy, Debug, PartialEq, Eq, Structural)]
pub enum WellKnownAccount {
    SystemProgram,
    Clock,
    EpochSchedule,
    Instructions,
    Rent,
    SlotHashes,
    SlotHistory,
    StakeHistory,
}

/// The address of an account: given by its bytes, or one that the platform
/// fixes.
#[derive(Clone, Copy, Debug)]
pub enum AccountAddress {
    Key([u8; 32]),
    WellKnown(WellKnownAccount),
}

/// An account that an instruction reads or writes.
#[derive(Clone, Copy, Debug)]
pub struct AccountMeta {
    /// Address of the account.
    pub pubkey: AccountAddress,
    /// Whether the transaction must be signed with the account's key.
    pub is_signer: bool,
    /// Whether the instruction may change the account.
    pub is_writable: bool,
}

impl AccountMeta {
    /// An account that the instruction may change.
    pub fn new(pubkey: AccountAddress, is_signer: bool) -> (meta: AccountMeta)
        ensures
            meta == (AccountMeta { pubkey, is_signer, is_writable: true }),
    {
        AccountMeta { pubkey, is_signer, is_writable: true }
    }

    /// An account that the instruction only reads.
    pub fn new_readonly(pubkey: AccountAddress, is_signer: bool) -> (meta: AccountMeta)
        ensures
            meta == (AccountMeta { pubkey, is_signer, is_writable: false }),
    {
        AccountMeta { pubkey, is_signer, is_writable: false }
    }
}

/// An instruction before it is serialized: the program it is addressed to,
/// the accounts it names, in order, and what it asks of the program.
#[derive(Clone, Debug)]
pub struct InstructionRequest<T> {
    /// Identity of the program that executes the instruction.
    pub program_id: [u8; 32],
    /// The accounts handed to the program, in this order.
    pub accounts: Vec<AccountMeta>,
    /// What the program is asked to do.
    pub instruction: T,
}

} // verus!
