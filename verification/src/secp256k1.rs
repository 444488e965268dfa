//! The on-chain entry that accepts a transaction only if its first
//! instruction is a precompile attestation of the expected signer and message.
//!
//! The host hands the program the instructions sysvar account. Reading an
//! instruction out of that account and recognising the precompile's program
//! identity are left to the platform's own library; everything decided from
//! what it returns is decided here.

use crate::checker::spec_verify_claim;
use crate::checker::verify_claim;
use crate::error::VerificationError;
use crate::payload::{TransactionInstruction, WireVariant};
use solana_program::account_info::AccountInfo;
use solana_program::program_error::ProgramError;
use solana_program::pubkey::Pubkey;
use vstd::prelude::*;

verus! {

/// What the entry reads of an account that the host hands to the program.
#[derive(Clone, Debug)]
pub struct AccountRecord {
    /// Address of the account.
    pub key: [u8; 32],
    /// Contents of the account.
    pub data: Vec<u8>,
}

/// The request that the entry serves: the signer and the message that the
/// transaction's precompile instruction must attest.
#[derive(Clone, Debug)]
pub struct DemoSecp256k1Instruction {
    /// The message that must have been signed.
    pub message: Vec<u8>,
    /// The hashed address of the expected signer.
    pub signer_pubkey: [u8; 20],
}

/// Why an instruction could not be read out of the instructions sysvar.
#[derive(Clone, Copy, Debug, PartialEq, Eq, Structural)]
pub enum LoadFailure {
    /// The account is not the instructions sysvar.
    UnsupportedSysvar,
    /// The platform finds no instruction at the requested position: the
    /// transaction has fewer instructions, or the contents of the account end
    /// before the instruction does.
    InvalidArgument,
    /// The platform cannot make an instruction of what it finds there.
    InvalidInstructionData,
}

/// Why the entry refuses a transaction.
#[derive(Clone, Copy, Debug, PartialEq, Eq, Structural)]
pub enum ProgramFailure {
    /// The host handed over no account at all.
    NotEnoughAccountKeys,
    /// The first account is not the instructions sysvar.
    UnsupportedSysvar,
    /// The platform cannot make an instruction of the sysvar's contents.
    InvalidInstructionData,
    /// The first instruction is missing or does not attest what was expected.
    Verification(VerificationError),
}

/// The instruction that the platform reads at position `index` out of an
/// account with address `key` and contents `data`: its program identity and
/// payload, or the reason why it reads none.
pub uninterp spec fn sysvar_instruction_at(index: usize, key: Seq<u8>, data: Seq<u8>) -> Result<
    (Seq<u8>, Seq<u8>),
    LoadFailure,
>;

/// Whether the platform recognises `program_id` as the identity of its
/// secp256k1 precompile.
pub uninterp spec fn is_secp256k1_program_id(program_id: Seq<u8>) -> bool;

/// The view of what the platform read: identity and payload as byte strings.
pub open spec fn spec_loaded(loaded: Result<TransactionInstruction, LoadFailure>) -> Result<
    (Seq<u8>, Seq<u8>),
    LoadFailure,
> {
    match loaded {
        Ok(i) => Ok((i.program_id@, i.data@)),
        Err(e) => Err(e),
    }
}

/// Calls `solana_program::sysvar::instructions::load_instruction_at_checked`
/// on an account made of `account`'s address and contents. Unproved: the
/// result is the one named by [`sysvar_instruction_at`], that is, it depends
/// on the index, the address and the contents alone. The platform's errors
/// `UnsupportedSysvar` and `InvalidArgument` keep their names; any other
/// error is passed on as `InvalidInstructionData`.
#[verifier::external_body]
fn load_instruction_at_checked(index: usize, account: &AccountRecord) -> (r: Result<
    TransactionInstruction,
    LoadFailure,
>)
    ensures
        spec_loaded(r) == sysvar_instruction_at(index, account.key@, account.data@),
{
    let key = Pubkey::new_from_array(account.key);
    let (mut lamports, mut data) = (0u64, account.data.clone());
    let info = AccountInfo::new(&key, false, false, &mut lamports, &mut data, &key, false, 0);
    match solana_program::sysvar::instructions::load_instruction_at_checked(index, &info) {
        Ok(i) => Ok(TransactionInstruction { program_id: i.program_id.to_bytes(), data: i.data }),
        Err(ProgramError::UnsupportedSysvar) => Err(LoadFailure::UnsupportedSysvar),
        Err(ProgramError::InvalidArgument) => Err(LoadFailure::InvalidArgument),
        Err(_) => Err(LoadFailure::InvalidInstructionData),
    }
}

/// Calls `solana_program::secp256k1_program::check_id`. Unproved: the answer
/// is the one named by [`is_secp256k1_program_id`], that is, it depends on the
/// identity alone.
#[verifier::external_body]
fn is_secp256k1_program(program_id: &[u8; 32]) -> (b: bool)
    ensures
        b == is_secp256k1_program_id(program_id@),
{
    solana_program::secp256k1_program::check_id(&Pubkey::new_from_array(*program_id))
}

/// What the entry answers once the platform has read the first instruction
/// (`loaded`) and has said whether that instruction's program is the
/// secp256k1 precompile (`from_precompile`).
pub open spec fn spec_conclude(
    instruction: DemoSecp256k1Instruction,
    loaded: Result<(Seq<u8>, Seq<u8>), LoadFailure>,
    from_precompile: bool,
) -> Result<(), ProgramFailure> {
    match loaded {
        Err(LoadFailure::UnsupportedSysvar) => Err(ProgramFailure::UnsupportedSysvar),
        Err(LoadFailure::InvalidArgument) => Err(
            ProgramFailure::Verification(VerificationError::IndexOutOfRange),
        ),
        Err(LoadFailure::InvalidInstructionData) => Err(ProgramFailure::InvalidInstructionData),
        Ok((_, data)) => if !from_precompile {
            Err(ProgramFailure::Verification(VerificationError::WrongProgram))
        } else {
            match spec_verify_claim(
                WireVariant::HashedAddress,
                data,
                instruction.signer_pubkey@,
                instruction.message@,
            ) {
                Ok(_) => Ok(()),
                Err(e) => Err(ProgramFailure::Verification(e)),
            }
        },
    }
}

/// Decides the entry's answer from what the platform read as the first
/// instruction and from whether that instruction's program is the secp256k1
/// precompile. Where the platform found no instruction, the index is out of
/// range; its other failures are passed on. An instruction of another program
/// is refused. Otherwise the payload must attest the expected signer and
/// message in the hashed-address shape.
pub fn conclude(
    instruction: &DemoSecp256k1Instruction,
    loaded: &Result<TransactionInstruction, LoadFailure>,
    from_precompile: bool,
) -> (r: Result<(), ProgramFailure>)
    ensures
        r == spec_conclude(*instruction, spec_loaded(*loaded), from_precompile),
{
    match loaded {
        Err(LoadFailure::UnsupportedSysvar) => Err(ProgramFailure::UnsupportedSysvar),
        Err(LoadFailure::InvalidArgument) => Err(
            ProgramFailure::Verification(VerificationError::IndexOutOfRange),
        ),
        Err(LoadFailure::InvalidInstructionData) => Err(ProgramFailure::InvalidInstructionData),
        Ok(first) => {
            if !from_precompile {
                return Err(ProgramFailure::Verification(VerificationError::WrongProgram));
            }
            match verify_claim(
                WireVariant::HashedAddress,
                first.data.as_slice(),
                instruction.signer_pubkey.as_slice(),
                instruction.message.as_slice(),
            ) {
                Ok(_) => Ok(()),
                Err(e) => Err(ProgramFailure::Verification(e)),
            }
        },
    }
}

/// What [`demo_secp256k1`] answers, over what the platform reads out of the
/// first account.
pub open spec fn spec_demo_secp256k1(
    instruction: DemoSecp256k1Instruction,
    accounts: Seq<AccountRecord>,
) -> Result<(), ProgramFailure> {
    if accounts.len() == 0 {
        Err(ProgramFailure::NotEnoughAccountKeys)
    } else {
        let loaded = sysvar_instruction_at(0, accounts[0].key@, accounts[0].data@);
        let from_precompile = match loaded {
            Ok((program_id, _)) => is_secp256k1_program_id(program_id),
            Err(_) => false,
        };
        spec_conclude(instruction, loaded, from_precompile)
    }
}

/// Accepts the transaction only if its first instruction is an instruction of
/// the secp256k1 precompile that attests that `instruction.signer_pubkey`
/// signed exactly `instruction.message`.
///
/// The first account must be the instructions sysvar. The instruction at
/// position 0 is read out of it by the platform's library, and the platform
/// is asked whether that instruction belongs to the precompile; the answer
/// then follows [`spec_conclude`].
pub fn demo_secp256k1(instruction: &DemoSecp256k1Instruction, accounts: &[AccountRecord]) -> (r:
    Result<(), ProgramFailure>)
    ensures
        r == spec_demo_secp256k1(*instruction, accounts@),
{
    if accounts.len() == 0 {
        return Err(ProgramFailure::NotEnoughAccountKeys);
    }
    let loaded = load_instruction_at_checked(0, &accounts[0]);
    let from_precompile = match &loaded {
        Ok(first) => is_secp256k1_program(&first.program_id),
        Err(_) => false,
    };
    conclude(instruction, &loaded, from_precompile)
}

} // verus!
