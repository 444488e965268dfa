//! Which instruction of the transaction an offsets record points into.
//!
//! The wire format lets each of the three ranges of a record lie in another
//! instruction of the same transaction. The checker of this crate refuses
//! such records; the resolver here says what they would refer to, over an
//! instruction list that the caller hands in.

use crate::bytes::slice_at;
use crate::error::VerificationError;
use crate::offsets::{SecpSignatureOffsets, THIS_INSTRUCTION};
use crate::payload::{TransactionInstruction, WireVariant};
use vstd::prelude::*;

verus! {

/// The instruction that an instruction index of a record names.
#[derive(Clone, Copy, Debug, PartialEq, Eq, Structural)]
pub enum InstructionRef {
    /// The instruction that carries the record.
    ThisInstruction,
    /// The instruction at this position of the transaction.
    Instruction(u8),
}

impl InstructionRef {
    /// The reference that an index byte stands for.
    pub open spec fn spec_from_index(index: u8) -> InstructionRef {
        if index == THIS_INSTRUCTION {
            InstructionRef::ThisInstruction
        } else {
            InstructionRef::Instruction(index)
        }
    }

    /// The reference that an index byte stands for.
    #[verifier::when_used_as_spec(spec_from_index)]
    pub fn from_index(index: u8) -> (r: InstructionRef)
        ensures
            r == InstructionRef::spec_from_index(index),
    {
        if index == THIS_INSTRUCTION {
            InstructionRef::ThisInstruction
        } else {
            InstructionRef::Instruction(index)
        }
    }

    /// The position in the transaction that the reference names, when the
    /// record is carried by the instruction at position `carrier`.
    pub open spec fn spec_position(&self, carrier: int) -> int {
        match self {
            InstructionRef::ThisInstruction => carrier,
            InstructionRef::Instruction(n) => *n as int,
        }
    }
}

/// Finds the instruction that `target` names, for a record carried by the
/// instruction at position `carrier`. Fails, with
/// [`VerificationError::IndexOutOfRange`], exactly when the transaction has no
/// instruction at the named position.
pub fn resolve<'a>(
    transaction_instructions: &'a [TransactionInstruction],
    carrier: usize,
    target: InstructionRef,
) -> (r: Result<&'a TransactionInstruction, VerificationError>)
    ensures
        r is Ok <==> target.spec_position(carrier as int) < transaction_instructions@.len(),
        r is Ok ==> *r->Ok_0 == transaction_instructions@[target.spec_position(carrier as int)],
        r is Err ==> r->Err_0 == VerificationError::IndexOutOfRange,
{
    let position: usize = match target {
        InstructionRef::ThisInstruction => carrier,
        InstructionRef::Instruction(n) => n as usize,
    };
    if position >= transaction_instructions.len() {
        return Err(VerificationError::IndexOutOfRange);
    }
    Ok(&transaction_instructions[position])
}

/// True when the instruction that `index` names exists and holds the `size`
/// bytes from `offset` on.
pub open spec fn spec_range_resolves(
    transaction_instructions: Seq<TransactionInstruction>,
    carrier: int,
    index: u8,
    offset: u16,
    size: int,
) -> bool {
    let position = InstructionRef::spec_from_index(index).spec_position(carrier);
    &&& 0 <= position < transaction_instructions.len()
    &&& offset + size <= transaction_instructions[position].data@.len()
}

/// The invariant of a record within a transaction: each of its three indices
/// names an instruction of the transaction, and each range lies within the
/// payload of the instruction it points into. The signature and the address
/// have the widths of `variant`.
pub open spec fn spec_well_formed(
    record: SecpSignatureOffsets,
    variant: WireVariant,
    transaction_instructions: Seq<TransactionInstruction>,
    carrier: int,
) -> bool {
    &&& spec_range_resolves(
        transaction_instructions,
        carrier,
        record.signature_instruction_index,
        record.signature_offset,
        variant.spec_signature_width() as int,
    )
    &&& spec_range_resolves(
        transaction_instructions,
        carrier,
        record.eth_address_instruction_index,
        record.eth_address_offset,
        variant.spec_address_width() as int,
    )
    &&& spec_range_resolves(
        transaction_instructions,
        carrier,
        record.message_instruction_index,
        record.message_data_offset,
        record.message_data_size as int,
    )
}

/// Borrows the `size` bytes from `offset` on out of the instruction that
/// `index` names, for a record carried by the instruction at position
/// `carrier`. Fails with [`VerificationError::IndexOutOfRange`] when there is
/// no such instruction, and with [`VerificationError::OffsetOutOfBounds`]
/// when the range ends beyond that instruction's payload.
pub fn resolve_range<'a>(
    transaction_instructions: &'a [TransactionInstruction],
    carrier: usize,
    index: u8,
    offset: u16,
    size: usize,
) -> (r: Result<&'a [u8], VerificationError>)
    ensures
        r is Ok <==> spec_range_resolves(
            transaction_instructions@,
            carrier as int,
            index,
            offset,
            size as int,
        ),
        r is Ok ==> r->Ok_0@ == transaction_instructions@[InstructionRef::spec_from_index(
            index,
        ).spec_position(carrier as int)].data@.subrange(offset as int, offset + size),
        r is Err ==> r->Err_0 == if InstructionRef::spec_from_index(index).spec_position(
            carrier as int,
        ) < transaction_instructions@.len() {
            VerificationError::OffsetOutOfBounds
        } else {
            VerificationError::IndexOutOfRange
        },
{
    let instruction = match resolve(
        transaction_instructions,
        carrier,
        InstructionRef::from_index(index),
    ) {
        Ok(i) => i,
        Err(e) => {
            return Err(e);
        },
    };
    slice_at(instruction.data.as_slice(), offset, size)
}

/// Tells whether a record keeps its invariant within a transaction, see
/// [`spec_well_formed`].
pub fn is_well_formed(
    record: &SecpSignatureOffsets,
    variant: WireVariant,
    transaction_instructions: &[TransactionInstruction],
    carrier: usize,
) -> (r: bool)
    ensures
        r == spec_well_formed(*record, variant, transaction_instructions@, carrier as int),
{
    resolve_range(
        transaction_instructions,
        carrier,
        record.signature_instruction_index,
        record.signature_offset,
        variant.signature_width(),
    ).is_ok() && resolve_range(
        transaction_instructions,
        carrier,
        record.eth_address_instruction_index,
        record.eth_address_offset,
        variant.address_width(),
    ).is_ok() && resolve_range(
        transaction_instructions,
        carrier,
        record.message_instruction_index,
        record.message_data_offset,
        record.message_data_size as usize,
    ).is_ok()
}

/// A record is self-contained exactly when each of its three indices stands
/// for the carrying instruction.
pub proof fn lemma_self_contained_refs(record: SecpSignatureOffsets)
    ensures
        record.spec_is_self_contained() <==> {
            &&& InstructionRef::spec_from_index(record.signature_instruction_index)
                == InstructionRef::ThisInstruction
            &&& InstructionRef::spec_from_index(record.eth_address_instruction_index)
                == InstructionRef::ThisInstruction
            &&& InstructionRef::spec_from_index(record.message_instruction_index)
                == InstructionRef::ThisInstruction
        },
{
}

} // verus!
