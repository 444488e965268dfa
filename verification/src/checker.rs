//! Reading a precompile payload back and checking what it attests.
//!
//! The precompile itself has verified the signature before a consuming
//! program runs. What is left to the consumer is binding: that the instruction
//! at the position it was told belongs to the trusted precompile, is shaped as
//! one self-contained attestation, and names the key and the message that the
//! consumer expects. Nothing here looks at the signature's validity.

use crate::bytes::{bytes_equal, slice_at, spec_in_bounds};
use crate::error::VerificationError;
use crate::indirection::{resolve, InstructionRef};
use crate::offsets::{spec_decode, SecpSignatureOffsets};
use crate::payload::{PrecompileInstructionPayload, TransactionInstruction, WireVariant};
use vstd::prelude::*;

verus! {

/// The precompile that a consumer trusts: its program identity and the wire
/// shape that its payloads are in.
#[derive(Clone, Copy, Debug)]
pub struct PrecompileIdentity {
    /// Identity of the precompile program.
    pub program_id: [u8; 32],
    /// Wire shape of the payloads that the precompile verifies.
    pub variant: WireVariant,
}

/// The three byte ranges that a payload attests, borrowed from it.
#[derive(Clone, Copy, Debug)]
pub struct AttestedSlices<'a> {
    /// The signature bytes.
    pub signature: &'a [u8],
    /// The address or public key bytes.
    pub address: &'a [u8],
    /// The message bytes.
    pub message: &'a [u8],
}

/// The view of [`AttestedSlices`]: signature, address and message.
pub struct AttestedBytes {
    pub signature: Seq<u8>,
    pub address: Seq<u8>,
    pub message: Seq<u8>,
}

impl<'a> View for AttestedSlices<'a> {
    type V = AttestedBytes;

    open spec fn view(&self) -> AttestedBytes {
        AttestedBytes {
            signature: self.signature@,
            address: self.address@,
            message: self.message@,
        }
    }
}

/// The single offsets record of a payload, or the reason why the payload is
/// not shaped as one self-contained attestation. The tests are made in this
/// order: at least two bytes, a count of one, room for the record, and all
/// three instruction indices naming the carrying instruction.
pub open spec fn spec_descriptor(data: Seq<u8>) -> Result<SecpSignatureOffsets, VerificationError> {
    if data.len() < 2 {
        Err(VerificationError::TruncatedPayload)
    } else if data[0] != 1 {
        Err(VerificationError::UnexpectedDescriptorCount)
    } else if data.len() < 12 {
        Err(VerificationError::MalformedOffsets)
    } else if !spec_decode(data.subrange(1, data.len() as int)).spec_is_self_contained() {
        Err(VerificationError::UnexpectedIndirection)
    } else {
        Ok(spec_decode(data.subrange(1, data.len() as int)))
    }
}

/// The address and the message that a payload of the given shape names, or
/// the reason why it names none.
pub open spec fn spec_claim(variant: WireVariant, data: Seq<u8>) -> Result<
    (Seq<u8>, Seq<u8>),
    VerificationError,
> {
    match spec_descriptor(data) {
        Err(e) => Err(e),
        Ok(d) => {
            let address_start = d.eth_address_offset as int;
            let address_size = variant.spec_address_width() as int;
            let message_start = d.message_data_offset as int;
            let message_size = d.message_data_size as int;
            if !spec_in_bounds(address_start, address_size, data.len() as int) || !spec_in_bounds(
                message_start,
                message_size,
                data.len() as int,
            ) {
                Err(VerificationError::OffsetOutOfBounds)
            } else {
                Ok(
                    (
                        data.subrange(address_start, address_start + address_size),
                        data.subrange(message_start, message_start + message_size),
                    ),
                )
            }
        },
    }
}

/// The signature, address and message that a payload of the given shape
/// carries, or the reason why one of them cannot be read.
pub open spec fn spec_extract(variant: WireVariant, data: Seq<u8>) -> Result<
    AttestedBytes,
    VerificationError,
> {
    match spec_claim(variant, data) {
        Err(e) => Err(e),
        Ok((address, message)) => {
            let d = spec_descriptor(data)->Ok_0;
            let signature_start = d.signature_offset as int;
            let signature_size = variant.spec_signature_width() as int;
            if !spec_in_bounds(signature_start, signature_size, data.len() as int) {
                Err(VerificationError::OffsetOutOfBounds)
            } else {
                Ok(
                    AttestedBytes {
                        signature: data.subrange(signature_start, signature_start + signature_size),
                        address,
                        message,
                    },
                )
            }
        },
    }
}

/// Whether a payload of the given shape attests exactly the expected key and
/// the expected message.
pub open spec fn spec_verify_claim(
    variant: WireVariant,
    data: Seq<u8>,
    expected_public_key: Seq<u8>,
    expected_message: Seq<u8>,
) -> Result<(), VerificationError> {
    match spec_claim(variant, data) {
        Err(e) => Err(e),
        Ok((address, message)) => if address == expected_public_key && message
            == expected_message {
            Ok(())
        } else {
            Err(VerificationError::AttestationMismatch)
        },
    }
}

/// Whether the instruction at `target_instruction_index` is an instruction of
/// the trusted precompile that attests the expected key and message.
pub open spec fn spec_check(
    transaction_instructions: Seq<TransactionInstruction>,
    precompile: PrecompileIdentity,
    target_instruction_index: int,
    expected_public_key: Seq<u8>,
    expected_message: Seq<u8>,
) -> Result<(), VerificationError> {
    if !(0 <= target_instruction_index < transaction_instructions.len()) {
        Err(VerificationError::IndexOutOfRange)
    } else if transaction_instructions[target_instruction_index].program_id@
        != precompile.program_id@ {
        Err(VerificationError::WrongProgram)
    } else {
        spec_verify_claim(
            precompile.variant,
            transaction_instructions[target_instruction_index].data@,
            expected_public_key,
            expected_message,
        )
    }
}

/// Reads the single offsets record of a payload, after making sure that the
/// payload is shaped as one self-contained attestation.
pub fn descriptor(data: &[u8]) -> (r: Result<SecpSignatureOffsets, VerificationError>)
    ensures
        r == spec_descriptor(data@),
{
    if data.len() < 2 {
        return Err(VerificationError::TruncatedPayload);
    }
    if data[0] != 1 {
        return Err(VerificationError::UnexpectedDescriptorCount);
    }
    let record = match SecpSignatureOffsets::decode(&data[1..data.len()]) {
        Ok(d) => d,
        Err(e) => {
            return Err(e);
        },
    };
    if !record.is_self_contained() {
        return Err(VerificationError::UnexpectedIndirection);
    }
    Ok(record)
}

/// Borrows the address and the message that a payload of the given shape
/// names.
pub fn claim<'a>(variant: WireVariant, data: &'a [u8]) -> (r: Result<
    (&'a [u8], &'a [u8]),
    VerificationError,
>)
    ensures
        r is Ok <==> spec_claim(variant, data@) is Ok,
        r is Ok ==> (r->Ok_0.0@, r->Ok_0.1@) == spec_claim(variant, data@)->Ok_0,
        r is Err ==> r->Err_0 == spec_claim(variant, data@)->Err_0,
{
    let record = match descriptor(data) {
        Ok(d) => d,
        Err(e) => {
            return Err(e);
        },
    };
    let address = match slice_at(data, record.eth_address_offset, variant.address_width()) {
        Ok(s) => s,
        Err(e) => {
            return Err(e);
        },
    };
    let message = match slice_at(
        data,
        record.message_data_offset,
        record.message_data_size as usize,
    ) {
        Ok(s) => s,
        Err(e) => {
            return Err(e);
        },
    };
    Ok((address, message))
}

/// Borrows the signature, the address and the message out of a payload, with
/// the widths of the shape that the payload is tagged with.
pub fn extract<'a>(payload: &'a PrecompileInstructionPayload) -> (r: Result<
    AttestedSlices<'a>,
    VerificationError,
>)
    ensures
        r is Ok <==> spec_extract(payload.variant, payload.data@) is Ok,
        r is Ok ==> r->Ok_0@ == spec_extract(payload.variant, payload.data@)->Ok_0,
        r is Err ==> r->Err_0 == spec_extract(payload.variant, payload.data@)->Err_0,
{
    let data = payload.data.as_slice();
    let (address, message) = match claim(payload.variant, data) {
        Ok(c) => c,
        Err(e) => {
            return Err(e);
        },
    };
    let record = match descriptor(data) {
        Ok(d) => d,
        Err(e) => {
            return Err(e);
        },
    };
    let signature = match slice_at(
        data,
        record.signature_offset,
        payload.variant.signature_width(),
    ) {
        Ok(s) => s,
        Err(e) => {
            return Err(e);
        },
    };
    Ok(AttestedSlices { signature, address, message })
}

/// Checks that a payload of the given shape attests exactly the expected key
/// and the expected message.
pub fn verify_claim(
    variant: WireVariant,
    data: &[u8],
    expected_public_key: &[u8],
    expected_message: &[u8],
) -> (r: Result<(), VerificationError>)
    ensures
        r == spec_verify_claim(variant, data@, expected_public_key@, expected_message@),
{
    let (address, message) = match claim(variant, data) {
        Ok(c) => c,
        Err(e) => {
            return Err(e);
        },
    };
    if !bytes_equal(address, expected_public_key) {
        return Err(VerificationError::AttestationMismatch);
    }
    if !bytes_equal(message, expected_message) {
        return Err(VerificationError::AttestationMismatch);
    }
    Ok(())
}

/// Checks that the instruction at `target_instruction_index` belongs to the
/// trusted precompile and attests that `expected_public_key` signed exactly
/// `expected_message`.
///
/// The first failing test decides the error: no instruction at the index, an
/// instruction of another program, a payload under two bytes, a count other
/// than one, no room for the record, an instruction index that leaves the
/// carrying instruction, a range that ends beyond the payload, and at last a
/// key or message that differs from the expected one.
pub fn check(
    transaction_instructions: &[TransactionInstruction],
    precompile: &PrecompileIdentity,
    target_instruction_index: usize,
    expected_public_key: &[u8],
    expected_message: &[u8],
) -> (r: Result<(), VerificationError>)
    ensures
        r == spec_check(
            transaction_instructions@,
            *precompile,
            target_instruction_index as int,
            expected_public_key@,
            expected_message@,
        ),
{
    let instruction = match resolve(
        transaction_instructions,
        target_instruction_index,
        InstructionRef::ThisInstruction,
    ) {
        Ok(i) => i,
        Err(e) => {
            return Err(e);
        },
    };
    if !bytes_equal(instruction.program_id.as_slice(), precompile.program_id.as_slice()) {
        return Err(VerificationError::WrongProgram);
    }
    verify_claim(
        precompile.variant,
        instruction.data.as_slice(),
        expected_public_key,
        expected_message,
    )
}

} // verus!
