//! What the builder and the checker guarantee together, stated over their
//! specifications and proved once for all inputs.

use crate::bytes::spec_in_bounds;
use crate::checker::{
    spec_check, spec_claim, spec_descriptor, spec_extract, spec_verify_claim, AttestedBytes,
    PrecompileIdentity,
};
use crate::error::VerificationError;
use crate::indirection::spec_well_formed;
use crate::offsets::{lemma_decode_encode, lemma_decode_prefix, spec_decode, spec_encode};
use crate::payload::{
    spec_layout, spec_payload, SignatureMaterial, TransactionInstruction, WireVariant,
    MAX_MESSAGE_SIZE,
};
use vstd::prelude::*;

verus! {

/// A built payload starts with a count of one and the record of its layout,
/// which names the carrying instruction throughout.
pub proof fn lemma_built_descriptor(material: SignatureMaterial, message: Seq<u8>)
    requires
        message.len() <= MAX_MESSAGE_SIZE,
    ensures
        spec_payload(material, message).len() == 12
            + material.spec_variant().spec_signature_width()
            + material.spec_variant().spec_address_width() + message.len(),
        spec_descriptor(spec_payload(material, message)) == Ok::<_, VerificationError>(
            spec_layout(material.spec_variant(), message.len() as int),
        ),
{
    broadcast use vstd::array::group_array_axioms;

    let variant = material.spec_variant();
    let record = spec_layout(variant, message.len() as int);
    let data = spec_payload(material, message);
    lemma_decode_encode(record);
    assert(material.spec_signature().len() == variant.spec_signature_width());
    assert(material.spec_address().len() == variant.spec_address_width());
    assert(data[0] == 1u8);
    let rest = data.subrange(1, data.len() as int);
    assert(rest.subrange(0, 11) =~= spec_encode(record));
    assert(spec_encode(record).subrange(0, 11) =~= spec_encode(record));
    lemma_decode_prefix(rest, spec_encode(record));
}

/// The record of a built payload keeps its invariant in every transaction
/// that carries the payload, at whatever position.
pub proof fn lemma_built_record_well_formed(
    material: SignatureMaterial,
    message: Seq<u8>,
    transaction_instructions: Seq<TransactionInstruction>,
    carrier: int,
)
    requires
        message.len() <= MAX_MESSAGE_SIZE,
        0 <= carrier < transaction_instructions.len(),
        transaction_instructions[carrier].data@ == spec_payload(material, message),
    ensures
        spec_well_formed(
            spec_layout(material.spec_variant(), message.len() as int),
            material.spec_variant(),
            transaction_instructions,
            carrier,
        ),
{
    lemma_built_descriptor(material, message);
}

/// Round trip: reading a built payload back, with the shape it was built in,
/// yields the signature, the address and the message it was built from, byte
/// for byte.
pub proof fn lemma_round_trip(material: SignatureMaterial, message: Seq<u8>)
    requires
        message.len() <= MAX_MESSAGE_SIZE,
    ensures
        spec_extract(material.spec_variant(), spec_payload(material, message)) == Ok::<
            _,
            VerificationError,
        >(
            AttestedBytes {
                signature: material.spec_signature(),
                address: material.spec_address(),
                message,
            },
        ),
        spec_claim(material.spec_variant(), spec_payload(material, message)) == Ok::<
            _,
            VerificationError,
        >((material.spec_address(), message)),
{
    broadcast use vstd::array::group_array_axioms;

    lemma_built_descriptor(material, message);
    let variant = material.spec_variant();
    let data = spec_payload(material, message);
    let sw = variant.spec_signature_width() as int;
    let aw = variant.spec_address_width() as int;
    assert(material.spec_signature().len() == sw);
    assert(material.spec_address().len() == aw);
    assert(data.subrange(12, 12 + sw) =~= material.spec_signature());
    assert(data.subrange(12 + sw, 12 + sw + aw) =~= material.spec_address());
    assert(data.subrange(12 + sw + aw, 12 + sw + aw + message.len()) =~= message);
}

/// A built payload is accepted for exactly the address and the message it
/// was built from; every other claim is refused as a mismatch.
pub proof fn lemma_built_payload_binds(
    material: SignatureMaterial,
    message: Seq<u8>,
    expected_public_key: Seq<u8>,
    expected_message: Seq<u8>,
)
    requires
        message.len() <= MAX_MESSAGE_SIZE,
    ensures
        spec_verify_claim(
            material.spec_variant(),
            spec_payload(material, message),
            expected_public_key,
            expected_message,
        ) == if expected_public_key == material.spec_address() && expected_message == message {
            Ok::<(), VerificationError>(())
        } else {
            Err::<(), VerificationError>(VerificationError::AttestationMismatch)
        },
{
    lemma_round_trip(material, message);
}

/// Whatever is read out of a payload has the widths of the shape it was read
/// in, and a message as long as the record says.
pub proof fn lemma_extracted_widths(variant: WireVariant, data: Seq<u8>)
    requires
        spec_extract(variant, data) is Ok,
    ensures
        spec_extract(variant, data)->Ok_0.signature.len() == variant.spec_signature_width(),
        spec_extract(variant, data)->Ok_0.address.len() == variant.spec_address_width(),
        spec_extract(variant, data)->Ok_0.message.len() == spec_descriptor(
            data,
        )->Ok_0.message_data_size,
{
}

/// Width separation: a payload read in one shape never satisfies a claim
/// whose key has another width, whatever the payload holds.
pub proof fn lemma_other_width_refused(
    variant: WireVariant,
    data: Seq<u8>,
    expected_public_key: Seq<u8>,
    expected_message: Seq<u8>,
)
    requires
        expected_public_key.len() != variant.spec_address_width(),
    ensures
        spec_verify_claim(variant, data, expected_public_key, expected_message) is Err,
{
}

/// Width separation for built payloads: material of one shape, checked
/// against a key as wide as the other shape's address, is refused as a
/// mismatch.
pub proof fn lemma_built_other_shape_refused(
    material: SignatureMaterial,
    message: Seq<u8>,
    other: WireVariant,
    expected_public_key: Seq<u8>,
    expected_message: Seq<u8>,
)
    requires
        message.len() <= MAX_MESSAGE_SIZE,
        other != material.spec_variant(),
        expected_public_key.len() == other.spec_address_width(),
    ensures
        spec_verify_claim(
            material.spec_variant(),
            spec_payload(material, message),
            expected_public_key,
            expected_message,
        ) == Err::<(), VerificationError>(VerificationError::AttestationMismatch),
{
    broadcast use vstd::array::group_array_axioms;

    lemma_built_payload_binds(material, message, expected_public_key, expected_message);
    assert(material.spec_address().len() == material.spec_variant().spec_address_width());
}

/// Boundary: once the header is in order and the address lies within the
/// payload, the message range decides alone. A range that ends exactly at the
/// end of the payload is accepted, and one that ends beyond it, by a single
/// byte or more, is out of bounds. The ends are compared as mathematical
/// integers, so the largest offset and size cannot wrap.
pub proof fn lemma_message_boundary(variant: WireVariant, data: Seq<u8>)
    requires
        spec_descriptor(data) is Ok,
        spec_in_bounds(
            spec_descriptor(data)->Ok_0.eth_address_offset as int,
            variant.spec_address_width() as int,
            data.len() as int,
        ),
    ensures
        spec_descriptor(data)->Ok_0.message_data_offset + spec_descriptor(
            data,
        )->Ok_0.message_data_size <= data.len() <==> spec_claim(variant, data) is Ok,
        spec_descriptor(data)->Ok_0.message_data_offset + spec_descriptor(
            data,
        )->Ok_0.message_data_size > data.len() ==> spec_claim(variant, data) == Err::<
            (Seq<u8>, Seq<u8>),
            VerificationError,
        >(VerificationError::OffsetOutOfBounds),
        spec_claim(variant, data) is Ok ==> spec_claim(variant, data)->Ok_0.1.len()
            == spec_descriptor(data)->Ok_0.message_data_size,
{
}

/// Tamper detection: take a payload that is accepted for a key and a message,
/// leave its length and its first twelve bytes as they are, and change at
/// least one byte inside the message range. The result is still well formed
/// and is refused as a mismatch.
pub proof fn lemma_tamper_detected(
    variant: WireVariant,
    data: Seq<u8>,
    tampered: Seq<u8>,
    position: int,
    expected_public_key: Seq<u8>,
    expected_message: Seq<u8>,
)
    requires
        spec_verify_claim(variant, data, expected_public_key, expected_message) is Ok,
        tampered.len() == data.len(),
        tampered.subrange(0, 12) == data.subrange(0, 12),
        spec_descriptor(data)->Ok_0.message_data_offset <= position < spec_descriptor(
            data,
        )->Ok_0.message_data_offset + spec_descriptor(data)->Ok_0.message_data_size,
        tampered[position] != data[position],
    ensures
        spec_descriptor(tampered) == spec_descriptor(data),
        spec_claim(variant, tampered) is Ok,
        spec_verify_claim(variant, tampered, expected_public_key, expected_message) == Err::<
            (),
            VerificationError,
        >(VerificationError::AttestationMismatch),
{
    assert(spec_descriptor(data) is Ok);
    assert(tampered[0] == tampered.subrange(0, 12)[0]);
    assert(data[0] == data.subrange(0, 12)[0]);
    let rest = data.subrange(1, data.len() as int);
    let tampered_rest = tampered.subrange(1, tampered.len() as int);
    assert(rest.subrange(0, 11) =~= tampered_rest.subrange(0, 11)) by {
        assert forall|i: int| 0 <= i < 11 implies rest[i] == tampered_rest[i] by {
            assert(data[i + 1] == data.subrange(0, 12)[i + 1]);
            assert(tampered[i + 1] == tampered.subrange(0, 12)[i + 1]);
        }
    }
    lemma_decode_prefix(rest, tampered_rest);
    let d = spec_descriptor(data)->Ok_0;
    let start = d.message_data_offset as int;
    let size = d.message_data_size as int;
    let message = data.subrange(start, start + size);
    let tampered_message = tampered.subrange(start, start + size);
    assert(message[position - start] == data[position]);
    assert(tampered_message[position - start] == tampered[position]);
    assert(message == expected_message);
}

/// Tamper detection, seen from the transaction: where an instruction was
/// accepted, the same instruction with a changed message byte, and with its
/// header and length as they were, is refused as a mismatch.
pub proof fn lemma_tampered_instruction_refused(
    transaction_instructions: Seq<TransactionInstruction>,
    tampered_instructions: Seq<TransactionInstruction>,
    precompile: PrecompileIdentity,
    target_instruction_index: int,
    position: int,
    expected_public_key: Seq<u8>,
    expected_message: Seq<u8>,
)
    requires
        spec_check(
            transaction_instructions,
            precompile,
            target_instruction_index,
            expected_public_key,
            expected_message,
        ) is Ok,
        target_instruction_index < tampered_instructions.len(),
        tampered_instructions[target_instruction_index].program_id
            == transaction_instructions[target_instruction_index].program_id,
        tampered_instructions[target_instruction_index].data@.len()
            == transaction_instructions[target_instruction_index].data@.len(),
        tampered_instructions[target_instruction_index].data@.subrange(0, 12)
            == transaction_instructions[target_instruction_index].data@.subrange(0, 12),
        spec_descriptor(
            transaction_instructions[target_instruction_index].data@,
        )->Ok_0.message_data_offset <= position < spec_descriptor(
            transaction_instructions[target_instruction_index].data@,
        )->Ok_0.message_data_offset + spec_descriptor(
            transaction_instructions[target_instruction_index].data@,
        )->Ok_0.message_data_size,
        tampered_instructions[target_instruction_index].data@[position]
            != transaction_instructions[target_instruction_index].data@[position],
    ensures
        spec_check(
            tampered_instructions,
            precompile,
            target_instruction_index,
            expected_public_key,
            expected_message,
        ) == Err::<(), VerificationError>(VerificationError::AttestationMismatch),
{
    lemma_tamper_detected(
        precompile.variant,
        transaction_instructions[target_instruction_index].data@,
        tampered_instructions[target_instruction_index].data@,
        position,
        expected_public_key,
        expected_message,
    );
}

/// Index confusion: an instruction that does not carry the trusted
/// precompile's identity is refused as belonging to the wrong program,
/// whatever its payload holds.
pub proof fn lemma_wrong_program_refused(
    transaction_instructions: Seq<TransactionInstruction>,
    precompile: PrecompileIdentity,
    target_instruction_index: int,
    expected_public_key: Seq<u8>,
    expected_message: Seq<u8>,
)
    requires
        0 <= target_instruction_index < transaction_instructions.len(),
        transaction_instructions[target_instruction_index].program_id@ != precompile.program_id@,
    ensures
        spec_check(
            transaction_instructions,
            precompile,
            target_instruction_index,
            expected_public_key,
            expected_message,
        ) == Err::<(), VerificationError>(VerificationError::WrongProgram),
{
}

/// Acceptance means all of it: the index names an instruction, that
/// instruction carries the trusted identity, its payload holds a count of one
/// and a self-contained record, both ranges lie within the payload, and the
/// bytes in them are the expected key and the expected message.
pub proof fn lemma_accepted_means_bound(
    transaction_instructions: Seq<TransactionInstruction>,
    precompile: PrecompileIdentity,
    target_instruction_index: int,
    expected_public_key: Seq<u8>,
    expected_message: Seq<u8>,
)
    ensures
        spec_check(
            transaction_instructions,
            precompile,
            target_instruction_index,
            expected_public_key,
            expected_message,
        ) is Ok <==> {
            &&& 0 <= target_instruction_index < transaction_instructions.len()
            &&& transaction_instructions[target_instruction_index].program_id@
                == precompile.program_id@
            &&& {
                let data = transaction_instructions[target_instruction_index].data@;
                let record = spec_decode(data.subrange(1, data.len() as int));
                &&& data.len() >= 12
                &&& data[0] == 1
                &&& record.spec_is_self_contained()
                &&& expected_public_key.len() == precompile.variant.spec_address_width()
                &&& expected_message.len() == record.message_data_size
                &&& record.eth_address_offset + expected_public_key.len() <= data.len()
                &&& record.message_data_offset + expected_message.len() <= data.len()
                &&& data.subrange(
                    record.eth_address_offset as int,
                    record.eth_address_offset + expected_public_key.len(),
                ) == expected_public_key
                &&& data.subrange(
                    record.message_data_offset as int,
                    record.message_data_offset + expected_message.len(),
                ) == expected_message
            }
        },
{
}

/// Building and checking agree: an instruction made of a built payload and
/// the trusted identity is accepted for the address and the message it was
/// built from, and refused as a mismatch for any other claim.
pub proof fn lemma_built_instruction_checks(
    material: SignatureMaterial,
    message: Seq<u8>,
    transaction_instructions: Seq<TransactionInstruction>,
    precompile: PrecompileIdentity,
    target_instruction_index: int,
    expected_public_key: Seq<u8>,
    expected_message: Seq<u8>,
)
    requires
        message.len() <= MAX_MESSAGE_SIZE,
        0 <= target_instruction_index < transaction_instructions.len(),
        precompile.variant == material.spec_variant(),
        transaction_instructions[target_instruction_index].program_id@ == precompile.program_id@,
        transaction_instructions[target_instruction_index].data@ == spec_payload(
            material,
            message,
        ),
    ensures
        spec_check(
            transaction_instructions,
            precompile,
            target_instruction_index,
            expected_public_key,
            expected_message,
        ) == if expected_public_key == material.spec_address() && expected_message == message {
            Ok::<(), VerificationError>(())
        } else {
            Err::<(), VerificationError>(VerificationError::AttestationMismatch)
        },
{
    lemma_built_payload_binds(material, message, expected_public_key, expected_message);
}

} // verus!
