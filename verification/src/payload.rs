//! Assembling the payload of a precompile instruction for one attestation.
//!
//! The payload is a count byte, one offsets record, and then the signature,
//! the address and the message, in that order. Every instruction index of the
//! record names the carrying instruction, so the payload resolves against
//! itself.

use crate::error::VerificationError;
use crate::offsets::{
    spec_encode, SecpSignatureOffsets, HASHED_PUBKEY_SERIALIZED_SIZE, THIS_INSTRUCTION,
};
use vstd::prelude::*;

verus! {

/// Offset of the first byte after the count byte and the offsets record.
pub const DATA_START: usize = 12;

/// Largest message length that the message-size field can express.
pub const MAX_MESSAGE_SIZE: usize = 65535;

/// The two wire shapes. They differ in the width of the address field and are
/// not compatible with one another.
#[derive(Clone, Copy, Debug, PartialEq, Eq, Structural)]
pub enum WireVariant {
    /// The signer is named by a 20-byte address hashed from its public key,
    /// and the signature carries a trailing recovery byte.
    HashedAddress,
    /// The signer is named by its raw 32-byte public key.
    RawPublicKey,
}

impl WireVariant {
    /// Width in bytes of the address field.
    pub open spec fn spec_address_width(&self) -> usize {
        match self {
            WireVariant::HashedAddress => HASHED_PUBKEY_SERIALIZED_SIZE,
            WireVariant::RawPublicKey => 32,
        }
    }

    /// Width in bytes of the address field.
    #[verifier::when_used_as_spec(spec_address_width)]
    pub fn address_width(&self) -> (w: usize)
        ensures
            w == self.spec_address_width(),
    {
        match self {
            WireVariant::HashedAddress => HASHED_PUBKEY_SERIALIZED_SIZE,
            WireVariant::RawPublicKey => 32,
        }
    }

    /// Width in bytes of the signature field.
    pub open spec fn spec_signature_width(&self) -> usize {
        match self {
            WireVariant::HashedAddress => 65,
            WireVariant::RawPublicKey => 64,
        }
    }

    /// Width in bytes of the signature field.
    #[verifier::when_used_as_spec(spec_signature_width)]
    pub fn signature_width(&self) -> (w: usize)
        ensures
            w == self.spec_signature_width(),
    {
        match self {
            WireVariant::HashedAddress => 65,
            WireVariant::RawPublicKey => 64,
        }
    }
}

/// A signature together with the identity of its signer, in one of the two
/// wire shapes. The shape fixes both widths, so no value of this type can
/// carry an address of the other shape's width.
#[derive(Clone, Copy, Debug)]
pub enum SignatureMaterial {
    /// A recoverable signature and the hashed address of its signer.
    HashedAddress { signature: [u8; 65], address: [u8; 20] },
    /// A signature and the raw public key of its signer.
    RawPublicKey { signature: [u8; 64], public_key: [u8; 32] },
}

impl SignatureMaterial {
    /// The wire shape this material is in.
    pub open spec fn spec_variant(&self) -> WireVariant {
        match self {
            SignatureMaterial::HashedAddress { .. } => WireVariant::HashedAddress,
            SignatureMaterial::RawPublicKey { .. } => WireVariant::RawPublicKey,
        }
    }

    /// The signature bytes.
    pub open spec fn spec_signature(&self) -> Seq<u8> {
        match self {
            SignatureMaterial::HashedAddress { signature, .. } => signature@,
            SignatureMaterial::RawPublicKey { signature, .. } => signature@,
        }
    }

    /// The address or public key bytes.
    pub open spec fn spec_address(&self) -> Seq<u8> {
        match self {
            SignatureMaterial::HashedAddress { address, .. } => address@,
            SignatureMaterial::RawPublicKey { public_key, .. } => public_key@,
        }
    }

    /// The wire shape this material is in.
    #[verifier::when_used_as_spec(spec_variant)]
    pub fn variant(&self) -> (v: WireVariant)
        ensures
            v == self.spec_variant(),
    {
        match self {
            SignatureMaterial::HashedAddress { .. } => WireVariant::HashedAddress,
            SignatureMaterial::RawPublicKey { .. } => WireVariant::RawPublicKey,
        }
    }

    /// The signature bytes, as wide as the shape prescribes.
    pub fn signature(&self) -> (s: &[u8])
        ensures
            s@ == self.spec_signature(),
            s@.len() == self.spec_variant().spec_signature_width(),
    {
        match self {
            SignatureMaterial::HashedAddress { signature, .. } => signature.as_slice(),
            SignatureMaterial::RawPublicKey { signature, .. } => signature.as_slice(),
        }
    }

    /// The address or public key bytes, as wide as the shape prescribes.
    pub fn address(&self) -> (a: &[u8])
        ensures
            a@ == self.spec_address(),
            a@.len() == self.spec_variant().spec_address_width(),
    {
        match self {
            SignatureMaterial::HashedAddress { address, .. } => address.as_slice(),
            SignatureMaterial::RawPublicKey { public_key, .. } => public_key.as_slice(),
        }
    }
}

/// The payload of a precompile instruction, tagged with the wire shape it was
/// built in so that whoever reads it never has to guess the address width.
#[derive(Clone, Debug)]
pub struct PrecompileInstructionPayload {
    /// The wire shape of the payload.
    pub variant: WireVariant,
    /// The bytes as they travel in the instruction.
    pub data: Vec<u8>,
}

/// One instruction of a transaction: the identity of the program it is
/// addressed to and its raw payload.
#[derive(Clone, Debug)]
pub struct TransactionInstruction {
    /// Identity of the program that the instruction is addressed to.
    pub program_id: [u8; 32],
    /// The raw payload of the instruction.
    pub data: Vec<u8>,
}

impl PrecompileInstructionPayload {
    /// Wraps the payload into an instruction addressed to `program_id`, ready
    /// to be placed in a transaction.
    pub fn into_instruction(self, program_id: [u8; 32]) -> (i: TransactionInstruction)
        ensures
            i.program_id == program_id,
            i.data == self.data,
    {
        TransactionInstruction { program_id, data: self.data }
    }
}

/// The offsets record that the builder writes for a message of `message_len`
/// bytes: signature, address and message follow one another from
/// [`DATA_START`] on, all in the carrying instruction.
pub open spec fn spec_layout(variant: WireVariant, message_len: int) -> SecpSignatureOffsets
    recommends
        0 <= message_len <= MAX_MESSAGE_SIZE,
{
    SecpSignatureOffsets {
        signature_offset: DATA_START as u16,
        signature_instruction_index: THIS_INSTRUCTION,
        eth_address_offset: (DATA_START + variant.spec_signature_width()) as u16,
        eth_address_instruction_index: THIS_INSTRUCTION,
        message_data_offset: (DATA_START + variant.spec_signature_width()
            + variant.spec_address_width()) as u16,
        message_data_size: message_len as u16,
        message_instruction_index: THIS_INSTRUCTION,
    }
}

/// The bytes of the payload that attests `material` over `message`.
pub open spec fn spec_payload(material: SignatureMaterial, message: Seq<u8>) -> Seq<u8> {
    seq![1u8] + spec_encode(spec_layout(material.spec_variant(), message.len() as int))
        + material.spec_signature() + material.spec_address() + message
}

/// Appends the bytes of `tail` to `out`.
fn append(out: &mut Vec<u8>, tail: &[u8])
    ensures
        final(out)@ == old(out)@ + tail@,
{
    let ghost before = out@;
    let mut i: usize = 0;
    while i < tail.len()
        invariant
            i <= tail@.len(),
            out@ == before + tail@.subrange(0, i as int),
        decreases tail@.len() - i,
    {
        out.push(tail[i]);
        assert(out@ =~= before + tail@.subrange(0, i + 1));
        i += 1;
    }
    assert(tail@.subrange(0, i as int) =~= tail@);
}

/// The offsets record that the builder writes for a message of `message_len`
/// bytes.
pub fn layout(variant: WireVariant, message_len: u16) -> (d: SecpSignatureOffsets)
    ensures
        d == spec_layout(variant, message_len as int),
        d.spec_is_self_contained(),
{
    let signature_offset: usize = DATA_START;
    let address_offset: usize = signature_offset + variant.signature_width();
    let message_offset: usize = address_offset + variant.address_width();
    SecpSignatureOffsets {
        signature_offset: signature_offset as u16,
        signature_instruction_index: THIS_INSTRUCTION,
        eth_address_offset: address_offset as u16,
        eth_address_instruction_index: THIS_INSTRUCTION,
        message_data_offset: message_offset as u16,
        message_data_size: message_len,
        message_instruction_index: THIS_INSTRUCTION,
    }
}

/// Builds the payload that attests `material` over `message`.
///
/// Fails, with [`VerificationError::UnsupportedMessageSize`], exactly when the
/// message is longer than [`MAX_MESSAGE_SIZE`] bytes. Otherwise the payload
/// carries the shape of `material` and the bytes of [`spec_payload`].
pub fn build_payload(material: &SignatureMaterial, message: &[u8]) -> (r: Result<
    PrecompileInstructionPayload,
    VerificationError,
>)
    ensures
        message@.len() > MAX_MESSAGE_SIZE <==> r is Err,
        r is Err ==> r->Err_0 == VerificationError::UnsupportedMessageSize,
        r is Ok ==> r->Ok_0.variant == material.spec_variant(),
        r is Ok ==> r->Ok_0.data@ == spec_payload(*material, message@),
{
    if message.len() > MAX_MESSAGE_SIZE {
        return Err(VerificationError::UnsupportedMessageSize);
    }
    let variant = material.variant();
    let record = layout(variant, message.len() as u16).encode();
    let mut data: Vec<u8> = Vec::new();
    data.push(1u8);
    append(&mut data, record.as_slice());
    append(&mut data, material.signature());
    append(&mut data, material.address());
    append(&mut data, message);
    Ok(PrecompileInstructionPayload { variant, data })
}

} // verus!
