//! The fixed-width offsets record and its byte encoding.
//!
//! The encoding is little-endian and has no padding, so the same eleven bytes
//! decode to the same record on every host. Nothing here judges the field
//! values: whether an index or a range makes sense is for the checker.

use crate::error::VerificationError;
use vstd::prelude::*;

verus! {

/// Width in bytes of an address derived by hashing a public key.
pub const HASHED_PUBKEY_SERIALIZED_SIZE: usize = 20;

/// Width in bytes of one encoded offsets record.
pub const SIGNATURE_OFFSETS_SERIALIZED_SIZE: usize = 11;

/// Instruction index that stands for the instruction carrying the record.
///
/// A platform that reads the index as a position in the transaction agrees
/// with this reading for an instruction that stands first, which is where
/// [`crate::secp256k1::demo_secp256k1`] looks for it.
pub const THIS_INSTRUCTION: u8 = 0;

/// Where the signature, the address and the message of one attestation lie.
#[derive(Clone, Copy, Debug, PartialEq, Eq, Structural)]
pub struct SecpSignatureOffsets {
    /// Byte offset of the signature, recovery byte included.
    pub signature_offset: u16,
    /// Instruction whose payload holds the signature.
    pub signature_instruction_index: u8,
    /// Byte offset of the address or public key.
    pub eth_address_offset: u16,
    /// Instruction whose payload holds the address.
    pub eth_address_instruction_index: u8,
    /// Byte offset of the first message byte.
    pub message_data_offset: u16,
    /// Length of the message in bytes.
    pub message_data_size: u16,
    /// Instruction whose payload holds the message.
    pub message_instruction_index: u8,
}

/// The low byte of a 16-bit value.
pub open spec fn low_byte(x: u16) -> u8 {
    (x % 256) as u8
}

/// The high byte of a 16-bit value.
pub open spec fn high_byte(x: u16) -> u8 {
    (x / 256) as u8
}

/// The 16-bit value whose little-endian encoding is `lo`, `hi`.
pub open spec fn le_u16(lo: u8, hi: u8) -> u16 {
    (lo + 256 * hi) as u16
}

/// The eleven bytes that stand for a record on the wire.
pub open spec fn spec_encode(d: SecpSignatureOffsets) -> Seq<u8> {
    seq![
        low_byte(d.signature_offset),
        high_byte(d.signature_offset),
        d.signature_instruction_index,
        low_byte(d.eth_address_offset),
        high_byte(d.eth_address_offset),
        d.eth_address_instruction_index,
        low_byte(d.message_data_offset),
        high_byte(d.message_data_offset),
        low_byte(d.message_data_size),
        high_byte(d.message_data_size),
        d.message_instruction_index,
    ]
}

/// The record that the first eleven bytes of `bytes` stand for.
pub open spec fn spec_decode(bytes: Seq<u8>) -> SecpSignatureOffsets
    recommends
        bytes.len() >= 11,
{
    SecpSignatureOffsets {
        signature_offset: le_u16(bytes[0], bytes[1]),
        signature_instruction_index: bytes[2],
        eth_address_offset: le_u16(bytes[3], bytes[4]),
        eth_address_instruction_index: bytes[5],
        message_data_offset: le_u16(bytes[6], bytes[7]),
        message_data_size: le_u16(bytes[8], bytes[9]),
        message_instruction_index: bytes[10],
    }
}

/// Splits a 16-bit value into its low and high byte.
fn split_u16(x: u16) -> (r: (u8, u8))
    ensures
        r.0 == low_byte(x),
        r.1 == high_byte(x),
{
    ((x % 256) as u8, (x / 256) as u8)
}

/// Joins a low and a high byte into the 16-bit value they encode.
fn join_u16(lo: u8, hi: u8) -> (x: u16)
    ensures
        x == le_u16(lo, hi),
{
    lo as u16 + 256 * (hi as u16)
}

impl SecpSignatureOffsets {
    /// True when all three instruction indices name the carrying instruction.
    pub open spec fn spec_is_self_contained(&self) -> bool {
        &&& self.signature_instruction_index == THIS_INSTRUCTION
        &&& self.eth_address_instruction_index == THIS_INSTRUCTION
        &&& self.message_instruction_index == THIS_INSTRUCTION
    }

    /// Tells whether the record refers to nothing outside the instruction that
    /// carries it.
    #[verifier::when_used_as_spec(spec_is_self_contained)]
    pub fn is_self_contained(&self) -> (r: bool)
        ensures
            r == self.spec_is_self_contained(),
    {
        self.signature_instruction_index == THIS_INSTRUCTION
            && self.eth_address_instruction_index == THIS_INSTRUCTION
            && self.message_instruction_index == THIS_INSTRUCTION
    }

    /// Writes the record in its wire form. Every record encodes.
    pub fn encode(&self) -> (bytes: [u8; 11])
        ensures
            bytes@ == spec_encode(*self),
    {
        let (s0, s1) = split_u16(self.signature_offset);
        let (a0, a1) = split_u16(self.eth_address_offset);
        let (m0, m1) = split_u16(self.message_data_offset);
        let (n0, n1) = split_u16(self.message_data_size);
        let bytes: [u8; 11] = [
            s0,
            s1,
            self.signature_instruction_index,
            a0,
            a1,
            self.eth_address_instruction_index,
            m0,
            m1,
            n0,
            n1,
            self.message_instruction_index,
        ];
        assert(bytes@ =~= spec_encode(*self));
        bytes
    }

    /// Reads a record from the first eleven bytes of `bytes`. Fails exactly
    /// when fewer than eleven bytes are given; what the fields hold never
    /// makes it fail, and bytes after the eleventh are not looked at.
    pub fn decode(bytes: &[u8]) -> (r: Result<SecpSignatureOffsets, VerificationError>)
        ensures
            bytes@.len() < 11 <==> r == Err::<SecpSignatureOffsets, VerificationError>(
                VerificationError::MalformedOffsets,
            ),
            bytes@.len() >= 11 <==> r == Ok::<SecpSignatureOffsets, VerificationError>(
                spec_decode(bytes@),
            ),
    {
        if bytes.len() < SIGNATURE_OFFSETS_SERIALIZED_SIZE {
            return Err(VerificationError::MalformedOffsets);
        }
        Ok(
            SecpSignatureOffsets {
                signature_offset: join_u16(bytes[0], bytes[1]),
                signature_instruction_index: bytes[2],
                eth_address_offset: join_u16(bytes[3], bytes[4]),
                eth_address_instruction_index: bytes[5],
                message_data_offset: join_u16(bytes[6], bytes[7]),
                message_data_size: join_u16(bytes[8], bytes[9]),
                message_instruction_index: bytes[10],
            },
        )
    }
}

/// Splitting a 16-bit value into bytes and joining them gives the value back.
pub proof fn lemma_join_split(x: u16)
    ensures
        le_u16(low_byte(x), high_byte(x)) == x,
{
}

/// Joining two bytes and splitting the result gives the bytes back.
pub proof fn lemma_split_join(lo: u8, hi: u8)
    ensures
        low_byte(le_u16(lo, hi)) == lo,
        high_byte(le_u16(lo, hi)) == hi,
{
}

/// Decoding the encoding of a record gives the record back.
pub proof fn lemma_decode_encode(d: SecpSignatureOffsets)
    ensures
        spec_encode(d).len() == 11,
        spec_decode(spec_encode(d)) == d,
{
    lemma_join_split(d.signature_offset);
    lemma_join_split(d.eth_address_offset);
    lemma_join_split(d.message_data_offset);
    lemma_join_split(d.message_data_size);
}

/// Encoding a decoded record gives back the eleven bytes it was read from.
pub proof fn lemma_encode_decode(bytes: Seq<u8>)
    requires
        bytes.len() >= 11,
    ensures
        spec_encode(spec_decode(bytes)) == bytes.subrange(0, 11),
{
    lemma_split_join(bytes[0], bytes[1]);
    lemma_split_join(bytes[3], bytes[4]);
    lemma_split_join(bytes[6], bytes[7]);
    lemma_split_join(bytes[8], bytes[9]);
    assert(spec_encode(spec_decode(bytes)) =~= bytes.subrange(0, 11));
}

/// Decoding looks at the first eleven bytes only.
pub proof fn lemma_decode_prefix(a: Seq<u8>, b: Seq<u8>)
    requires
        a.len() >= 11,
        b.len() >= 11,
        a.subrange(0, 11) == b.subrange(0, 11),
    ensures
        spec_decode(a) == spec_decode(b),
{
    assert forall|i: int| 0 <= i < 11 implies a[i] == b[i] by {
        assert(a[i] == a.subrange(0, 11)[i]);
        assert(b[i] == b.subrange(0, 11)[i]);
    }
}

} // verus!
