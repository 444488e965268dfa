//! Framing of signature attestations carried by precompile instructions.
//!
//! A precompile instruction holds a one-byte count, a table of offset records
//! and the signed material those records point at. This crate encodes and
//! decodes the offset record, assembles a complete payload for one attested
//! `(signature, address, message)` triple, and lets a consuming program confirm
//! that the instruction at a given position of its transaction attests the key
//! and message it expects.
//!
//! - [`offsets`]: the offsets record and its eleven-byte encoding.
//! - [`payload`]: the two wire shapes and the builder of a payload.
//! - [`checker`]: reading a payload back and checking it against a claim.
//! - [`indirection`]: which instruction a record points into.
//! - [`guarantees`]: what builder and checker guarantee together, proved.
//! - [`secp256k1`]: the on-chain entry, on top of the platform's library.
//! - [`system_test`], [`sysvar_instruction`], [`account`]: requests that the
//!   on-chain program serves besides, before they are serialized.
//! - [`bytes`], [`error`]: byte ranges and the refusals.

pub mod account;
pub mod bytes;
pub mod checker;
pub mod error;
pub mod guarantees;
pub mod indirection;
pub mod offsets;
pub mod payload;
pub mod secp256k1;
pub mod system_test;
pub mod sysvar_instruction;
