use vstd::prelude::*;

verus! {

/// Every way in which building or checking an attestation can be refused.
#[derive(Clone, Copy, Debug, PartialEq, Eq, Structural)]
pub enum VerificationError {
    /// The bytes handed to the offsets decoder are shorter than one record.
    MalformedOffsets,
    /// The message is longer than the message-size field can express.
    UnsupportedMessageSize,
    /// The transaction has no instruction at the requested position.
    IndexOutOfRange,
    /// The instruction at the requested position belongs to another program.
    WrongProgram,
    /// The instruction payload is shorter than two bytes.
    TruncatedPayload,
    /// The payload announces a number of records other than one.
    UnexpectedDescriptorCount,
    /// A record points into an instruction other than the one that carries it.
    UnexpectedIndirection,
    /// A referenced byte range ends beyond the payload.
    OffsetOutOfBounds,
    /// The attested key or message differs from the expected one.
    AttestationMismatch,
}

impl VerificationError {
    /// True for the refusals that the builder and the codec raise before any
    /// transaction exists; the caller may correct the input and try again.
    pub open spec fn spec_is_recoverable(self) -> bool {
        self == VerificationError::MalformedOffsets || self
            == VerificationError::UnsupportedMessageSize
    }

    /// Tells whether the caller can recover by correcting the input. The
    /// refusals raised while a transaction executes are fatal to it.
    #[verifier::when_used_as_spec(spec_is_recoverable)]
    pub fn is_recoverable(self) -> (r: bool)
        ensures
            r == self.spec_is_recoverable(),
    {
        match self {
            VerificationError::MalformedOffsets => true,
            VerificationError::UnsupportedMessageSize => true,
            _ => false,
        }
    }
}

} // verus!
