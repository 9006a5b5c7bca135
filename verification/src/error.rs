//! The failures a caller can be handed, and how they are grouped.

use vstd::prelude::*;

verus! {

/// Every way an operation of this library can fail.
#[derive(Clone, Copy, Debug, PartialEq, Eq, Structural)]
pub enum TransferError {
    /// The requested ring does not exist or is not supported.
    InvalidParameters,
    /// Key or ciphertext bytes do not read as a key or a ciphertext of the
    /// active ring.
    DeserializationError,
    /// A value is tagged with other scheme parameters than the active ones,
    /// or two ciphertexts do not fit together.
    ParameterMismatchError,
    /// The amount could not be encoded or encrypted.
    EncryptionFailure,
    /// The isolated machine faulted, or its output is unreadable.
    ExecutionFailure,
    /// The run finished but no proof could be produced for it.
    ProofGenerationFailure,
    /// The proof was rejected.
    VerificationFailure,
    /// The proof carries no usable description of the run.
    MetadataExtractionFailure,
}

/// Who is to blame for a [`TransferError`].
#[derive(Clone, Copy, Debug, PartialEq, Eq, Structural)]
pub enum ErrorClass {
    /// The caller supplied malformed or incompatible input.
    CallerFault,
    /// The computation on this side did not complete.
    ComputationFailed,
    /// A receipt was examined and turned down.
    ReceiptRejected,
}

impl TransferError {
    /// The class of this error.
    pub open spec fn spec_class(self) -> ErrorClass {
        match self {
            TransferError::InvalidParameters => ErrorClass::CallerFault,
            TransferError::DeserializationError => ErrorClass::CallerFault,
            TransferError::ParameterMismatchError => ErrorClass::CallerFault,
            TransferError::EncryptionFailure => ErrorClass::ComputationFailed,
            TransferError::ExecutionFailure => ErrorClass::ComputationFailed,
            TransferError::ProofGenerationFailure => ErrorClass::ComputationFailed,
            TransferError::MetadataExtractionFailure => ErrorClass::ComputationFailed,
            TransferError::VerificationFailure => ErrorClass::ReceiptRejected,
        }
    }

    /// The numeric code reported for this error.
    pub open spec fn spec_code(self) -> u16 {
        match self {
            TransferError::InvalidParameters => 1,
            TransferError::DeserializationError => 2,
            TransferError::ParameterMismatchError => 3,
            TransferError::EncryptionFailure => 4,
            TransferError::ExecutionFailure => 5,
            TransferError::ProofGenerationFailure => 6,
            TransferError::VerificationFailure => 7,
            TransferError::MetadataExtractionFailure => 8,
        }
    }

    /// Tells a caller's mistake from a failed computation and from a rejected
    /// receipt.
    pub fn class(&self) -> (c: ErrorClass)
        ensures
            c == self.spec_class(),
    {
        match self {
            TransferError::InvalidParameters
            | TransferError::DeserializationError
            | TransferError::ParameterMismatchError => ErrorClass::CallerFault,
            TransferError::EncryptionFailure
            | TransferError::ExecutionFailure
            | TransferError::ProofGenerationFailure
            | TransferError::MetadataExtractionFailure => ErrorClass::ComputationFailed,
            TransferError::VerificationFailure => ErrorClass::ReceiptRejected,
        }
    }

    /// A code that identifies the kind of failure, never zero.
    pub fn code(&self) -> (c: u16)
        ensures
            c == self.spec_code(),
            c != 0,
    {
        match self {
            TransferError::InvalidParameters => 1,
            TransferError::DeserializationError => 2,
            TransferError::ParameterMismatchError => 3,
            TransferError::EncryptionFailure => 4,
            TransferError::ExecutionFailure => 5,
            TransferError::ProofGenerationFailure => 6,
            TransferError::VerificationFailure => 7,
            TransferError::MetadataExtractionFailure => 8,
        }
    }
}

/// Two errors with the same code are the same error.
pub proof fn lemma_code_identifies_error(a: TransferError, b: TransferError)
    requires
        a.spec_code() == b.spec_code(),
    ensures
        a == b,
{
}

} // verus!
