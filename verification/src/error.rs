//! Why an append fails.

use vstd::prelude::*;

verus! {

/// The failures that end an append. None is retried, and none makes the
/// engine change to the other entropy source.
#[derive(Debug, Clone, Copy, PartialEq, Eq, Structural)]
pub enum SealError {
    /// The remote entropy service could not be reached, or what it sent is
    /// not JSON.
    EntropyFetchFailed,
    /// The service answered with JSON that has no array of unsigned
    /// sixteen-bit numbers under `data`.
    EntropyParseFailed,
    /// A nonce log or the metrics log could not be written.
    LogWriteFailed,
    /// The record handed in for appending does not extend the ledger.
    BlockRejected,
}

impl SealError {
    /// The text that describes the failure.
    pub open spec fn spec_message(self) -> Seq<char> {
        match self {
            SealError::EntropyFetchFailed => "Failed to fetch QRNG numbers"@,
            SealError::EntropyParseFailed => "Failed to parse QRNG numbers"@,
            SealError::LogWriteFailed => "Failed to write log"@,
            SealError::BlockRejected => "Block does not extend the chain"@,
        }
    }

    /// A one-line description for the user.
    pub fn message(&self) -> (text: String)
        ensures
            text@ == self.spec_message(),
    {
        match self {
            SealError::EntropyFetchFailed => String::from_str("Failed to fetch QRNG numbers"),
            SealError::EntropyParseFailed => String::from_str("Failed to parse QRNG numbers"),
            SealError::LogWriteFailed => String::from_str("Failed to write log"),
            SealError::BlockRejected => String::from_str("Block does not extend the chain"),
        }
    }
}

} // verus!
