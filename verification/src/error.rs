//! The failures of the codecs.

use vstd::prelude::*;

verus! {

/// Why an encoding or a decoding did not produce a value.
///
/// Every failure is handed back to the caller; nothing here is retried.
#[derive(Debug, Clone, Copy, PartialEq, Eq, Structural)]
pub enum ArchiveError {
    /// Timestamp arithmetic left the range that the target can represent.
    EncodingRange,
    /// The buffer does not have the length that the layout asks for: `found`
    /// bytes were given where `expected` are needed.
    TruncatedBuffer { expected: usize, found: usize },
    /// The `len` bytes at `offset` do not hold a value of the field's valid set.
    MalformedBuffer { offset: usize, len: usize },
}

impl ArchiveError {
    /// The text shown to a user for each kind of failure.
    pub open spec fn spec_message(self) -> Seq<char> {
        match self {
            ArchiveError::EncodingRange => "time out of range"@,
            ArchiveError::TruncatedBuffer { .. } => "buffer is truncated"@,
            ArchiveError::MalformedBuffer { .. } => "buffer is malformed"@,
        }
    }

    /// A short description of the failure.
    pub fn message(&self) -> (text: String)
        ensures
            text@ == self.spec_message(),
    {
        match self {
            ArchiveError::EncodingRange => "time out of range".to_owned(),
            ArchiveError::TruncatedBuffer { .. } => "buffer is truncated".to_owned(),
            ArchiveError::MalformedBuffer { .. } => "buffer is malformed".to_owned(),
        }
    }
}

} // verus!
