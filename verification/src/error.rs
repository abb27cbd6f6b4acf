//! The ways an escrow operation can fail.

use vstd::prelude::*;
use vstd::string::StringExecFns;

verus! {

/// Every failure aborts the operation it belongs to and leaves the store as
/// it was.
#[derive(Clone, Copy, Debug, PartialEq, Eq, Structural)]
pub enum EscrowError {
    /// The commitment identifier or the secret is not Base58 text.
    MalformedEncoding,
    /// The digest of the secret is not the commitment.
    InvalidProof,
    /// The table of the requested kind holds no record under the identifier.
    UnknownCommitment,
    /// The kind is none of native, non-fungible, fungible.
    UnsupportedKind,
    /// The store exists already.
    AlreadyInitialized,
}

impl EscrowError {
    /// The text of `message`.
    pub open spec fn message_text(self) -> Seq<char> {
        match self {
            EscrowError::MalformedEncoding => "Malformed encoding"@,
            EscrowError::InvalidProof => "Incorrect key"@,
            EscrowError::UnknownCommitment => "Unknown commitment"@,
            EscrowError::UnsupportedKind => "Unsupported kind"@,
            EscrowError::AlreadyInitialized => "Already initialized"@,
        }
    }

    /// A short description of the failure, to abort the operation with.
    pub fn message(&self) -> (text: String)
        ensures
            text@ == self.message_text(),
    {
        match self {
            EscrowError::MalformedEncoding => String::from_str("Malformed encoding"),
            EscrowError::InvalidProof => String::from_str("Incorrect key"),
            EscrowError::UnknownCommitment => String::from_str("Unknown commitment"),
            EscrowError::UnsupportedKind => String::from_str("Unsupported kind"),
            EscrowError::AlreadyInitialized => String::from_str("Already initialized"),
        }
    }
}

} // verus!
