//! Errors of encrypted-comment preparation.
use vstd::prelude::*;

verus! {

/// Why an encrypted comment could not be prepared.
#[derive(Clone, Copy, Debug, PartialEq, Eq, Structural)]
pub enum EncryptedCommentError {
    /// A cell or address could not be built or hashed.
    CellEncoding,
    /// The supplied public key does not belong to the recipient address.
    RecipientPublicKeyMismatch,
}

} // verus!
