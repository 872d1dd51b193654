//! Requests for TON encrypted transfer comments.
use vstd::prelude::*;

use crate::domain::address::TonAddressString;

verus! {

/// A complete cell encoded as a Base64 bag of cells.
#[derive(Clone, Debug)]
pub struct Boc {
    base64: String,
}

impl Boc {
    /// Wraps a Base64 BOC.
    pub fn new(base64: String) -> (b: Boc)
        ensures
            b.text() == base64@,
    {
        Boc { base64 }
    }

    pub closed spec fn text(&self) -> Seq<char> {
        self.base64@
    }

    /// The Base64 text.
    pub fn as_str(&self) -> (r: &str)
        ensures
            r@ == self.text(),
    {
        self.base64.as_str()
    }
}

/// Requests a ready-to-send TON encrypted-comment body.
///
/// The engine uses the supplied recipient public key or loads it from chain
/// state, then asks the platform host to authorize access to this wallet's
/// protected mnemonic.
#[derive(Clone, Debug)]
pub struct CreateEncryptedCommentRequest {
    /// Recipient wallet address. Must expose `get_public_key` when no key is supplied.
    pub recipient: TonAddressString,
    /// UTF-8 comment to encrypt. Its encoded form must not exceed 960 bytes.
    pub comment: String,
    /// Optional 32-byte Ed25519 public key used instead of an on-chain lookup.
    ///
    /// The caller must verify that this key belongs to `recipient`; the engine
    /// does not check the key against the address.
    pub recipient_public_key: Option<Vec<u8>>,
}

/// Requests explicit decryption of one encrypted-comment message body.
#[derive(Clone, Debug)]
pub struct DecryptCommentRequest {
    /// Address that sent the encrypted comment.
    ///
    /// TON binds this bounceable, URL-safe, non-test-only address to the
    /// authentication tag. For an incoming activity item this is its
    /// `counterparty`.
    pub sender: TonAddressString,
    /// Complete message-body cell encoded as a Base64 BOC.
    pub body: Boc,
}

} // verus!
