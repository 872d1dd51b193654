//! Wallet-contract knowledge: binding a public key to a wallet address.
use vstd::prelude::*;

pub mod encrypted_comment;
pub mod recipient_public_key;
pub mod ton_interop;

verus! {

} // verus!
