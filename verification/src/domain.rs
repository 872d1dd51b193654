//! Plain values shared by the wallet engine.
use vstd::prelude::*;

pub mod address;
pub mod encrypted_comment;

verus! {

} // verus!
