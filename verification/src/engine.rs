//! The wallet client: its shared state and the decisions of transfer preparation.
use vstd::prelude::*;

pub mod prepare_transfer;
pub mod state;

verus! {

} // verus!
