//! Wallet engine: recipient key binding for encrypted comments and the
//! decision logic of signed-transfer preparation.
use vstd::prelude::*;

pub mod domain;
pub mod engine;
pub mod wallet;

pub use domain::address::{AccountAddress, AddressParseError, Network, TonAddressString};
pub use domain::encrypted_comment::{Boc, CreateEncryptedCommentRequest, DecryptCommentRequest};
pub use engine::prepare_transfer::{
    AccountSnapshot, InvalidAmount, PreparationAction, PreparedTransfer, ProtectedSecretRead,
    SecretAccessReason, TransferPreparation,
};
pub use engine::state::{AccountStatus, WalletClient, WalletClientError};
pub use wallet::encrypted_comment::EncryptedCommentError;
pub use wallet::recipient_public_key::{
    decide_rev00, recipient_among, v5_workchain_id, verify_recipient_public_key,
};

verus! {

} // verus!
