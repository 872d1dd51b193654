//! The calls this library makes into the `ton` crate. Each trusted item
//! below states only what the crate's source shows of the call it makes.
use vstd::prelude::*;
use std::str::FromStr;
use ton::block_tlb::StateInit;
use ton::ton_core::cell::{TonCell, TonHash};
use ton::ton_core::errors::TonCoreError;
use ton::ton_core::traits::tlb::TLB;
use ton::ton_core::types::TonAddress;
use ton::ton_wallet::{
    WalletV1V2Data, WalletV3Data, WalletV4Data, WalletV5Data, WalletVersion,
    WALLET_ID_DEFAULT, WALLET_V5R1_ID_DEFAULT, WALLET_V5R1_ID_DEFAULT_TESTNET,
};

use crate::domain::address::AccountAddress;

verus! {

#[verifier::external_type_specification]
#[verifier::external_body]
pub struct ExTonCell(TonCell);

#[verifier::external_type_specification]
#[verifier::external_body]
pub struct ExTonHash(TonHash);

#[verifier::external_type_specification]
#[verifier::external_body]
pub struct ExTonCoreError(TonCoreError);

/// The standard wallet contracts whose code the `ton` crate ships and whose
/// initial data this library can rebuild from a public key.
#[derive(Clone, Copy, Debug, PartialEq, Eq, Structural)]
pub enum WalletKind {
    V1R1,
    V1R2,
    V1R3,
    V2R1,
    V2R2,
    V3R1,
    V3R2,
    V4R1,
    V4R2,
    V5R1,
}

/// The initial persistent data of a freshly deployed standard wallet:
/// sequence number zero, the given wallet ID and public key, no plugins or
/// extensions, and (for V5) signing allowed.
pub enum InitialData {
    V1V2 { key: Seq<u8> },
    V3 { wallet_id: int, key: Seq<u8> },
    V4 { wallet_id: int, key: Seq<u8> },
    V5 { wallet_id: int, key: Seq<u8> },
}

/// A public key in the `ton` crate's 32-byte hash type, with the bytes it holds.
pub struct KeyHash {
    hash: TonHash,
    bytes: Ghost<Seq<u8>>,
}

impl KeyHash {
    pub closed spec fn bytes(&self) -> Seq<u8> {
        self.bytes@
    }
}

/// A wallet code cell, with the wallet kind it is the code of.
pub struct CodeCell {
    cell: TonCell,
    kind: Ghost<WalletKind>,
}

impl CodeCell {
    pub closed spec fn kind(&self) -> WalletKind {
        self.kind@
    }
}

/// A wallet data cell, with the initial data it encodes.
pub struct DataCell {
    cell: TonCell,
    content: Ghost<InitialData>,
}

impl DataCell {
    pub closed spec fn content(&self) -> InitialData {
        self.content@
    }
}

/// The representation hash of the state init made of the code cell of
/// `kind` and the data cell of `data`, as computed by `StateInit::derive_address`.
pub uninterp spec fn state_init_hash(kind: WalletKind, data: InitialData) -> Seq<u8>;

/// The address that `TonAddress::from_str` reads from `text`, as a
/// workchain and an account hash; `None` where it refuses the text.
pub uninterp spec fn address_of_text(text: Seq<char>) -> Option<(int, Seq<u8>)>;

/// `ton_wallet::WALLET_ID_DEFAULT`, the default wallet ID of V3 and V4 wallets.
pub open spec fn spec_wallet_id_default() -> i32 {
    0x29a9a317
}

/// `ton_wallet::WALLET_V5R1_ID_DEFAULT`, the default V5 wallet ID on mainnet.
pub open spec fn spec_v5_id_default_mainnet() -> i32 {
    0x7FFFFF11
}

/// `ton_wallet::WALLET_V5R1_ID_DEFAULT_TESTNET`, the default V5 wallet ID on testnet.
pub open spec fn spec_v5_id_default_testnet() -> i32 {
    0x7FFFFFFD
}

/// Reads `ton_wallet::WALLET_ID_DEFAULT`; the crate defines it as `0x29a9a317`.
#[verifier::external_body]
pub(crate) fn wallet_id_default() -> (r: i32)
    ensures
        r == spec_wallet_id_default(),
{
    WALLET_ID_DEFAULT
}

/// Reads `ton_wallet::WALLET_V5R1_ID_DEFAULT`; the crate defines it as `0x7FFFFF11`.
#[verifier::external_body]
pub(crate) fn v5_id_default_mainnet() -> (r: i32)
    ensures
        r == spec_v5_id_default_mainnet(),
{
    WALLET_V5R1_ID_DEFAULT
}

/// Reads `ton_wallet::WALLET_V5R1_ID_DEFAULT_TESTNET`; the crate defines it as `0x7FFFFFFD`.
#[verifier::external_body]
pub(crate) fn v5_id_default_testnet() -> (r: i32)
    ensures
        r == spec_v5_id_default_testnet(),
{
    WALLET_V5R1_ID_DEFAULT_TESTNET
}

/// `TonHash::from_slice`: the source converts the slice to a 32-byte array,
/// so it succeeds exactly on 32-byte input and then holds those bytes.
#[verifier::external_body]
pub(crate) fn ton_hash_from_slice(data: &[u8]) -> (r: Result<KeyHash, TonCoreError>)
    ensures
        r is Ok <==> data@.len() == 32,
        r matches Ok(h) ==> h.bytes() == data@,
{
    match TonHash::from_slice(data) {
        Ok(hash) => Ok(KeyHash { hash, bytes: Ghost(data@) }),
        Err(e) => Err(e),
    }
}

/// `WalletV1V2Data::new(key).to_cell()`: the cell of V1/V2 initial data. The
/// layout is a few hundred bits with no references, well inside one cell,
/// so the builder never refuses it.
#[verifier::external_body]
pub(crate) fn v1v2_data_cell(key: &KeyHash) -> (r: Result<DataCell, TonCoreError>)
    ensures
        r is Ok,
        r matches Ok(c) ==> c.content() == (InitialData::V1V2 { key: key.bytes() }),
{
    match WalletV1V2Data::new(key.hash.clone()).to_cell() {
        Ok(cell) => Ok(DataCell { cell, content: Ghost(InitialData::V1V2 { key: key.bytes() }) }),
        Err(e) => Err(e),
    }
}

/// `WalletV3Data::new(wallet_id, key).to_cell()`: the cell of V3 initial data,
/// which always fits one cell (at most one absent reference), so it always builds.
#[verifier::external_body]
pub(crate) fn v3_data_cell(wallet_id: i32, key: &KeyHash) -> (r: Result<DataCell, TonCoreError>)
    ensures
        r is Ok,
        r matches Ok(c) ==> c.content() == (InitialData::V3 { wallet_id: wallet_id as int, key: key.bytes() }),
{
    match WalletV3Data::new(wallet_id, key.hash.clone()).to_cell() {
        Ok(cell) => Ok(DataCell {
            cell,
            content: Ghost(InitialData::V3 { wallet_id: wallet_id as int, key: key.bytes() }),
        }),
        Err(e) => Err(e),
    }
}

/// `WalletV4Data::new(wallet_id, key).to_cell()`: the cell of V4 initial data,
/// which always fits one cell (at most one absent reference), so it always builds.
#[verifier::external_body]
pub(crate) fn v4_data_cell(wallet_id: i32, key: &KeyHash) -> (r: Result<DataCell, TonCoreError>)
    ensures
        r is Ok,
        r matches Ok(c) ==> c.content() == (InitialData::V4 { wallet_id: wallet_id as int, key: key.bytes() }),
{
    match WalletV4Data::new(wallet_id, key.hash.clone()).to_cell() {
        Ok(cell) => Ok(DataCell {
            cell,
            content: Ghost(InitialData::V4 { wallet_id: wallet_id as int, key: key.bytes() }),
        }),
        Err(e) => Err(e),
    }
}

/// `WalletV5Data::new(wallet_id, key).to_cell()`: the cell of V5 initial data,
/// which always fits one cell (at most one absent reference), so it always builds.
#[verifier::external_body]
pub(crate) fn v5_data_cell(wallet_id: i32, key: &KeyHash) -> (r: Result<DataCell, TonCoreError>)
    ensures
        r is Ok,
        r matches Ok(c) ==> c.content() == (InitialData::V5 { wallet_id: wallet_id as int, key: key.bytes() }),
{
    match WalletV5Data::new(wallet_id, key.hash.clone()).to_cell() {
        Ok(cell) => Ok(DataCell {
            cell,
            content: Ghost(InitialData::V5 { wallet_id: wallet_id as int, key: key.bytes() }),
        }),
        Err(e) => Err(e),
    }
}

/// `WalletVersion::get_code`: the crate's code table holds a cell for every
/// wallet version, so the lookup always succeeds with the code of `kind`.
#[verifier::external_body]
pub(crate) fn wallet_code(kind: WalletKind) -> (r: Result<CodeCell, TonCoreError>)
    ensures
        r is Ok,
        r matches Ok(c) ==> c.kind() == kind,
{
    let version = match kind {
        WalletKind::V1R1 => WalletVersion::V1R1, WalletKind::V1R2 => WalletVersion::V1R2,
        WalletKind::V1R3 => WalletVersion::V1R3, WalletKind::V2R1 => WalletVersion::V2R1,
        WalletKind::V2R2 => WalletVersion::V2R2, WalletKind::V3R1 => WalletVersion::V3R1,
        WalletKind::V3R2 => WalletVersion::V3R2, WalletKind::V4R1 => WalletVersion::V4R1,
        WalletKind::V4R2 => WalletVersion::V4R2, WalletKind::V5R1 => WalletVersion::V5R1,
    };
    match WalletVersion::get_code(version) {
        Ok(cell) => Ok(CodeCell { cell: cell.clone(), kind: Ghost(kind) }),
        Err(e) => Err(e),
    }
}

/// `StateInit::new(code, data).derive_address(workchain)`: the source
/// returns `TonAddress::new(workchain, hash)` where `hash` is the cell hash
/// (named `state_init_hash`, 32 bytes) of a five-bit ordinary cell with two
/// references to shipped wallet code and a data cell, which always builds
/// and hashes.
#[verifier::external_body]
pub(crate) fn derive_state_init_address(
    code: &CodeCell,
    data: &DataCell,
    workchain: i32,
) -> (r: Result<AccountAddress, TonCoreError>)
    ensures
        r is Ok,
        r matches Ok(a) ==> {
            &&& a.workchain == workchain
            &&& a.hash@ == state_init_hash(code.kind(), data.content())
            &&& a.hash@.len() == 32
        },
{
    match StateInit::new(code.cell.clone(), data.cell.clone()).derive_address(workchain) {
        Ok(address) => Ok(AccountAddress { workchain: address.workchain, hash: address.hash.as_slice().to_vec() }),
        Err(e) => Err(e),
    }
}

/// `TonAddress::from_str`: reads a user-friendly (48 characters) or raw
/// (`workchain:hex`) spelling; the result is named `address_of_text`, and
/// its hash has the 32 bytes of a `TonHash`.
#[verifier::external_body]
pub(crate) fn parse_ton_address(text: &str) -> (r: Result<AccountAddress, TonCoreError>)
    ensures
        r is Ok <==> address_of_text(text@) is Some,
        r matches Ok(a) ==> Some(a@) == address_of_text(text@) && a.hash@.len() == 32,
{
    match TonAddress::from_str(text) {
        Ok(address) => Ok(AccountAddress { workchain: address.workchain, hash: address.hash.as_slice().to_vec() }),
        Err(e) => Err(e),
    }
}

} // verus!
