//! Account addresses and their textual spellings.
use vstd::prelude::*;

use crate::wallet::ton_interop::{address_of_text, parse_ton_address};

verus! {

/// A TON network.
#[derive(Clone, Copy, Debug, PartialEq, Eq, Structural)]
pub enum Network {
    Mainnet,
    Testnet,
}

/// A raw account address: a workchain and the 32-byte hash of the
/// account's initial state.
#[derive(Clone, Debug)]
pub struct AccountAddress {
    pub workchain: i32,
    pub hash: Vec<u8>,
}

impl View for AccountAddress {
    type V = (int, Seq<u8>);

    open spec fn view(&self) -> (int, Seq<u8>) {
        (self.workchain as int, self.hash@)
    }
}

impl AccountAddress {
    /// Whether two addresses name the same account.
    pub fn same_account(&self, other: &AccountAddress) -> (r: bool)
        ensures
            r == (self@ == other@),
    {
        if self.workchain != other.workchain || self.hash.len() != other.hash.len() {
            assert(self.hash@.len() != other.hash@.len() ==> self.hash@ != other.hash@);
            return false;
        }
        let n = self.hash.len();
        let mut i: usize = 0;
        while i < n
            invariant
                n == self.hash@.len(),
                n == other.hash@.len(),
                i <= n,
                forall|j: int| 0 <= j < i ==> self.hash@[j] == other.hash@[j],
            decreases n - i,
        {
            if self.hash[i] != other.hash[i] {
                return false;
            }
            i = i + 1;
        }
        assert(self.hash@ =~= other.hash@);
        true
    }
}

/// The address spelling was not a TON address.
#[derive(Clone, Copy, Debug, PartialEq, Eq, Structural)]
pub struct AddressParseError;

/// A TON address as the user spelled it, together with the account it names.
#[derive(Clone, Debug)]
pub struct TonAddressString {
    text: String,
    address: AccountAddress,
}

impl TonAddressString {
    /// The spelling this address was made from.
    pub closed spec fn text(&self) -> Seq<char> {
        self.text@
    }

    /// The account this spelling names.
    pub closed spec fn address(&self) -> (int, Seq<u8>) {
        self.address@
    }

    /// Reads a user-friendly or raw address spelling.
    pub fn parse(text: String) -> (r: Result<TonAddressString, AddressParseError>)
        ensures
            r is Ok <==> address_of_text(text@) is Some,
            r matches Ok(a) ==> a.text() == text@ && Some(a.address()) == address_of_text(text@),
    {
        match parse_ton_address(text.as_str()) {
            Ok(address) => Ok(TonAddressString { text, address }),
            Err(_) => Err(AddressParseError),
        }
    }

    /// The spelling, as given.
    pub fn as_str(&self) -> (r: &str)
        ensures
            r@ == self.text(),
    {
        self.text.as_str()
    }

    /// The account this spelling names.
    pub fn as_address(&self) -> (r: &AccountAddress)
        ensures
            r@ == self.address(),
    {
        &self.address
    }
}

} // verus!
