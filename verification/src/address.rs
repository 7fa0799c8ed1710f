//! Account addresses: 32 raw bytes on the wire, base-58 text for callers.

use crate::base58::{bs58_decode, bs58_encode, decoded, encoded, lemma_decode_encode};
use vstd::prelude::*;

verus! {

/// The number of bytes in an account address.
pub const ADDRESS_LEN: usize = 32;

/// An account address.
#[derive(Clone, Copy, Debug, PartialEq, Eq)]
pub struct Address {
    pub bytes: [u8; 32],
}

/// Why a text is not an account address.
#[derive(Clone, Copy, Debug, PartialEq, Eq)]
pub enum AddressError {
    /// The text holds a character outside the base-58 alphabet.
    NotBase58,
    /// The text stands for a byte string of another length than 32.
    WrongLength,
}

impl View for Address {
    type V = Seq<u8>;

    open spec fn view(&self) -> Seq<u8> {
        self.bytes@
    }
}

/// `text` is the base-58 text of some account address.
pub open spec fn is_address_text(text: Seq<char>) -> bool {
    decoded(text) matches Some(bytes) && bytes.len() == ADDRESS_LEN
}

/// The reason for which a text that is no address text is none.
pub open spec fn address_error(text: Seq<char>) -> AddressError {
    if decoded(text) is None {
        AddressError::NotBase58
    } else {
        AddressError::WrongLength
    }
}

/// Whether two byte strings are equal.
fn bytes_equal(left: &[u8], right: &[u8]) -> (equal: bool)
    ensures
        equal == (left@ == right@),
{
    if left.len() != right.len() {
        return false;
    }
    let mut i: usize = 0;
    while i < left.len()
        invariant
            i <= left@.len(),
            left@.len() == right@.len(),
            forall|j: int| 0 <= j < i ==> left@[j] == right@[j],
        decreases left@.len() - i,
    {
        if left[i] != right[i] {
            return false;
        }
        i += 1;
    }
    assert(left@ =~= right@);
    true
}

impl Address {
    /// The address with the given bytes.
    pub fn new(bytes: [u8; 32]) -> (address: Address)
        ensures
            address@ == bytes@,
    {
        Address { bytes }
    }

    /// The address that `bytes` holds, if `bytes` has the length of one.
    pub fn from_slice(bytes: &[u8]) -> (address: Option<Address>)
        ensures
            match address {
                Some(address) => address@ == bytes@,
                None => bytes@.len() != ADDRESS_LEN,
            },
    {
        if bytes.len() != ADDRESS_LEN {
            return None;
        }
        let mut out: [u8; 32] = [0u8; 32];
        let mut i: usize = 0;
        while i < ADDRESS_LEN
            invariant
                i <= ADDRESS_LEN,
                bytes@.len() == ADDRESS_LEN,
                forall|j: int| 0 <= j < i ==> out@[j] == bytes@[j],
            decreases ADDRESS_LEN - i,
        {
            out[i] = bytes[i];
            i += 1;
        }
        Some(Address { bytes: out })
    }

    /// The address that a base-58 text stands for.
    pub fn from_base58(text: &str) -> (address: Result<Address, AddressError>)
        ensures
            match address {
                Ok(address) => decoded(text@) == Some(address@),
                Err(error) => !is_address_text(text@) && error == address_error(text@),
            },
    {
        match bs58_decode(text) {
            Ok(bytes) => match Address::from_slice(bytes.as_slice()) {
                Some(address) => Ok(address),
                None => Err(AddressError::WrongLength),
            },
            Err(_) => Err(AddressError::NotBase58),
        }
    }

    /// The bytes of the address.
    pub fn as_bytes(&self) -> (bytes: &[u8])
        ensures
            bytes@ == self@,
    {
        self.bytes.as_slice()
    }

    /// The base-58 text of the address.
    pub fn to_base58(&self) -> (text: String)
        ensures
            text@ == encoded(self@),
    {
        bs58_encode(self.bytes.as_slice())
    }

    /// Whether `key` holds the bytes of this address.
    pub fn is_key(&self, key: &[u8]) -> (same: bool)
        ensures
            same == (key@ == self@),
    {
        bytes_equal(self.bytes.as_slice(), key)
    }
}

/// The base-58 text of an address is an address text, and stands for the
/// bytes of that address.
pub proof fn lemma_address_round_trip(address: Address)
    ensures
        is_address_text(encoded(address@)),
        decoded(encoded(address@)) == Some(address@),
{
    lemma_decode_encode(address@);
}

} // verus!
