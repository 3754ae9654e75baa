//! Addresses: the identity of content and of agents.

use crate::bytes::{copy_of, same_bytes};
use crate::hash::{content_address, hash_content};
use vstd::prelude::*;
use vstd::string::StringSliceAdditionalSpecFns;

verus! {

/// An address is a byte string. The address of content is computed from the
/// content and never stored beside it; an agent's address is its public key.
#[derive(Debug, PartialEq, Eq)]
pub struct Address {
    bytes: Vec<u8>,
}

impl View for Address {
    type V = Seq<u8>;

    closed spec fn view(&self) -> Seq<u8> {
        self.bytes@
    }
}

impl Clone for Address {
    fn clone(&self) -> (copy: Self)
        ensures
            copy@ == self@,
    {
        Address { bytes: copy_of(self.bytes.as_slice()) }
    }
}

impl Address {
    /// The address made of `bytes`.
    pub fn new(bytes: Vec<u8>) -> (address: Self)
        ensures
            address@ == bytes@,
    {
        Address { bytes }
    }

    /// The address written as `text`, in UTF-8.
    pub fn from_text(text: &str) -> (address: Self)
        ensures
            address@ == text.spec_bytes(),
    {
        Address { bytes: copy_of(text.as_bytes()) }
    }

    /// The address under which `content` is stored: the hexadecimal form of
    /// its SHA-256 digest.
    pub fn of_content(content: &[u8]) -> (address: Self)
        ensures
            address@ == content_address(content@),
    {
        Address { bytes: hash_content(content) }
    }

    /// The bytes of the address.
    pub fn as_bytes(&self) -> (bytes: &[u8])
        ensures
            bytes@ == self@,
    {
        self.bytes.as_slice()
    }

    /// Whether this is the same address as `other`.
    pub fn same_as(&self, other: &Address) -> (same: bool)
        ensures
            same == (self@ == other@),
    {
        same_bytes(self.bytes.as_slice(), other.bytes.as_slice())
    }

    /// Whether the address has no bytes at all.
    pub fn is_empty(&self) -> (empty: bool)
        ensures
            empty == (self@.len() == 0),
    {
        self.bytes.len() == 0
    }
}

/// The address that an optional address holds, if any.
pub open spec fn optional_address(address: Option<Address>) -> Option<Seq<u8>> {
    match address {
        Some(a) => Some(a@),
        None => None,
    }
}

/// A copy of an optional address.
pub fn copy_optional(address: &Option<Address>) -> (copy: Option<Address>)
    ensures
        optional_address(copy) == optional_address(*address),
{
    match address {
        Some(a) => Some(a.clone()),
        None => None,
    }
}

/// Whether two optional addresses are both absent or the same address.
pub fn same_optional(a: &Option<Address>, b: &Option<Address>) -> (same: bool)
    ensures
        same == (optional_address(*a) == optional_address(*b)),
{
    match (a, b) {
        (None, None) => true,
        (Some(x), Some(y)) => x.same_as(y),
        _ => false,
    }
}

} // verus!
