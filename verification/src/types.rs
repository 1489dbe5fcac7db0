//! Plain values of the chain: addresses, hashes, byte strings, logs.

use vstd::prelude::*;

verus! {

/// Address of an account: 20 bytes.
#[derive(Debug, Clone, Copy, PartialEq, Eq, Hash)]
pub struct Address(pub [u8; 20]);

/// A hash, a storage slot or a log topic: 32 bytes.
#[derive(Debug, Clone, Copy, PartialEq, Eq, Hash)]
pub struct H256(pub [u8; 32]);

/// A byte string of any length.
#[derive(Debug, Clone, PartialEq, Eq)]
pub struct Bytes(pub Vec<u8>);

/// One entry of an access list: an account and the slots of it that the
/// transaction declares.
#[derive(Debug, Clone, PartialEq, Eq)]
pub struct AccessListItem {
    pub address: Address,
    pub storage_keys: Vec<H256>,
}

/// The access list of a transaction.
#[derive(Debug, Clone, PartialEq, Eq)]
pub struct AccessList(pub Vec<AccessListItem>);

/// A log that a contract emitted.
#[derive(Debug, Clone, PartialEq, Eq)]
pub struct Log {
    pub address: Address,
    pub topics: Vec<H256>,
    pub data: Bytes,
}

impl Bytes {
    /// The empty byte string.
    pub fn new() -> (r: Bytes)
        ensures
            r.0@ == Seq::<u8>::empty(),
    {
        Bytes(Vec::new())
    }
}

impl AccessList {
    /// The list without entries.
    pub fn new() -> (r: AccessList)
        ensures
            r.0@ == Seq::<AccessListItem>::empty(),
    {
        AccessList(Vec::new())
    }
}

} // verus!
