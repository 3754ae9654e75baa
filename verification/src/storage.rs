//! Content-addressable storage held in memory.
//!
//! Content is kept under its address and never changed in place: storing the
//! same content again is a success that changes nothing, and storing other
//! content under a taken address is refused.

use crate::address::Address;
use crate::bytes::{copy_of, same_bytes};
use vstd::prelude::*;

verus! {

/// Why the storage refused to store.
#[derive(Debug, PartialEq, Eq, Clone, Copy, Structural)]
pub enum StorageError {
    /// Other content is already kept under the address.
    IntegrityViolation,
}

/// One piece of content and the address it is kept under.
struct Stored {
    address: Address,
    content: Vec<u8>,
}

/// A content store in memory.
pub struct MemoryStorage {
    items: Vec<Stored>,
}

/// What a list of stored pieces holds: the later of two pieces under one
/// address counts.
spec fn contents(items: Seq<Stored>) -> Map<Seq<u8>, Seq<u8>>
    decreases items.len(),
{
    if items.len() == 0 {
        Map::empty()
    } else {
        contents(items.drop_last()).insert(items.last().address@, items.last().content@)
    }
}

proof fn lemma_contents_found(items: Seq<Stored>, address: Seq<u8>, at: int)
    requires
        0 <= at < items.len(),
        items[at].address@ == address,
        forall|k: int| at < k < items.len() ==> items[k].address@ != address,
    ensures
        contents(items).dom().contains(address),
        contents(items)[address] == items[at].content@,
    decreases items.len(),
{
    if at < items.len() - 1 {
        lemma_contents_found(items.drop_last(), address, at);
    }
}

proof fn lemma_contents_absent(items: Seq<Stored>, address: Seq<u8>)
    requires
        forall|k: int| 0 <= k < items.len() ==> items[k].address@ != address,
    ensures
        !contents(items).dom().contains(address),
    decreases items.len(),
{
    if items.len() > 0 {
        lemma_contents_absent(items.drop_last(), address);
    }
}

impl View for MemoryStorage {
    type V = Map<Seq<u8>, Seq<u8>>;

    closed spec fn view(&self) -> Map<Seq<u8>, Seq<u8>> {
        contents(self.items@)
    }
}

/// Whether a store that holds `held` takes `content` under `address`: the
/// address is free, or it already keeps this very content.
pub open spec fn accepts(held: Map<Seq<u8>, Seq<u8>>, address: Seq<u8>, content: Seq<u8>) -> bool {
    held.dom().contains(address) ==> held[address] == content
}

impl MemoryStorage {
    /// A store that holds nothing.
    pub fn new() -> (storage: Self)
        ensures
            storage@ == Map::<Seq<u8>, Seq<u8>>::empty(),
    {
        MemoryStorage { items: Vec::new() }
    }

    /// Where the content under `address` is kept, if it is kept.
    fn position(&self, address: &Address) -> (at: Option<usize>)
        ensures
            match at {
                Some(i) => i < self.items@.len() && self@.dom().contains(address@) && self@[address@]
                    == self.items@[i as int].content@,
                None => !self@.dom().contains(address@),
            },
    {
        let mut i: usize = self.items.len();
        while i > 0
            invariant
                i <= self.items@.len(),
                forall|k: int| i <= k < self.items@.len() ==> self.items@[k].address@ != address@,
            decreases i,
        {
            i -= 1;
            if self.items[i].address.same_as(address) {
                proof {
                    lemma_contents_found(self.items@, address@, i as int);
                }
                return Some(i);
            }
        }
        proof {
            lemma_contents_absent(self.items@, address@);
        }
        None
    }

    /// Whether content is kept under `address`.
    pub fn contains(&self, address: &Address) -> (kept: bool)
        ensures
            kept == self@.dom().contains(address@),
    {
        self.position(address).is_some()
    }

    /// A copy of the content kept under `address`, if any is.
    pub fn fetch(&self, address: &Address) -> (content: Option<Vec<u8>>)
        ensures
            match content {
                Some(c) => self@.dom().contains(address@) && c@ == self@[address@],
                None => !self@.dom().contains(address@),
            },
    {
        match self.position(address) {
            Some(i) => Some(copy_of(self.items[i].content.as_slice())),
            None => None,
        }
    }

    /// Whether the store would take `content` under `address`.
    pub fn would_accept(&self, address: &Address, content: &[u8]) -> (accepted: bool)
        ensures
            accepted == accepts(self@, address@, content@),
    {
        match self.position(address) {
            Some(i) => same_bytes(self.items[i].content.as_slice(), content),
            None => true,
        }
    }

    /// Keeps `content` under `address`.
    ///
    /// Where the address is free the content is added. Where it already keeps
    /// the same content nothing changes and the call succeeds. Where it keeps
    /// other content the call fails and nothing changes.
    pub fn store(&mut self, address: &Address, content: &[u8]) -> (result: Result<
        (),
        StorageError,
    >)
        ensures
            accepts(old(self)@, address@, content@) ==> result == Ok::<(), StorageError>(())
                && final(self)@ == old(self)@.insert(address@, content@),
            !accepts(old(self)@, address@, content@) ==> result == Err::<(), StorageError>(
                StorageError::IntegrityViolation,
            ) && final(self)@ == old(self)@,
            old(self)@.dom().contains(address@) ==> final(self)@ == old(self)@,
    {
        match self.position(address) {
            Some(i) => {
                if same_bytes(self.items[i].content.as_slice(), content) {
                    Ok(())
                } else {
                    Err(StorageError::IntegrityViolation)
                }
            },
            None => {
                let piece = Stored { address: address.clone(), content: copy_of(content) };
                self.items.push(piece);
                assert(self.items@.drop_last() =~= old(self).items@);
                Ok(())
            },
        }
    }
}

/// Storing is idempotent: once a store has taken content under an address,
/// it takes the same content there again and is not changed by it, and it
/// refuses any other content under that address.
pub proof fn law_store_is_idempotent(
    held: Map<Seq<u8>, Seq<u8>>,
    address: Seq<u8>,
    content: Seq<u8>,
    other: Seq<u8>,
)
    requires
        accepts(held, address, content),
    ensures
        accepts(held.insert(address, content), address, content),
        held.insert(address, content).insert(address, content) == held.insert(address, content),
        other != content ==> !accepts(held.insert(address, content), address, other),
{
}

} // verus!
