//! The state that every stage of authoring works on.

use crate::address::Address;
use crate::chain::{holds_entry, ChainHeader, HeaderView, SourceChain};
use crate::storage::{accepts, MemoryStorage, StorageError};
use vstd::prelude::*;

verus! {

/// The local state of one agent: who it is, its source chain, the store that
/// keeps what the chain holds, and its share of the distributed store.
pub struct Context {
    agent: Address,
    chain: SourceChain,
    chain_storage: MemoryStorage,
    dht_storage: MemoryStorage,
}

/// What a context holds.
pub struct ContextView {
    /// The agent's address.
    pub agent: Seq<u8>,
    /// The headers of the source chain, oldest first.
    pub chain: Seq<HeaderView>,
    /// The content kept for the chain, by address.
    pub chain_storage: Map<Seq<u8>, Seq<u8>>,
    /// The content held for the network, by address.
    pub dht_storage: Map<Seq<u8>, Seq<u8>>,
}

impl View for Context {
    type V = ContextView;

    closed spec fn view(&self) -> ContextView {
        ContextView {
            agent: self.agent@,
            chain: self.chain@,
            chain_storage: self.chain_storage@,
            dht_storage: self.dht_storage@,
        }
    }
}

/// Whether `address` names a committed entry that can be retrieved: a header
/// of the chain names it and the chain's store keeps its content.
pub open spec fn resolves(context: ContextView, address: Seq<u8>) -> bool {
    holds_entry(context.chain, address) && context.chain_storage.dom().contains(address)
}

impl Context {
    /// The state of an agent that has not committed or held anything yet.
    pub fn new(agent: Address) -> (context: Self)
        ensures
            context@ == (ContextView {
                agent: agent@,
                chain: Seq::empty(),
                chain_storage: Map::empty(),
                dht_storage: Map::empty(),
            }),
    {
        Context {
            agent,
            chain: SourceChain::new(),
            chain_storage: MemoryStorage::new(),
            dht_storage: MemoryStorage::new(),
        }
    }

    /// The state of an agent, put together from its persisted parts.
    pub fn restore(
        agent: Address,
        chain: SourceChain,
        chain_storage: MemoryStorage,
        dht_storage: MemoryStorage,
    ) -> (context: Self)
        ensures
            context@ == (ContextView {
                agent: agent@,
                chain: chain@,
                chain_storage: chain_storage@,
                dht_storage: dht_storage@,
            }),
    {
        Context { agent, chain, chain_storage, dht_storage }
    }

    /// The agent's address.
    pub fn agent(&self) -> (agent: &Address)
        ensures
            agent@ == self@.agent,
    {
        &self.agent
    }

    /// The source chain.
    pub fn chain(&self) -> (chain: &SourceChain)
        ensures
            chain@ == self@.chain,
    {
        &self.chain
    }

    /// The store that keeps what the chain holds.
    pub fn chain_storage(&self) -> (storage: &MemoryStorage)
        ensures
            storage@ == self@.chain_storage,
    {
        &self.chain_storage
    }

    /// The agent's share of the distributed store.
    pub fn dht_storage(&self) -> (storage: &MemoryStorage)
        ensures
            storage@ == self@.dht_storage,
    {
        &self.dht_storage
    }

    /// Keeps `content` under `address` and its header's content under the
    /// header's address, and then appends the header to the chain.
    pub(crate) fn record(
        &mut self,
        address: &Address,
        content: &[u8],
        header: ChainHeader,
        header_address: &Address,
        header_content: &[u8],
    )
        requires
            accepts(old(self)@.chain_storage, address@, content@),
            accepts(
                old(self)@.chain_storage.insert(address@, content@),
                header_address@,
                header_content@,
            ),
        ensures
            final(self)@ == (ContextView {
                chain: old(self)@.chain.push(header@),
                chain_storage: old(self)@.chain_storage.insert(address@, content@).insert(
                    header_address@,
                    header_content@,
                ),
                ..old(self)@
            }),
    {
        let _ = self.chain_storage.store(address, content);
        let _ = self.chain_storage.store(header_address, header_content);
        self.chain.append(header);
    }

    /// Keeps `content` under `address` in the agent's share of the
    /// distributed store, if the store takes it.
    pub(crate) fn hold(&mut self, address: &Address, content: &[u8]) -> (result: Result<
        (),
        StorageError,
    >)
        ensures
            accepts(old(self)@.dht_storage, address@, content@) ==> result == Ok::<
                (),
                StorageError,
            >(()) && final(self)@ == (ContextView {
                dht_storage: old(self)@.dht_storage.insert(address@, content@),
                ..old(self)@
            }),
            !accepts(old(self)@.dht_storage, address@, content@) ==> result == Err::<
                (),
                StorageError,
            >(StorageError::IntegrityViolation) && final(self)@ == old(self)@,
    {
        self.dht_storage.store(address, content)
    }

    /// Whether `address` names a committed entry that can be retrieved.
    pub fn resolves(&self, address: &Address) -> (found: bool)
        ensures
            found == resolves(self@, address@),
    {
        self.chain.contains_entry(address) && self.chain_storage.contains(address)
    }
}

} // verus!
