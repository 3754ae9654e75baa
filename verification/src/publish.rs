//! The publisher, and its counterpart on the receiving side.
//!
//! Publishing announces a committed entry to the network. Sending is the
//! transport's work: the publisher prepares the announcement and says what
//! the transport's answer means. Every peer that is responsible for the
//! address, the author among them, then holds the entry in its share of the
//! distributed store.

use crate::address::Address;
use crate::context::{resolves, Context, ContextView};
use crate::entry::{canonical_form, entry_address};
use crate::error::{HoldFailure, PublishFailure};
use crate::storage::{accepts, StorageError};
use crate::validation::{EntryLifecycle, ValidatedEntry, ValidatedView};
use vstd::prelude::*;

verus! {

/// What is sent to the network: an address and the content kept under it.
#[derive(Debug, PartialEq, Eq)]
pub struct Announcement {
    address: Address,
    content: Vec<u8>,
}

/// What an announcement holds.
pub struct AnnouncementView {
    pub address: Seq<u8>,
    pub content: Seq<u8>,
}

impl View for Announcement {
    type V = AnnouncementView;

    closed spec fn view(&self) -> AnnouncementView {
        AnnouncementView { address: self.address@, content: self.content@ }
    }
}

impl Announcement {
    /// The address that is announced.
    pub fn address(&self) -> (address: &Address)
        ensures
            address@ == self@.address,
    {
        &self.address
    }

    /// The address that is announced, once the announcement is of no more
    /// use.
    pub fn into_address(self) -> (address: Address)
        ensures
            address@ == self@.address,
    {
        self.address
    }

    /// The content under that address.
    pub fn content(&self) -> (content: &[u8])
        ensures
            content@ == self@.content,
    {
        self.content.as_slice()
    }
}

/// What there is to announce for `address`: the content that the chain's
/// store keeps under it, provided that the chain holds the entry.
pub open spec fn announcement_for(address: Seq<u8>, context: ContextView) -> Result<
    AnnouncementView,
    PublishFailure,
> {
    if resolves(context, address) {
        Ok(AnnouncementView { address, content: context.chain_storage[address] })
    } else {
        Err(PublishFailure::NotCommitted)
    }
}

/// Prepares the announcement of the entry at `address`. Only an entry that
/// is in the local chain can be announced.
pub fn publish(address: &Address, context: &Context) -> (result: Result<
    Announcement,
    PublishFailure,
>)
    ensures
        match result {
            Ok(announcement) => announcement_for(address@, context@) == Ok::<
                AnnouncementView,
                PublishFailure,
            >(announcement@),
            Err(failure) => announcement_for(address@, context@) == Err::<
                AnnouncementView,
                PublishFailure,
            >(failure),
        },
{
    if !context.chain().contains_entry(address) {
        return Err(PublishFailure::NotCommitted);
    }
    match context.chain_storage().fetch(address) {
        Some(content) => Ok(Announcement { address: address.clone(), content }),
        None => Err(PublishFailure::NotCommitted),
    }
}

/// What the transport's answer to an announcement means for the publisher.
pub open spec fn publication(address: Seq<u8>, answer: Result<(), String>) -> Result<
    Seq<u8>,
    PublishFailure,
> {
    match answer {
        Ok(_) => Ok(address),
        Err(reason) => Err(PublishFailure::Transport(reason)),
    }
}

/// Whether a peer takes the entry into its share of the store, and if not,
/// why.
///
/// The entry must have been validated for the distributed store, it must
/// hash to the address it was announced under, and the store must take it.
pub open spec fn hold_outcome(valid: ValidatedView, address: Seq<u8>, context: ContextView) -> Result<
    (),
    HoldFailure,
> {
    if valid.lifecycle != EntryLifecycle::Dht {
        Err(HoldFailure::NotDhtValidated)
    } else if entry_address(valid.entry) != address {
        Err(HoldFailure::AddressMismatch)
    } else if !accepts(context.dht_storage, address, canonical_form(valid.entry)) {
        Err(HoldFailure::Storage(StorageError::IntegrityViolation))
    } else {
        Ok(())
    }
}

/// The state after the entry was taken into the peer's share of the store.
pub open spec fn held(valid: ValidatedView, context: ContextView) -> ContextView {
    ContextView {
        dht_storage: context.dht_storage.insert(
            entry_address(valid.entry),
            canonical_form(valid.entry),
        ),
        ..context
    }
}

/// Takes an entry that was announced under `address` into the agent's share
/// of the distributed store.
///
/// On failure nothing has changed. Holding the same entry again succeeds and
/// changes nothing.
pub fn hold_entry(valid: &ValidatedEntry, address: &Address, context: &mut Context) -> (result:
    Result<(), HoldFailure>)
    ensures
        result == hold_outcome(valid@, address@, old(context)@),
        result is Ok ==> final(context)@ == held(valid@, old(context)@),
        result is Err ==> final(context)@ == old(context)@,
{
    if valid.lifecycle() != EntryLifecycle::Dht {
        return Err(HoldFailure::NotDhtValidated);
    }
    let computed = valid.entry().address();
    if !computed.same_as(address) {
        return Err(HoldFailure::AddressMismatch);
    }
    let content = valid.entry().content();
    match context.hold(address, content.as_slice()) {
        Ok(_) => Ok(()),
        Err(error) => Err(HoldFailure::Storage(error)),
    }
}

} // verus!
