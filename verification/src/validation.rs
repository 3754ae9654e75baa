//! What validation is given: the action, the lifecycle, the package of
//! context, and the sources that assert the entry.

use crate::address::Address;
use crate::bytes::optional_view;
use crate::chain::{header_views, ChainHeader, HeaderView};
use crate::entry::{Entry, EntryView};
use vstd::prelude::*;

verus! {

/// How a new entry relates to an entry before it.
#[derive(Debug, PartialEq, Eq, Clone, Copy, Structural)]
pub enum EntryAction {
    /// It supersedes nothing.
    Create,
    /// It replaces an entry.
    Modify,
    /// It marks an entry as deleted.
    Delete,
}

/// Where the context of validation comes from.
#[derive(Debug, PartialEq, Eq, Clone, Copy, Structural)]
pub enum EntryLifecycle {
    /// From the agent's own chain.
    Chain,
    /// From the distributed store.
    Dht,
}

/// The context that a validator needs to judge one entry. It is assembled
/// for one lifecycle and one action, has no address and is never stored.
pub struct ValidationPackage {
    lifecycle: EntryLifecycle,
    action: EntryAction,
    entry_type: Vec<u8>,
    chain_headers: Vec<ChainHeader>,
    prior: Option<Vec<u8>>,
}

/// What a validation package holds.
pub struct PackageView {
    /// The lifecycle it was assembled for.
    pub lifecycle: EntryLifecycle,
    /// The action it was assembled for.
    pub action: EntryAction,
    /// The type tag of the entry.
    pub entry_type: Seq<u8>,
    /// The headers of the author's chain; none in a package for the
    /// distributed store.
    pub chain_headers: Seq<HeaderView>,
    /// The content of the superseded entry; none where the action is to
    /// create, or where the link does not resolve on the chain.
    pub prior: Option<Seq<u8>>,
}

impl View for ValidationPackage {
    type V = PackageView;

    closed spec fn view(&self) -> PackageView {
        PackageView {
            lifecycle: self.lifecycle,
            action: self.action,
            entry_type: self.entry_type@,
            chain_headers: header_views(self.chain_headers@),
            prior: optional_view(self.prior),
        }
    }
}

impl ValidationPackage {
    pub(crate) fn new(
        lifecycle: EntryLifecycle,
        action: EntryAction,
        entry_type: Vec<u8>,
        chain_headers: Vec<ChainHeader>,
        prior: Option<Vec<u8>>,
    ) -> (package: Self)
        ensures
            package@ == (PackageView {
                lifecycle,
                action,
                entry_type: entry_type@,
                chain_headers: header_views(chain_headers@),
                prior: optional_view(prior),
            }),
    {
        ValidationPackage { lifecycle, action, entry_type, chain_headers, prior }
    }

    /// The lifecycle it was assembled for.
    pub fn lifecycle(&self) -> (lifecycle: EntryLifecycle)
        ensures
            lifecycle == self@.lifecycle,
    {
        self.lifecycle
    }

    /// The action it was assembled for.
    pub fn action(&self) -> (action: EntryAction)
        ensures
            action == self@.action,
    {
        self.action
    }

    /// The type tag of the entry.
    pub fn entry_type(&self) -> (tag: &[u8])
        ensures
            tag@ == self@.entry_type,
    {
        self.entry_type.as_slice()
    }

    /// The headers of the author's chain, oldest first.
    pub fn chain_headers(&self) -> (headers: &Vec<ChainHeader>)
        ensures
            header_views(headers@) == self@.chain_headers,
    {
        &self.chain_headers
    }

    /// The content of the superseded entry.
    pub fn prior(&self) -> (prior: &Option<Vec<u8>>)
        ensures
            optional_view(*prior) == self@.prior,
    {
        &self.prior
    }
}

/// Everything that validation is given besides the entry.
pub struct ValidationData {
    /// The context.
    pub package: ValidationPackage,
    /// Who asserts the entry, in order, nobody twice.
    pub sources: Vec<Address>,
    /// The lifecycle that validation is asked for.
    pub lifecycle: EntryLifecycle,
    /// The action that validation is asked for.
    pub action: EntryAction,
}

/// What validation data holds.
pub struct ValidationDataView {
    pub package: PackageView,
    pub sources: Seq<Seq<u8>>,
    pub lifecycle: EntryLifecycle,
    pub action: EntryAction,
}

/// The addresses in a list, in order.
pub open spec fn address_views(addresses: Seq<Address>) -> Seq<Seq<u8>> {
    Seq::new(addresses.len(), |i: int| addresses[i]@)
}

impl View for ValidationData {
    type V = ValidationDataView;

    open spec fn view(&self) -> ValidationDataView {
        ValidationDataView {
            package: self.package@,
            sources: address_views(self.sources@),
            lifecycle: self.lifecycle,
            action: self.action,
        }
    }
}

/// An entry that passed validation, with the lifecycle and the action it was
/// validated for. Only the validator makes one.
pub struct ValidatedEntry {
    entry: Entry,
    lifecycle: EntryLifecycle,
    action: EntryAction,
}

/// What a validated entry holds.
pub struct ValidatedView {
    pub entry: EntryView,
    pub lifecycle: EntryLifecycle,
    pub action: EntryAction,
}

impl View for ValidatedEntry {
    type V = ValidatedView;

    closed spec fn view(&self) -> ValidatedView {
        ValidatedView { entry: self.entry@, lifecycle: self.lifecycle, action: self.action }
    }
}

impl ValidatedEntry {
    pub(crate) fn new(entry: Entry, lifecycle: EntryLifecycle, action: EntryAction) -> (valid: Self)
        ensures
            valid@ == (ValidatedView { entry: entry@, lifecycle, action }),
    {
        ValidatedEntry { entry, lifecycle, action }
    }

    /// The entry.
    pub fn entry(&self) -> (entry: &Entry)
        ensures
            entry@ == self@.entry,
    {
        &self.entry
    }

    /// The lifecycle it was validated for.
    pub fn lifecycle(&self) -> (lifecycle: EntryLifecycle)
        ensures
            lifecycle == self@.lifecycle,
    {
        self.lifecycle
    }

    /// The action it was validated for.
    pub fn action(&self) -> (action: EntryAction)
        ensures
            action == self@.action,
    {
        self.action
    }
}

} // verus!
