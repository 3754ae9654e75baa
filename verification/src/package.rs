//! The validation package builder.
//!
//! It only reads. A package for the chain is assembled from the local state
//! alone. A package for the distributed store may depend on an entry that
//! only the network has: the builder says which, the embedding process asks
//! the network, and the builder takes the answer.

use crate::address::{optional_address, Address};
use crate::bytes::copy_of;
use crate::chain::{consistent, header_views, ChainHeader};
use crate::context::{resolves, Context, ContextView};
use crate::entry::{Entry, EntryView};
use crate::error::ValidationPackageError;
use crate::hash::content_address;
use crate::validation::{EntryAction, EntryLifecycle, PackageView, ValidationPackage};
use vstd::prelude::*;

verus! {

/// The content of the entry that a change or a deletion supersedes, as far
/// as the local state has it: the content under the link, where the link names
/// a committed entry that can be retrieved.
pub open spec fn prior_in_chain(
    action: EntryAction,
    crud_link: Option<Seq<u8>>,
    context: ContextView,
) -> Option<Seq<u8>> {
    if action != EntryAction::Create && crud_link is Some && resolves(context, crud_link->0) {
        Some(context.chain_storage[crud_link->0])
    } else {
        None
    }
}

/// The package for validating `entry` against the agent's own chain.
///
/// The chain must be intact. The package holds the chain's headers and, for a
/// change or a deletion, the content of the superseded entry if the link
/// resolves. A link that does not resolve does not fail the package: it is
/// the committer that refuses it.
pub open spec fn chain_package(
    entry: EntryView,
    action: EntryAction,
    crud_link: Option<Seq<u8>>,
    context: ContextView,
) -> Result<PackageView, ValidationPackageError> {
    if !consistent(context.chain) {
        Err(ValidationPackageError::ChainInconsistent)
    } else {
        Ok(
            PackageView {
                lifecycle: EntryLifecycle::Chain,
                action,
                entry_type: entry.entry_type,
                chain_headers: context.chain,
                prior: prior_in_chain(action, crud_link, context),
            },
        )
    }
}

/// Assembles the package for validating `entry` against the agent's own
/// chain. No network is involved.
pub fn build_validation_package(
    entry: &Entry,
    action: EntryAction,
    maybe_crud_link: &Option<Address>,
    context: &Context,
) -> (result: Result<ValidationPackage, ValidationPackageError>)
    ensures
        match result {
            Ok(package) => chain_package(
                entry@,
                action,
                optional_address(*maybe_crud_link),
                context@,
            ) == Ok::<PackageView, ValidationPackageError>(package@),
            Err(error) => chain_package(
                entry@,
                action,
                optional_address(*maybe_crud_link),
                context@,
            ) == Err::<PackageView, ValidationPackageError>(error),
        },
{
    if !context.chain().is_consistent() {
        return Err(ValidationPackageError::ChainInconsistent);
    }
    let prior: Option<Vec<u8>> = match action {
        EntryAction::Create => None,
        _ => match maybe_crud_link {
            Some(link) => {
                if context.chain().contains_entry(link) {
                    context.chain_storage().fetch(link)
                } else {
                    None
                }
            },
            None => None,
        },
    };
    Ok(
        ValidationPackage::new(
            EntryLifecycle::Chain,
            action,
            copy_of(entry.entry_type()),
            context.chain().headers(),
            prior,
        ),
    )
}

/// What the network answered when it was asked for the content under an
/// address.
#[derive(Debug, PartialEq, Eq)]
pub enum RemoteLookup {
    /// It could not be reached.
    Unreachable,
    /// It has no content under the address.
    NotFound,
    /// It has this content.
    Found(Vec<u8>),
}

/// The address that the network has to be asked for before a package for the
/// distributed store can be assembled: the superseded entry, unless the action
/// is to create or the local share of the store already holds it.
pub open spec fn dht_dependency(
    action: EntryAction,
    crud_link: Option<Seq<u8>>,
    context: ContextView,
) -> Option<Seq<u8>> {
    if action != EntryAction::Create && crud_link is Some && !context.dht_storage.dom().contains(
        crud_link->0,
    ) {
        crud_link
    } else {
        None
    }
}

/// The package for validating `entry` against the distributed store.
///
/// Where the action is to create, nothing else is needed. Otherwise the
/// content of the superseded entry is taken from the local share of the
/// store, or else from the network's answer, which must hash to the address
/// it was asked for. An unreachable network is told apart from content that
/// does not exist. Unlike on the chain, no committer comes after this
/// validation, so an entry that cannot be found fails the package.
pub open spec fn dht_package(
    entry: EntryView,
    action: EntryAction,
    crud_link: Option<Seq<u8>>,
    context: ContextView,
    remote: RemoteLookup,
) -> Result<PackageView, ValidationPackageError> {
    let found = |prior: Option<Seq<u8>>|
        Ok::<PackageView, ValidationPackageError>(
            PackageView {
                lifecycle: EntryLifecycle::Dht,
                action,
                entry_type: entry.entry_type,
                chain_headers: Seq::empty(),
                prior,
            },
        );
    if action == EntryAction::Create {
        found(None)
    } else if crud_link is None {
        Err(ValidationPackageError::DependencyNotFound)
    } else if context.dht_storage.dom().contains(crud_link->0) {
        found(Some(context.dht_storage[crud_link->0]))
    } else {
        match remote {
            RemoteLookup::Unreachable => Err(ValidationPackageError::NetworkUnreachable),
            RemoteLookup::NotFound => Err(ValidationPackageError::DependencyNotFound),
            RemoteLookup::Found(content) => if content_address(content@) == crud_link->0 {
                found(Some(content@))
            } else {
                Err(ValidationPackageError::DependencyNotFound)
            },
        }
    }
}

/// Says which address the network has to be asked for, if any, before
/// [`build_dht_validation_package`] is called.
pub fn needed_from_network(
    action: EntryAction,
    maybe_crud_link: &Option<Address>,
    context: &Context,
) -> (needed: Option<Address>)
    ensures
        optional_address(needed) == dht_dependency(
            action,
            optional_address(*maybe_crud_link),
            context@,
        ),
{
    match action {
        EntryAction::Create => None,
        _ => match maybe_crud_link {
            Some(link) => {
                if context.dht_storage().contains(link) {
                    None
                } else {
                    Some(link.clone())
                }
            },
            None => None,
        },
    }
}

/// Assembles the package for validating `entry` against the distributed
/// store. `remote` is the network's answer for the address that
/// [`needed_from_network`] named; it is not looked at where nothing was
/// needed.
pub fn build_dht_validation_package(
    entry: &Entry,
    action: EntryAction,
    maybe_crud_link: &Option<Address>,
    context: &Context,
    remote: RemoteLookup,
) -> (result: Result<ValidationPackage, ValidationPackageError>)
    ensures
        match result {
            Ok(package) => dht_package(
                entry@,
                action,
                optional_address(*maybe_crud_link),
                context@,
                remote,
            ) == Ok::<PackageView, ValidationPackageError>(package@),
            Err(error) => dht_package(
                entry@,
                action,
                optional_address(*maybe_crud_link),
                context@,
                remote,
            ) == Err::<PackageView, ValidationPackageError>(error),
        },
{
    let prior: Option<Vec<u8>> = match action {
        EntryAction::Create => None,
        _ => match maybe_crud_link {
            None => {
                return Err(ValidationPackageError::DependencyNotFound);
            },
            Some(link) => match context.dht_storage().fetch(link) {
                Some(content) => Some(content),
                None => match remote {
                    RemoteLookup::Unreachable => {
                        return Err(ValidationPackageError::NetworkUnreachable);
                    },
                    RemoteLookup::NotFound => {
                        return Err(ValidationPackageError::DependencyNotFound);
                    },
                    RemoteLookup::Found(content) => {
                        let computed = Address::of_content(content.as_slice());
                        if !computed.same_as(link) {
                            return Err(ValidationPackageError::DependencyNotFound);
                        }
                        Some(content)
                    },
                },
            },
        },
    };
    let headers: Vec<ChainHeader> = Vec::new();
    assert(header_views(headers@) =~= Seq::empty());
    Ok(
        ValidationPackage::new(
            EntryLifecycle::Dht,
            action,
            copy_of(entry.entry_type()),
            headers,
            prior,
        ),
    )
}

} // verus!
