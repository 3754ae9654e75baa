//! The failures of the authoring stages.

use crate::storage::StorageError;
use vstd::prelude::*;

verus! {

/// The validation context could not be assembled.
#[derive(Debug, PartialEq, Eq, Clone, Copy, Structural)]
pub enum ValidationPackageError {
    /// The network could not be reached. The same call may succeed later.
    NetworkUnreachable,
    /// A header of the local chain does not link to the header before it.
    ChainInconsistent,
    /// An entry that the package depends on was not found.
    DependencyNotFound,
}

/// The entry did not pass validation.
#[derive(Debug, PartialEq, Eq)]
pub enum ValidationFailure {
    /// Nobody is named as the source of the entry.
    EmptySources,
    /// A source is empty, or a source is named twice.
    MalformedSources,
    /// The validation package was assembled for another lifecycle or action
    /// than the validation asks for.
    PackageMismatch,
    /// The validation rules rejected the entry, for this reason.
    Rejected(String),
}

/// The entry was not committed, and the chain is as it was.
#[derive(Debug, PartialEq, Eq, Clone, Copy, Structural)]
pub enum CommitFailure {
    /// The entry was validated for the shared store, not for the chain.
    NotChainValidated,
    /// The link does not fit the action that the entry was validated for: a
    /// creation comes with a link, or a change or a deletion without one.
    CrudLinkMismatch,
    /// The entry that the link names as superseded is not in the chain.
    CrudLinkUnresolved,
    /// The storage refused the entry or its header.
    Storage(StorageError),
}

/// The entry was not published. If it was committed before, it still is.
#[derive(Debug, PartialEq, Eq)]
pub enum PublishFailure {
    /// No entry with this address is in the local chain.
    NotCommitted,
    /// The transport could not send the announcement, or it was not
    /// acknowledged, for this reason.
    Transport(String),
}

/// The entry was not taken into the shared store, and the store is as it was.
#[derive(Debug, PartialEq, Eq, Clone, Copy, Structural)]
pub enum HoldFailure {
    /// The entry was validated for the chain, not for the shared store.
    NotDhtValidated,
    /// The entry does not have the address it was announced under.
    AddressMismatch,
    /// The storage refused the entry.
    Storage(StorageError),
}

/// Why an announced entry was not held: the stage that failed, and its
/// reason.
#[derive(Debug, PartialEq, Eq)]
pub enum HoldError {
    /// The content is not the canonical form of an entry.
    Malformed,
    ValidationPackage(ValidationPackageError),
    Validation(ValidationFailure),
    Hold(HoldFailure),
}

/// Why an authoring call failed: the stage that failed, and its reason.
#[derive(Debug, PartialEq, Eq)]
pub enum HolochainError {
    ValidationPackage(ValidationPackageError),
    Validation(ValidationFailure),
    Commit(CommitFailure),
    Publish(PublishFailure),
}

} // verus!
