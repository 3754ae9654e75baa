//! The chain committer: the one place where the local state changes.

use crate::address::{copy_optional, optional_address, Address};
use crate::bytes::copy_of;
use crate::chain::{
    chain_head, consistent, header_address, header_form, law_append_keeps_history, ChainHeader,
    HeaderView,
};
use crate::context::{resolves, Context, ContextView};
use crate::entry::{canonical_form, entry_address, EntryView};
use crate::error::CommitFailure;
use crate::storage::{accepts, StorageError};
use crate::validation::{EntryAction, EntryLifecycle, ValidatedEntry, ValidatedView};
use vstd::prelude::*;

verus! {

/// The header under which `entry` is committed: it names the entry by its
/// address, links to the present chain head, and carries the link to the
/// superseded entry.
pub open spec fn commit_header(
    entry: EntryView,
    crud_link: Option<Seq<u8>>,
    context: ContextView,
) -> HeaderView {
    HeaderView {
        entry_type: entry.entry_type,
        entry_address: entry_address(entry),
        link: chain_head(context.chain),
        link_crud: crud_link,
    }
}

/// The chain's store once it keeps `entry`.
pub open spec fn storage_with_entry(entry: EntryView, context: ContextView) -> Map<
    Seq<u8>,
    Seq<u8>,
> {
    context.chain_storage.insert(entry_address(entry), canonical_form(entry))
}

/// Whether the link fits the action: a link is there exactly when the action
/// is to change or to delete.
pub open spec fn link_fits(action: EntryAction, crud_link: Option<Seq<u8>>) -> bool {
    (action == EntryAction::Create) <==> crud_link is None
}

/// Whether the commit succeeds, and if not, why.
///
/// The entry must have been validated for the chain. The link to the
/// superseded entry must fit the action that the entry was validated for,
/// and where there is one it must resolve. The store must take the entry, and
/// then its header. The first of these that fails is the failure.
pub open spec fn commit_outcome(
    valid: ValidatedView,
    crud_link: Option<Seq<u8>>,
    context: ContextView,
) -> Result<Seq<u8>, CommitFailure> {
    let header = commit_header(valid.entry, crud_link, context);
    if valid.lifecycle != EntryLifecycle::Chain {
        Err(CommitFailure::NotChainValidated)
    } else if !link_fits(valid.action, crud_link) {
        Err(CommitFailure::CrudLinkMismatch)
    } else if crud_link is Some && !resolves(context, crud_link->0) {
        Err(CommitFailure::CrudLinkUnresolved)
    } else if !accepts(
        context.chain_storage,
        entry_address(valid.entry),
        canonical_form(valid.entry),
    ) {
        Err(CommitFailure::Storage(StorageError::IntegrityViolation))
    } else if !accepts(
        storage_with_entry(valid.entry, context),
        header_address(header),
        header_form(header),
    ) {
        Err(CommitFailure::Storage(StorageError::IntegrityViolation))
    } else {
        Ok(entry_address(valid.entry))
    }
}

/// The state after `entry` was committed: the store keeps the entry and its
/// header, and the header is the newest of the chain.
pub open spec fn committed(
    entry: EntryView,
    crud_link: Option<Seq<u8>>,
    context: ContextView,
) -> ContextView {
    let header = commit_header(entry, crud_link, context);
    ContextView {
        chain: context.chain.push(header),
        chain_storage: storage_with_entry(entry, context).insert(
            header_address(header),
            header_form(header),
        ),
        ..context
    }
}

/// Commits a validated entry to the chain, with a link to the entry that it
/// supersedes, if it supersedes one.
///
/// On success the entry is recorded and the head has advanced, and the
/// entry's address is returned. On failure nothing at all has changed.
pub fn commit_entry(
    valid: &ValidatedEntry,
    maybe_crud_link: &Option<Address>,
    context: &mut Context,
) -> (result: Result<Address, CommitFailure>)
    ensures
        match result {
            Ok(address) => commit_outcome(
                valid@,
                optional_address(*maybe_crud_link),
                old(context)@,
            ) == Ok::<Seq<u8>, CommitFailure>(address@) && final(context)@ == committed(
                valid@.entry,
                optional_address(*maybe_crud_link),
                old(context)@,
            ),
            Err(failure) => commit_outcome(
                valid@,
                optional_address(*maybe_crud_link),
                old(context)@,
            ) == Err::<Seq<u8>, CommitFailure>(failure) && final(context)@ == old(context)@,
        },
{
    if valid.lifecycle() != EntryLifecycle::Chain {
        return Err(CommitFailure::NotChainValidated);
    }
    match maybe_crud_link {
        Some(link) => {
            if valid.action() == EntryAction::Create {
                return Err(CommitFailure::CrudLinkMismatch);
            }
            if !context.resolves(link) {
                return Err(CommitFailure::CrudLinkUnresolved);
            }
        },
        None => {
            if valid.action() != EntryAction::Create {
                return Err(CommitFailure::CrudLinkMismatch);
            }
        },
    }
    let entry = valid.entry();
    let address = entry.address();
    let content = entry.content();
    if !context.chain_storage().would_accept(&address, content.as_slice()) {
        return Err(CommitFailure::Storage(StorageError::IntegrityViolation));
    }
    let header = ChainHeader::new(
        copy_of(entry.entry_type()),
        address.clone(),
        context.chain().head(),
        copy_optional(maybe_crud_link),
    );
    let header_address = header.address();
    let header_content = header.content();
    let header_fits = if header_address.same_as(&address) {
        crate::bytes::same_bytes(content.as_slice(), header_content.as_slice())
    } else {
        context.chain_storage().would_accept(&header_address, header_content.as_slice())
    };
    if !header_fits {
        return Err(CommitFailure::Storage(StorageError::IntegrityViolation));
    }
    context.record(
        &address,
        content.as_slice(),
        header,
        &header_address,
        header_content.as_slice(),
    );
    Ok(address)
}

/// A commit that succeeds leaves the entry retrievable: the chain holds it
/// and the store keeps its canonical form under its address. The new header
/// is the chain head, every entry held before is still held, and an intact
/// chain is still intact.
pub proof fn law_commit_records_entry(
    valid: ValidatedView,
    crud_link: Option<Seq<u8>>,
    context: ContextView,
)
    requires
        commit_outcome(valid, crud_link, context) is Ok,
    ensures
        commit_outcome(valid, crud_link, context) == Ok::<Seq<u8>, CommitFailure>(
            entry_address(valid.entry),
        ),
        resolves(committed(valid.entry, crud_link, context), entry_address(valid.entry)),
        committed(valid.entry, crud_link, context).chain_storage[entry_address(valid.entry)]
            == canonical_form(valid.entry),
        chain_head(committed(valid.entry, crud_link, context).chain) == Some(
            header_address(commit_header(valid.entry, crud_link, context)),
        ),
        forall|a: Seq<u8>|
            resolves(context, a) ==> resolves(committed(valid.entry, crud_link, context), a),
        consistent(context.chain) ==> consistent(
            committed(valid.entry, crud_link, context).chain,
        ),
{
    let header = commit_header(valid.entry, crud_link, context);
    let after = committed(valid.entry, crud_link, context);
    assert forall|a: Seq<u8>| resolves(context, a) implies resolves(after, a) by {
        let i = choose|i: int|
            0 <= i < context.chain.len() && #[trigger] context.chain[i].entry_address == a;
        assert(after.chain[i].entry_address == a);
    }
    if consistent(context.chain) {
        law_append_keeps_history(context.chain, header);
    }
}

} // verus!
