//! Holding an entry that the network announced: read it, validate it for the
//! distributed store, and take it into the agent's share of that store.
//!
//! The task waits once, for the verdict of the application's rules. Nothing
//! is held that does not hash to the address it was announced under, and
//! nothing that did not pass validation.

use crate::address::Address;
use crate::context::{Context, ContextView};
use crate::entry::{law_parse_reads_only_canonical_forms, parse_entry, Entry, EntryView};
use crate::error::{HoldError, HoldFailure};
use crate::hash::content_address;
use crate::package::{build_dht_validation_package, dht_package, RemoteLookup};
use crate::publish::{held, hold_entry, hold_outcome};
use crate::storage::accepts;
use crate::validate::{validate_entry, verdict_on};
use crate::validation::{
    address_views, EntryAction, EntryLifecycle, ValidatedView, ValidationData, ValidationDataView,
};
use vstd::prelude::*;

verus! {

/// A holding task, in the stage it has reached.
pub enum HoldEntry {
    /// The entry was read and hashes to its address; the verdict of the rules
    /// on `data` is awaited.
    Validating { entry: Entry, address: Address, data: ValidationData },
    /// The entry is in the agent's share of the store.
    Held { address: Address },
    /// A stage failed, and nothing was stored.
    Failed { error: HoldError },
}

/// What a holding task holds.
pub enum HoldEntryView {
    Validating { entry: EntryView, address: Seq<u8>, data: ValidationDataView },
    Held { address: Seq<u8> },
    Failed { error: HoldError },
}

impl View for HoldEntry {
    type V = HoldEntryView;

    open spec fn view(&self) -> HoldEntryView {
        match *self {
            HoldEntry::Validating { entry, address, data } => HoldEntryView::Validating {
                entry: entry@,
                address: address@,
                data: data@,
            },
            HoldEntry::Held { address } => HoldEntryView::Held { address: address@ },
            HoldEntry::Failed { error } => HoldEntryView::Failed { error },
        }
    }
}

/// The task that an announcement begins.
///
/// The content must be the canonical form of an entry and must hash to the
/// address. The validation data then names `source` as the one source, with
/// the lifecycle of the distributed store and the action to create.
pub open spec fn received(
    address: Seq<u8>,
    content: Seq<u8>,
    source: Seq<u8>,
    context: ContextView,
) -> HoldEntryView {
    match parse_entry(content) {
        None => HoldEntryView::Failed { error: HoldError::Malformed },
        Some(entry) => if content_address(content) != address {
            HoldEntryView::Failed { error: HoldError::Hold(HoldFailure::AddressMismatch) }
        } else {
            match dht_package(entry, EntryAction::Create, None, context, RemoteLookup::NotFound) {
                Ok(package) => HoldEntryView::Validating {
                    entry,
                    address,
                    data: ValidationDataView {
                        package,
                        sources: seq![source],
                        lifecycle: EntryLifecycle::Dht,
                        action: EntryAction::Create,
                    },
                },
                Err(error) => HoldEntryView::Failed { error: HoldError::ValidationPackage(error) },
            }
        },
    }
}

/// The task and the state once the rules have given their verdict.
///
/// A task that waits for the verdict ends: with the entry held if validation
/// passes and the store takes the entry, and else with the failure, the state
/// unchanged. A task that has ended stays as it is.
pub open spec fn decided(task: HoldEntryView, rules: Result<(), String>, context: ContextView) -> (
    HoldEntryView,
    ContextView,
) {
    match task {
        HoldEntryView::Validating { entry, address, data } => match verdict_on(data, rules) {
            Err(failure) => (
                HoldEntryView::Failed { error: HoldError::Validation(failure) },
                context,
            ),
            Ok(_) => {
                let valid = ValidatedView { entry, lifecycle: data.lifecycle, action: data.action };
                match hold_outcome(valid, address, context) {
                    Ok(_) => (HoldEntryView::Held { address }, held(valid, context)),
                    Err(failure) => (
                        HoldEntryView::Failed { error: HoldError::Hold(failure) },
                        context,
                    ),
                }
            },
        },
        _ => (task, context),
    }
}

/// Begins to hold what `source` announced: `content`, under `address`.
///
/// The task comes back waiting for the verdict of the validation rules, or
/// failed.
pub fn receive(address: Address, content: &[u8], source: Address, context: &Context) -> (task:
    HoldEntry)
    ensures
        task@ == received(address@, content@, source@, context@),
{
    let entry = match Entry::from_content(content) {
        Some(entry) => entry,
        None => {
            return HoldEntry::Failed { error: HoldError::Malformed };
        },
    };
    let computed = Address::of_content(content);
    if !computed.same_as(&address) {
        return HoldEntry::Failed { error: HoldError::Hold(HoldFailure::AddressMismatch) };
    }
    match build_dht_validation_package(
        &entry,
        EntryAction::Create,
        &None,
        context,
        RemoteLookup::NotFound,
    ) {
        Ok(package) => {
            let mut sources: Vec<Address> = Vec::new();
            sources.push(source);
            assert(address_views(sources@) =~= seq![source@]);
            let data = ValidationData {
                package,
                sources,
                lifecycle: EntryLifecycle::Dht,
                action: EntryAction::Create,
            };
            HoldEntry::Validating { entry, address, data }
        },
        Err(error) => HoldEntry::Failed { error: HoldError::ValidationPackage(error) },
    }
}

impl HoldEntry {
    /// Whether the task waits for the verdict of the validation rules.
    pub fn awaits_verdict(&self) -> (waiting: bool)
        ensures
            waiting == (self@ is Validating),
    {
        match self {
            HoldEntry::Validating { .. } => true,
            _ => false,
        }
    }

    /// How the task ended: the address of the entry that is held, or the
    /// failure. A task that has not ended comes back as it is.
    pub fn outcome(self) -> (result: Result<Result<Address, HoldError>, HoldEntry>)
        ensures
            match result {
                Ok(Ok(address)) => self@ == (HoldEntryView::Held { address: address@ }),
                Ok(Err(error)) => self@ == (HoldEntryView::Failed { error }),
                Err(task) => self@ is Validating && task@ == self@,
            },
    {
        match self {
            HoldEntry::Held { address } => Ok(Ok(address)),
            HoldEntry::Failed { error } => Ok(Err(error)),
            other => Err(other),
        }
    }

    /// Takes the verdict of the validation rules and ends the task.
    ///
    /// The task that comes back and the state afterwards are those of
    /// [`decided`].
    pub fn decide(self, rules: Result<(), String>, context: &mut Context) -> (next: HoldEntry)
        ensures
            next@ == decided(self@, rules, old(context)@).0,
            final(context)@ == decided(self@, rules, old(context)@).1,
    {
        match self {
            HoldEntry::Validating { entry, address, data } => {
                match validate_entry(entry, &data, rules) {
                    Ok(valid) => match hold_entry(&valid, &address, context) {
                        Ok(_) => HoldEntry::Held { address },
                        Err(failure) => HoldEntry::Failed { error: HoldError::Hold(failure) },
                    },
                    Err(failure) => HoldEntry::Failed { error: HoldError::Validation(failure) },
                }
            },
            HoldEntry::Held { address } => HoldEntry::Held { address },
            HoldEntry::Failed { error } => HoldEntry::Failed { error },
        }
    }
}

/// What is held is what was announced, and it passed validation: a task ends
/// with the entry held only if the rules passed it, and then the agent's
/// share of the store keeps the announced content under the announced
/// address, which is the content's own address, and nothing else has changed.
/// A task that fails changes nothing.
pub proof fn law_held_is_announced_and_valid(
    address: Seq<u8>,
    content: Seq<u8>,
    source: Seq<u8>,
    rules: Result<(), String>,
    context: ContextView,
)
    ensures
        ({
            let end = decided(received(address, content, source, context), rules, context);
            &&& !(end.0 is Validating)
            &&& end.0 is Held ==> {
                &&& rules is Ok
                &&& address == content_address(content)
                &&& accepts(context.dht_storage, address, content)
                &&& end.1 == (ContextView {
                    dht_storage: context.dht_storage.insert(address, content),
                    ..context
                })
            }
            &&& end.0 is Failed ==> end.1 == context
        }),
{
    if parse_entry(content) is Some {
        law_parse_reads_only_canonical_forms(content);
    }
}

/// Holding is idempotent: what was held once is held again with success and
/// without any change.
pub proof fn law_holding_again_changes_nothing(
    address: Seq<u8>,
    content: Seq<u8>,
    source: Seq<u8>,
    rules: Result<(), String>,
    context: ContextView,
)
    requires
        decided(received(address, content, source, context), rules, context).0 is Held,
    ensures
        ({
            let once = decided(received(address, content, source, context), rules, context).1;
            let again = decided(received(address, content, source, once), rules, once);
            again.0 is Held && again.1 == once
        }),
{
    if parse_entry(content) is Some {
        law_parse_reads_only_canonical_forms(content);
    }
    let once = decided(received(address, content, source, context), rules, context).1;
    assert(once.dht_storage.insert(address, content) =~= once.dht_storage);
}

} // verus!
