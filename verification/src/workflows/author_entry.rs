//! Authoring an entry: build the validation package, validate, commit,
//! publish, in this order and never further than the first failure.
//!
//! The task is a state machine. Each step runs one stage. Two stages wait for
//! something that is done outside: validating waits for the verdict of the
//! application's rules, publishing for the transport's answer. Between two
//! steps the caller may give the task up: before the commit nothing has
//! changed yet, after it the entry is committed and not published.

use crate::address::{optional_address, Address};
use crate::commit::{commit_entry, commit_outcome, committed, law_commit_records_entry};
use crate::context::{resolves, Context, ContextView};
use crate::entry::{
    canonical_form, entry_address, law_parse_inverts_canonical_form, Entry, EntryView,
};
use crate::error::{HolochainError, PublishFailure};
use crate::package::{build_validation_package, chain_package};
use crate::publish::{announcement_for, publication, publish, Announcement, AnnouncementView};
use crate::storage::accepts;
use crate::validate::{validate_entry, verdict_on};
use crate::validation::{
    address_views, EntryAction, EntryLifecycle, ValidatedEntry, ValidatedView, ValidationData,
    ValidationDataView,
};
use crate::workflows::hold_entry::{decided, received, HoldEntryView};
use vstd::prelude::*;

verus! {

/// An authoring task, in the stage it has reached.
pub enum AuthorEntry {
    /// Nothing has been done yet.
    BuildingPackage { entry: Entry, maybe_crud_link: Option<Address> },
    /// The package is built; the verdict of the rules on `data` is awaited.
    Validating { entry: Entry, maybe_crud_link: Option<Address>, data: ValidationData },
    /// The entry passed validation and is about to be committed.
    Committing { valid: ValidatedEntry, maybe_crud_link: Option<Address> },
    /// The entry is committed; the transport's answer to `announcement` is
    /// awaited.
    Publishing { announcement: Announcement },
    /// The entry is committed and its publication was acknowledged.
    Succeeded { address: Address },
    /// A stage failed, and no later stage was run.
    Failed { error: HolochainError },
}

/// What an authoring task holds.
pub enum AuthorEntryView {
    BuildingPackage { entry: EntryView, crud_link: Option<Seq<u8>> },
    Validating { entry: EntryView, crud_link: Option<Seq<u8>>, data: ValidationDataView },
    Committing { valid: ValidatedView, crud_link: Option<Seq<u8>> },
    Publishing { announcement: AnnouncementView },
    Succeeded { address: Seq<u8> },
    Failed { error: HolochainError },
}

impl View for AuthorEntry {
    type V = AuthorEntryView;

    open spec fn view(&self) -> AuthorEntryView {
        match *self {
            AuthorEntry::BuildingPackage { entry, maybe_crud_link } => {
                AuthorEntryView::BuildingPackage {
                    entry: entry@,
                    crud_link: optional_address(maybe_crud_link),
                }
            },
            AuthorEntry::Validating { entry, maybe_crud_link, data } => {
                AuthorEntryView::Validating {
                    entry: entry@,
                    crud_link: optional_address(maybe_crud_link),
                    data: data@,
                }
            },
            AuthorEntry::Committing { valid, maybe_crud_link } => {
                AuthorEntryView::Committing {
                    valid: valid@,
                    crud_link: optional_address(maybe_crud_link),
                }
            },
            AuthorEntry::Publishing { announcement } => {
                AuthorEntryView::Publishing { announcement: announcement@ }
            },
            AuthorEntry::Succeeded { address } => AuthorEntryView::Succeeded { address: address@ },
            AuthorEntry::Failed { error } => AuthorEntryView::Failed { error },
        }
    }
}

/// What happened outside since the last step.
#[derive(Debug, PartialEq, Eq)]
pub enum Event {
    /// Nothing had to: the stage at hand needs nothing from outside.
    Proceed,
    /// The application's rules gave their verdict on the validation data.
    Verdict(Result<(), String>),
    /// The transport sent the announcement and had it acknowledged, or
    /// failed to.
    Acknowledged(Result<(), String>),
}

/// What the caller has to do before the next step.
#[derive(Debug, PartialEq, Eq, Clone, Copy, Structural)]
pub enum Action {
    /// Nothing: step with [`Event::Proceed`].
    Continue,
    /// Evaluate the validation rules, and step with [`Event::Verdict`].
    Validate,
    /// Hand the announcement to the transport, and step with
    /// [`Event::Acknowledged`].
    Publish,
    /// Nothing more: the task has ended.
    Done,
}

/// The action of an authoring call: to create where the entry supersedes
/// nothing, and to change the superseded entry where a link names one.
pub open spec fn authoring_action(crud_link: Option<Seq<u8>>) -> EntryAction {
    match crud_link {
        None => EntryAction::Create,
        Some(_) => EntryAction::Modify,
    }
}

/// The validation data of an authoring call: the package, the agent itself as
/// the one source, the chain lifecycle, and the action that the link makes
/// it.
pub open spec fn authoring_data(entry: EntryView, crud_link: Option<Seq<u8>>, context: ContextView) -> Result<
    ValidationDataView,
    HolochainError,
> {
    match chain_package(entry, authoring_action(crud_link), crud_link, context) {
        Ok(package) => Ok(
            ValidationDataView {
                package,
                sources: seq![context.agent],
                lifecycle: EntryLifecycle::Chain,
                action: authoring_action(crud_link),
            },
        ),
        Err(error) => Err(HolochainError::ValidationPackage(error)),
    }
}

/// The task and the state after one step.
///
/// An event that the stage at hand does not wait for changes nothing, and a
/// task that has ended stays as it is. Otherwise the stage is run: on success
/// the task moves to the next stage, on failure it ends with the failure of
/// that stage. Only the commit changes the state.
pub open spec fn next_state(task: AuthorEntryView, event: Event, context: ContextView) -> (
    AuthorEntryView,
    ContextView,
) {
    match (task, event) {
        (AuthorEntryView::BuildingPackage { entry, crud_link }, Event::Proceed) => {
            match authoring_data(entry, crud_link, context) {
                Ok(data) => (AuthorEntryView::Validating { entry, crud_link, data }, context),
                Err(error) => (AuthorEntryView::Failed { error }, context),
            }
        },
        (AuthorEntryView::Validating { entry, crud_link, data }, Event::Verdict(rules)) => {
            match verdict_on(data, rules) {
                Ok(_) => (
                    AuthorEntryView::Committing {
                        valid: ValidatedView {
                            entry,
                            lifecycle: data.lifecycle,
                            action: data.action,
                        },
                        crud_link,
                    },
                    context,
                ),
                Err(failure) => (
                    AuthorEntryView::Failed { error: HolochainError::Validation(failure) },
                    context,
                ),
            }
        },
        (AuthorEntryView::Committing { valid, crud_link }, Event::Proceed) => {
            match commit_outcome(valid, crud_link, context) {
                Ok(address) => {
                    let after = committed(valid.entry, crud_link, context);
                    match announcement_for(address, after) {
                        Ok(announcement) => (AuthorEntryView::Publishing { announcement }, after),
                        Err(failure) => (
                            AuthorEntryView::Failed { error: HolochainError::Publish(failure) },
                            after,
                        ),
                    }
                },
                Err(failure) => (
                    AuthorEntryView::Failed { error: HolochainError::Commit(failure) },
                    context,
                ),
            }
        },
        (AuthorEntryView::Publishing { announcement }, Event::Acknowledged(answer)) => {
            match publication(announcement.address, answer) {
                Ok(address) => (AuthorEntryView::Succeeded { address }, context),
                Err(failure) => (
                    AuthorEntryView::Failed { error: HolochainError::Publish(failure) },
                    context,
                ),
            }
        },
        _ => (task, context),
    }
}

/// What the caller has to do before the next step of a task.
pub open spec fn action_of(task: AuthorEntryView) -> Action {
    match task {
        AuthorEntryView::BuildingPackage { .. } => Action::Continue,
        AuthorEntryView::Validating { .. } => Action::Validate,
        AuthorEntryView::Committing { .. } => Action::Continue,
        AuthorEntryView::Publishing { .. } => Action::Publish,
        AuthorEntryView::Succeeded { .. } => Action::Done,
        AuthorEntryView::Failed { .. } => Action::Done,
    }
}

/// How a task ended, if it has ended.
pub open spec fn outcome_of(task: AuthorEntryView) -> Option<Result<Seq<u8>, HolochainError>> {
    match task {
        AuthorEntryView::Succeeded { address } => Some(Ok(address)),
        AuthorEntryView::Failed { error } => Some(Err(error)),
        _ => None,
    }
}

impl AuthorEntry {
    /// A task that has not begun.
    pub fn new(entry: Entry, maybe_crud_link: Option<Address>) -> (task: Self)
        ensures
            task@ == (AuthorEntryView::BuildingPackage {
                entry: entry@,
                crud_link: optional_address(maybe_crud_link),
            }),
    {
        AuthorEntry::BuildingPackage { entry, maybe_crud_link }
    }

    /// What the caller has to do before the next step.
    pub fn next_action(&self) -> (action: Action)
        ensures
            action == action_of(self@),
    {
        match self {
            AuthorEntry::BuildingPackage { .. } => Action::Continue,
            AuthorEntry::Validating { .. } => Action::Validate,
            AuthorEntry::Committing { .. } => Action::Continue,
            AuthorEntry::Publishing { .. } => Action::Publish,
            AuthorEntry::Succeeded { .. } => Action::Done,
            AuthorEntry::Failed { .. } => Action::Done,
        }
    }

    /// How the task ended: the address of the entry, or the failure. A task
    /// that has not ended comes back as it is.
    pub fn outcome(self) -> (result: Result<Result<Address, HolochainError>, AuthorEntry>)
        ensures
            match result {
                Ok(Ok(address)) => outcome_of(self@) == Some(
                    Ok::<Seq<u8>, HolochainError>(address@),
                ),
                Ok(Err(error)) => outcome_of(self@) == Some(Err::<Seq<u8>, HolochainError>(error)),
                Err(task) => outcome_of(self@) is None && task@ == self@,
            },
    {
        match self {
            AuthorEntry::Succeeded { address } => Ok(Ok(address)),
            AuthorEntry::Failed { error } => Ok(Err(error)),
            other => Err(other),
        }
    }

    /// Runs the stage at hand.
    ///
    /// The task that comes back and the state afterwards are those of
    /// [`next_state`].
    pub fn step(self, event: Event, context: &mut Context) -> (next: AuthorEntry)
        ensures
            next@ == next_state(self@, event, old(context)@).0,
            final(context)@ == next_state(self@, event, old(context)@).1,
    {
        match self {
            AuthorEntry::BuildingPackage { entry, maybe_crud_link } => match event {
                Event::Proceed => build_stage(entry, maybe_crud_link, context),
                _ => AuthorEntry::BuildingPackage { entry, maybe_crud_link },
            },
            AuthorEntry::Validating { entry, maybe_crud_link, data } => match event {
                Event::Verdict(rules) => {
                    match validate_entry(entry, &data, rules) {
                        Ok(valid) => AuthorEntry::Committing { valid, maybe_crud_link },
                        Err(failure) => AuthorEntry::Failed {
                            error: HolochainError::Validation(failure),
                        },
                    }
                },
                _ => AuthorEntry::Validating { entry, maybe_crud_link, data },
            },
            AuthorEntry::Committing { valid, maybe_crud_link } => match event {
                Event::Proceed => {
                    match commit_entry(&valid, &maybe_crud_link, context) {
                        Ok(address) => match publish(&address, context) {
                            Ok(announcement) => AuthorEntry::Publishing { announcement },
                            Err(failure) => AuthorEntry::Failed {
                                error: HolochainError::Publish(failure),
                            },
                        },
                        Err(failure) => AuthorEntry::Failed {
                            error: HolochainError::Commit(failure),
                        },
                    }
                },
                _ => AuthorEntry::Committing { valid, maybe_crud_link },
            },
            AuthorEntry::Publishing { announcement } => match event {
                Event::Acknowledged(answer) => match answer {
                    Ok(_) => AuthorEntry::Succeeded { address: announcement.into_address() },
                    Err(reason) => AuthorEntry::Failed {
                        error: HolochainError::Publish(PublishFailure::Transport(reason)),
                    },
                },
                _ => AuthorEntry::Publishing { announcement },
            },
            AuthorEntry::Succeeded { address } => AuthorEntry::Succeeded { address },
            AuthorEntry::Failed { error } => AuthorEntry::Failed { error },
        }
    }
}

/// Runs the first stage: builds the validation package from the chain and
/// puts the validation data together.
fn build_stage(entry: Entry, maybe_crud_link: Option<Address>, context: &Context) -> (task:
    AuthorEntry)
    ensures
        task@ == match authoring_data(entry@, optional_address(maybe_crud_link), context@) {
            Ok(data) => AuthorEntryView::Validating {
                entry: entry@,
                crud_link: optional_address(maybe_crud_link),
                data,
            },
            Err(error) => AuthorEntryView::Failed { error },
        },
{
    let action = match &maybe_crud_link {
        None => EntryAction::Create,
        Some(_) => EntryAction::Modify,
    };
    match build_validation_package(&entry, action, &maybe_crud_link, context) {
        Ok(package) => {
            let mut sources: Vec<Address> = Vec::new();
            sources.push(context.agent().clone());
            assert(address_views(sources@) =~= seq![context@.agent]);
            let data = ValidationData {
                package,
                sources,
                lifecycle: EntryLifecycle::Chain,
                action,
            };
            AuthorEntry::Validating { entry, maybe_crud_link, data }
        },
        Err(error) => AuthorEntry::Failed { error: HolochainError::ValidationPackage(error) },
    }
}

/// Begins to author `entry`, which supersedes the entry at `maybe_crud_link`
/// if there is one: builds the validation package from the chain. An entry
/// that supersedes nothing is validated and committed as a creation, one that
/// supersedes an entry as a change of that entry.
///
/// The task comes back waiting for the verdict of the validation rules, or
/// failed: it is the task that [`AuthorEntry::new`] gives, one step on. The
/// steps that follow are taken with [`AuthorEntry::step`].
pub fn author_entry(entry: &Entry, maybe_crud_link: Option<Address>, context: &Context) -> (task:
    AuthorEntry)
    ensures
        task@ == next_state(
            AuthorEntryView::BuildingPackage {
                entry: entry@,
                crud_link: optional_address(maybe_crud_link),
            },
            Event::Proceed,
            context@,
        ).0,
        task@ == match authoring_data(entry@, optional_address(maybe_crud_link), context@) {
            Ok(data) => AuthorEntryView::Validating {
                entry: entry@,
                crud_link: optional_address(maybe_crud_link),
                data,
            },
            Err(error) => AuthorEntryView::Failed { error },
        },
{
    build_stage(entry.clone(), maybe_crud_link, context)
}

/// The task and the state after a run of events, taken one step at a time.
pub open spec fn run(task: AuthorEntryView, context: ContextView, events: Seq<Event>) -> (
    AuthorEntryView,
    ContextView,
)
    decreases events.len(),
{
    if events.len() == 0 {
        (task, context)
    } else {
        let before = run(task, context, events.drop_last());
        next_state(before.0, events.last(), before.1)
    }
}

/// Whether `task` and `context` are what authoring `entry` from the state
/// `initial` can have come to.
///
/// Up to the commit the state is the initial one and the task still holds the
/// entry. From the commit on the state is the initial one with the entry
/// committed, and the task holds the entry's address. A task that got past
/// validation belongs to an agent that has an address. A task that failed
/// left the state untouched, unless it was the publication that failed.
pub open spec fn faithful(
    entry: EntryView,
    crud_link: Option<Seq<u8>>,
    initial: ContextView,
    task: AuthorEntryView,
    context: ContextView,
) -> bool {
    match task {
        AuthorEntryView::BuildingPackage { entry: held, crud_link: link } => {
            held == entry && link == crud_link && context == initial
        },
        AuthorEntryView::Validating { entry: held, crud_link: link, data } => {
            &&& held == entry
            &&& link == crud_link
            &&& context == initial
            &&& authoring_data(entry, crud_link, initial) == Ok::<
                ValidationDataView,
                HolochainError,
            >(data)
        },
        AuthorEntryView::Committing { valid, crud_link: link } => {
            &&& valid == (ValidatedView {
                entry,
                lifecycle: EntryLifecycle::Chain,
                action: authoring_action(crud_link),
            })
            &&& link == crud_link
            &&& context == initial
            &&& initial.agent.len() > 0
        },
        AuthorEntryView::Publishing { announcement } => {
            &&& announcement == (AnnouncementView {
                address: entry_address(entry),
                content: canonical_form(entry),
            })
            &&& initial.agent.len() > 0
            &&& context == committed(entry, crud_link, initial)
            &&& resolves(context, entry_address(entry))
            &&& context.chain_storage[entry_address(entry)] == canonical_form(entry)
        },
        AuthorEntryView::Succeeded { address } => {
            &&& address == entry_address(entry)
            &&& initial.agent.len() > 0
            &&& context == committed(entry, crud_link, initial)
            &&& resolves(context, entry_address(entry))
            &&& context.chain_storage[entry_address(entry)] == canonical_form(entry)
        },
        AuthorEntryView::Failed { error } => match error {
            HolochainError::Publish(_) => {
                &&& context == committed(entry, crud_link, initial)
                &&& resolves(context, entry_address(entry))
                &&& context.chain_storage[entry_address(entry)] == canonical_form(entry)
            },
            _ => context == initial,
        },
    }
}

/// The rank of a stage in the order of the pipeline.
pub open spec fn rank(task: AuthorEntryView) -> nat {
    match task {
        AuthorEntryView::BuildingPackage { .. } => 0,
        AuthorEntryView::Validating { .. } => 1,
        AuthorEntryView::Committing { .. } => 2,
        AuthorEntryView::Publishing { .. } => 3,
        AuthorEntryView::Succeeded { .. } => 4,
        AuthorEntryView::Failed { .. } => 4,
    }
}

/// No stage is run out of order: a step leaves the task where it is, moves
/// it to the very next stage, or ends it with a failure, and a task that has
/// ended never changes again. Whatever the event, the state changes in no
/// step but the one that commits.
pub proof fn law_stages_in_order(task: AuthorEntryView, event: Event, context: ContextView)
    ensures
        ({
            let next = next_state(task, event, context);
            &&& next.0 == task || next.0 is Failed || rank(next.0) == rank(task) + 1
            &&& outcome_of(task) is Some ==> next.0 == task
            &&& !(task is Committing) ==> next.1 == context
            &&& next.0 is Publishing ==> task is Committing || task is Publishing
            &&& next.0 is Succeeded ==> task is Publishing || task is Succeeded
        }),
{
}

/// One step keeps a task faithful to the call it began with.
pub proof fn law_step_is_faithful(
    entry: EntryView,
    crud_link: Option<Seq<u8>>,
    initial: ContextView,
    task: AuthorEntryView,
    context: ContextView,
    event: Event,
)
    requires
        faithful(entry, crud_link, initial, task, context),
    ensures
        ({
            let next = next_state(task, event, context);
            faithful(entry, crud_link, initial, next.0, next.1)
        }),
{
    match (task, event) {
        (AuthorEntryView::Validating { data, .. }, Event::Verdict(rules)) => {
            if verdict_on(data, rules) is Ok {
                assert(data.sources[0].len() > 0);
            }
        },
        (AuthorEntryView::Committing { valid, crud_link: link }, Event::Proceed) => {
            if commit_outcome(valid, link, context) is Ok {
                law_commit_records_entry(valid, link, context);
            }
        },
        _ => {},
    }
}

/// Whatever happens outside, and in whatever order it is reported, an
/// authoring task stays faithful to its call.
pub proof fn law_run_is_faithful(
    entry: EntryView,
    crud_link: Option<Seq<u8>>,
    initial: ContextView,
    events: Seq<Event>,
)
    ensures
        ({
            let end = run(AuthorEntryView::BuildingPackage { entry, crud_link }, initial, events);
            faithful(entry, crud_link, initial, end.0, end.1)
        }),
    decreases events.len(),
{
    if events.len() > 0 {
        law_run_is_faithful(entry, crud_link, initial, events.drop_last());
        let before = run(
            AuthorEntryView::BuildingPackage { entry, crud_link },
            initial,
            events.drop_last(),
        );
        law_step_is_faithful(entry, crud_link, initial, before.0, before.1, events.last());
    }
}

/// Whether the rules passed the entry at some point of the run.
pub open spec fn passed_by_rules(events: Seq<Event>) -> bool {
    exists|i: int| 0 <= i < events.len() && #[trigger] events[i] == Event::Verdict(Ok(()))
}

/// Whether a task has got past validation.
pub open spec fn past_validation(task: AuthorEntryView) -> bool {
    match task {
        AuthorEntryView::Committing { .. } => true,
        AuthorEntryView::Publishing { .. } => true,
        AuthorEntryView::Succeeded { .. } => true,
        AuthorEntryView::Failed { error } => error is Commit || error is Publish,
        _ => false,
    }
}

/// Nothing is committed that was not validated: a task gets past validation,
/// and the state changes, only in a run in which the rules passed the entry.
pub proof fn law_commit_needs_a_passing_verdict(
    entry: EntryView,
    crud_link: Option<Seq<u8>>,
    initial: ContextView,
    events: Seq<Event>,
)
    ensures
        ({
            let end = run(AuthorEntryView::BuildingPackage { entry, crud_link }, initial, events);
            past_validation(end.0) || end.1 != initial ==> passed_by_rules(events)
        }),
    decreases events.len(),
{
    if events.len() > 0 {
        let start = AuthorEntryView::BuildingPackage { entry, crud_link };
        let earlier = events.drop_last();
        let before = run(start, initial, earlier);
        law_commit_needs_a_passing_verdict(entry, crud_link, initial, earlier);
        law_run_is_faithful(entry, crud_link, initial, earlier);
        if passed_by_rules(earlier) {
            let i = choose|i: int|
                0 <= i < earlier.len() && #[trigger] earlier[i] == Event::Verdict(Ok(()));
            assert(events[i] == Event::Verdict(Ok(())));
        } else {
            let end = next_state(before.0, events.last(), before.1);
            if past_validation(end.0) || end.1 != initial {
                let rules = events.last()->Verdict_0;
                assert(rules->Ok_0 == ());
                assert(events[events.len() - 1] == Event::Verdict(Ok(())));
            }
        }
    }
}

/// An entry that is not committed leaves no trace: where the call fails to
/// build the package, fails validation or fails to commit, the chain and the
/// stores are exactly what they were before the call; in particular the head
/// has not moved and no content was added.
pub proof fn law_failure_before_publication_changes_nothing(
    entry: EntryView,
    crud_link: Option<Seq<u8>>,
    initial: ContextView,
    events: Seq<Event>,
)
    ensures
        ({
            let end = run(AuthorEntryView::BuildingPackage { entry, crud_link }, initial, events);
            &&& end.0 matches AuthorEntryView::Failed { error } ==> {
                &&& error is ValidationPackage ==> end.1 == initial
                &&& error is Validation ==> end.1 == initial
                &&& error is Commit ==> end.1 == initial
            }
            &&& rank(end.0) <= 2 ==> end.1 == initial
        }),
{
    law_run_is_faithful(entry, crud_link, initial, events);
}

/// Publication never precedes the commit: whenever the task is publishing,
/// has succeeded, or has failed to publish, the entry is in the local chain
/// and its canonical form can be fetched under its address. A successful call
/// returns that address, and no other.
pub proof fn law_publication_follows_commit(
    entry: EntryView,
    crud_link: Option<Seq<u8>>,
    initial: ContextView,
    events: Seq<Event>,
)
    ensures
        ({
            let end = run(AuthorEntryView::BuildingPackage { entry, crud_link }, initial, events);
            let committed_now = {
                &&& end.1 == committed(entry, crud_link, initial)
                &&& resolves(end.1, entry_address(entry))
                &&& end.1.chain_storage[entry_address(entry)] == canonical_form(entry)
            };
            &&& end.0 is Publishing ==> committed_now
            &&& end.0 is Succeeded ==> committed_now
            &&& outcome_of(end.0) matches Some(Ok(address)) ==> address == entry_address(entry)
            &&& outcome_of(end.0) matches Some(Err(HolochainError::Publish(_))) ==> committed_now
        }),
{
    law_run_is_faithful(entry, crud_link, initial, events);
}

/// The events of a call in which everything outside is reported in order:
/// the package is built, the rules give their verdict, the entry is
/// committed, the transport answers.
pub open spec fn call_events(rules: Result<(), String>, answer: Result<(), String>) -> Seq<Event> {
    seq![Event::Proceed, Event::Verdict(rules), Event::Proceed, Event::Acknowledged(answer)]
}

/// How a whole authoring call ends, stage by stage.
///
/// It fails with the builder's failure if the package cannot be built; else
/// with the validation failure if validation fails; else with the
/// committer's failure if the commit fails; else with the transport's reason
/// if the announcement is not acknowledged; and else it succeeds with the
/// entry's address.
pub proof fn law_call_ends(
    entry: EntryView,
    crud_link: Option<Seq<u8>>,
    initial: ContextView,
    rules: Result<(), String>,
    answer: Result<(), String>,
)
    ensures
        ({
            let end = run(
                AuthorEntryView::BuildingPackage { entry, crud_link },
                initial,
                call_events(rules, answer),
            );
            let valid = ValidatedView {
                entry,
                lifecycle: EntryLifecycle::Chain,
                action: authoring_action(crud_link),
            };
            outcome_of(end.0) == Some(
                match authoring_data(entry, crud_link, initial) {
                    Err(error) => Err::<Seq<u8>, HolochainError>(error),
                    Ok(data) => match verdict_on(data, rules) {
                        Err(failure) => Err(HolochainError::Validation(failure)),
                        Ok(_) => match commit_outcome(valid, crud_link, initial) {
                            Err(failure) => Err(HolochainError::Commit(failure)),
                            Ok(_) => match publication(entry_address(entry), answer) {
                                Err(failure) => Err(HolochainError::Publish(failure)),
                                Ok(address) => Ok(address),
                            },
                        },
                    },
                },
            )
        }),
{
    let start = AuthorEntryView::BuildingPackage { entry, crud_link };
    let events = call_events(rules, answer);
    let e1 = events.drop_last();
    let e2 = e1.drop_last();
    let e3 = e2.drop_last();
    let e4 = e3.drop_last();
    assert(e4.len() == 0);
    let s0 = run(start, initial, e4);
    assert(s0 == (start, initial));
    let s1 = run(start, initial, e3);
    assert(e3.last() == Event::Proceed);
    assert(s1 == next_state(s0.0, Event::Proceed, s0.1));
    let s2 = run(start, initial, e2);
    assert(e2.last() == Event::Verdict(rules));
    assert(s2 == next_state(s1.0, Event::Verdict(rules), s1.1));
    let s3 = run(start, initial, e1);
    assert(e1.last() == Event::Proceed);
    assert(s3 == next_state(s2.0, Event::Proceed, s2.1));
    let s4 = run(start, initial, events);
    assert(events.last() == Event::Acknowledged(answer));
    assert(s4 == next_state(s3.0, Event::Acknowledged(answer), s3.1));
    law_run_is_faithful(entry, crud_link, initial, e3);
    law_run_is_faithful(entry, crud_link, initial, e2);
    law_run_is_faithful(entry, crud_link, initial, e1);
    law_run_is_faithful(entry, crud_link, initial, events);
    let valid = ValidatedView {
        entry,
        lifecycle: EntryLifecycle::Chain,
        action: authoring_action(crud_link),
    };
    if commit_outcome(valid, crud_link, initial) is Ok {
        law_commit_records_entry(valid, crud_link, initial);
    }
}

/// The author holds what it publishes. The announcement that an authoring
/// task produces, handed to the author's own holding task with the author as
/// its source, is read as the authored entry and awaits the verdict of the
/// rules. If the rules pass it and the author's share of the store accepts
/// it, the entry is held there under its address and nothing else changes;
/// otherwise the holding task fails and changes nothing.
pub proof fn law_author_holds_what_it_publishes(
    entry: EntryView,
    crud_link: Option<Seq<u8>>,
    initial: ContextView,
    events: Seq<Event>,
    rules: Result<(), String>,
)
    ensures
        ({
            let end = run(AuthorEntryView::BuildingPackage { entry, crud_link }, initial, events);
            end.0 matches AuthorEntryView::Publishing { announcement } ==> {
                let task = received(
                    announcement.address,
                    announcement.content,
                    end.1.agent,
                    end.1,
                );
                let after = decided(task, rules, end.1);
                let taken = rules is Ok && accepts(
                    end.1.dht_storage,
                    announcement.address,
                    announcement.content,
                );
                &&& task matches HoldEntryView::Validating { entry: read, address, data }
                &&& read == entry
                &&& address == announcement.address
                &&& data.sources == seq![end.1.agent]
                &&& taken ==> after.0 == (HoldEntryView::Held { address: announcement.address })
                    && after.1 == (ContextView {
                    dht_storage: end.1.dht_storage.insert(
                        announcement.address,
                        announcement.content,
                    ),
                    ..end.1
                })
                &&& !taken ==> after.0 is Failed && after.1 == end.1
            }
        }),
{
    law_run_is_faithful(entry, crud_link, initial, events);
    law_parse_inverts_canonical_form(entry);
    let end = run(AuthorEntryView::BuildingPackage { entry, crud_link }, initial, events);
    if end.0 is Publishing {
        let sources = seq![end.1.agent];
        assert(sources[0].len() > 0);
    }
}

} // verus!
