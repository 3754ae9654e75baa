use holochain_core::address::Address;
use holochain_core::chain::SourceChain;
use holochain_core::context::Context;
use holochain_core::entry::Entry;
use holochain_core::error::{
    HoldError, HoldFailure, HolochainError, PublishFailure, ValidationFailure,
};
use holochain_core::package::{build_dht_validation_package, build_validation_package, RemoteLookup};
use holochain_core::publish::{hold_entry, publish, Announcement};
use holochain_core::storage::{MemoryStorage, StorageError};
use holochain_core::validate::validate_entry;
use holochain_core::validation::{EntryAction, EntryLifecycle, ValidatedEntry, ValidationData};
use holochain_core::workflows::author_entry::{author_entry, Action, AuthorEntry, Event};
use holochain_core::workflows::hold_entry::{receive, HoldEntry};

fn test_entry() -> Entry {
    Entry::from_text("testEntryType", "test entry value")
}

fn instance_by_name(name: &str) -> Context {
    Context::new(Address::from_text(name))
}

fn validated_for_dht(entry: &Entry, source: &str, context: &Context) -> ValidatedEntry {
    let package = build_dht_validation_package(
        entry,
        EntryAction::Create,
        &None,
        context,
        RemoteLookup::NotFound,
    )
    .unwrap();
    let data = ValidationData {
        package,
        sources: vec![Address::from_text(source)],
        lifecycle: EntryLifecycle::Dht,
        action: EntryAction::Create,
    };
    match validate_entry(entry.clone(), &data, Ok(())) {
        Ok(valid) => valid,
        Err(failure) => panic!("validation failed: {:?}", failure),
    }
}

/// Authors `entry` on `context` and hands back what went to the network.
fn author_and_announce(
    entry: &Entry,
    context: &mut Context,
) -> (Result<Address, HolochainError>, Option<(Address, Vec<u8>)>) {
    let mut sent = None;
    let mut task = author_entry(entry, None, context);
    loop {
        let event = match task.next_action() {
            Action::Continue => Event::Proceed,
            Action::Validate => Event::Verdict(Ok(())),
            Action::Publish => {
                if let AuthorEntry::Publishing { announcement } = &task {
                    sent = Some((announcement.address().clone(), announcement.content().to_vec()));
                }
                Event::Acknowledged(Ok(()))
            }
            Action::Done => match task.outcome() {
                Ok(outcome) => return (outcome, sent),
                Err(_) => unreachable!(),
            },
        };
        task = task.step(event, context);
    }
}

#[test]
fn test_commit_with_dht_publish() {
    let mut context1 = instance_by_name("jill");
    let mut context2 = instance_by_name("jack");

    let (result, sent) = author_and_announce(&test_entry(), &mut context1);
    let entry_address = result.unwrap();
    let mut in_flight = sent;

    let mut json: Option<Vec<u8>> = None;
    let mut tries = 0;
    while json.is_none() && tries < 120 {
        tries = tries + 1;
        json = context2.dht_storage().fetch(&entry_address);
        println!("Try {}: {:?}", tries, json);
        if json.is_none() {
            // The network delivers what jill announced to every peer.
            if let Some((address, content)) = in_flight.take() {
                for context in [&mut context1, &mut context2] {
                    let task = receive(address.clone(), &content, Address::from_text("jill"), context);
                    assert!(task.awaits_verdict());
                    let task = task.decide(Ok(()), context);
                    assert!(matches!(task.outcome(), Ok(Ok(held)) if held == address));
                }
            }
        }
    }

    let x: String = String::from_utf8(json.unwrap()).unwrap();
    assert_eq!(
        x,
        "{\"App\":[\"testEntryType\",\"\\\"test entry value\\\"\"]}".to_string(),
    );
    assert_eq!(
        context1.dht_storage().fetch(&entry_address),
        context2.dht_storage().fetch(&entry_address)
    );
    assert_eq!(context2.chain().len(), 0);
}

#[test]
fn publish_announces_only_what_is_committed() {
    let mut context = instance_by_name("jill");
    let entry = test_entry();
    assert_eq!(publish(&entry.address(), &context).err(), Some(PublishFailure::NotCommitted));
    let (result, _) = author_and_announce(&entry, &mut context);
    let address = result.unwrap();
    let announcement: Announcement = publish(&address, &context).unwrap();
    assert_eq!(announcement.address(), &address);
    assert_eq!(announcement.content(), entry.content().as_slice());
    assert_eq!(announcement.into_address(), address);
    let header = context.chain().head().unwrap();
    assert_eq!(publish(&header, &context).err(), Some(PublishFailure::NotCommitted));
}

#[test]
fn publish_needs_the_content_as_well_as_the_header() {
    let mut context = instance_by_name("jill");
    let entry = test_entry();
    author_and_announce(&entry, &mut context).0.unwrap();
    let stripped = Context::restore(
        Address::from_text("jill"),
        SourceChain::restore(context.chain().headers()),
        MemoryStorage::new(),
        MemoryStorage::new(),
    );
    assert!(stripped.chain().contains_entry(&entry.address()));
    assert!(!stripped.resolves(&entry.address()));
    assert_eq!(publish(&entry.address(), &stripped).err(), Some(PublishFailure::NotCommitted));
}

#[test]
fn hold_checks_the_address() {
    let mut context = instance_by_name("jack");
    let entry = test_entry();
    let valid = validated_for_dht(&entry, "jill", &context);
    let wrong = Address::of_content(b"something else");
    assert_eq!(hold_entry(&valid, &wrong, &mut context), Err(HoldFailure::AddressMismatch));
    assert!(!context.dht_storage().contains(&wrong));
    assert!(!context.dht_storage().contains(&entry.address()));
    assert_eq!(hold_entry(&valid, &entry.address(), &mut context), Ok(()));
    assert_eq!(context.dht_storage().fetch(&entry.address()), Some(entry.content()));
    assert_eq!(hold_entry(&valid, &entry.address(), &mut context), Ok(()));
    assert_eq!(context.dht_storage().fetch(&entry.address()), Some(entry.content()));
    assert_eq!(context.chain().len(), 0);
    assert!(!context.chain_storage().contains(&entry.address()));
}

#[test]
fn hold_takes_only_what_was_validated_for_the_dht() {
    let mut context = instance_by_name("jack");
    let entry = test_entry();
    let data = ValidationData {
        package: build_validation_package(&entry, EntryAction::Create, &None, &context).unwrap(),
        sources: vec![Address::from_text("jack")],
        lifecycle: EntryLifecycle::Chain,
        action: EntryAction::Create,
    };
    let valid = match validate_entry(entry.clone(), &data, Ok(())) {
        Ok(valid) => valid,
        Err(failure) => panic!("validation failed: {:?}", failure),
    };
    assert_eq!(
        hold_entry(&valid, &entry.address(), &mut context),
        Err(HoldFailure::NotDhtValidated)
    );
    assert!(!context.dht_storage().contains(&entry.address()));
}

#[test]
fn hold_reports_a_conflict_in_the_store() {
    let entry = test_entry();
    let mut occupied = MemoryStorage::new();
    assert_eq!(occupied.store(&entry.address(), b"something else"), Ok(()));
    let mut context = Context::restore(
        Address::from_text("jack"),
        SourceChain::new(),
        MemoryStorage::new(),
        occupied,
    );
    let valid = validated_for_dht(&entry, "jill", &context);
    assert_eq!(
        hold_entry(&valid, &entry.address(), &mut context),
        Err(HoldFailure::Storage(StorageError::IntegrityViolation))
    );
    assert_eq!(
        context.dht_storage().fetch(&entry.address()),
        Some(b"something else".to_vec())
    );
}

#[test]
fn announced_entry_is_read_validated_and_held() {
    let mut context = instance_by_name("jack");
    let entry = test_entry();
    let task = receive(entry.address(), &entry.content(), Address::from_text("jill"), &context);
    match &task {
        HoldEntry::Validating { entry: read, address, data } => {
            assert_eq!(read, &entry);
            assert_eq!(address, &entry.address());
            assert_eq!(data.sources, vec![Address::from_text("jill")]);
            assert_eq!(data.lifecycle, EntryLifecycle::Dht);
            assert_eq!(data.action, EntryAction::Create);
            assert_eq!(data.package.lifecycle(), EntryLifecycle::Dht);
            assert_eq!(data.package.action(), EntryAction::Create);
            assert_eq!(data.package.entry_type(), b"testEntryType");
        }
        _ => panic!("the task does not wait for the verdict"),
    }
    assert!(task.awaits_verdict());
    assert!(!context.dht_storage().contains(&entry.address()));
    let task = task.decide(Ok(()), &mut context);
    assert!(!task.awaits_verdict());
    assert!(matches!(&task, HoldEntry::Held { address } if address == &entry.address()));
    assert_eq!(context.dht_storage().fetch(&entry.address()), Some(entry.content()));
    let task = task.decide(Err("late".to_string()), &mut context);
    assert!(matches!(task.outcome(), Ok(Ok(address)) if address == entry.address()));
    assert_eq!(context.dht_storage().fetch(&entry.address()), Some(entry.content()));

    let again = receive(entry.address(), &entry.content(), Address::from_text("jill"), &context)
        .decide(Ok(()), &mut context);
    assert!(matches!(again, HoldEntry::Held { .. }));
    assert_eq!(context.dht_storage().fetch(&entry.address()), Some(entry.content()));
}

#[test]
fn announced_entry_is_not_held_without_validation() {
    let mut context = instance_by_name("jack");
    let entry = test_entry();
    let task = receive(entry.address(), &entry.content(), Address::from_text("jill"), &context);
    assert!(matches!(task.outcome(), Err(HoldEntry::Validating { .. })));
    assert!(!context.dht_storage().contains(&entry.address()));

    let task = receive(entry.address(), &entry.content(), Address::from_text("jill"), &context)
        .decide(Err("not allowed".to_string()), &mut context);
    assert!(matches!(
        task.outcome(),
        Ok(Err(HoldError::Validation(ValidationFailure::Rejected(reason)))) if reason == "not allowed"
    ));
    assert!(!context.dht_storage().contains(&entry.address()));

    let task = receive(entry.address(), &entry.content(), Address::new(Vec::new()), &context)
        .decide(Ok(()), &mut context);
    assert!(matches!(
        task.outcome(),
        Ok(Err(HoldError::Validation(ValidationFailure::MalformedSources)))
    ));
    assert!(!context.dht_storage().contains(&entry.address()));
}

#[test]
fn announcement_must_be_an_entry_under_its_own_address() {
    let context = instance_by_name("jack");
    let entry = test_entry();
    let task = receive(entry.address(), b"not an entry", Address::from_text("jill"), &context);
    assert!(matches!(task, HoldEntry::Failed { error: HoldError::Malformed }));
    let other = Entry::from_text("testEntryType", "another value");
    let task = receive(entry.address(), &other.content(), Address::from_text("jill"), &context);
    assert!(matches!(
        task,
        HoldEntry::Failed { error: HoldError::Hold(HoldFailure::AddressMismatch) }
    ));
    let task = receive(
        Address::of_content(b"not an entry"),
        b"not an entry",
        Address::from_text("jill"),
        &context,
    );
    assert!(matches!(task.outcome(), Ok(Err(HoldError::Malformed))));
}

#[test]
fn conflict_in_the_store_fails_the_holding_task() {
    let entry = test_entry();
    let mut occupied = MemoryStorage::new();
    assert_eq!(occupied.store(&entry.address(), b"something else"), Ok(()));
    let mut context = Context::restore(
        Address::from_text("jack"),
        SourceChain::new(),
        MemoryStorage::new(),
        occupied,
    );
    let task = receive(entry.address(), &entry.content(), Address::from_text("jill"), &context)
        .decide(Ok(()), &mut context);
    assert!(matches!(
        task.outcome(),
        Ok(Err(HoldError::Hold(HoldFailure::Storage(StorageError::IntegrityViolation))))
    ));
    assert_eq!(
        context.dht_storage().fetch(&entry.address()),
        Some(b"something else".to_vec())
    );
}
