use holochain_core::address::Address;
use holochain_core::chain::{ChainHeader, SourceChain};
use holochain_core::commit::commit_entry;
use holochain_core::context::Context;
use holochain_core::entry::Entry;
use holochain_core::error::{CommitFailure, ValidationFailure, ValidationPackageError};
use holochain_core::package::{
    build_dht_validation_package, build_validation_package, needed_from_network, RemoteLookup,
};
use holochain_core::storage::MemoryStorage;
use holochain_core::validate::{check_sources, validate_entry};
use holochain_core::validation::{EntryAction, EntryLifecycle, ValidatedEntry, ValidationData};

fn sample_entry() -> Entry {
    Entry::from_text("testEntryType", "test entry value")
}

fn chain_data(entry: &Entry, context: &Context, sources: Vec<Address>) -> ValidationData {
    ValidationData {
        package: build_validation_package(entry, EntryAction::Create, &None, context).unwrap(),
        sources,
        lifecycle: EntryLifecycle::Chain,
        action: EntryAction::Create,
    }
}

fn validated(entry: &Entry, context: &Context) -> ValidatedEntry {
    let data = chain_data(entry, context, vec![Address::from_text("jill")]);
    match validate_entry(entry.clone(), &data, Ok(())) {
        Ok(valid) => valid,
        Err(failure) => panic!("validation failed: {:?}", failure),
    }
}

fn validated_as(
    entry: &Entry,
    action: EntryAction,
    link: &Option<Address>,
    context: &Context,
) -> ValidatedEntry {
    let data = ValidationData {
        package: build_validation_package(entry, action, link, context).unwrap(),
        sources: vec![Address::from_text("jill")],
        lifecycle: EntryLifecycle::Chain,
        action,
    };
    match validate_entry(entry.clone(), &data, Ok(())) {
        Ok(valid) => valid,
        Err(failure) => panic!("validation failed: {:?}", failure),
    }
}

/// A context that has `entry` committed.
fn context_with(entry: &Entry) -> Context {
    let mut context = Context::new(Address::from_text("jill"));
    let valid = validated(entry, &context);
    assert_eq!(commit_entry(&valid, &None, &mut context), Ok(entry.address()));
    context
}

fn failure_of(result: Result<ValidatedEntry, ValidationFailure>) -> ValidationFailure {
    match result {
        Ok(_) => panic!("validation passed"),
        Err(failure) => failure,
    }
}

#[test]
fn sources_must_be_distinct_and_not_empty() {
    let a = Address::from_text("a");
    let b = Address::from_text("b");
    assert!(check_sources(&vec![a.clone()]));
    assert!(check_sources(&vec![a.clone(), b.clone()]));
    assert!(check_sources(&vec![]));
    assert!(!check_sources(&vec![a.clone(), b.clone(), a.clone()]));
    assert!(!check_sources(&vec![a.clone(), a.clone()]));
    assert!(!check_sources(&vec![a.clone(), Address::new(Vec::new())]));
    assert!(!check_sources(&vec![Address::new(Vec::new())]));
}

#[test]
fn validation_passes_with_the_rules() {
    let context = Context::new(Address::from_text("jill"));
    let entry = sample_entry();
    let data = chain_data(&entry, &context, vec![Address::from_text("jill")]);
    let valid = validate_entry(entry.clone(), &data, Ok(()));
    match valid {
        Ok(valid) => {
            assert_eq!(valid.entry(), &entry);
            assert_eq!(valid.lifecycle(), EntryLifecycle::Chain);
            assert_eq!(valid.action(), EntryAction::Create);
        }
        Err(failure) => panic!("validation failed: {:?}", failure),
    }
}

#[test]
fn validation_is_rejected_with_the_reason_of_the_rules() {
    let context = Context::new(Address::from_text("jill"));
    let entry = sample_entry();
    let data = chain_data(&entry, &context, vec![Address::from_text("jill")]);
    let result = validate_entry(entry, &data, Err("too long".to_string()));
    assert_eq!(failure_of(result), ValidationFailure::Rejected("too long".to_string()));
}

#[test]
fn validation_without_sources_fails_whatever_the_rules_say() {
    let context = Context::new(Address::from_text("jill"));
    let entry = sample_entry();
    let data = chain_data(&entry, &context, vec![]);
    assert_eq!(
        failure_of(validate_entry(entry.clone(), &data, Ok(()))),
        ValidationFailure::EmptySources
    );
    assert_eq!(
        failure_of(validate_entry(entry, &data, Err("no".to_string()))),
        ValidationFailure::EmptySources
    );
}

#[test]
fn validation_with_malformed_sources_fails() {
    let context = Context::new(Address::from_text("jill"));
    let entry = sample_entry();
    let twice = vec![Address::from_text("jill"), Address::from_text("jill")];
    let data = chain_data(&entry, &context, twice);
    assert_eq!(
        failure_of(validate_entry(entry.clone(), &data, Ok(()))),
        ValidationFailure::MalformedSources
    );
    let data = chain_data(&entry, &context, vec![Address::new(Vec::new())]);
    assert_eq!(
        failure_of(validate_entry(entry, &data, Err("no".to_string()))),
        ValidationFailure::MalformedSources
    );
}

#[test]
fn validation_with_a_package_for_something_else_fails() {
    let context = Context::new(Address::from_text("jill"));
    let entry = sample_entry();
    let mut data = chain_data(&entry, &context, vec![Address::from_text("jill")]);
    data.lifecycle = EntryLifecycle::Dht;
    assert_eq!(
        failure_of(validate_entry(entry.clone(), &data, Ok(()))),
        ValidationFailure::PackageMismatch
    );
    let mut data = chain_data(&entry, &context, vec![Address::from_text("jill")]);
    data.action = EntryAction::Delete;
    assert_eq!(
        failure_of(validate_entry(entry.clone(), &data, Ok(()))),
        ValidationFailure::PackageMismatch
    );
    let mut data = chain_data(&entry, &context, vec![]);
    data.action = EntryAction::Modify;
    assert_eq!(
        failure_of(validate_entry(entry, &data, Ok(()))),
        ValidationFailure::EmptySources
    );
}

#[test]
fn chain_package_holds_the_history() {
    let first = Entry::from_text("testEntryType", "first");
    let context = context_with(&first);
    let entry = sample_entry();
    let package = build_validation_package(&entry, EntryAction::Create, &None, &context).unwrap();
    assert_eq!(package.lifecycle(), EntryLifecycle::Chain);
    assert_eq!(package.action(), EntryAction::Create);
    assert_eq!(package.entry_type(), b"testEntryType");
    assert_eq!(package.chain_headers(), &context.chain().headers());
    assert_eq!(package.chain_headers().len(), 1);
    assert_eq!(package.prior(), &None);
}

#[test]
fn chain_package_for_a_change_holds_the_prior_entry() {
    let first = Entry::from_text("testEntryType", "first");
    let context = context_with(&first);
    let entry = sample_entry();
    let link = Some(first.address());
    let package = build_validation_package(&entry, EntryAction::Modify, &link, &context).unwrap();
    assert_eq!(package.action(), EntryAction::Modify);
    assert_eq!(package.prior(), &Some(first.content()));
    let package = build_validation_package(&entry, EntryAction::Delete, &link, &context).unwrap();
    assert_eq!(package.action(), EntryAction::Delete);
    assert_eq!(package.prior(), &Some(first.content()));
    let package = build_validation_package(&entry, EntryAction::Create, &link, &context).unwrap();
    assert_eq!(package.prior(), &None);
}

#[test]
fn chain_package_leaves_a_missing_prior_entry_to_the_committer() {
    let first = Entry::from_text("testEntryType", "first");
    let context = context_with(&first);
    let entry = sample_entry();
    let missing = Some(Address::of_content(b"never committed"));
    for action in [EntryAction::Modify, EntryAction::Delete] {
        for link in [&missing, &None] {
            let package = build_validation_package(&entry, action, link, &context).unwrap();
            assert_eq!(package.action(), action);
            assert_eq!(package.prior(), &None);
            assert_eq!(package.chain_headers().len(), 1);
        }
    }
    let package =
        build_validation_package(&entry, EntryAction::Create, &missing, &context).unwrap();
    assert_eq!(package.prior(), &None);
}

#[test]
fn chain_package_needs_an_intact_chain() {
    let forged = ChainHeader::new(
        b"t".to_vec(),
        Address::from_text("e"),
        Some(Address::from_text("nowhere")),
        None,
    );
    let context = Context::restore(
        Address::from_text("jill"),
        SourceChain::restore(vec![forged]),
        MemoryStorage::new(),
        MemoryStorage::new(),
    );
    for action in [EntryAction::Create, EntryAction::Modify, EntryAction::Delete] {
        assert_eq!(
            build_validation_package(&sample_entry(), action, &None, &context).err(),
            Some(ValidationPackageError::ChainInconsistent)
        );
    }
}

#[test]
fn dht_package_to_create_needs_no_network() {
    let context = Context::new(Address::from_text("jack"));
    let entry = sample_entry();
    assert_eq!(needed_from_network(EntryAction::Create, &None, &context), None);
    let link = Some(Address::from_text("x"));
    assert_eq!(needed_from_network(EntryAction::Create, &link, &context), None);
    let package = build_dht_validation_package(
        &entry,
        EntryAction::Create,
        &None,
        &context,
        RemoteLookup::Unreachable,
    )
    .unwrap();
    assert_eq!(package.lifecycle(), EntryLifecycle::Dht);
    assert_eq!(package.action(), EntryAction::Create);
    assert_eq!(package.entry_type(), b"testEntryType");
    assert!(package.chain_headers().is_empty());
    assert_eq!(package.prior(), &None);
}

#[test]
fn dht_package_tells_unreachable_from_missing() {
    let context = Context::new(Address::from_text("jack"));
    let entry = sample_entry();
    let link = Some(Address::of_content(b"prior"));
    assert_eq!(needed_from_network(EntryAction::Modify, &link, &context), link);
    assert_eq!(needed_from_network(EntryAction::Delete, &link, &context), link);
    assert_eq!(needed_from_network(EntryAction::Modify, &None, &context), None);
    let build = |remote: RemoteLookup| {
        build_dht_validation_package(&entry, EntryAction::Modify, &link, &context, remote)
    };
    assert_eq!(
        build(RemoteLookup::Unreachable).err(),
        Some(ValidationPackageError::NetworkUnreachable)
    );
    assert_eq!(
        build(RemoteLookup::NotFound).err(),
        Some(ValidationPackageError::DependencyNotFound)
    );
    assert_eq!(
        build(RemoteLookup::Found(b"forged".to_vec())).err(),
        Some(ValidationPackageError::DependencyNotFound)
    );
    let package = build(RemoteLookup::Found(b"prior".to_vec())).unwrap();
    assert_eq!(package.prior(), &Some(b"prior".to_vec()));
    assert_eq!(package.action(), EntryAction::Modify);
    assert_eq!(
        build_dht_validation_package(
            &entry,
            EntryAction::Delete,
            &None,
            &context,
            RemoteLookup::Found(b"prior".to_vec())
        )
        .err(),
        Some(ValidationPackageError::DependencyNotFound)
    );
}

#[test]
fn dht_package_prefers_what_is_held_locally() {
    let mut held = MemoryStorage::new();
    let link = Address::of_content(b"prior");
    assert_eq!(held.store(&link, b"prior"), Ok(()));
    let context =
        Context::restore(Address::from_text("jack"), SourceChain::new(), MemoryStorage::new(), held);
    let link = Some(link);
    assert_eq!(needed_from_network(EntryAction::Modify, &link, &context), None);
    let package = build_dht_validation_package(
        &sample_entry(),
        EntryAction::Delete,
        &link,
        &context,
        RemoteLookup::Unreachable,
    )
    .unwrap();
    assert_eq!(package.prior(), &Some(b"prior".to_vec()));
    assert_eq!(package.lifecycle(), EntryLifecycle::Dht);
}

#[test]
fn commit_takes_only_what_was_validated_for_the_chain() {
    let mut context = Context::new(Address::from_text("jill"));
    let entry = sample_entry();
    let data = ValidationData {
        package: build_dht_validation_package(
            &entry,
            EntryAction::Create,
            &None,
            &context,
            RemoteLookup::NotFound,
        )
        .unwrap(),
        sources: vec![Address::from_text("jack")],
        lifecycle: EntryLifecycle::Dht,
        action: EntryAction::Create,
    };
    let valid = match validate_entry(entry.clone(), &data, Ok(())) {
        Ok(valid) => valid,
        Err(failure) => panic!("validation failed: {:?}", failure),
    };
    assert_eq!(
        commit_entry(&valid, &None, &mut context),
        Err(CommitFailure::NotChainValidated)
    );
    assert_eq!(context.chain().len(), 0);
    assert!(!context.chain_storage().contains(&entry.address()));
}

#[test]
fn commit_links_each_header_to_the_head() {
    let mut context = Context::new(Address::from_text("jill"));
    let first = Entry::from_text("testEntryType", "first");
    let second = Entry::from_text("testEntryType", "second");
    let valid = validated(&first, &context);
    assert_eq!(commit_entry(&valid, &None, &mut context), Ok(first.address()));
    let head = context.chain().head();
    assert!(head.is_some());
    let link = Some(first.address());
    let valid = validated_as(&second, EntryAction::Delete, &link, &context);
    assert_eq!(commit_entry(&valid, &link, &mut context), Ok(second.address()));
    let newest = context.chain().header(1).unwrap();
    assert_eq!(newest.link(), &head);
    assert_eq!(newest.link_crud(), &link);
    assert_eq!(context.chain().head(), Some(newest.address()));
    assert!(context.chain().is_consistent());
    assert!(context.resolves(&first.address()));
    assert!(context.resolves(&second.address()));
    let unknown = Some(Address::from_text("unknown"));
    for action in [EntryAction::Modify, EntryAction::Delete] {
        let valid = validated_as(&first, action, &unknown, &context);
        assert_eq!(
            commit_entry(&valid, &unknown, &mut context),
            Err(CommitFailure::CrudLinkUnresolved)
        );
    }
    assert_eq!(context.chain().len(), 2);
}

#[test]
fn commit_needs_a_link_that_fits_the_action() {
    let first = Entry::from_text("testEntryType", "first");
    let mut context = context_with(&first);
    let second = Entry::from_text("testEntryType", "second");
    let link = Some(first.address());
    let unknown = Some(Address::from_text("unknown"));

    let created = validated(&second, &context);
    assert_eq!(created.action(), EntryAction::Create);
    assert_eq!(
        commit_entry(&created, &link, &mut context),
        Err(CommitFailure::CrudLinkMismatch)
    );
    assert_eq!(
        commit_entry(&created, &unknown, &mut context),
        Err(CommitFailure::CrudLinkMismatch)
    );
    for action in [EntryAction::Modify, EntryAction::Delete] {
        let changed = validated_as(&second, action, &link, &context);
        assert_eq!(changed.action(), action);
        assert_eq!(
            commit_entry(&changed, &None, &mut context),
            Err(CommitFailure::CrudLinkMismatch)
        );
    }
    assert_eq!(context.chain().len(), 1);
    assert!(!context.chain_storage().contains(&second.address()));

    let changed = validated_as(&second, EntryAction::Modify, &link, &context);
    assert_eq!(commit_entry(&changed, &link, &mut context), Ok(second.address()));
    assert_eq!(context.chain().header(1).unwrap().link_crud(), &link);
    assert_eq!(commit_entry(&created, &None, &mut context), Ok(second.address()));
    assert_eq!(context.chain().len(), 3);
}
