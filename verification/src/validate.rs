//! The validator.
//!
//! The rules that judge an entry belong to the application and are evaluated
//! outside: their verdict is handed in. What is decided here is whether the
//! validation data can be relied on at all, and what the verdict then means.

use crate::address::Address;
use crate::entry::Entry;
use crate::error::ValidationFailure;
use crate::validation::{
    address_views, ValidatedEntry, ValidatedView, ValidationData, ValidationDataView,
};
use vstd::prelude::*;

verus! {

/// Whether no source is empty and no source is named twice.
pub open spec fn sources_well_formed(sources: Seq<Seq<u8>>) -> bool {
    &&& forall|i: int| 0 <= i < sources.len() ==> (#[trigger] sources[i]).len() > 0
    &&& forall|i: int, j: int|
        0 <= i < j < sources.len() ==> #[trigger] sources[i] != #[trigger] sources[j]
}

/// Whether the package was assembled for the lifecycle and the action that
/// the validation asks for.
pub open spec fn package_matches(data: ValidationDataView) -> bool {
    data.package.lifecycle == data.lifecycle && data.package.action == data.action
}

/// What validation comes to, given the verdict of the application's rules.
///
/// Data without sources, with malformed sources or with a package for another
/// lifecycle or action fails whatever the rules said; the first of these that
/// applies is the failure. Otherwise the entry passes if the rules passed it,
/// and is rejected with their reason if they did not.
pub open spec fn verdict_on(data: ValidationDataView, rules: Result<(), String>) -> Result<
    (),
    ValidationFailure,
> {
    if data.sources.len() == 0 {
        Err(ValidationFailure::EmptySources)
    } else if !sources_well_formed(data.sources) {
        Err(ValidationFailure::MalformedSources)
    } else if !package_matches(data) {
        Err(ValidationFailure::PackageMismatch)
    } else {
        match rules {
            Ok(_) => Ok(()),
            Err(reason) => Err(ValidationFailure::Rejected(reason)),
        }
    }
}

/// Whether the source at `at` differs from all sources before it.
fn is_new_source(sources: &Vec<Address>, at: usize) -> (fresh: bool)
    requires
        at < sources.len(),
    ensures
        fresh == forall|i: int|
            0 <= i < at ==> #[trigger] address_views(sources@)[i] != address_views(sources@)[at as int],
{
    let mut i: usize = 0;
    while i < at
        invariant
            i <= at,
            at < sources.len(),
            forall|k: int|
                0 <= k < i ==> #[trigger] address_views(sources@)[k] != address_views(
                    sources@,
                )[at as int],
        decreases at - i,
    {
        if sources[i].same_as(&sources[at]) {
            assert(address_views(sources@)[i as int] == address_views(sources@)[at as int]);
            return false;
        }
        i += 1;
    }
    true
}

/// Whether no source is empty and no source is named twice.
pub fn check_sources(sources: &Vec<Address>) -> (well_formed: bool)
    ensures
        well_formed == sources_well_formed(address_views(sources@)),
{
    let ghost views = address_views(sources@);
    let mut j: usize = 0;
    while j < sources.len()
        invariant
            j <= sources.len(),
            views == address_views(sources@),
            forall|i: int| 0 <= i < j ==> (#[trigger] views[i]).len() > 0,
            forall|i: int, k: int| 0 <= i < k < j ==> #[trigger] views[i] != #[trigger] views[k],
        decreases sources.len() - j,
    {
        if sources[j].is_empty() {
            return false;
        }
        if !is_new_source(sources, j) {
            return false;
        }
        j += 1;
    }
    true
}

/// Validates `entry`, given the validation data and the verdict that the
/// application's rules gave on it.
///
/// The entry comes back as a validated entry if and only if validation passes;
/// otherwise the failure says why.
pub fn validate_entry(entry: Entry, data: &ValidationData, rules: Result<(), String>) -> (result:
    Result<ValidatedEntry, ValidationFailure>)
    ensures
        match result {
            Ok(valid) => verdict_on(data@, rules) == Ok::<(), ValidationFailure>(()) && valid@ == (
            ValidatedView { entry: entry@, lifecycle: data.lifecycle, action: data.action }),
            Err(failure) => verdict_on(data@, rules) == Err::<(), ValidationFailure>(failure),
        },
{
    if data.sources.len() == 0 {
        return Err(ValidationFailure::EmptySources);
    }
    if !check_sources(&data.sources) {
        return Err(ValidationFailure::MalformedSources);
    }
    if !(data.package.lifecycle() == data.lifecycle && data.package.action() == data.action) {
        return Err(ValidationFailure::PackageMismatch);
    }
    match rules {
        Ok(_) => Ok(ValidatedEntry::new(entry, data.lifecycle, data.action)),
        Err(reason) => Err(ValidationFailure::Rejected(reason)),
    }
}

} // verus!
