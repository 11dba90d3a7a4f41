//! The change detector: decides whether a release is new, and records it
//! before anybody is told.

use crate::database::{
    differs, StoreError, VersionRecord, VersionRecordView, VersionStore, Versions,
};
use crate::release::{ReleaseDescriptor, ReleaseDescriptorView};
use vstd::prelude::*;

verus! {

/// What the detector makes of a release.
#[derive(Debug, Clone, Copy, PartialEq, Eq, Structural)]
pub enum Classification {
    New,
    Unchanged,
}

/// A release is new where the store holds no record of its entity, or a
/// record with another marker. Markers are compared character by character.
pub open spec fn classification(versions: Versions, release: ReleaseDescriptorView) -> Classification {
    if differs(versions, release.entity(), release.marker()) {
        Classification::New
    } else {
        Classification::Unchanged
    }
}

/// The store after `release` was recorded in it.
pub open spec fn recorded(versions: Versions, release: ReleaseDescriptorView) -> Versions {
    versions.insert(release.entity(), release.record())
}

/// The store after the detector has seen `release`: a new release is
/// recorded, an unchanged one leaves the store as it was.
pub open spec fn observed(versions: Versions, release: ReleaseDescriptorView) -> Versions {
    if classification(versions, release) == Classification::New {
        recorded(versions, release)
    } else {
        versions
    }
}

/// The store after the detector has seen `release` `times` times in a row.
pub open spec fn observed_repeatedly(
    versions: Versions,
    release: ReleaseDescriptorView,
    times: nat,
) -> Versions
    decreases times,
{
    if times == 0 {
        versions
    } else {
        observed(observed_repeatedly(versions, release, (times - 1) as nat), release)
    }
}

/// Classifies `release` against the store, which stays as it is.
pub fn classify(store: &VersionStore, release: &ReleaseDescriptor) -> (class: Classification)
    ensures
        class == classification(store@, release@),
{
    match store.get(release.entity()) {
        Some(record) => {
            if record.version.as_str().eq(release.marker()) {
                Classification::Unchanged
            } else {
                Classification::New
            }
        },
        None => Classification::New,
    }
}

/// What is to be written durably before `release` may be announced: its
/// record where the release is new, nothing where it is unchanged.
pub open spec fn pending(versions: Versions, release: ReleaseDescriptorView) -> Option<
    VersionRecordView,
> {
    if classification(versions, release) == Classification::New {
        Some(release.record())
    } else {
        None
    }
}

/// Begins the detection of `release`: says what has to be written to the
/// durable store. The store held in memory stays as it is until the outcome
/// of that write is known.
pub fn pending_write(store: &VersionStore, release: &ReleaseDescriptor) -> (record: Option<
    VersionRecord,
>)
    ensures
        record.deep_view() == pending(store@, release@),
{
    match classify(store, release) {
        Classification::New => Some(release.record()),
        Classification::Unchanged => None,
    }
}

/// Takes note of how the durable write of a new release ended. After a
/// successful write the release is recorded in `store`; after a failed one
/// `store` stays as it was and the error is handed on.
pub fn commit(
    store: &mut VersionStore,
    release: &ReleaseDescriptor,
    written: Result<(), StoreError>,
) -> (done: Result<(), StoreError>)
    ensures
        done == written,
        written is Ok ==> final(store)@ == recorded(old(store)@, release@),
        written is Err ==> final(store)@ == old(store)@,
{
    if written.is_ok() {
        store.upsert(release.entity(), release.marker(), release.changelog());
    }
    written
}

/// Classifies `release` and, where it is new, records it in `store`.
pub fn observe(store: &mut VersionStore, release: &ReleaseDescriptor) -> (class: Classification)
    ensures
        class == classification(old(store)@, release@),
        final(store)@ == observed(old(store)@, release@),
{
    let class = classify(store, release);
    if class == Classification::New {
        store.upsert(release.entity(), release.marker(), release.changelog());
    }
    class
}

/// Once a release was seen, seeing it again changes nothing: it is classified
/// as unchanged, and the store stays as the first observation left it.
pub proof fn lemma_second_observation_unchanged(versions: Versions, release: ReleaseDescriptorView)
    ensures
        classification(observed(versions, release), release) == Classification::Unchanged,
        observed(observed(versions, release), release) == observed(versions, release),
        observed(versions, release).contains_key(release.entity()),
        observed(versions, release)[release.entity()].version == release.marker(),
{
}

/// However often a release is seen in a row, it is new at most the first
/// time: after one or more observations it is classified as unchanged, and
/// the store is the one that the first observation left.
pub proof fn lemma_observation_idempotent(
    versions: Versions,
    release: ReleaseDescriptorView,
    times: nat,
)
    requires
        times >= 1,
    ensures
        observed_repeatedly(versions, release, times) == observed(versions, release),
        classification(observed_repeatedly(versions, release, times), release)
            == Classification::Unchanged,
    decreases times,
{
    if times > 1 {
        lemma_observation_idempotent(versions, release, (times - 1) as nat);
    } else {
        assert(observed_repeatedly(versions, release, 0) == versions);
    }
    lemma_second_observation_unchanged(versions, release);
}

/// A release that is new when it is first seen is new exactly once in a row
/// of observations: at the first. At every later one it is unchanged, and
/// the store holds its marker from the first observation on.
pub proof fn lemma_new_exactly_once(versions: Versions, release: ReleaseDescriptorView, seen: nat)
    requires
        classification(versions, release) == Classification::New,
    ensures
        classification(observed_repeatedly(versions, release, seen), release) == if seen == 0 {
            Classification::New
        } else {
            Classification::Unchanged
        },
        seen >= 1 ==> observed_repeatedly(versions, release, seen)[release.entity()].version
            == release.marker(),
        seen >= 1 ==> observed_repeatedly(versions, release, seen) == recorded(versions, release),
{
    if seen >= 1 {
        lemma_observation_idempotent(versions, release, seen);
    }
}

/// The first release that is seen of an entity is new, whatever its marker.
pub proof fn lemma_first_observation_new(versions: Versions, release: ReleaseDescriptorView)
    requires
        !versions.contains_key(release.entity()),
    ensures
        classification(versions, release) == Classification::New,
        observed(versions, release) == recorded(versions, release),
{
}

/// Recording a release leaves the records of all other entities untouched.
pub proof fn lemma_record_leaves_others(
    versions: Versions,
    release: ReleaseDescriptorView,
    other: Seq<char>,
)
    requires
        other != release.entity(),
    ensures
        recorded(versions, release).contains_key(other) == versions.contains_key(other),
        versions.contains_key(other) ==> recorded(versions, release)[other] == versions[other],
        observed(versions, release).contains_key(other) == versions.contains_key(other),
        versions.contains_key(other) ==> observed(versions, release)[other] == versions[other],
{
}

} // verus!
