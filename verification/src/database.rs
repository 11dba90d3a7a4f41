//! The version store: for each watched entity, the last version that was seen.

use crate::models::clone_text;
use vstd::prelude::*;
use vstd::string::*;

verus! {

/// What the store keeps for one watched entity.
#[derive(Debug)]
pub struct VersionRecord {
    pub repo: String,
    pub version: String,
    pub changelog: Option<String>,
}

/// The mathematical view of [`VersionRecord`].
pub ghost struct VersionRecordView {
    pub repo: Seq<char>,
    pub version: Seq<char>,
    pub changelog: Option<Seq<char>>,
}

impl View for VersionRecord {
    type V = VersionRecordView;

    open spec fn view(&self) -> VersionRecordView {
        VersionRecordView {
            repo: self.repo@,
            version: self.version@,
            changelog: self.changelog.deep_view(),
        }
    }
}

impl DeepView for VersionRecord {
    type V = VersionRecordView;

    open spec fn deep_view(&self) -> VersionRecordView {
        self@
    }
}

impl Clone for VersionRecord {
    fn clone(&self) -> (copy: Self)
        ensures
            copy == *self,
    {
        VersionRecord {
            repo: self.repo.clone(),
            version: self.version.clone(),
            changelog: clone_text(&self.changelog),
        }
    }
}

/// Why a write to the durable store did not take place.
#[derive(Debug)]
pub struct StoreError {
    pub message: String,
}

/// The store as a mathematical map from entity identifier to record.
pub type Versions = Map<Seq<char>, VersionRecordView>;

/// The map that a list of records stands for: each record is filed under its
/// entity, and a later record replaces an earlier one of the same entity.
pub open spec fn table(records: Seq<VersionRecord>) -> Versions
    decreases records.len(),
{
    if records.len() == 0 {
        Map::empty()
    } else {
        table(records.drop_last()).insert(records.last().repo@, records.last()@)
    }
}

/// Whether `version` differs from what `versions` holds for `repo`. It does
/// where nothing is held for `repo`.
pub open spec fn differs(versions: Versions, repo: Seq<char>, version: Seq<char>) -> bool {
    !versions.contains_key(repo) || versions[repo].version != version
}

/// Writing a record a second time leaves the store as the first write left
/// it.
pub proof fn lemma_upsert_idempotent(versions: Versions, record: VersionRecordView)
    ensures
        versions.insert(record.repo, record).insert(record.repo, record) == versions.insert(
            record.repo,
            record,
        ),
        versions.insert(record.repo, record)[record.repo] == record,
{
}

/// Writes for two entities do not interfere: both records are there
/// afterwards, whichever was written first.
pub proof fn lemma_upserts_independent(
    versions: Versions,
    first: VersionRecordView,
    second: VersionRecordView,
)
    requires
        first.repo != second.repo,
    ensures
        versions.insert(first.repo, first).insert(second.repo, second) == versions.insert(
            second.repo,
            second,
        ).insert(first.repo, first),
        versions.insert(first.repo, first).insert(second.repo, second)[first.repo] == first,
        versions.insert(first.repo, first).insert(second.repo, second)[second.repo] == second,
{
}

proof fn lemma_table_absent(records: Seq<VersionRecord>, repo: Seq<char>)
    requires
        forall|i: int| 0 <= i < records.len() ==> records[i].repo@ != repo,
    ensures
        !table(records).contains_key(repo),
    decreases records.len(),
{
    if records.len() > 0 {
        lemma_table_absent(records.drop_last(), repo);
    }
}

proof fn lemma_table_last_match(records: Seq<VersionRecord>, at: int)
    requires
        0 <= at < records.len(),
        forall|i: int| at < i < records.len() ==> records[i].repo@ != records[at].repo@,
    ensures
        table(records).contains_key(records[at].repo@),
        table(records)[records[at].repo@] == records[at]@,
    decreases records.len(),
{
    if at < records.len() - 1 {
        lemma_table_last_match(records.drop_last(), at);
    }
}

proof fn lemma_table_replace(records: Seq<VersionRecord>, at: int, record: VersionRecord)
    requires
        0 <= at < records.len(),
        records[at].repo@ == record.repo@,
        forall|i: int| at < i < records.len() ==> records[i].repo@ != record.repo@,
    ensures
        table(records.update(at, record)) == table(records).insert(record.repo@, record@),
    decreases records.len(),
{
    let changed = records.update(at, record);
    if at < records.len() - 1 {
        lemma_table_replace(records.drop_last(), at, record);
        assert(changed.drop_last() == records.drop_last().update(at, record));
    } else {
        assert(changed.drop_last() == records.drop_last());
    }
}

/// The version store, held in memory.
pub struct VersionStore {
    records: Vec<VersionRecord>,
}

impl View for VersionStore {
    type V = Versions;

    closed spec fn view(&self) -> Versions {
        table(self.records@)
    }
}

impl VersionStore {
    /// A store that holds nothing.
    pub fn new() -> (store: Self)
        ensures
            store@ == Map::<Seq<char>, VersionRecordView>::empty(),
    {
        VersionStore { records: Vec::new() }
    }

    /// A store filled from `records`, in order: of two records of one entity
    /// the later one stays.
    pub fn from_records(records: Vec<VersionRecord>) -> (store: Self)
        ensures
            store@ == table(records@),
    {
        VersionStore { records }
    }

    /// Where the record of `repo` stands, if there is one.
    fn position(&self, repo: &str) -> (found: Option<usize>)
        ensures
            match found {
                Some(at) => {
                    &&& at < self.records.len()
                    &&& self.records[at as int].repo@ == repo@
                    &&& forall|i: int|
                        at < i < self.records.len() ==> self.records[i].repo@ != repo@
                },
                None => forall|i: int| 0 <= i < self.records.len() ==> self.records[i].repo@ != repo@,
            },
    {
        let mut at = self.records.len();
        while at > 0
            invariant
                at <= self.records.len(),
                forall|i: int| at <= i < self.records.len() ==> self.records[i].repo@ != repo@,
            decreases at,
        {
            at -= 1;
            if self.records[at].repo.as_str().eq(repo) {
                return Some(at);
            }
        }
        None
    }

    /// The record of `repo`, if the store holds one.
    pub fn get(&self, repo: &str) -> (found: Option<&VersionRecord>)
        ensures
            match found {
                Some(record) => self@.contains_key(repo@) && self@[repo@] == record@,
                None => !self@.contains_key(repo@),
            },
    {
        match self.position(repo) {
            Some(at) => {
                proof {
                    lemma_table_last_match(self.records@, at as int);
                }
                Some(&self.records[at])
            },
            None => {
                proof {
                    lemma_table_absent(self.records@, repo@);
                }
                None
            },
        }
    }

    /// Files `version` and `changelog` under `repo`, in place of what was
    /// there. The records of all other entities stay as they are.
    pub fn upsert(&mut self, repo: &str, version: &str, changelog: Option<&str>)
        ensures
            final(self)@ == old(self)@.insert(
                repo@,
                VersionRecordView { repo: repo@, version: version@, changelog: changelog.deep_view() },
            ),
    {
        let changelog = match changelog {
            Some(text) => Some(text.to_owned()),
            None => None,
        };
        let record = VersionRecord { repo: repo.to_owned(), version: version.to_owned(), changelog };
        match self.position(repo) {
            Some(at) => {
                proof {
                    lemma_table_replace(self.records@, at as int, record);
                }
                self.records.set(at, record);
            },
            None => {
                assert(self.records@.push(record).drop_last() == self.records@);
                self.records.push(record);
            },
        }
    }
}

/// Whether `version` is new for `repo`: the store holds nothing for `repo`,
/// or holds another version.
pub fn is_new_version(store: &VersionStore, repo: &str, version: &str) -> (new: bool)
    ensures
        new == differs(store@, repo@, version@),
{
    match store.get(repo) {
        Some(record) => !record.version.as_str().eq(version),
        None => true,
    }
}

/// Records `version` as the last one seen for `repo`.
pub fn update_version(store: &mut VersionStore, repo: &str, version: &str, changelog: Option<&str>)
    ensures
        final(store)@ == old(store)@.insert(
            repo@,
            VersionRecordView { repo: repo@, version: version@, changelog: changelog.deep_view() },
        ),
{
    store.upsert(repo, version, changelog);
}

} // verus!
