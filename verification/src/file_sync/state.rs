//! The state manifest: the updater's record of what it last synced, by path.

use super::super::manifest::manifest_spec::{text_of, FileHashAlg, FileModel, ManifestFile};
use super::{resolve_best_hash, strongest};
use vstd::prelude::*;

verus! {

/// What was known of a file when it was last synced.
#[derive(Debug, Clone)]
pub struct StateRecord {
    /// Filepath of the file on disk, relative to app dir.
    pub path: String,
    /// Algorithm of the digest the file was checked against, if it was.
    pub algorithm: Option<FileHashAlg>,
    /// The digest the file was checked against, if it was.
    pub digest: Option<String>,
    /// Size in bytes that the manifest stated of the file.
    pub size: Option<u64>,
}

/// The files that the updater has put on disk and not deleted since.
#[derive(Debug, Clone)]
pub struct StateManifest {
    /// One record per file.
    pub records: Vec<StateRecord>,
}

/// What a `StateRecord` holds.
pub struct RecordModel {
    pub path: Seq<char>,
    pub algorithm: Option<FileHashAlg>,
    pub digest: Option<Seq<char>>,
    pub size: Option<u64>,
}

impl View for StateRecord {
    type V = RecordModel;

    open spec fn view(&self) -> RecordModel {
        RecordModel {
            path: self.path@,
            algorithm: self.algorithm,
            digest: text_of(self.digest),
            size: self.size,
        }
    }
}

/// The models of a list of records.
pub open spec fn records_of(v: Seq<StateRecord>) -> Seq<RecordModel> {
    Seq::new(v.len(), |i: int| v[i]@)
}

impl View for StateManifest {
    type V = Seq<RecordModel>;

    open spec fn view(&self) -> Seq<RecordModel> {
        records_of(self.records@)
    }
}

/// The position of the first record for `path` at or after `from`.
pub open spec fn position_from(records: Seq<RecordModel>, path: Seq<char>, from: int) -> Option<int>
    decreases records.len() - from,
{
    if from < 0 || from >= records.len() {
        None
    } else if records[from].path == path {
        Some(from)
    } else {
        position_from(records, path, from + 1)
    }
}

/// The position of the record for `path`.
pub open spec fn position(records: Seq<RecordModel>, path: Seq<char>) -> Option<int> {
    position_from(records, path, 0)
}

/// The record for `path`, if the state holds one.
pub open spec fn lookup(records: Seq<RecordModel>, path: Seq<char>) -> Option<RecordModel> {
    match position(records, path) {
        Some(i) => Some(records[i]),
        None => None,
    }
}

/// Whether no two records are for one path.
pub open spec fn distinct_paths(records: Seq<RecordModel>) -> bool {
    forall|i: int, j: int|
        0 <= i < j < records.len() ==> (#[trigger] records[i]).path != (#[trigger] records[j]).path
}

/// What a successful sync of `file` leaves on record: its path, its
/// strongest digest and its stated size.
pub open spec fn record_for(file: FileModel) -> RecordModel {
    RecordModel {
        path: file.path,
        algorithm: match strongest(file) {
            Some((_, alg)) => Some(alg),
            None => None,
        },
        digest: match strongest(file) {
            Some((digest, _)) => Some(digest),
            None => None,
        },
        size: file.size,
    }
}

/// The state after `record` was put on record: it takes the place of the
/// record for its path, or the last place if there was none.
pub open spec fn recorded(records: Seq<RecordModel>, record: RecordModel) -> Seq<RecordModel> {
    match position(records, record.path) {
        Some(i) => records.update(i, record),
        None => records.push(record),
    }
}

/// The state after the records for `path` among the first `n` were struck.
pub open spec fn forgotten_upto(records: Seq<RecordModel>, path: Seq<char>, n: int) -> Seq<
    RecordModel,
>
    decreases n,
{
    if n <= 0 {
        Seq::empty()
    } else if records[n - 1].path == path {
        forgotten_upto(records, path, n - 1)
    } else {
        forgotten_upto(records, path, n - 1).push(records[n - 1])
    }
}

/// The state after every record for `path` was struck.
pub open spec fn forgotten(records: Seq<RecordModel>, path: Seq<char>) -> Seq<RecordModel> {
    forgotten_upto(records, path, records.len() as int)
}

/// What `position_from` finds is a record for the path, and no record before
/// it from `from` on is.
pub proof fn lemma_position_from(records: Seq<RecordModel>, path: Seq<char>, from: int)
    requires
        0 <= from,
    ensures
        match position_from(records, path, from) {
            Some(i) => from <= i < records.len() && records[i].path == path && forall|k: int|
                from <= k < i ==> (#[trigger] records[k]).path != path,
            None => forall|k: int| from <= k < records.len() ==> (#[trigger] records[k]).path != path,
        },
    decreases records.len() - from,
{
    if from < records.len() && records[from].path != path {
        lemma_position_from(records, path, from + 1);
    }
}

/// A search that starts at or before the first record for the path finds it.
pub proof fn lemma_position_found(records: Seq<RecordModel>, path: Seq<char>, from: int, i: int)
    requires
        0 <= from <= i < records.len(),
        records[i].path == path,
        forall|k: int| from <= k < i ==> (#[trigger] records[k]).path != path,
    ensures
        position_from(records, path, from) == Some(i),
    decreases i - from,
{
    if from < i {
        lemma_position_found(records, path, from + 1, i);
    }
}

/// A search among records of which none is for the path finds nothing.
pub proof fn lemma_position_absent(records: Seq<RecordModel>, path: Seq<char>, from: int)
    requires
        0 <= from,
        forall|k: int| from <= k < records.len() ==> (#[trigger] records[k]).path != path,
    ensures
        position_from(records, path, from) is None,
    decreases records.len() - from,
{
    if from < records.len() {
        lemma_position_absent(records, path, from + 1);
    }
}

/// After a record is put on record it is what the state holds for its path,
/// the other paths keep what they had, and paths stay distinct.
pub proof fn law_recorded_is_found(records: Seq<RecordModel>, record: RecordModel, other: Seq<char>)
    ensures
        lookup(recorded(records, record), record.path) == Some(record),
        other != record.path ==> lookup(recorded(records, record), other) == lookup(records, other),
        distinct_paths(records) ==> distinct_paths(recorded(records, record)),
{
    let after = recorded(records, record);
    lemma_position_from(records, record.path, 0);
    lemma_position_from(records, other, 0);
    match position(records, record.path) {
        Some(i) => {
            lemma_position_found(after, record.path, 0, i);
        },
        None => {
            lemma_position_found(after, record.path, 0, records.len() as int);
        },
    }
    if other != record.path {
        match position(records, other) {
            Some(j) => {
                lemma_position_found(after, other, 0, j);
            },
            None => {
                lemma_position_absent(after, other, 0);
            },
        }
    }
}

/// Striking a path keeps the other records in their order: what is left
/// holds no record for the path, every other path keeps what it had, and
/// paths stay distinct.
pub proof fn law_forgotten_is_gone(records: Seq<RecordModel>, path: Seq<char>, other: Seq<char>)
    ensures
        lookup(forgotten(records, path), path) is None,
        other != path ==> lookup(forgotten(records, path), other) == lookup(records, other),
        distinct_paths(records) ==> distinct_paths(forgotten(records, path)),
{
    lemma_forgotten_upto(records, path, other, records.len() as int);
    assert(records.take(records.len() as int) =~= records);
    if distinct_paths(records) {
        lemma_forgotten_stays_distinct(records, path, records.len() as int);
    }
}

/// What is left of the first `n` records after a path was struck are records
/// among these, each once.
pub proof fn lemma_forgotten_stays_distinct(records: Seq<RecordModel>, path: Seq<char>, n: int)
    requires
        0 <= n <= records.len(),
        distinct_paths(records),
    ensures
        distinct_paths(forgotten_upto(records, path, n)),
        forall|a: int|
            0 <= a < forgotten_upto(records, path, n).len() ==> exists|k: int|
                0 <= k < n && (#[trigger] records[k]).path == (#[trigger] forgotten_upto(
                    records,
                    path,
                    n,
                )[a]).path,
    decreases n,
{
    if n > 0 {
        lemma_forgotten_stays_distinct(records, path, n - 1);
        let before = forgotten_upto(records, path, n - 1);
        let kept = forgotten_upto(records, path, n);
        assert forall|a: int| 0 <= a < kept.len() implies exists|k: int|
            0 <= k < n && (#[trigger] records[k]).path == (#[trigger] kept[a]).path by {
            if a < before.len() {
                let k = choose|k: int|
                    0 <= k < n - 1 && (#[trigger] records[k]).path == before[a].path;
                assert(records[k].path == kept[a].path);
            } else {
                assert(records[n - 1].path == kept[a].path);
            }
        }
        assert forall|a: int, b: int| 0 <= a < b < kept.len() implies (#[trigger] kept[a]).path != (
        #[trigger] kept[b]).path by {
            if b >= before.len() {
                let k = choose|k: int|
                    0 <= k < n - 1 && (#[trigger] records[k]).path == before[a].path;
                assert(records[k].path != records[n - 1].path);
            }
        }
    }
}

/// The step of `law_forgotten_is_gone`, on the first `n` records.
pub proof fn lemma_forgotten_upto(
    records: Seq<RecordModel>,
    path: Seq<char>,
    other: Seq<char>,
    n: int,
)
    requires
        0 <= n <= records.len(),
    ensures
        lookup(forgotten_upto(records, path, n), path) is None,
        other != path ==> lookup(forgotten_upto(records, path, n), other) == lookup(
            records.take(n),
            other,
        ),
        forgotten_upto(records, path, n).len() <= n,
    decreases n,
{
    let kept = forgotten_upto(records, path, n);
    if n > 0 {
        let before = forgotten_upto(records, path, n - 1);
        lemma_forgotten_upto(records, path, other, n - 1);
        lemma_position_from(before, path, 0);
        lemma_position_absent(kept, path, 0);
        if other != path {
            let head = records.take(n - 1);
            let all = records.take(n);
            lemma_position_from(before, other, 0);
            lemma_position_from(head, other, 0);
            match position(head, other) {
                Some(j) => {
                    lemma_position_found(all, other, 0, j);
                    lemma_position_found(kept, other, 0, position(before, other).unwrap());
                },
                None => {
                    if records[n - 1].path == other {
                        lemma_position_found(all, other, 0, n - 1);
                        lemma_position_found(kept, other, 0, before.len() as int);
                    } else {
                        lemma_position_absent(all, other, 0);
                        lemma_position_absent(kept, other, 0);
                    }
                },
            }
        }
    }
}

impl StateRecord {
    /// The record that a successful sync of `file` leaves.
    pub fn of(file: &ManifestFile) -> (r: StateRecord)
        ensures
            r@ == record_for(file@),
    {
        match resolve_best_hash(file) {
            Some((digest, alg)) => StateRecord {
                path: file.path.clone(),
                algorithm: Some(alg),
                digest: Some(digest.to_owned()),
                size: file.size,
            },
            None => StateRecord {
                path: file.path.clone(),
                algorithm: None,
                digest: None,
                size: file.size,
            },
        }
    }
}

impl StateManifest {
    /// The state of a first run: nothing on record.
    pub fn new() -> (r: StateManifest)
        ensures
            r@ == Seq::<RecordModel>::empty(),
    {
        let r = StateManifest { records: Vec::new() };
        r
    }

    /// Finds the record for `path`.
    pub fn find(&self, path: &String) -> (r: Option<usize>)
        ensures
            match r {
                Some(i) => position(self@, path@) == Some(i as int) && i < self.records@.len(),
                None => position(self@, path@) is None,
            },
    {
        let mut i: usize = 0;
        while i < self.records.len()
            invariant
                i <= self.records@.len(),
                position(self@, path@) == position_from(self@, path@, i as int),
            decreases self.records@.len() - i,
        {
            if self.records[i].path == *path {
                return Some(i);
            }
            i += 1;
        }
        None
    }

    /// Puts `record` on record, in place of what was recorded for its path.
    pub fn record(&mut self, record: StateRecord)
        ensures
            final(self)@ == recorded(old(self)@, record@),
    {
        match self.find(&record.path) {
            Some(i) => {
                self.records.set(i, record);
            },
            None => {
                self.records.push(record);
            },
        }
    }

    /// Strikes every record for `path`. A path that is not on record is no
    /// error: nothing changes.
    pub fn forget(&mut self, path: &String)
        ensures
            final(self)@ == forgotten(old(self)@, path@),
    {
        let ghost before = self@;
        let mut kept: Vec<StateRecord> = Vec::new();
        let mut rest: Vec<StateRecord> = Vec::new();
        rest.append(&mut self.records);
        let ghost all = rest@;
        for record in it: rest
            invariant
                records_of(all) == before,
                it.seq() == all,
                records_of(kept@) == forgotten_upto(before, path@, it.index() as int),
        {
            if record.path != *path {
                kept.push(record);
            }
        }
        self.records = kept;
    }
}

} // verus!
