//! The sync planner: from the manifest to reach, the state last reached and
//! what is on disk, to the ordered list of what has to be done to each file.

use super::super::config::ManifestConfig;
use super::super::manifest::manifest_spec::{files_of, FileHashAlg, FileModel, Manifest, ManifestFile};
use super::state::{distinct_paths, lookup, record_for, RecordModel, StateManifest, StateRecord};
use super::state::{law_recorded_is_found, lemma_position_from, recorded};
use super::paths::{normalize_relative, normalized};
use super::{resolve_best_hash, strongest, SyncOp, PARTIAL_FILE_EXT};
use crate::text::same_text;
use vstd::prelude::*;
use vstd::string::StringExecFns;

verus! {

/// Why a task does what it does.
#[derive(Debug, Clone, Copy, PartialEq, Eq, Structural)]
pub enum SyncReason {
    /// The file is not on disk.
    Missing,
    /// The file is on disk, but was never synced.
    Untracked,
    /// The manifest gives nothing to tell the file's content by.
    Unverifiable,
    /// The file was synced from a manifest that described it otherwise.
    Changed,
    /// The file is as it was last synced, and as the manifest describes it.
    Unchanged,
    /// The file was synced, and the manifest lists it no more.
    Removed,
}

/// Defines a SyncTask, which are calculated per-file by comparing sync and state Manifests
#[derive(Debug, Clone)]
pub struct SyncTask {
    /// File operation to perform
    pub op: SyncOp,
    /// Filepath of the file, relative to app dir.
    pub filepath: String,
    /// Position in the manifest of the file to put in place; none for a delete.
    pub target: Option<usize>,
    /// Why the operation is due.
    pub reason: SyncReason,
}

/// The tasks of one sync run, in the order in which they become due.
#[derive(Debug, Clone)]
pub struct SyncPlan {
    pub tasks: Vec<SyncTask>,
}

/// What a `SyncTask` holds.
pub struct TaskModel {
    pub op: SyncOp,
    pub filepath: Seq<char>,
    pub target: Option<usize>,
    pub reason: SyncReason,
}

impl View for SyncTask {
    type V = TaskModel;

    open spec fn view(&self) -> TaskModel {
        TaskModel { op: self.op, filepath: self.filepath@, target: self.target, reason: self.reason }
    }
}

/// The models of a list of tasks.
pub open spec fn tasks_of(v: Seq<SyncTask>) -> Seq<TaskModel> {
    Seq::new(v.len(), |i: int| v[i]@)
}

impl View for SyncPlan {
    type V = Seq<TaskModel>;

    open spec fn view(&self) -> Seq<TaskModel> {
        tasks_of(self.tasks@)
    }
}

/// Why no plan can be made.
#[derive(Debug, Clone, Copy, PartialEq, Eq, Structural)]
pub enum PlanError {
    /// The application's directory is the updater's own.
    RootCollision,
    /// The manifest lists one path twice, or lists a file together with
    /// the file that it is downloaded to.
    RepeatedPath,
}

/// What tells whether a file on disk is the one a manifest describes.
pub enum Fingerprint {
    /// The file's digest under an algorithm.
    Digest(FileHashAlg, Seq<char>),
    /// The file's size in bytes, where no digest is trusted.
    Size(u64),
}

/// What a manifest gives to tell a file by: its strongest digest, unless the
/// hash check is ignored; failing that its size; failing that nothing.
pub open spec fn fingerprint(file: FileModel, ignore_hash_check: bool) -> Option<Fingerprint> {
    let trusted = if ignore_hash_check {
        None
    } else {
        strongest(file)
    };
    match trusted {
        Some((digest, alg)) => Some(Fingerprint::Digest(alg, digest)),
        None => match file.size {
            Some(size) => Some(Fingerprint::Size(size)),
            None => None,
        },
    }
}

/// Whether a record was made of a file with this fingerprint.
pub open spec fn agrees(record: RecordModel, print: Fingerprint) -> bool {
    match print {
        Fingerprint::Digest(alg, digest) => record.algorithm == Some(alg) && record.digest == Some(
            digest,
        ),
        Fingerprint::Size(size) => record.size == Some(size),
    }
}

/// What is to be done with a file of the manifest, and why. A file that is
/// not on disk is created. A file on disk is updated where it was never
/// synced, where the manifest gives nothing to tell it by, or where what the
/// manifest gives differs from what is on record; else it is skipped.
pub open spec fn decision(
    file: FileModel,
    present: bool,
    record: Option<RecordModel>,
    ignore_hash_check: bool,
) -> (SyncOp, SyncReason) {
    if !present {
        (SyncOp::Create, SyncReason::Missing)
    } else {
        match record {
            None => (SyncOp::Update, SyncReason::Untracked),
            Some(known) => match fingerprint(file, ignore_hash_check) {
                None => (SyncOp::Update, SyncReason::Unverifiable),
                Some(print) => if agrees(known, print) {
                    (SyncOp::Skip, SyncReason::Unchanged)
                } else {
                    (SyncOp::Update, SyncReason::Changed)
                },
            },
        }
    }
}

/// Whether the probe of the disk found the manifest's file `i`. A file that
/// the probe does not speak of counts as not found.
pub open spec fn present_at(present: Seq<bool>, i: int) -> bool {
    0 <= i < present.len() && present[i]
}

/// Whether a manifest's files include one at `path`.
pub open spec fn listed(files: Seq<FileModel>, path: Seq<char>) -> bool {
    exists|i: int| 0 <= i < files.len() && (#[trigger] files[i]).path == path
}

/// The task that deletes the file at `path`.
pub open spec fn delete_task(path: Seq<char>) -> TaskModel {
    TaskModel { op: SyncOp::Delete, filepath: path, target: None, reason: SyncReason::Removed }
}

/// The task for the manifest's file `i`.
pub open spec fn target_task(
    files: Seq<FileModel>,
    state: Seq<RecordModel>,
    present: Seq<bool>,
    ignore_hash_check: bool,
    i: int,
) -> TaskModel {
    let decided = decision(
        files[i],
        present_at(present, i),
        lookup(state, files[i].path),
        ignore_hash_check,
    );
    TaskModel {
        op: decided.0,
        filepath: files[i].path,
        target: Some(i as usize),
        reason: decided.1,
    }
}

/// The deletions that the first `n` records call for: one for each record
/// whose path the manifest lists no more, in the order of the records. Only
/// what is on record is ever deleted.
pub open spec fn deletions_upto(state: Seq<RecordModel>, files: Seq<FileModel>, n: int) -> Seq<
    TaskModel,
>
    decreases n,
{
    if n <= 0 {
        Seq::empty()
    } else if listed(files, state[n - 1].path) {
        deletions_upto(state, files, n - 1)
    } else {
        deletions_upto(state, files, n - 1).push(delete_task(state[n - 1].path))
    }
}

/// The deletions that a state calls for.
pub open spec fn deletions(state: Seq<RecordModel>, files: Seq<FileModel>) -> Seq<TaskModel> {
    deletions_upto(state, files, state.len() as int)
}

/// The tasks for the files of the manifest, one each, in the manifest's order.
pub open spec fn target_tasks(
    files: Seq<FileModel>,
    state: Seq<RecordModel>,
    present: Seq<bool>,
    ignore_hash_check: bool,
) -> Seq<TaskModel> {
    Seq::new(files.len(), |i: int| target_task(files, state, present, ignore_hash_check, i))
}

/// The plan: every deletion first, then the tasks for the manifest's files.
pub open spec fn plan_of(
    files: Seq<FileModel>,
    state: Seq<RecordModel>,
    present: Seq<bool>,
    ignore_hash_check: bool,
) -> Seq<TaskModel> {
    deletions(state, files) + target_tasks(files, state, present, ignore_hash_check)
}

/// Tests whether a manifest's files include one at `path`.
pub fn is_listed(files: &Vec<ManifestFile>, path: &String) -> (r: bool)
    ensures
        r == listed(files_of(files@), path@),
{
    let mut i: usize = 0;
    while i < files.len()
        invariant
            i <= files@.len(),
            forall|k: int| 0 <= k < i ==> (#[trigger] files_of(files@)[k]).path != path@,
        decreases files@.len() - i,
    {
        assert(files_of(files@)[i as int] == files@[i as int]@);
        if files[i].path == *path {
            return true;
        }
        i += 1;
    }
    false
}

/// Whether no two files of a manifest are at one path.
pub open spec fn has_distinct_paths(files: Seq<FileModel>) -> bool {
    forall|i: int, j: int|
        0 <= i < j < files.len() ==> (#[trigger] files[i]).path != (#[trigger] files[j]).path
}

/// Whether two normalized paths cannot both be synced: they are one path,
/// or one is the path that the other is downloaded to.
pub open spec fn clashes(a: Seq<char>, b: Seq<char>) -> bool {
    a == b || a == b + PARTIAL_FILE_EXT@ || b == a + PARTIAL_FILE_EXT@
}

/// Whether every file of a manifest has its path, and the path it is
/// downloaded to, to itself.
pub open spec fn has_separate_files(files: Seq<FileModel>) -> bool {
    forall|i: int, j: int|
        0 <= i < j < files.len() ==> !clashes(
            normalized((#[trigger] files[i]).path),
            normalized((#[trigger] files[j]).path),
        )
}

/// Files that have their paths to themselves are at distinct paths.
pub proof fn lemma_separate_files_are_distinct(files: Seq<FileModel>)
    requires
        has_separate_files(files),
    ensures
        has_distinct_paths(files),
{
}

/// Checks that no two files of a manifest get in each other's way. Tasks
/// run side by side, each on the file at its own path and on the file that
/// it downloads to; that needs all these paths to differ, once normalized.
pub fn check_distinct_paths(target: &Manifest) -> (r: Result<(), PlanError>)
    ensures
        r is Ok <==> has_separate_files(target@.files),
        r is Ok ==> has_distinct_paths(target@.files),
        r is Err ==> r->Err_0 == PlanError::RepeatedPath,
{
    let ghost files = target@.files;
    let mut paths: Vec<String> = Vec::new();
    let mut twins: Vec<String> = Vec::new();
    let mut k: usize = 0;
    while k < target.files.len()
        invariant
            k <= target.files@.len(),
            files == target@.files,
            paths@.len() == k,
            twins@.len() == k,
            forall|a: int| 0 <= a < k ==> (#[trigger] paths@[a])@ == normalized(files[a].path),
            forall|a: int|
                0 <= a < k ==> (#[trigger] twins@[a])@ == normalized(files[a].path)
                    + PARTIAL_FILE_EXT@,
        decreases target.files@.len() - k,
    {
        assert(files[k as int] == target.files@[k as int]@);
        let path = normalize_relative(target.files[k].path.as_str());
        twins.push(path.clone().concat(PARTIAL_FILE_EXT));
        paths.push(path);
        k += 1;
    }
    let mut j: usize = 0;
    while j < paths.len()
        invariant
            j <= paths@.len(),
            files == target@.files,
            paths@.len() == files.len(),
            twins@.len() == files.len(),
            forall|a: int|
                0 <= a < files.len() ==> (#[trigger] paths@[a])@ == normalized(files[a].path),
            forall|a: int|
                0 <= a < files.len() ==> (#[trigger] twins@[a])@ == normalized(files[a].path)
                    + PARTIAL_FILE_EXT@,
            forall|a: int, b: int|
                0 <= a < b < j ==> !clashes(
                    normalized((#[trigger] files[a]).path),
                    normalized((#[trigger] files[b]).path),
                ),
        decreases paths@.len() - j,
    {
        let mut i: usize = 0;
        while i < j
            invariant
                i <= j < paths@.len(),
                files == target@.files,
                paths@.len() == files.len(),
                twins@.len() == files.len(),
                forall|a: int|
                    0 <= a < files.len() ==> (#[trigger] paths@[a])@ == normalized(files[a].path),
                forall|a: int|
                    0 <= a < files.len() ==> (#[trigger] twins@[a])@ == normalized(files[a].path)
                        + PARTIAL_FILE_EXT@,
                forall|a: int|
                    0 <= a < i ==> !clashes(
                        normalized((#[trigger] files[a]).path),
                        normalized(files[j as int].path),
                    ),
            decreases j - i,
        {
            if paths[i] == paths[j] || paths[i] == twins[j] || twins[i] == paths[j] {
                assert(clashes(normalized(files[i as int].path), normalized(files[j as int].path)));
                return Err(PlanError::RepeatedPath);
            }
            i += 1;
        }
        j += 1;
    }
    proof {
        lemma_separate_files_are_distinct(files);
    }
    Ok(())
}

/// Tests whether a record was made of a file as the manifest describes it now.
fn record_agrees(record: &StateRecord, file: &ManifestFile, ignore_hash_check: bool) -> (r: Option<
    bool,
>)
    ensures
        match r {
            Some(same) => fingerprint(file@, ignore_hash_check) matches Some(print) && same
                == agrees(record@, print),
            None => fingerprint(file@, ignore_hash_check) is None,
        },
{
    let trusted = if ignore_hash_check {
        None
    } else {
        resolve_best_hash(file)
    };
    match trusted {
        Some((digest, alg)) => {
            let same_alg = match record.algorithm {
                Some(known) => known == alg,
                None => false,
            };
            let same_digest = match &record.digest {
                Some(known) => same_text(known.as_str(), digest),
                None => false,
            };
            Some(same_alg && same_digest)
        },
        None => match file.size {
            Some(size) => Some(
                match record.size {
                    Some(known) => known == size,
                    None => false,
                },
            ),
            None => None,
        },
    }
}

/// Decides what is to be done with a file of the manifest.
pub fn decide(file: &ManifestFile, present: bool, state: &StateManifest, ignore_hash_check: bool) -> (r:
    (SyncOp, SyncReason))
    ensures
        r == decision(file@, present, lookup(state@, file@.path), ignore_hash_check),
{
    if !present {
        return (SyncOp::Create, SyncReason::Missing);
    }
    match state.find(&file.path) {
        None => (SyncOp::Update, SyncReason::Untracked),
        Some(i) => {
            match record_agrees(&state.records[i], file, ignore_hash_check) {
                None => (SyncOp::Update, SyncReason::Unverifiable),
                Some(same) => if same {
                    (SyncOp::Skip, SyncReason::Unchanged)
                } else {
                    (SyncOp::Update, SyncReason::Changed)
                },
            }
        },
    }
}

/// Plans a sync run: what to do to make the files under `app_root` those of
/// `target`, given the state last reached and, for each file of `target` in
/// order, whether `present` found it on disk. Both roots are absolute.
///
/// Every file on record that `target` lists no more is deleted, and nothing
/// else is: a file that was never synced is left alone. The deletions come
/// first, in the order of the records; the tasks for the files of `target`
/// follow in the manifest's order. No plan is made for an application
/// directory that is the updater's own.
pub fn plan(
    target: &Manifest,
    state: &StateManifest,
    cfg: &ManifestConfig,
    engine_root: &str,
    app_root: &str,
    present: &Vec<bool>,
) -> (r: Result<SyncPlan, PlanError>)
    ensures
        match r {
            Ok(planned) => engine_root@ != app_root@ && planned@ == plan_of(
                target@.files,
                state@,
                present@,
                cfg.ignore_hash_check,
            ),
            Err(e) => e == PlanError::RootCollision && engine_root@ == app_root@,
        },
{
    // Prevent syncs to the updater's own root directory.
    if same_text(engine_root, app_root) {
        return Err(PlanError::RootCollision);
    }
    let ghost files = target@.files;
    let mut tasks: Vec<SyncTask> = Vec::new();
    let mut k: usize = 0;
    while k < state.records.len()
        invariant
            k <= state.records@.len(),
            files == target@.files,
            tasks_of(tasks@) == deletions_upto(state@, files, k as int),
        decreases state.records@.len() - k,
    {
        let record = &state.records[k];
        if !is_listed(&target.files, &record.path) {
            let task = SyncTask {
                op: SyncOp::Delete,
                filepath: record.path.clone(),
                target: None,
                reason: SyncReason::Removed,
            };
            tasks.push(task);
        }
        k += 1;
    }
    let ghost removals = tasks_of(tasks@);
    let mut i: usize = 0;
    while i < target.files.len()
        invariant
            i <= target.files@.len(),
            files == target@.files,
            removals == deletions(state@, files),
            tasks_of(tasks@) == removals + target_tasks(
                files,
                state@,
                present@,
                cfg.ignore_hash_check,
            ).take(i as int),
        decreases target.files@.len() - i,
    {
        let file = &target.files[i];
        let found = i < present.len() && present[i];
        let decided = decide(file, found, state, cfg.ignore_hash_check);
        let ghost so_far = tasks_of(tasks@);
        let task = SyncTask {
            op: decided.0,
            filepath: file.path.clone(),
            target: Some(i),
            reason: decided.1,
        };
        tasks.push(task);
        assert(tasks_of(tasks@) =~= so_far.push(
            target_task(files, state@, present@, cfg.ignore_hash_check, i as int),
        ));
        i += 1;
    }
    Ok(SyncPlan { tasks })
}

/// How many tasks a list of tasks begins with that delete a file.
pub open spec fn deletions_ahead(tasks: Seq<TaskModel>, from: int) -> int
    decreases tasks.len() - from,
{
    if from < 0 || from >= tasks.len() || tasks[from].op != SyncOp::Delete {
        0
    } else {
        1 + deletions_ahead(tasks, from + 1)
    }
}

impl SyncPlan {
    /// Counts the deletions that the plan begins with. They are to end
    /// before any other task begins: a deleted file frees space, and cannot
    /// clash with a file that is created under a name that differs by case
    /// alone.
    pub fn leading_deletions(&self) -> (r: usize)
        ensures
            r == deletions_ahead(self@, 0),
            r <= self.tasks@.len(),
    {
        let mut i: usize = 0;
        while i < self.tasks.len() && self.tasks[i].op == SyncOp::Delete
            invariant
                i <= self.tasks@.len(),
                deletions_ahead(self@, 0) == i + deletions_ahead(self@, i as int),
            decreases self.tasks@.len() - i,
        {
            assert(self@[i as int] == self.tasks@[i as int]@);
            i += 1;
        }
        assert(i < self.tasks@.len() ==> self@[i as int] == self.tasks@[i as int]@);
        i
    }
}

/// The deletions that a plan begins with are all the deletions it holds.
pub proof fn law_plan_begins_with_its_deletions(
    files: Seq<FileModel>,
    state: Seq<RecordModel>,
    present: Seq<bool>,
    ignore_hash_check: bool,
)
    ensures
        deletions_ahead(plan_of(files, state, present, ignore_hash_check), 0) == deletions(
            state,
            files,
        ).len(),
{
    lemma_deletions_ahead(files, state, present, ignore_hash_check, 0);
}

/// From a position among its deletions on, a plan begins with the deletions
/// that are left.
pub proof fn lemma_deletions_ahead(
    files: Seq<FileModel>,
    state: Seq<RecordModel>,
    present: Seq<bool>,
    ignore_hash_check: bool,
    from: int,
)
    requires
        0 <= from <= deletions(state, files).len(),
    ensures
        deletions_ahead(plan_of(files, state, present, ignore_hash_check), from) == deletions(
            state,
            files,
        ).len() - from,
    decreases deletions(state, files).len() - from,
{
    let removals = deletions(state, files);
    let planned = plan_of(files, state, present, ignore_hash_check);
    if from < removals.len() {
        lemma_deletion_has_record(state, files, state.len() as int, from);
        assert(planned[from] == removals[from]);
        lemma_deletions_ahead(files, state, present, ignore_hash_check, from + 1);
    } else if from < planned.len() {
        assert(planned[from] == target_task(
            files,
            state,
            present,
            ignore_hash_check,
            from - removals.len(),
        ));
    }
}

/// Each deletion among those of the first `n` records is for one of these
/// records, whose path the manifest lists no more. The result is the
/// position of that record.
pub proof fn lemma_deletion_has_record(
    state: Seq<RecordModel>,
    files: Seq<FileModel>,
    n: int,
    t: int,
) -> (k: int)
    requires
        0 <= n <= state.len(),
        0 <= t < deletions_upto(state, files, n).len(),
    ensures
        0 <= k < n,
        !listed(files, state[k].path),
        deletions_upto(state, files, n)[t] == delete_task(state[k].path),
    decreases n,
{
    if t < deletions_upto(state, files, n - 1).len() {
        lemma_deletion_has_record(state, files, n - 1, t)
    } else {
        n - 1
    }
}

/// Each record among the first `n` whose path the manifest lists no more has
/// its deletion. The result is the position of that deletion.
pub proof fn lemma_record_has_deletion(
    state: Seq<RecordModel>,
    files: Seq<FileModel>,
    n: int,
    k: int,
) -> (t: int)
    requires
        0 <= k < n <= state.len(),
        !listed(files, state[k].path),
    ensures
        0 <= t < deletions_upto(state, files, n).len(),
        deletions_upto(state, files, n)[t] == delete_task(state[k].path),
    decreases n,
{
    if k < n - 1 {
        lemma_record_has_deletion(state, files, n - 1, k)
    } else {
        deletions_upto(state, files, n).len() - 1
    }
}

/// Where the manifest lists the path of every record, nothing is deleted.
pub proof fn lemma_nothing_stale(state: Seq<RecordModel>, files: Seq<FileModel>, n: int)
    requires
        0 <= n <= state.len(),
        forall|k: int| 0 <= k < state.len() ==> listed(files, (#[trigger] state[k]).path),
    ensures
        deletions_upto(state, files, n) == Seq::<TaskModel>::empty(),
    decreases n,
{
    if n > 0 {
        lemma_nothing_stale(state, files, n - 1);
    }
}

/// On a first run into an empty directory, where nothing is on record and
/// nothing is on disk, the plan holds exactly one task to create each file
/// of the manifest, in the manifest's order, and no task to delete or skip.
pub proof fn law_first_run_creates_all(
    files: Seq<FileModel>,
    present: Seq<bool>,
    ignore_hash_check: bool,
)
    requires
        forall|i: int| 0 <= i < files.len() ==> !present_at(present, i),
    ensures
        plan_of(files, Seq::empty(), present, ignore_hash_check) == Seq::new(
            files.len(),
            |i: int|
                TaskModel {
                    op: SyncOp::Create,
                    filepath: files[i].path,
                    target: Some(i as usize),
                    reason: SyncReason::Missing,
                },
        ),
{
}

/// The record that a successful sync leaves of a file agrees with whatever
/// the manifest gives to tell that file by.
pub proof fn lemma_own_record_agrees(file: FileModel, ignore_hash_check: bool)
    ensures
        fingerprint(file, ignore_hash_check) matches Some(print) ==> agrees(record_for(file), print),
{
}

/// Once a file was synced and put on record, a plan against the same manifest
/// skips it, provided that the manifest gives something to tell the file by:
/// a digest that is trusted, or a size.
pub proof fn law_synced_file_is_skipped(
    state: Seq<RecordModel>,
    file: FileModel,
    ignore_hash_check: bool,
)
    requires
        fingerprint(file, ignore_hash_check) is Some,
    ensures
        decision(
            file,
            true,
            lookup(recorded(state, record_for(file)), file.path),
            ignore_hash_check,
        ) == (SyncOp::Skip, SyncReason::Unchanged),
{
    law_recorded_is_found(state, record_for(file), file.path);
    lemma_own_record_agrees(file, ignore_hash_check);
}

/// Planning again after a run that went through is idle. Where the state
/// holds for every file of the manifest the record that its sync left, every
/// file is on disk and can be told by something, and nothing else is on
/// record, the plan skips each file of the manifest, in order, and does
/// nothing else.
pub proof fn law_resync_skips_all(
    files: Seq<FileModel>,
    state: Seq<RecordModel>,
    present: Seq<bool>,
    ignore_hash_check: bool,
)
    requires
        forall|i: int|
            0 <= i < files.len() ==> present_at(present, i) && fingerprint(
                #[trigger] files[i],
                ignore_hash_check,
            ) is Some && lookup(state, files[i].path) == Some(record_for(files[i])),
        forall|k: int| 0 <= k < state.len() ==> listed(files, (#[trigger] state[k]).path),
    ensures
        plan_of(files, state, present, ignore_hash_check) == Seq::new(
            files.len(),
            |i: int|
                TaskModel {
                    op: SyncOp::Skip,
                    filepath: files[i].path,
                    target: Some(i as usize),
                    reason: SyncReason::Unchanged,
                },
        ),
{
    lemma_nothing_stale(state, files, state.len() as int);
    assert forall|i: int| 0 <= i < files.len() implies target_task(
        files,
        state,
        present,
        ignore_hash_check,
        i,
    ) == (TaskModel {
        op: SyncOp::Skip,
        filepath: files[i].path,
        target: Some(i as usize),
        reason: SyncReason::Unchanged,
    }) by {
        lemma_own_record_agrees(files[i], ignore_hash_check);
    }
}

/// A file that was synced and is gone from the manifest is deleted by the
/// next plan: the record at position `k` is for a path that the manifest
/// lists no more, and the plan holds the task that deletes that path.
pub proof fn law_removed_file_is_deleted(
    files: Seq<FileModel>,
    state: Seq<RecordModel>,
    present: Seq<bool>,
    ignore_hash_check: bool,
    k: int,
)
    requires
        0 <= k < state.len(),
        !listed(files, state[k].path),
    ensures
        plan_of(files, state, present, ignore_hash_check).contains(delete_task(state[k].path)),
{
    let t = lemma_record_has_deletion(state, files, state.len() as int, k);
    assert(plan_of(files, state, present, ignore_hash_check)[t] == delete_task(state[k].path));
}

/// A plan deletes nothing but what was synced and is gone from the manifest:
/// the path of every task that deletes is on record and not in the manifest.
pub proof fn law_only_removed_files_are_deleted(
    files: Seq<FileModel>,
    state: Seq<RecordModel>,
    present: Seq<bool>,
    ignore_hash_check: bool,
    t: int,
)
    requires
        0 <= t < plan_of(files, state, present, ignore_hash_check).len(),
        plan_of(files, state, present, ignore_hash_check)[t].op == SyncOp::Delete,
    ensures
        lookup(state, plan_of(files, state, present, ignore_hash_check)[t].filepath) is Some,
        !listed(files, plan_of(files, state, present, ignore_hash_check)[t].filepath),
        plan_of(files, state, present, ignore_hash_check)[t] == delete_task(
            plan_of(files, state, present, ignore_hash_check)[t].filepath,
        ),
{
    if t < deletions(state, files).len() {
        let k = lemma_deletion_has_record(state, files, state.len() as int, t);
        lemma_position_from(state, state[k].path, 0);
    }
}

/// Two deletions of a plan are for two paths, where the state holds no path
/// twice.
pub proof fn lemma_deletions_differ(
    state: Seq<RecordModel>,
    files: Seq<FileModel>,
    n: int,
    s: int,
    t: int,
)
    requires
        0 <= n <= state.len(),
        distinct_paths(state),
        0 <= s < t < deletions_upto(state, files, n).len(),
    ensures
        deletions_upto(state, files, n)[s].filepath != deletions_upto(state, files, n)[t].filepath,
    decreases n,
{
    if t < deletions_upto(state, files, n - 1).len() {
        lemma_deletions_differ(state, files, n - 1, s, t);
    } else {
        lemma_deletion_has_record(state, files, n - 1, s);
    }
}

/// No two tasks of a plan are for one path, where neither the manifest nor
/// the state holds a path twice: tasks can run side by side, each on its own
/// file.
pub proof fn law_tasks_have_distinct_paths(
    files: Seq<FileModel>,
    state: Seq<RecordModel>,
    present: Seq<bool>,
    ignore_hash_check: bool,
    s: int,
    t: int,
)
    requires
        has_distinct_paths(files),
        distinct_paths(state),
        0 <= s < t < plan_of(files, state, present, ignore_hash_check).len(),
    ensures
        plan_of(files, state, present, ignore_hash_check)[s].filepath != plan_of(
            files,
            state,
            present,
            ignore_hash_check,
        )[t].filepath,
{
    let removals = deletions(state, files);
    if t < removals.len() {
        lemma_deletions_differ(state, files, state.len() as int, s, t);
    } else if s < removals.len() {
        lemma_deletion_has_record(state, files, state.len() as int, s);
    }
}

/// A file on disk whose digest in the manifest is not the one on record is
/// updated, whatever the sizes say. The digest is the strongest that the
/// manifest carries, and the hash check is not ignored.
pub proof fn law_changed_digest_updates(file: FileModel, record: RecordModel)
    requires
        strongest(file) matches Some((digest, alg)) && (record.algorithm != Some(alg)
            || record.digest != Some(digest)),
    ensures
        decision(file, true, Some(record), false) == (SyncOp::Update, SyncReason::Changed),
{
}

/// In a plan every deletion stands before every other task: a task that
/// stands before a deletion is a deletion itself.
pub proof fn law_deletions_come_first(
    files: Seq<FileModel>,
    state: Seq<RecordModel>,
    present: Seq<bool>,
    ignore_hash_check: bool,
    s: int,
    t: int,
)
    requires
        0 <= s < t < plan_of(files, state, present, ignore_hash_check).len(),
        plan_of(files, state, present, ignore_hash_check)[t].op == SyncOp::Delete,
    ensures
        plan_of(files, state, present, ignore_hash_check)[s].op == SyncOp::Delete,
{
    lemma_deletion_has_record(state, files, state.len() as int, s);
}

/// After the deletions a plan holds one task for each file of the manifest,
/// in the manifest's order.
pub proof fn law_targets_keep_their_order(
    files: Seq<FileModel>,
    state: Seq<RecordModel>,
    present: Seq<bool>,
    ignore_hash_check: bool,
    i: int,
)
    requires
        0 <= i < files.len(),
    ensures
        plan_of(files, state, present, ignore_hash_check).len() == deletions(state, files).len()
            + files.len(),
        plan_of(files, state, present, ignore_hash_check)[deletions(state, files).len() + i]
            == target_task(files, state, present, ignore_hash_check, i),
{
}

} // verus!
