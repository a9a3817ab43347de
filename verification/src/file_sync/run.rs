//! The sync executor's rules: how one task goes from its start to its end.
//!
//! The work itself (downloads, renames, deletions) is done by the caller.
//! After each piece of work it reports what happened, and is told here what
//! to do next.

use super::super::config::ManifestConfig;
use super::super::manifest::manifest_spec::text_of;
use super::super::manifest::manifest_spec::{FileHashAlg, FileModel, Manifest, ManifestFile};
use super::paths::{is_reserved, reserved, PathError, Place, PlaceModel};
use super::plan::{SyncTask, TaskModel};
use super::state::{forgotten, record_for, recorded, RecordModel, StateManifest, StateRecord};
use super::{digest_matches, resolve_best_hash, strongest, SyncOp};
use crate::text::{begins_with, same_ignoring_case, starts_with};
use vstd::prelude::*;
use vstd::string::StringExecFns;

verus! {

/// How often one mirror is tried for one file before the next mirror is.
pub const RETRY_LIMIT: u32 = 3;

/// What the address of a secure mirror begins with.
pub const SECURE_SCHEME: &'static str = "https://";

/// Why a task failed for good.
#[derive(Debug, Clone, Copy, PartialEq, Eq, Structural)]
pub enum TaskFailure {
    /// The file's path leads out of the application's directory.
    UnsafePath,
    /// The file's path could not be made absolute.
    PathUnresolvable,
    /// The file's path is that of the state manifest.
    ReservedPath,
    /// The task names no file of the manifest.
    MissingEntry,
    /// No mirror of the file may be used.
    NoUsableMirror,
    /// The manifest gives neither a digest nor a size to check the file
    /// against, and the hash check is not ignored.
    NoIntegrityData,
    /// Every usable mirror was tried as often as allowed.
    MirrorsExhausted,
    /// The file could not be deleted.
    RemoveFailed,
}

/// What is said of a task that was called off.
pub const CANCELLED_TEXT: &'static str = "Cancelled.";

/// What is said of a failure.
pub open spec fn failure_text(failure: TaskFailure) -> Seq<char> {
    match failure {
        TaskFailure::UnsafePath => super::UNSAFE_PATH_TEXT@,
        TaskFailure::PathUnresolvable => "Could not determine local file path."@,
        TaskFailure::ReservedPath => "File path is that of the state manifest."@,
        TaskFailure::MissingEntry => "The manifest holds no such file."@,
        TaskFailure::NoUsableMirror => "No usable mirror."@,
        TaskFailure::NoIntegrityData => "No digest and no size to verify the file against."@,
        TaskFailure::MirrorsExhausted => "Every mirror failed."@,
        TaskFailure::RemoveFailed => "The file could not be deleted."@,
    }
}

impl TaskFailure {
    /// The text that describes this failure to a user.
    pub fn message(&self) -> (r: String)
        ensures
            r@ == failure_text(*self),
    {
        match self {
            TaskFailure::UnsafePath => String::from_str(super::UNSAFE_PATH_TEXT),
            TaskFailure::PathUnresolvable => String::from_str(
                "Could not determine local file path.",
            ),
            TaskFailure::ReservedPath => String::from_str(
                "File path is that of the state manifest.",
            ),
            TaskFailure::MissingEntry => String::from_str("The manifest holds no such file."),
            TaskFailure::NoUsableMirror => String::from_str("No usable mirror."),
            TaskFailure::NoIntegrityData => String::from_str(
                "No digest and no size to verify the file against.",
            ),
            TaskFailure::MirrorsExhausted => String::from_str("Every mirror failed."),
            TaskFailure::RemoveFailed => String::from_str("The file could not be deleted."),
        }
    }
}

/// How a task ended.
#[derive(Debug, Clone, Copy, PartialEq, Eq, Structural)]
pub enum TaskOutcome {
    /// The file was downloaded, checked and put in place.
    Succeeded,
    /// The file was in place already.
    Skipped,
    /// The file is gone from disk.
    Deleted,
    /// The task failed; sibling tasks go on.
    Failed(TaskFailure),
    /// The run was called off before the task ended. A partial file stays.
    Cancelled,
}

/// What the path resolver said of a task's file.
#[derive(Debug, Clone, Copy, PartialEq, Eq, Structural)]
pub enum PathVerdict {
    /// The path may be written to.
    Safe,
    /// The path leads out of the application's directory.
    Unsafe,
    /// The path could not be made absolute.
    Unresolvable,
    /// The path is the updater's own: that of the state manifest, or of the
    /// file it is written to before it takes its place.
    Reserved,
}

/// Where a task stands.
#[derive(Debug, Clone, Copy, PartialEq, Eq, Structural)]
pub enum TaskState {
    /// Not begun.
    Pending,
    /// A download from mirror `mirror` is under way; `attempt` attempts on
    /// this mirror have failed before it.
    Fetching { mirror: usize, attempt: u32 },
    /// The download was accepted and is being put in place.
    Committing { mirror: usize, attempt: u32 },
    /// The file is being deleted.
    Removing,
    /// The task has ended.
    Finished,
}

/// What the caller reports of the work it did for a task.
#[derive(Debug, Clone)]
pub enum TaskEvent {
    /// A worker took the task up and had its path resolved.
    Start(PathVerdict),
    /// A download ran to its end: so many bytes were written to the partial
    /// file, and this is their digest in hex, where one was computed.
    Fetched { bytes: u64, digest: Option<String> },
    /// The work failed in a way that may pass: network or disk.
    Failed,
    /// The partial file was renamed onto the final path.
    Committed,
    /// The file is deleted, or was not there.
    Removed,
    /// The run is called off.
    Cancel,
}

/// What the caller is to do next for a task.
#[derive(Debug, Clone, Copy, PartialEq, Eq, Structural)]
pub enum TaskAction {
    /// Download from the mirror at this position to the partial file. With
    /// `retry`, an earlier attempt failed, and is reported before this one.
    Fetch { mirror: usize, retry: bool },
    /// Rename the partial file onto the final path.
    Commit,
    /// Delete the file if it is there.
    Remove,
    /// Report how the task ended; nothing more is to be done for it.
    Finish(TaskOutcome),
    /// The report does not belong to where the task stands: do nothing.
    Ignore,
}

/// What a `TaskEvent` holds.
pub enum EventModel {
    Start(PathVerdict),
    Fetched { bytes: u64, digest: Option<Seq<char>> },
    Failed,
    Committed,
    Removed,
    Cancel,
}

impl View for TaskEvent {
    type V = EventModel;

    open spec fn view(&self) -> EventModel {
        match self {
            TaskEvent::Start(verdict) => EventModel::Start(*verdict),
            TaskEvent::Fetched { bytes, digest } => EventModel::Fetched {
                bytes: *bytes,
                digest: text_of(*digest),
            },
            TaskEvent::Failed => EventModel::Failed,
            TaskEvent::Committed => EventModel::Committed,
            TaskEvent::Removed => EventModel::Removed,
            TaskEvent::Cancel => EventModel::Cancel,
        }
    }
}

/// What a download is checked against.
pub enum Integrity {
    /// The digest under an algorithm.
    Digest(FileHashAlg, Seq<char>),
    /// The size in bytes.
    Size(u64),
    /// Nothing: the download is accepted as it is.
    Unchecked,
}

/// What a download of `file` has to be checked against: nothing where the
/// hash check is ignored; else the strongest digest; failing that the size.
/// Where the hash check is not ignored and the manifest gives neither, the
/// file cannot be synced.
pub open spec fn integrity_of(file: FileModel, ignore_hash_check: bool) -> Option<Integrity> {
    if ignore_hash_check {
        Some(Integrity::Unchecked)
    } else {
        match strongest(file) {
            Some((digest, alg)) => Some(Integrity::Digest(alg, digest)),
            None => match file.size {
                Some(size) => Some(Integrity::Size(size)),
                None => None,
            },
        }
    }
}

/// Whether a finished download of `file` is accepted: its digest is the
/// expected one, whatever the case of the hex digits; or, where only a size
/// is known, it has that size.
pub open spec fn accepted(
    file: FileModel,
    ignore_hash_check: bool,
    bytes: u64,
    digest: Option<Seq<char>>,
) -> bool {
    match integrity_of(file, ignore_hash_check) {
        Some(Integrity::Digest(_, expected)) => digest matches Some(computed) && same_ignoring_case(
            expected,
            computed,
        ),
        Some(Integrity::Size(size)) => bytes == size,
        Some(Integrity::Unchecked) => true,
        None => false,
    }
}

/// Whether a mirror may be used: it is reached over https, or insecure
/// patching is allowed.
pub open spec fn is_usable(url: Seq<char>, allow_insecure: bool) -> bool {
    allow_insecure || begins_with(url, SECURE_SCHEME@)
}

/// The first usable mirror at or after position `from`, in the manifest's order.
pub open spec fn next_mirror(mirrors: Seq<Seq<char>>, allow_insecure: bool, from: int) -> Option<
    usize,
>
    decreases mirrors.len() - from,
{
    if from < 0 || from >= mirrors.len() {
        None
    } else if is_usable(mirrors[from], allow_insecure) {
        Some(from as usize)
    } else {
        next_mirror(mirrors, allow_insecure, from + 1)
    }
}

/// The end of a task.
pub open spec fn finish(outcome: TaskOutcome) -> (TaskState, TaskAction) {
    (TaskState::Finished, TaskAction::Finish(outcome))
}

/// The first step of a task, once its path was resolved. A skip ends at
/// once. A path that is not safe, or is the state manifest's own, ends the
/// task before anything is touched.
/// A delete goes on to remove the file. A create or update needs a usable
/// mirror, and something to check the download against: the first usable
/// mirror in the manifest's order is fetched from.
pub open spec fn begin(
    op: SyncOp,
    file: Option<FileModel>,
    allow_insecure: bool,
    ignore_hash_check: bool,
    verdict: PathVerdict,
) -> (TaskState, TaskAction) {
    if op == SyncOp::Skip {
        finish(TaskOutcome::Skipped)
    } else if verdict == PathVerdict::Unsafe {
        finish(TaskOutcome::Failed(TaskFailure::UnsafePath))
    } else if verdict == PathVerdict::Unresolvable {
        finish(TaskOutcome::Failed(TaskFailure::PathUnresolvable))
    } else if verdict == PathVerdict::Reserved {
        finish(TaskOutcome::Failed(TaskFailure::ReservedPath))
    } else if op == SyncOp::Delete {
        (TaskState::Removing, TaskAction::Remove)
    } else {
        match file {
            None => finish(TaskOutcome::Failed(TaskFailure::MissingEntry)),
            Some(entry) => match next_mirror(entry.mirrors, allow_insecure, 0) {
                None => finish(TaskOutcome::Failed(TaskFailure::NoUsableMirror)),
                Some(mirror) => if integrity_of(entry, ignore_hash_check) is None {
                    finish(TaskOutcome::Failed(TaskFailure::NoIntegrityData))
                } else {
                    (
                        TaskState::Fetching { mirror, attempt: 0 },
                        TaskAction::Fetch { mirror, retry: false },
                    )
                },
            },
        }
    }
}

/// The step after an attempt on `mirror` failed, `attempt` attempts on it
/// having failed before: the same mirror is tried again until it was tried
/// `RETRY_LIMIT` times; then the next usable mirror is; after the last one
/// the task fails.
pub open spec fn after_failure(
    file: Option<FileModel>,
    allow_insecure: bool,
    mirror: usize,
    attempt: u32,
) -> (TaskState, TaskAction) {
    match file {
        None => finish(TaskOutcome::Failed(TaskFailure::MissingEntry)),
        Some(entry) => if attempt + 1 < RETRY_LIMIT {
            (
                TaskState::Fetching { mirror, attempt: (attempt + 1) as u32 },
                TaskAction::Fetch { mirror, retry: true },
            )
        } else {
            match next_mirror(entry.mirrors, allow_insecure, mirror + 1) {
                Some(next) => (
                    TaskState::Fetching { mirror: next, attempt: 0 },
                    TaskAction::Fetch { mirror: next, retry: true },
                ),
                None => finish(TaskOutcome::Failed(TaskFailure::MirrorsExhausted)),
            }
        },
    }
}

/// One step of a task: from where it stands and what was reported, to where
/// it stands next and what is to be done. A task that has ended stays ended.
/// Calling the run off ends any other task at once, without a rename. A
/// download that is accepted is put in place; one that is not counts as a
/// failed attempt, as does a failed rename. A report that does not belong to
/// where the task stands changes nothing.
pub open spec fn step(
    op: SyncOp,
    file: Option<FileModel>,
    allow_insecure: bool,
    ignore_hash_check: bool,
    state: TaskState,
    event: EventModel,
) -> (TaskState, TaskAction) {
    match state {
        TaskState::Finished => (state, TaskAction::Ignore),
        TaskState::Pending => match event {
            EventModel::Cancel => finish(TaskOutcome::Cancelled),
            EventModel::Start(verdict) => begin(
                op,
                file,
                allow_insecure,
                ignore_hash_check,
                verdict,
            ),
            _ => (state, TaskAction::Ignore),
        },
        TaskState::Fetching { mirror, attempt } => match event {
            EventModel::Cancel => finish(TaskOutcome::Cancelled),
            EventModel::Fetched { bytes, digest } => if file matches Some(entry) && accepted(
                entry,
                ignore_hash_check,
                bytes,
                digest,
            ) {
                (TaskState::Committing { mirror, attempt }, TaskAction::Commit)
            } else {
                after_failure(file, allow_insecure, mirror, attempt)
            },
            EventModel::Failed => after_failure(file, allow_insecure, mirror, attempt),
            _ => (state, TaskAction::Ignore),
        },
        TaskState::Committing { mirror, attempt } => match event {
            EventModel::Cancel => finish(TaskOutcome::Cancelled),
            EventModel::Committed => finish(TaskOutcome::Succeeded),
            EventModel::Failed => after_failure(file, allow_insecure, mirror, attempt),
            _ => (state, TaskAction::Ignore),
        },
        TaskState::Removing => match event {
            EventModel::Cancel => finish(TaskOutcome::Cancelled),
            EventModel::Removed => finish(TaskOutcome::Deleted),
            EventModel::Failed => finish(TaskOutcome::Failed(TaskFailure::RemoveFailed)),
            _ => (state, TaskAction::Ignore),
        },
    }
}

/// The model of a file that may be absent.
pub open spec fn entry_of(file: Option<&ManifestFile>) -> Option<FileModel> {
    match file {
        Some(entry) => Some(entry@),
        None => None,
    }
}

/// Tests whether a mirror may be used.
pub fn usable(url: &str, allow_insecure: bool) -> (r: bool)
    ensures
        r == is_usable(url@, allow_insecure),
{
    // Check url for https
    allow_insecure || starts_with(url, SECURE_SCHEME)
}

/// Finds the first usable mirror of `file` at or after position `from`.
pub fn find_mirror(file: &ManifestFile, allow_insecure: bool, from: usize) -> (r: Option<usize>)
    ensures
        r == next_mirror(file@.mirrors, allow_insecure, from as int),
        r matches Some(m) ==> from <= m < file.mirrors@.len() && is_usable(
            file.mirrors@[m as int]@,
            allow_insecure,
        ),
{
    let mut i: usize = from;
    while i < file.mirrors.len()
        invariant
            from <= i,
            next_mirror(file@.mirrors, allow_insecure, from as int) == next_mirror(
                file@.mirrors,
                allow_insecure,
                i as int,
            ),
        decreases file.mirrors@.len() - i,
    {
        if usable(file.mirrors[i].as_str(), allow_insecure) {
            return Some(i);
        }
        i += 1;
    }
    None
}

/// The algorithm of the digest that a download of `file` has to be checked
/// against, if it is a digest.
pub open spec fn digest_to_compute(file: FileModel, ignore_hash_check: bool) -> Option<FileHashAlg> {
    match integrity_of(file, ignore_hash_check) {
        Some(Integrity::Digest(alg, _)) => Some(alg),
        _ => None,
    }
}

/// Says which digest the caller has to compute of a download of `file`, if any.
pub fn digest_wanted(file: &ManifestFile, ignore_hash_check: bool) -> (r: Option<FileHashAlg>)
    ensures
        r == digest_to_compute(file@, ignore_hash_check),
{
    if ignore_hash_check {
        return None;
    }
    match resolve_best_hash(file) {
        Some((_, alg)) => Some(alg),
        None => None,
    }
}

/// Whether the manifest gives something to check a download of `file` against.
pub fn has_integrity(file: &ManifestFile, ignore_hash_check: bool) -> (r: bool)
    ensures
        r == integrity_of(file@, ignore_hash_check) is Some,
{
    ignore_hash_check || resolve_best_hash(file).is_some() || file.size.is_some()
}

/// Decides whether a finished download of `file` is accepted.
pub fn accept_download(
    file: &ManifestFile,
    ignore_hash_check: bool,
    bytes: u64,
    digest: &Option<String>,
) -> (r: bool)
    ensures
        r == accepted(file@, ignore_hash_check, bytes, text_of(*digest)),
{
    if ignore_hash_check {
        return true;
    }
    match resolve_best_hash(file) {
        Some((expected, _)) => match digest {
            Some(computed) => digest_matches(expected, computed.as_str()),
            None => false,
        },
        None => match file.size {
            Some(size) => bytes == size,
            None => false,
        },
    }
}

/// Takes the first step of a task.
fn start(op: SyncOp, file: Option<&ManifestFile>, cfg: &ManifestConfig, verdict: PathVerdict) -> (r: (
    TaskState,
    TaskAction,
))
    ensures
        r == begin(
            op,
            entry_of(file),
            cfg.allow_insecure_patching,
            cfg.ignore_hash_check,
            verdict,
        ),
{
    if op == SyncOp::Skip {
        return (TaskState::Finished, TaskAction::Finish(TaskOutcome::Skipped));
    }
    if verdict == PathVerdict::Unsafe {
        return (
            TaskState::Finished,
            TaskAction::Finish(TaskOutcome::Failed(TaskFailure::UnsafePath)),
        );
    }
    if verdict == PathVerdict::Unresolvable {
        return (
            TaskState::Finished,
            TaskAction::Finish(TaskOutcome::Failed(TaskFailure::PathUnresolvable)),
        );
    }
    if verdict == PathVerdict::Reserved {
        return (
            TaskState::Finished,
            TaskAction::Finish(TaskOutcome::Failed(TaskFailure::ReservedPath)),
        );
    }
    if op == SyncOp::Delete {
        return (TaskState::Removing, TaskAction::Remove);
    }
    let entry = match file {
        Some(entry) => entry,
        None => {
            return (
                TaskState::Finished,
                TaskAction::Finish(TaskOutcome::Failed(TaskFailure::MissingEntry)),
            );
        },
    };
    let mirror = match find_mirror(entry, cfg.allow_insecure_patching, 0) {
        Some(mirror) => mirror,
        None => {
            return (
                TaskState::Finished,
                TaskAction::Finish(TaskOutcome::Failed(TaskFailure::NoUsableMirror)),
            );
        },
    };
    if !has_integrity(entry, cfg.ignore_hash_check) {
        return (
            TaskState::Finished,
            TaskAction::Finish(TaskOutcome::Failed(TaskFailure::NoIntegrityData)),
        );
    }
    (TaskState::Fetching { mirror, attempt: 0 }, TaskAction::Fetch { mirror, retry: false })
}

/// Takes the step after a failed attempt.
fn retry(file: Option<&ManifestFile>, cfg: &ManifestConfig, mirror: usize, attempt: u32) -> (r: (
    TaskState,
    TaskAction,
))
    ensures
        r == after_failure(entry_of(file), cfg.allow_insecure_patching, mirror, attempt),
{
    let entry = match file {
        Some(entry) => entry,
        None => {
            return (
                TaskState::Finished,
                TaskAction::Finish(TaskOutcome::Failed(TaskFailure::MissingEntry)),
            );
        },
    };
    if attempt < RETRY_LIMIT - 1 {
        return (
            TaskState::Fetching { mirror, attempt: attempt + 1 },
            TaskAction::Fetch { mirror, retry: true },
        );
    }
    let next = if mirror < entry.mirrors.len() {
        find_mirror(entry, cfg.allow_insecure_patching, mirror + 1)
    } else {
        None
    };
    match next {
        Some(next) => (
            TaskState::Fetching { mirror: next, attempt: 0 },
            TaskAction::Fetch { mirror: next, retry: true },
        ),
        None => (
            TaskState::Finished,
            TaskAction::Finish(TaskOutcome::Failed(TaskFailure::MirrorsExhausted)),
        ),
    }
}

/// Takes one step of a task: given what the task is to do, the file of the
/// manifest that it is about (none for a delete), where the task stands and
/// what was reported, says where it stands next and what is to be done.
pub fn advance(
    op: SyncOp,
    file: Option<&ManifestFile>,
    cfg: &ManifestConfig,
    state: TaskState,
    event: &TaskEvent,
) -> (r: (TaskState, TaskAction))
    ensures
        r == step(
            op,
            entry_of(file),
            cfg.allow_insecure_patching,
            cfg.ignore_hash_check,
            state,
            event@,
        ),
{
    let cancelled = (TaskState::Finished, TaskAction::Finish(TaskOutcome::Cancelled));
    match state {
        TaskState::Finished => (state, TaskAction::Ignore),
        TaskState::Pending => match event {
            TaskEvent::Cancel => cancelled,
            TaskEvent::Start(verdict) => start(op, file, cfg, *verdict),
            _ => (state, TaskAction::Ignore),
        },
        TaskState::Fetching { mirror, attempt } => match event {
            TaskEvent::Cancel => cancelled,
            TaskEvent::Fetched { bytes, digest } => {
                let good = match file {
                    Some(entry) => accept_download(entry, cfg.ignore_hash_check, *bytes, digest),
                    None => false,
                };
                if good {
                    (TaskState::Committing { mirror, attempt }, TaskAction::Commit)
                } else {
                    retry(file, cfg, mirror, attempt)
                }
            },
            TaskEvent::Failed => retry(file, cfg, mirror, attempt),
            _ => (state, TaskAction::Ignore),
        },
        TaskState::Committing { mirror, attempt } => match event {
            TaskEvent::Cancel => cancelled,
            TaskEvent::Committed => (
                TaskState::Finished,
                TaskAction::Finish(TaskOutcome::Succeeded),
            ),
            TaskEvent::Failed => retry(file, cfg, mirror, attempt),
            _ => (state, TaskAction::Ignore),
        },
        TaskState::Removing => match event {
            TaskEvent::Cancel => cancelled,
            TaskEvent::Removed => (TaskState::Finished, TaskAction::Finish(TaskOutcome::Deleted)),
            TaskEvent::Failed => (
                TaskState::Finished,
                TaskAction::Finish(TaskOutcome::Failed(TaskFailure::RemoveFailed)),
            ),
            _ => (state, TaskAction::Ignore),
        },
    }
}

/// How many workers do the tasks of a run side by side: as many as the
/// configuration allows, but one at least, and no more than there are tasks.
pub open spec fn pool_size(maximum_parallel_files: u8, tasks: usize) -> usize {
    let allowed: usize = if maximum_parallel_files == 0 {
        1
    } else {
        maximum_parallel_files as usize
    };
    if 0 < tasks && tasks < allowed {
        tasks
    } else {
        allowed
    }
}

/// Sizes the pool of workers for a number of tasks.
pub fn worker_count(cfg: &ManifestConfig, tasks: usize) -> (r: usize)
    ensures
        r == pool_size(cfg.maximum_parallel_files, tasks),
        r >= 1,
{
    let allowed: usize = if cfg.maximum_parallel_files == 0 {
        1
    } else {
        cfg.maximum_parallel_files as usize
    };
    if 0 < tasks && tasks < allowed {
        tasks
    } else {
        allowed
    }
}

/// The file of the manifest that a task is about.
pub open spec fn target_of(task: TaskModel, files: Seq<FileModel>) -> Option<FileModel> {
    match task.target {
        Some(i) => if i < files.len() {
            Some(files[i as int])
        } else {
            None
        },
        None => None,
    }
}

/// Takes one step of a task of a plan made for `manifest`.
pub fn advance_task(
    task: &SyncTask,
    manifest: &Manifest,
    cfg: &ManifestConfig,
    state: TaskState,
    event: &TaskEvent,
) -> (r: (TaskState, TaskAction))
    ensures
        r == step(
            task.op,
            target_of(task@, manifest@.files),
            cfg.allow_insecure_patching,
            cfg.ignore_hash_check,
            state,
            event@,
        ),
{
    let file = match task.target {
        Some(i) => if i < manifest.files.len() {
            Some(&manifest.files[i])
        } else {
            None
        },
        None => None,
    };
    advance(task.op, file, cfg, state, event)
}

/// What the resolver's answer means for a task. A place that resolved is
/// safe to write to unless it is the updater's own: the state manifest under
/// the application's directory `root`, or its partial twin.
pub open spec fn verdict_on(resolved: Result<Place, PathError>, root: PlaceModel) -> PathVerdict {
    match resolved {
        Ok(place) => if is_reserved(root.parts, place@.parts) {
            PathVerdict::Reserved
        } else {
            PathVerdict::Safe
        },
        Err(PathError::UnsafePath) => PathVerdict::Unsafe,
        Err(PathError::Resolution(_)) => PathVerdict::Unresolvable,
    }
}

/// Says what the resolver's answer means for a task of a sync into `root`.
pub fn verdict_of(resolved: &Result<Place, PathError>, root: &Place) -> (r: PathVerdict)
    ensures
        r == verdict_on(*resolved, root@),
{
    match resolved {
        Ok(place) => if reserved(root, place) {
            PathVerdict::Reserved
        } else {
            PathVerdict::Safe
        },
        Err(PathError::UnsafePath) => PathVerdict::Unsafe,
        Err(PathError::Resolution(_)) => PathVerdict::Unresolvable,
    }
}

/// The state manifest after a task ended: a file that was put in place is
/// on record as the manifest describes it; a file that was deleted is struck;
/// any other end leaves the state as it was.
pub open spec fn settled(
    state: Seq<RecordModel>,
    path: Seq<char>,
    file: Option<FileModel>,
    outcome: TaskOutcome,
) -> Seq<RecordModel> {
    match outcome {
        TaskOutcome::Succeeded => match file {
            Some(entry) => recorded(state, record_for(entry)),
            None => state,
        },
        TaskOutcome::Deleted => forgotten(state, path),
        _ => state,
    }
}

/// Brings the state manifest up to date after a task ended.
pub fn settle(
    state: &mut StateManifest,
    path: &String,
    file: Option<&ManifestFile>,
    outcome: TaskOutcome,
)
    ensures
        final(state)@ == settled(old(state)@, path@, entry_of(file), outcome),
{
    match outcome {
        TaskOutcome::Succeeded => match file {
            Some(entry) => state.record(StateRecord::of(entry)),
            None => (),
        },
        TaskOutcome::Deleted => state.forget(path),
        _ => (),
    }
}

/// How many usable mirrors stand at or after position `from`.
pub open spec fn usable_from(mirrors: Seq<Seq<char>>, allow_insecure: bool, from: int) -> nat
    decreases mirrors.len() - from,
{
    if from < 0 || from >= mirrors.len() {
        0
    } else if is_usable(mirrors[from], allow_insecure) {
        1 + usable_from(mirrors, allow_insecure, from + 1)
    } else {
        usable_from(mirrors, allow_insecure, from + 1)
    }
}

/// How many attempts a task may still make, the one under way included.
pub open spec fn attempts_left(file: FileModel, allow_insecure: bool, state: TaskState) -> int {
    match state {
        TaskState::Fetching { mirror, attempt } => RETRY_LIMIT * usable_from(
            file.mirrors,
            allow_insecure,
            mirror + 1,
        ) + (RETRY_LIMIT - attempt),
        TaskState::Committing { mirror, attempt } => RETRY_LIMIT * usable_from(
            file.mirrors,
            allow_insecure,
            mirror + 1,
        ) + (RETRY_LIMIT - attempt),
        _ => 0,
    }
}

/// The mirror that `next_mirror` finds is usable, no mirror between `from`
/// and it is, and it is counted once.
pub proof fn lemma_next_mirror(mirrors: Seq<Seq<char>>, allow_insecure: bool, from: int)
    requires
        0 <= from,
        mirrors.len() <= usize::MAX,
    ensures
        match next_mirror(mirrors, allow_insecure, from) {
            Some(m) => from <= m < mirrors.len() && is_usable(mirrors[m as int], allow_insecure)
                && usable_from(mirrors, allow_insecure, from) == 1 + usable_from(
                mirrors,
                allow_insecure,
                m + 1,
            ),
            None => usable_from(mirrors, allow_insecure, from) == 0,
        },
    decreases mirrors.len() - from,
{
    if from < mirrors.len() && !is_usable(mirrors[from], allow_insecure) {
        lemma_next_mirror(mirrors, allow_insecure, from + 1);
    }
}

/// A task ends once: a step reports the end exactly when it takes the task
/// from a state that is not the end to the end. After the end nothing more
/// is asked for, whatever is reported.
pub proof fn law_one_end(
    op: SyncOp,
    file: Option<FileModel>,
    allow_insecure: bool,
    ignore_hash_check: bool,
    state: TaskState,
    event: EventModel,
)
    ensures
        ({
            let next = step(op, file, allow_insecure, ignore_hash_check, state, event);
            &&& next.1 is Finish <==> state != TaskState::Finished && next.0 == TaskState::Finished
            &&& state == TaskState::Finished ==> next == (TaskState::Finished, TaskAction::Ignore)
        }),
{
}

/// Nothing is ever fetched from a mirror that may not be used: every fetch
/// that a step asks for names a mirror of the file that is reached over
/// https, unless insecure patching is allowed.
pub proof fn law_fetches_are_from_usable_mirrors(
    op: SyncOp,
    file: Option<FileModel>,
    allow_insecure: bool,
    ignore_hash_check: bool,
    state: TaskState,
    event: EventModel,
)
    requires
        file matches Some(entry) ==> entry.mirrors.len() <= usize::MAX,
        state matches TaskState::Fetching { mirror, .. } ==> file matches Some(entry) && mirror
            < entry.mirrors.len() && is_usable(entry.mirrors[mirror as int], allow_insecure),
        state matches TaskState::Committing { mirror, .. } ==> file matches Some(entry) && mirror
            < entry.mirrors.len() && is_usable(entry.mirrors[mirror as int], allow_insecure),
    ensures
        step(op, file, allow_insecure, ignore_hash_check, state, event).1 matches TaskAction::Fetch {
            mirror,
            ..
        } ==> file matches Some(entry) && mirror < entry.mirrors.len() && is_usable(
            entry.mirrors[mirror as int],
            allow_insecure,
        ),
{
    if let Some(entry) = file {
        lemma_next_mirror(entry.mirrors, allow_insecure, 0);
        match state {
            TaskState::Fetching { mirror, attempt } => {
                lemma_next_mirror(entry.mirrors, allow_insecure, mirror + 1);
            },
            TaskState::Committing { mirror, attempt } => {
                lemma_next_mirror(entry.mirrors, allow_insecure, mirror + 1);
            },
            _ => {},
        }
    }
}

/// A file without a usable mirror is given up before anything is requested:
/// where no mirror of the file may be used, the first step of a create or
/// update ends the task, and asks for no fetch. Where the path is safe, the
/// task fails for want of a usable mirror, whatever else the file lacks.
pub proof fn law_no_usable_mirror_no_request(
    op: SyncOp,
    file: FileModel,
    allow_insecure: bool,
    ignore_hash_check: bool,
    verdict: PathVerdict,
)
    requires
        op == SyncOp::Create || op == SyncOp::Update,
        file.mirrors.len() <= usize::MAX,
        forall|i: int|
            0 <= i < file.mirrors.len() ==> !is_usable(#[trigger] file.mirrors[i], allow_insecure),
    ensures
        begin(op, Some(file), allow_insecure, ignore_hash_check, verdict).0 == TaskState::Finished,
        verdict == PathVerdict::Safe ==> begin(
            op,
            Some(file),
            allow_insecure,
            ignore_hash_check,
            verdict,
        ) == finish(TaskOutcome::Failed(TaskFailure::NoUsableMirror)),
{
    lemma_next_mirror(file.mirrors, allow_insecure, 0);
}

/// A file whose path leads out of the application's directory is never
/// touched: whatever the task, short of a skip, its first step ends it with
/// `UnsafePath`, and every later step asks for nothing.
pub proof fn law_unsafe_path_is_never_written(
    op: SyncOp,
    file: Option<FileModel>,
    allow_insecure: bool,
    ignore_hash_check: bool,
    later: EventModel,
)
    requires
        op != SyncOp::Skip,
    ensures
        ({
            let first = step(
                op,
                file,
                allow_insecure,
                ignore_hash_check,
                TaskState::Pending,
                EventModel::Start(PathVerdict::Unsafe),
            );
            &&& first == finish(TaskOutcome::Failed(TaskFailure::UnsafePath))
            &&& step(op, file, allow_insecure, ignore_hash_check, first.0, later).1
                == TaskAction::Ignore
        }),
{
}

/// Nothing is touched at a path that is not safe: where the resolver did not
/// clear the path of a task, be it unsafe, unresolvable or the state
/// manifest's own, the first step ends the task with a failure.
pub proof fn law_only_safe_paths_are_touched(
    op: SyncOp,
    file: Option<FileModel>,
    allow_insecure: bool,
    ignore_hash_check: bool,
    verdict: PathVerdict,
)
    requires
        op != SyncOp::Skip,
        verdict != PathVerdict::Safe,
    ensures
        ({
            let first = begin(op, file, allow_insecure, ignore_hash_check, verdict);
            first.0 == TaskState::Finished && first.1 matches TaskAction::Finish(
                TaskOutcome::Failed(_),
            )
        }),
{
}

/// A download is put in place only after it was accepted: a step asks for
/// the rename only when a download is reported that the manifest's digest (or
/// size) confirms, and never when the run is called off.
pub proof fn law_only_accepted_downloads_are_committed(
    op: SyncOp,
    file: Option<FileModel>,
    allow_insecure: bool,
    ignore_hash_check: bool,
    state: TaskState,
    event: EventModel,
)
    requires
        step(op, file, allow_insecure, ignore_hash_check, state, event).1 == TaskAction::Commit,
    ensures
        state is Fetching,
        event matches EventModel::Fetched { bytes, digest } && file matches Some(entry)
            && accepted(entry, ignore_hash_check, bytes, digest),
{
}

/// Retries are bounded: each failed attempt, be it a failed transfer, a
/// download that is not accepted or a failed rename, leaves the task with
/// fewer attempts than it had; a task therefore makes at most `RETRY_LIMIT`
/// attempts on each usable mirror before it fails for good.
pub proof fn law_each_failure_uses_an_attempt(
    file: FileModel,
    allow_insecure: bool,
    mirror: usize,
    attempt: u32,
)
    requires
        attempt < RETRY_LIMIT,
        file.mirrors.len() <= usize::MAX,
    ensures
        ({
            let next = after_failure(Some(file), allow_insecure, mirror, attempt);
            &&& attempts_left(file, allow_insecure, next.0) < attempts_left(
                file,
                allow_insecure,
                TaskState::Fetching { mirror, attempt },
            )
            &&& next.0 matches TaskState::Fetching { attempt: again, .. } ==> again < RETRY_LIMIT
            &&& next.0 is Fetching || next == finish(
                TaskOutcome::Failed(TaskFailure::MirrorsExhausted),
            )
        }),
{
    lemma_next_mirror(file.mirrors, allow_insecure, mirror + 1);
}

/// At its start a task has `RETRY_LIMIT` attempts for each usable mirror of
/// its file, and no more.
pub proof fn law_attempts_at_start(
    op: SyncOp,
    file: FileModel,
    allow_insecure: bool,
    ignore_hash_check: bool,
    verdict: PathVerdict,
)
    requires
        file.mirrors.len() <= usize::MAX,
    ensures
        attempts_left(
            file,
            allow_insecure,
            begin(op, Some(file), allow_insecure, ignore_hash_check, verdict).0,
        ) <= RETRY_LIMIT * usable_from(file.mirrors, allow_insecure, 0),
{
    lemma_next_mirror(file.mirrors, allow_insecure, 0);
}

/// The counts of how the tasks of a run ended.
#[derive(Debug, Clone, Copy, PartialEq, Eq, Structural)]
pub struct SyncSummary {
    /// Tasks that ended, in any way.
    pub total_files: usize,
    /// Files that were downloaded, checked and put in place.
    pub succeeded: usize,
    /// Tasks that failed or were called off.
    pub failed: usize,
    /// Files that were in place already.
    pub skipped: usize,
    /// Files that were deleted.
    pub deleted: usize,
}

/// Whether a task that ended so counts against the run.
pub open spec fn is_failure(outcome: TaskOutcome) -> bool {
    outcome is Failed || outcome is Cancelled
}

/// The counts of the first `n` outcomes: each outcome counts once in the
/// total and once under the way it ended; a task that was called off counts
/// as failed.
pub open spec fn summary_upto(outcomes: Seq<TaskOutcome>, n: int) -> (int, int, int, int)
    decreases n,
{
    if n <= 0 {
        (0, 0, 0, 0)
    } else {
        let before = summary_upto(outcomes, n - 1);
        match outcomes[n - 1] {
            TaskOutcome::Succeeded => (before.0 + 1, before.1, before.2, before.3),
            TaskOutcome::Skipped => (before.0, before.1, before.2 + 1, before.3),
            TaskOutcome::Deleted => (before.0, before.1, before.2, before.3 + 1),
            _ => (before.0, before.1 + 1, before.2, before.3),
        }
    }
}

/// Whether a summary holds the counts of `outcomes`: succeeded, failed,
/// skipped and deleted, and their sum as the total.
pub open spec fn summarizes(summary: SyncSummary, outcomes: Seq<TaskOutcome>) -> bool {
    &&& summary.total_files == outcomes.len()
    &&& (
        summary.succeeded as int,
        summary.failed as int,
        summary.skipped as int,
        summary.deleted as int,
    ) == summary_upto(outcomes, outcomes.len() as int)
}

/// The counts of the first `n` outcomes add up to `n`, and none has failed
/// exactly when none of the outcomes is a failure.
pub proof fn lemma_summary_upto(outcomes: Seq<TaskOutcome>, n: int)
    requires
        0 <= n <= outcomes.len(),
    ensures
        ({
            let counts = summary_upto(outcomes, n);
            &&& counts.0 >= 0 && counts.1 >= 0 && counts.2 >= 0 && counts.3 >= 0
            &&& counts.0 + counts.1 + counts.2 + counts.3 == n
            &&& counts.1 == 0 <==> forall|i: int| 0 <= i < n ==> !is_failure(#[trigger] outcomes[i])
        }),
    decreases n,
{
    if n > 0 {
        lemma_summary_upto(outcomes, n - 1);
    }
}

/// Counts how the tasks of a run ended.
pub fn summarize(outcomes: &Vec<TaskOutcome>) -> (r: SyncSummary)
    ensures
        summarizes(r, outcomes@),
        r.total_files == r.succeeded + r.failed + r.skipped + r.deleted,
{
    let mut r = SyncSummary { total_files: 0, succeeded: 0, failed: 0, skipped: 0, deleted: 0 };
    let mut i: usize = 0;
    while i < outcomes.len()
        invariant
            i <= outcomes@.len(),
            r.total_files == i,
            (r.succeeded as int, r.failed as int, r.skipped as int, r.deleted as int)
                == summary_upto(outcomes@, i as int),
        decreases outcomes@.len() - i,
    {
        proof {
            lemma_summary_upto(outcomes@, i as int);
        }
        match outcomes[i] {
            TaskOutcome::Succeeded => {
                r.succeeded += 1;
            },
            TaskOutcome::Skipped => {
                r.skipped += 1;
            },
            TaskOutcome::Deleted => {
                r.deleted += 1;
            },
            _ => {
                r.failed += 1;
            },
        }
        r.total_files += 1;
        i += 1;
    }
    proof {
        lemma_summary_upto(outcomes@, outcomes@.len() as int);
    }
    r
}

impl SyncSummary {
    /// Whether the run was a success: no task failed or was called off.
    pub fn is_success(&self) -> (r: bool)
        ensures
            r == (self.failed == 0),
    {
        self.failed == 0
    }
}

/// A run is a success exactly when every task succeeded, was skipped or
/// deleted its file: the summary of the outcomes counts no failure if and
/// only if none of the outcomes is one.
pub proof fn law_success_means_no_failure(summary: SyncSummary, outcomes: Seq<TaskOutcome>)
    requires
        summarizes(summary, outcomes),
    ensures
        summary.failed == 0 <==> forall|i: int|
            0 <= i < outcomes.len() ==> !is_failure(#[trigger] outcomes[i]),
        summary.total_files == summary.succeeded + summary.failed + summary.skipped
            + summary.deleted,
{
    lemma_summary_upto(outcomes, outcomes.len() as int);
}

} // verus!
