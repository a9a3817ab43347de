//! File synchronisation: what has to be done to make the files on disk those
//! that a manifest describes, and how each step of doing it is decided.

use super::config::io_error_text;
use super::manifest::manifest_spec::{FileHashAlg, FileModel, ManifestFile};
use crate::text::{eq_ignore_case, same_ignoring_case};
use paths::PathError;
use plan::{PlanError, SyncTask};
use run::{is_failure, TaskFailure, TaskOutcome};
use vstd::prelude::*;
use vstd::string::StringExecFns;

pub mod paths;
pub mod plan;
pub mod resync;
pub mod run;
pub mod state;

verus! {

/// What is appended to a file's name while it is being downloaded.
pub const PARTIAL_FILE_EXT: &'static str = ".part";

/// Sync operations
#[derive(Debug, Clone, Copy, PartialEq, Eq, Structural)]
pub enum SyncOp {
    /// Creating a new file
    Create,
    /// Patching existing file
    Update,
    /// Deleting a file
    Delete,
    /// Leaving a file as it is
    Skip,
}

/// Sync state
#[derive(Debug, Clone, Copy, PartialEq, Eq, Structural)]
pub enum SyncState {
    /// File operation completed successfully
    Success,
    /// File operation is processing without errors
    Working,
    /// File operation had a recoverable error and will retry
    Retry,
    /// File operation had an unrecoverable error
    Error,
    /// File operation was called off before it completed
    Cancelled,
}

/// The most secure digest that a file carries, with the algorithm that made
/// it: SHA-256 before SHA-1 before MD5.
pub open spec fn strongest(file: FileModel) -> Option<(Seq<char>, FileHashAlg)> {
    match file.sha256 {
        Some(digest) => Some((digest, FileHashAlg::Sha256)),
        None => match file.sha1 {
            Some(digest) => Some((digest, FileHashAlg::Sha1)),
            None => match file.md5 {
                Some(digest) => Some((digest, FileHashAlg::Md5)),
                None => None,
            },
        },
    }
}

/// Takes a ManifestFile and returns the most secure hash digest provided along with the algorithm used.
pub fn resolve_best_hash(file: &ManifestFile) -> (r: Option<(&str, FileHashAlg)>)
    ensures
        match r {
            Some((digest, alg)) => strongest(file@) == Some((digest@, alg)),
            None => strongest(file@) is None,
        },
{
    // The digests in the order of trust, strongest first.
    let by_trust = [
        (FileHashAlg::Sha256, &file.sha256),
        (FileHashAlg::Sha1, &file.sha1),
        (FileHashAlg::Md5, &file.md5),
    ];
    let mut i: usize = 0;
    while i < 3
        invariant
            i <= 3,
            by_trust@ == seq![
                (FileHashAlg::Sha256, &file.sha256),
                (FileHashAlg::Sha1, &file.sha1),
                (FileHashAlg::Md5, &file.md5),
            ],
            forall|k: int| 0 <= k < i ==> by_trust@[k].1 is None,
        decreases 3 - i,
    {
        match by_trust[i].1 {
            Some(val) => {
                return Some((val.as_str(), by_trust[i].0));
            },
            None => (),
        }
        i += 1;
    }
    None
}

/// Compares the digest computed of a file with the one expected of it, both
/// written in hex, without regard to the case of the hex digits.
pub fn digest_matches(expected: &str, computed: &str) -> (r: bool)
    ensures
        r == same_ignoring_case(expected@, computed@),
{
    eq_ignore_case(expected, computed)
}

/// What is said of a path that leads out of the application's directory.
pub const UNSAFE_PATH_TEXT: &'static str =
    "File path resolved to an unsafe location outside the main app directory.";

/// What is said of a manifest whose files get in each other's way.
pub const REPEATED_PATH_TEXT: &'static str = "The manifest lists a file path twice.";

/// What is said of an application directory that is the updater's own.
pub const ROOT_COLLISION_TEXT: &'static str =
    "The Fortunata root directory cannot be used as an application root directory.";

/// Sync-related errors
#[derive(Debug)]
pub enum SyncError {
    BadHash(String),
    BadPath(String),
    DownloadError(String),
    FileIO(std::io::Error),
    PathResolution(path_abs::Error),
}

impl vstd::std_specs::convert::FromSpecImpl<std::io::Error> for SyncError {
    open spec fn obeys_from_spec() -> bool {
        true
    }

    open spec fn from_spec(item: std::io::Error) -> Self {
        SyncError::FileIO(item)
    }
}

impl std::convert::From<std::io::Error> for SyncError {
    fn from(item: std::io::Error) -> (r: SyncError) {
        SyncError::FileIO(item)
    }
}

impl vstd::std_specs::convert::FromSpecImpl<path_abs::Error> for SyncError {
    open spec fn obeys_from_spec() -> bool {
        true
    }

    open spec fn from_spec(item: path_abs::Error) -> Self {
        SyncError::PathResolution(item)
    }
}

impl std::convert::From<path_abs::Error> for SyncError {
    fn from(item: path_abs::Error) -> (r: SyncError) {
        SyncError::PathResolution(item)
    }
}

impl vstd::std_specs::convert::FromSpecImpl<PathError> for SyncError {
    open spec fn obeys_from_spec() -> bool {
        false
    }

    open spec fn from_spec(item: PathError) -> Self {
        arbitrary()
    }
}

impl std::convert::From<PathError> for SyncError {
    /// An unsafe path is a bad path; a failed resolution stays what it is.
    fn from(item: PathError) -> (r: SyncError)
        ensures
            match item {
                PathError::UnsafePath => r matches SyncError::BadPath(text) && text@
                    == UNSAFE_PATH_TEXT@,
                PathError::Resolution(e) => r matches SyncError::PathResolution(f) && f == e,
            },
    {
        match item {
            PathError::UnsafePath => SyncError::BadPath(String::from_str(UNSAFE_PATH_TEXT)),
            PathError::Resolution(e) => SyncError::PathResolution(e),
        }
    }
}

impl vstd::std_specs::convert::FromSpecImpl<PlanError> for SyncError {
    open spec fn obeys_from_spec() -> bool {
        false
    }

    open spec fn from_spec(item: PlanError) -> Self {
        arbitrary()
    }
}

impl std::convert::From<PlanError> for SyncError {
    /// What keeps a plan from being made is a bad path.
    fn from(item: PlanError) -> (r: SyncError)
        ensures
            r matches SyncError::BadPath(text) && text@ == match item {
                PlanError::RootCollision => ROOT_COLLISION_TEXT@,
                PlanError::RepeatedPath => REPEATED_PATH_TEXT@,
            },
    {
        match item {
            PlanError::RootCollision => SyncError::BadPath(String::from_str(ROOT_COLLISION_TEXT)),
            PlanError::RepeatedPath => SyncError::BadPath(String::from_str(REPEATED_PATH_TEXT)),
        }
    }
}

/// What `path_abs::Error` shows of itself through `Display`.
#[verifier::external_body]
fn path_error_text(e: &path_abs::Error) -> String {
    format!("{}", e)
}

impl SyncError {
    /// The text that describes this error to a user. For the errors of this
    /// library it is a fixed heading and the description; for the others it
    /// is what the outside error shows of itself.
    pub fn message(&self) -> (r: String)
        ensures
            self matches SyncError::BadHash(desc) ==> r@ == "File hash check error - "@ + desc@,
            self matches SyncError::BadPath(desc) ==> r@ == "Bad file path - "@ + desc@,
            self matches SyncError::DownloadError(desc) ==> r@ == "Download error - "@ + desc@,
    {
        match self {
            SyncError::BadHash(desc) => String::from_str("File hash check error - ").concat(
                desc.as_str(),
            ),
            SyncError::BadPath(desc) => String::from_str("Bad file path - ").concat(desc.as_str()),
            SyncError::DownloadError(desc) => String::from_str("Download error - ").concat(
                desc.as_str(),
            ),
            SyncError::FileIO(e) => io_error_text(e),
            SyncError::PathResolution(e) => path_error_text(e),
        }
    }
}

/// The state that the last report of a task shows.
pub open spec fn state_after(outcome: TaskOutcome) -> SyncState {
    match outcome {
        TaskOutcome::Failed(_) => SyncState::Error,
        TaskOutcome::Cancelled => SyncState::Cancelled,
        _ => SyncState::Success,
    }
}

/// Why a task failed, if it did.
pub open spec fn failure_of(outcome: TaskOutcome) -> Option<TaskFailure> {
    match outcome {
        TaskOutcome::Failed(failure) => Some(failure),
        _ => None,
    }
}

/// Defines the current state of a file sync operation sent over a sync stream.
#[derive(Debug, Clone)]
pub struct SyncReport {
    /// Current state of the operation
    pub state: SyncState,
    /// File operation being performed
    pub op: SyncOp,
    /// Filepath of the current file
    pub filepath: String,
    /// Bytes synced
    pub bytes_done: u64,
    /// Bytes to sync in all
    pub bytes_total: u64,
    /// Why the operation failed, where it did
    pub error: Option<TaskFailure>,
}

impl SyncReport {
    /// The report of a task that goes on: `state` is `Working`, or `Retry`
    /// after a failed attempt.
    pub fn progress(task: &SyncTask, retry: bool, bytes_done: u64, bytes_total: u64) -> (r:
        SyncReport)
        ensures
            r.state == if retry {
                SyncState::Retry
            } else {
                SyncState::Working
            },
            r.op == task.op,
            r.filepath@ == task.filepath@,
            r.bytes_done == bytes_done,
            r.bytes_total == bytes_total,
            r.error is None,
    {
        SyncReport {
            state: if retry {
                SyncState::Retry
            } else {
                SyncState::Working
            },
            op: task.op,
            filepath: task.filepath.clone(),
            bytes_done,
            bytes_total,
            error: None,
        }
    }

    /// The last report of a task, which says how it ended.
    pub fn ended(task: &SyncTask, outcome: TaskOutcome, bytes_done: u64, bytes_total: u64) -> (r:
        SyncReport)
        ensures
            r.state == state_after(outcome),
            r.op == task.op,
            r.filepath@ == task.filepath@,
            r.bytes_done == bytes_done,
            r.bytes_total == bytes_total,
            r.error == failure_of(outcome),
    {
        let (state, error) = match outcome {
            TaskOutcome::Failed(failure) => (SyncState::Error, Some(failure)),
            TaskOutcome::Cancelled => (SyncState::Cancelled, None),
            _ => (SyncState::Success, None),
        };
        SyncReport {
            state,
            op: task.op,
            filepath: task.filepath.clone(),
            bytes_done,
            bytes_total,
            error,
        }
    }
}

/// Defines the result of a file sync. Any result with a non-empty `error` is considered an error response.
#[derive(Debug, Clone)]
pub struct SyncResult {
    /// Success flag
    pub success: bool,
    /// Absolute path to the file on the filesystem
    pub path: String,
    /// Error description. If set, result is assumed to be an error.
    pub error: String,
}

/// What is said of the way a task ended; nothing where it ended well.
pub open spec fn outcome_text(outcome: TaskOutcome) -> Seq<char> {
    match outcome {
        TaskOutcome::Failed(failure) => run::failure_text(failure),
        TaskOutcome::Cancelled => run::CANCELLED_TEXT@,
        _ => Seq::empty(),
    }
}

impl SyncResult {
    /// The result of the sync of the file at `path`, which ended in `outcome`.
    pub fn of(path: &str, outcome: TaskOutcome) -> (r: SyncResult)
        ensures
            r.success == !is_failure(outcome),
            r.path@ == path@,
            r.error@ == outcome_text(outcome),
    {
        match outcome {
            TaskOutcome::Failed(failure) => SyncResult {
                success: false,
                path: path.to_owned(),
                error: failure.message(),
            },
            TaskOutcome::Cancelled => SyncResult {
                success: false,
                path: path.to_owned(),
                error: String::from_str(run::CANCELLED_TEXT),
            },
            _ => SyncResult { success: true, path: path.to_owned(), error: String::new() },
        }
    }
}

} // verus!
