//! What a run that went through leaves behind: a state against which the
//! same manifest plans nothing but skips.

use super::super::manifest::manifest_spec::FileModel;
use super::plan::{agrees, deletions, fingerprint, has_distinct_paths};
use super::plan::{delete_task, listed, plan_of, present_at, target_task};
use super::plan::{lemma_deletion_has_record, lemma_nothing_stale, lemma_own_record_agrees};
use super::plan::{lemma_record_has_deletion, SyncReason, TaskModel};
use super::run::{settled, target_of, TaskOutcome};
use super::state::{law_forgotten_is_gone, law_recorded_is_found, lemma_position_from};
use super::state::{lookup, record_for, RecordModel};
use super::SyncOp;
use vstd::prelude::*;

verus! {

/// How a task ends when nothing goes wrong.
pub open spec fn clean_outcome(op: SyncOp) -> TaskOutcome {
    match op {
        SyncOp::Create => TaskOutcome::Succeeded,
        SyncOp::Update => TaskOutcome::Succeeded,
        SyncOp::Delete => TaskOutcome::Deleted,
        SyncOp::Skip => TaskOutcome::Skipped,
    }
}

/// The state manifest after the first `n` tasks ended, none of them badly.
pub open spec fn state_after(
    state: Seq<RecordModel>,
    tasks: Seq<TaskModel>,
    files: Seq<FileModel>,
    n: int,
) -> Seq<RecordModel>
    decreases n,
{
    if n <= 0 {
        state
    } else {
        settled(
            state_after(state, tasks, files, n - 1),
            tasks[n - 1].filepath,
            target_of(tasks[n - 1], files),
            clean_outcome(tasks[n - 1].op),
        )
    }
}

/// The state manifest after every task of a plan ended, none of them badly.
pub open spec fn completed(
    state: Seq<RecordModel>,
    tasks: Seq<TaskModel>,
    files: Seq<FileModel>,
) -> Seq<RecordModel> {
    state_after(state, tasks, files, tasks.len() as int)
}

/// What is on record for `path` after the first `n` tasks ended, none of
/// them badly: what the last task at that path left, or what was there before.
pub open spec fn known_after(
    state: Seq<RecordModel>,
    tasks: Seq<TaskModel>,
    files: Seq<FileModel>,
    n: int,
    path: Seq<char>,
) -> Option<RecordModel>
    decreases n,
{
    if n <= 0 {
        lookup(state, path)
    } else {
        let before = known_after(state, tasks, files, n - 1, path);
        match clean_outcome(tasks[n - 1].op) {
            TaskOutcome::Succeeded => match target_of(tasks[n - 1], files) {
                Some(entry) => if entry.path == path {
                    Some(record_for(entry))
                } else {
                    before
                },
                None => before,
            },
            TaskOutcome::Deleted => if tasks[n - 1].filepath == path {
                None
            } else {
                before
            },
            _ => before,
        }
    }
}

/// The state after some tasks holds for each path what `known_after` says.
pub proof fn lemma_known_after(
    state: Seq<RecordModel>,
    tasks: Seq<TaskModel>,
    files: Seq<FileModel>,
    n: int,
    path: Seq<char>,
)
    ensures
        lookup(state_after(state, tasks, files, n), path) == known_after(
            state,
            tasks,
            files,
            n,
            path,
        ),
    decreases n,
{
    if n > 0 {
        lemma_known_after(state, tasks, files, n - 1, path);
        let before = state_after(state, tasks, files, n - 1);
        match clean_outcome(tasks[n - 1].op) {
            TaskOutcome::Succeeded => match target_of(tasks[n - 1], files) {
                Some(entry) => {
                    law_recorded_is_found(before, record_for(entry), path);
                },
                None => {},
            },
            TaskOutcome::Deleted => {
                law_forgotten_is_gone(before, tasks[n - 1].filepath, path);
            },
            _ => {},
        }
    }
}

/// What a plan holds at each position: a deletion of a path that the
/// manifest does not list, or the task for a file of the manifest.
pub proof fn lemma_plan_at(
    files: Seq<FileModel>,
    state: Seq<RecordModel>,
    present: Seq<bool>,
    ignore_hash_check: bool,
    t: int,
)
    requires
        0 <= t < plan_of(files, state, present, ignore_hash_check).len(),
    ensures
        plan_of(files, state, present, ignore_hash_check).len() == deletions(state, files).len()
            + files.len(),
        t < deletions(state, files).len() ==> plan_of(files, state, present, ignore_hash_check)[t]
            == delete_task(plan_of(files, state, present, ignore_hash_check)[t].filepath)
            && !listed(files, plan_of(files, state, present, ignore_hash_check)[t].filepath),
        t >= deletions(state, files).len() ==> plan_of(files, state, present, ignore_hash_check)[t]
            == target_task(
            files,
            state,
            present,
            ignore_hash_check,
            t - deletions(state, files).len(),
        ),
{
    let removals = deletions(state, files);
    if t < removals.len() {
        lemma_deletion_has_record(state, files, state.len() as int, t);
    }
}

/// A path that the manifest does not list is on record no more once the
/// deletions of a plan are through, and stays so to the end of the plan.
pub proof fn lemma_unlisted_is_forgotten(
    files: Seq<FileModel>,
    state: Seq<RecordModel>,
    present: Seq<bool>,
    ignore_hash_check: bool,
    path: Seq<char>,
    n: int,
)
    requires
        files.len() <= usize::MAX,
        !listed(files, path),
        0 <= n <= plan_of(files, state, present, ignore_hash_check).len(),
    ensures
        ({
            let tasks = plan_of(files, state, present, ignore_hash_check);
            let known = known_after(state, tasks, files, n, path);
            &&& known is None || known == lookup(state, path)
            &&& (exists|t: int| 0 <= t < n && #[trigger] tasks[t] == delete_task(path)) ==> known
                is None
        }),
    decreases n,
{
    if n > 0 {
        lemma_unlisted_is_forgotten(files, state, present, ignore_hash_check, path, n - 1);
        lemma_plan_at(files, state, present, ignore_hash_check, n - 1);
    }
}

/// What is on record for a file of the manifest is not touched before the
/// file's own task, where the manifest lists no path twice.
pub proof fn lemma_untouched_before_own_task(
    files: Seq<FileModel>,
    state: Seq<RecordModel>,
    present: Seq<bool>,
    ignore_hash_check: bool,
    i: int,
    n: int,
)
    requires
        files.len() <= usize::MAX,
        has_distinct_paths(files),
        0 <= i < files.len(),
        0 <= n <= deletions(state, files).len() + i,
    ensures
        known_after(
            state,
            plan_of(files, state, present, ignore_hash_check),
            files,
            n,
            files[i].path,
        ) == lookup(state, files[i].path),
    decreases n,
{
    if n > 0 {
        lemma_untouched_before_own_task(files, state, present, ignore_hash_check, i, n - 1);
        lemma_plan_at(files, state, present, ignore_hash_check, n - 1);
    }
}

/// After its own task a file of the manifest is on record such that the
/// record agrees with what the manifest gives to tell the file by, and later
/// tasks leave that record alone.
pub proof fn lemma_settled_after_own_task(
    files: Seq<FileModel>,
    state: Seq<RecordModel>,
    present: Seq<bool>,
    ignore_hash_check: bool,
    i: int,
    n: int,
)
    requires
        files.len() <= usize::MAX,
        has_distinct_paths(files),
        0 <= i < files.len(),
        fingerprint(files[i], ignore_hash_check) is Some,
        deletions(state, files).len() + i < n <= plan_of(
            files,
            state,
            present,
            ignore_hash_check,
        ).len(),
    ensures
        known_after(
            state,
            plan_of(files, state, present, ignore_hash_check),
            files,
            n,
            files[i].path,
        ) matches Some(record) && agrees(
            record,
            fingerprint(files[i], ignore_hash_check).unwrap(),
        ),
    decreases n,
{
    let own = deletions(state, files).len() + i;
    lemma_plan_at(files, state, present, ignore_hash_check, n - 1);
    if n - 1 == own {
        lemma_untouched_before_own_task(files, state, present, ignore_hash_check, i, own);
        lemma_own_record_agrees(files[i], ignore_hash_check);
    } else {
        lemma_settled_after_own_task(files, state, present, ignore_hash_check, i, n - 1);
    }
}

/// A run that went through leaves nothing to do. Take a manifest that lists
/// no path twice and gives for each file something to tell it by, and any
/// state to start from. Once every task of the plan has ended well (each
/// file to create or update put in place, each file to delete gone), a plan
/// of the same manifest against the state that the run leaves, with every
/// file on disk, skips each file of the manifest, in order, and holds
/// nothing else.
pub proof fn law_completed_run_leaves_nothing_to_do(
    files: Seq<FileModel>,
    state: Seq<RecordModel>,
    present: Seq<bool>,
    present_after: Seq<bool>,
    ignore_hash_check: bool,
)
    requires
        files.len() <= usize::MAX,
        has_distinct_paths(files),
        forall|i: int|
            0 <= i < files.len() ==> fingerprint(#[trigger] files[i], ignore_hash_check) is Some,
        forall|i: int| 0 <= i < files.len() ==> present_at(present_after, i),
    ensures
        plan_of(
            files,
            completed(state, plan_of(files, state, present, ignore_hash_check), files),
            present_after,
            ignore_hash_check,
        ) == Seq::new(
            files.len(),
            |i: int|
                TaskModel {
                    op: SyncOp::Skip,
                    filepath: files[i].path,
                    target: Some(i as usize),
                    reason: SyncReason::Unchanged,
                },
        ),
{
    let tasks = plan_of(files, state, present, ignore_hash_check);
    let after = completed(state, tasks, files);
    let count = tasks.len() as int;
    assert forall|k: int| 0 <= k < after.len() implies listed(
        files,
        (#[trigger] after[k]).path,
    ) by {
        let path = after[k].path;
        if !listed(files, path) {
            lemma_unlisted_is_forgotten(files, state, present, ignore_hash_check, path, count);
            lemma_known_after(state, tasks, files, count, path);
            lemma_position_from(after, path, 0);
            lemma_position_from(state, path, 0);
            if lookup(state, path) is Some {
                let at = super::state::position(state, path).unwrap();
                let t = lemma_record_has_deletion(state, files, state.len() as int, at);
                assert(tasks[t] == delete_task(path));
            }
        }
    }
    lemma_nothing_stale(after, files, after.len() as int);
    assert forall|i: int| 0 <= i < files.len() implies target_task(
        files,
        after,
        present_after,
        ignore_hash_check,
        i,
    ) == (TaskModel {
        op: SyncOp::Skip,
        filepath: files[i].path,
        target: Some(i as usize),
        reason: SyncReason::Unchanged,
    }) by {
        lemma_plan_at(files, state, present, ignore_hash_check, count - 1);
        lemma_settled_after_own_task(files, state, present, ignore_hash_check, i, count);
        lemma_known_after(state, tasks, files, count, files[i].path);
    }
}

} // verus!
