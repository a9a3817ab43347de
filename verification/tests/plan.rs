use fortunata::config::ManifestConfig;
use fortunata::file_sync::plan::{
    check_distinct_paths, decide, is_listed, plan, PlanError, SyncReason, SyncTask,
};
use fortunata::file_sync::state::{StateManifest, StateRecord};
use fortunata::file_sync::SyncOp;
use fortunata::manifest::manifest_spec::{FileHashAlg, Manifest, ManifestFile};

fn entry(path: &str, sha256: Option<&str>, size: Option<u64>) -> ManifestFile {
    ManifestFile {
        path: path.to_owned(),
        mirrors: vec![format!("https://m1/{}", path)],
        size,
        md5: None,
        sha1: None,
        sha256: sha256.map(String::from),
    }
}

fn manifest(files: Vec<ManifestFile>) -> Manifest {
    Manifest {
        version: "fort-1.0".to_owned(),
        label: "Test".to_owned(),
        webpage: None,
        forums: None,
        discord: None,
        rss: None,
        poster_image: None,
        profiles: vec![],
        files,
    }
}

fn config(ignore_hash_check: bool) -> ManifestConfig {
    ManifestConfig {
        url: "https://example.com/manifest.toml".to_owned(),
        application_path: "/srv/apps/game".to_owned(),
        allow_unsafe_file_paths: false,
        allow_insecure_patching: false,
        ignore_hash_check,
        maximum_parallel_files: 1,
        use_symlinked_storage: false,
        ignore_profiles: vec!["Hidden".to_owned()],
    }
}

fn shape(tasks: &[SyncTask]) -> Vec<(SyncOp, String, Option<usize>, SyncReason)> {
    tasks.iter().map(|t| (t.op, t.filepath.clone(), t.target, t.reason)).collect()
}

fn plan_for(
    target: &Manifest,
    state: &StateManifest,
    ignore_hash_check: bool,
    present: Vec<bool>,
) -> Vec<(SyncOp, String, Option<usize>, SyncReason)> {
    let planned =
        plan(target, state, &config(ignore_hash_check), "/opt/updater", "/srv/apps/game", &present)
            .unwrap();
    shape(&planned.tasks)
}

fn synced(files: &[ManifestFile]) -> StateManifest {
    let mut state = StateManifest::new();
    for f in files {
        state.record(StateRecord::of(f));
    }
    state
}

#[test]
fn clean_root_creates_every_file_in_order() {
    let target = manifest(vec![
        entry("b.txt", Some("bb"), None),
        entry("a.txt", None, Some(4)),
        entry("c/d.txt", None, None),
    ]);
    let planned = plan_for(&target, &StateManifest::new(), false, vec![false, false, false]);
    assert_eq!(
        planned,
        vec![
            (SyncOp::Create, "b.txt".to_owned(), Some(0), SyncReason::Missing),
            (SyncOp::Create, "a.txt".to_owned(), Some(1), SyncReason::Missing),
            (SyncOp::Create, "c/d.txt".to_owned(), Some(2), SyncReason::Missing),
        ]
    );
}

#[test]
fn probe_that_is_silent_counts_as_absent() {
    let target = manifest(vec![entry("a.txt", Some("aa"), None), entry("b.txt", Some("bb"), None)]);
    let planned = plan_for(&target, &StateManifest::new(), false, vec![]);
    assert_eq!(planned.len(), 2);
    assert!(planned.iter().all(|t| t.0 == SyncOp::Create));
}

#[test]
fn empty_manifest_and_state_plan_nothing() {
    let planned = plan_for(&manifest(vec![]), &StateManifest::new(), false, vec![]);
    assert!(planned.is_empty());
}

#[test]
fn replanning_after_a_sync_skips() {
    let target = manifest(vec![entry("app.exe", Some("H"), None)]);
    let state = synced(&target.files);
    let planned = plan_for(&target, &state, false, vec![true]);
    assert_eq!(planned, vec![(SyncOp::Skip, "app.exe".to_owned(), Some(0), SyncReason::Unchanged)]);
}

#[test]
fn replanning_skips_every_file_that_can_be_told() {
    let target = manifest(vec![
        entry("a", Some("d1"), Some(1)),
        entry("b", None, Some(2)),
        entry("c", Some("d3"), None),
    ]);
    let state = synced(&target.files);
    let planned = plan_for(&target, &state, false, vec![true, true, true]);
    assert_eq!(
        planned.iter().map(|t| t.0).collect::<Vec<_>>(),
        vec![SyncOp::Skip, SyncOp::Skip, SyncOp::Skip]
    );
    let planned = plan_for(&target, &state, true, vec![true, true, true]);
    assert_eq!(
        planned.iter().map(|t| (t.0, t.3)).collect::<Vec<_>>(),
        vec![
            (SyncOp::Skip, SyncReason::Unchanged),
            (SyncOp::Skip, SyncReason::Unchanged),
            (SyncOp::Update, SyncReason::Unverifiable),
        ]
    );
}

#[test]
fn file_without_digest_or_size_is_always_rechecked() {
    let target = manifest(vec![entry("loose.bin", None, None)]);
    let state = synced(&target.files);
    let planned = plan_for(&target, &state, false, vec![true]);
    assert_eq!(
        planned,
        vec![(SyncOp::Update, "loose.bin".to_owned(), Some(0), SyncReason::Unverifiable)]
    );
}

#[test]
fn file_gone_from_the_manifest_is_deleted() {
    let before = manifest(vec![entry("keep.txt", Some("k"), None), entry("old.txt", Some("o"), None)]);
    let state = synced(&before.files);
    let after = manifest(vec![entry("keep.txt", Some("k"), None)]);
    let planned = plan_for(&after, &state, false, vec![true]);
    assert_eq!(
        planned,
        vec![
            (SyncOp::Delete, "old.txt".to_owned(), None, SyncReason::Removed),
            (SyncOp::Skip, "keep.txt".to_owned(), Some(0), SyncReason::Unchanged),
        ]
    );
}

#[test]
fn untracked_files_are_never_deleted() {
    let target = manifest(vec![entry("a.txt", Some("a"), None)]);
    let planned = plan_for(&target, &StateManifest::new(), false, vec![true]);
    assert_eq!(planned, vec![(SyncOp::Update, "a.txt".to_owned(), Some(0), SyncReason::Untracked)]);
    assert!(planned.iter().all(|t| t.0 != SyncOp::Delete));
}

#[test]
fn changed_digest_updates_even_with_the_same_size() {
    let old = entry("app.exe", Some("old-digest"), Some(256));
    let state = synced(&[old]);
    let target = manifest(vec![entry("app.exe", Some("new-digest"), Some(256))]);
    let planned = plan_for(&target, &state, false, vec![true]);
    assert_eq!(planned, vec![(SyncOp::Update, "app.exe".to_owned(), Some(0), SyncReason::Changed)]);
}

#[test]
fn changed_algorithm_updates() {
    let mut old = entry("app.exe", None, None);
    old.sha1 = Some("same".to_owned());
    let state = synced(&[old]);
    let target = manifest(vec![entry("app.exe", Some("same"), None)]);
    let planned = plan_for(&target, &state, false, vec![true]);
    assert_eq!(planned[0].0, SyncOp::Update);
    assert_eq!(planned[0].3, SyncReason::Changed);
}

#[test]
fn size_tells_where_no_digest_is_trusted() {
    let state = synced(&[entry("a", None, Some(10))]);
    let same = manifest(vec![entry("a", None, Some(10))]);
    assert_eq!(plan_for(&same, &state, false, vec![true])[0].0, SyncOp::Skip);
    let grown = manifest(vec![entry("a", None, Some(11))]);
    assert_eq!(plan_for(&grown, &state, false, vec![true])[0].0, SyncOp::Update);
    let state = synced(&[entry("a", Some("old"), Some(10))]);
    let redigested = manifest(vec![entry("a", Some("new"), Some(10))]);
    assert_eq!(plan_for(&redigested, &state, true, vec![true])[0].0, SyncOp::Skip);
    assert_eq!(plan_for(&redigested, &state, false, vec![true])[0].0, SyncOp::Update);
}

#[test]
fn missing_file_is_created_whatever_is_on_record() {
    let target = manifest(vec![entry("a", Some("d"), None)]);
    let state = synced(&target.files);
    let planned = plan_for(&target, &state, false, vec![false]);
    assert_eq!(planned, vec![(SyncOp::Create, "a".to_owned(), Some(0), SyncReason::Missing)]);
}

#[test]
fn deletions_come_first_in_the_order_of_the_records() {
    let before = manifest(vec![
        entry("z", Some("1"), None),
        entry("m", Some("2"), None),
        entry("a", Some("3"), None),
        entry("k", Some("4"), None),
    ]);
    let state = synced(&before.files);
    let after = manifest(vec![
        entry("new", Some("5"), None),
        entry("m", Some("2"), None),
        entry("k", Some("changed"), None),
    ]);
    let planned = plan_for(&after, &state, false, vec![false, true, true]);
    assert_eq!(
        planned,
        vec![
            (SyncOp::Delete, "z".to_owned(), None, SyncReason::Removed),
            (SyncOp::Delete, "a".to_owned(), None, SyncReason::Removed),
            (SyncOp::Create, "new".to_owned(), Some(0), SyncReason::Missing),
            (SyncOp::Skip, "m".to_owned(), Some(1), SyncReason::Unchanged),
            (SyncOp::Update, "k".to_owned(), Some(2), SyncReason::Changed),
        ]
    );
}

#[test]
fn ignored_profiles_do_not_change_the_plan() {
    let mut target = manifest(vec![entry("hidden.exe", Some("h"), None)]);
    target.profiles.push(fortunata::manifest::manifest_spec::ManifestProfile {
        name: "Hidden".to_owned(),
        executable: "hidden.exe".to_owned(),
        order: None,
        params: None,
        icon: None,
        architecture: None,
    });
    let planned = plan_for(&target, &StateManifest::new(), false, vec![false]);
    assert_eq!(planned, vec![(SyncOp::Create, "hidden.exe".to_owned(), Some(0), SyncReason::Missing)]);
}

#[test]
fn own_directory_is_refused() {
    let target = manifest(vec![entry("a", Some("d"), None)]);
    let r = plan(
        &target,
        &StateManifest::new(),
        &config(false),
        "/srv/apps/game",
        "/srv/apps/game",
        &vec![false],
    );
    assert_eq!(r.err(), Some(PlanError::RootCollision));
}

#[test]
fn decide_one_file() {
    let file = entry("a", Some("d"), Some(3));
    let mut state = StateManifest::new();
    assert_eq!(decide(&file, false, &state, false), (SyncOp::Create, SyncReason::Missing));
    assert_eq!(decide(&file, true, &state, false), (SyncOp::Update, SyncReason::Untracked));
    state.record(StateRecord {
        path: "a".to_owned(),
        algorithm: Some(FileHashAlg::Sha256),
        digest: Some("d".to_owned()),
        size: Some(99),
    });
    assert_eq!(decide(&file, true, &state, false), (SyncOp::Skip, SyncReason::Unchanged));
    assert_eq!(decide(&file, true, &state, true), (SyncOp::Update, SyncReason::Changed));
    state.record(StateRecord {
        path: "a".to_owned(),
        algorithm: Some(FileHashAlg::Sha256),
        digest: Some("D".to_owned()),
        size: Some(3),
    });
    assert_eq!(decide(&file, true, &state, false), (SyncOp::Update, SyncReason::Changed));
    assert_eq!(decide(&file, true, &state, true), (SyncOp::Skip, SyncReason::Unchanged));
}

#[test]
fn listed_paths_are_found() {
    let files = vec![entry("a", None, None), entry("b/c", None, None)];
    assert!(is_listed(&files, &"a".to_owned()));
    assert!(is_listed(&files, &"b/c".to_owned()));
    assert!(!is_listed(&files, &"b".to_owned()));
    assert!(!is_listed(&vec![], &"a".to_owned()));
}

#[test]
fn repeated_paths_are_found() {
    assert_eq!(check_distinct_paths(&manifest(vec![])), Ok(()));
    assert_eq!(check_distinct_paths(&manifest(vec![entry("a", None, None)])), Ok(()));
    let distinct = manifest(vec![
        entry("a", None, None),
        entry("A", None, None),
        entry("a/b", None, None),
        entry("b", None, None),
    ]);
    assert_eq!(check_distinct_paths(&distinct), Ok(()));
    let repeated = manifest(vec![
        entry("a", Some("1"), None),
        entry("b", None, None),
        entry("a", Some("2"), None),
    ]);
    assert_eq!(check_distinct_paths(&repeated), Err(PlanError::RepeatedPath));
    let twins = manifest(vec![entry("x", None, None), entry("x", None, None)]);
    assert_eq!(check_distinct_paths(&twins), Err(PlanError::RepeatedPath));
}

#[test]
fn file_and_its_partial_twin_are_refused() {
    let clash = manifest(vec![entry("x", None, None), entry("y", None, None), entry("x.part", None, None)]);
    assert_eq!(check_distinct_paths(&clash), Err(PlanError::RepeatedPath));
    let clash = manifest(vec![entry("dir/x.part", None, None), entry("dir/x", None, None)]);
    assert_eq!(check_distinct_paths(&clash), Err(PlanError::RepeatedPath));
    let fine = manifest(vec![entry("x", None, None), entry("x.party", None, None), entry("y.part", None, None)]);
    assert_eq!(check_distinct_paths(&fine), Ok(()));
}

#[test]
fn paths_are_compared_as_they_are_joined() {
    let same = manifest(vec![entry("a\\b", None, None), entry("a/b", None, None)]);
    assert_eq!(check_distinct_paths(&same), Err(PlanError::RepeatedPath));
    let same = manifest(vec![entry("/a", None, None), entry("a", None, None)]);
    assert_eq!(check_distinct_paths(&same), Err(PlanError::RepeatedPath));
    let clash = manifest(vec![entry("\\a.part", None, None), entry("a", None, None)]);
    assert_eq!(check_distinct_paths(&clash), Err(PlanError::RepeatedPath));
}

#[test]
fn plans_for_distinct_paths_have_distinct_paths() {
    let before = manifest(vec![entry("a", Some("1"), None), entry("b", Some("2"), None)]);
    let state = synced(&before.files);
    let after = manifest(vec![entry("c", Some("3"), None), entry("b", Some("2"), None)]);
    let planned = plan_for(&after, &state, false, vec![false, true]);
    let mut seen: Vec<&String> = planned.iter().map(|t| &t.1).collect();
    seen.sort();
    seen.dedup();
    assert_eq!(seen.len(), planned.len());
}

#[test]
fn plan_begins_with_its_deletions() {
    let before = manifest(vec![
        entry("z", Some("1"), None),
        entry("m", Some("2"), None),
        entry("a", Some("3"), None),
    ]);
    let state = synced(&before.files);
    let after = manifest(vec![entry("m", Some("2"), None), entry("n", Some("4"), None)]);
    let planned =
        plan(&after, &state, &config(false), "/opt/updater", "/srv/apps/game", &vec![true, false])
            .unwrap();
    assert_eq!(planned.leading_deletions(), 2);
    assert!(planned.tasks[..2].iter().all(|t| t.op == SyncOp::Delete));
    assert!(planned.tasks[2..].iter().all(|t| t.op != SyncOp::Delete));
    let fresh =
        plan(&after, &StateManifest::new(), &config(false), "/opt/updater", "/srv/apps/game", &vec![])
            .unwrap();
    assert_eq!(fresh.leading_deletions(), 0);
    let emptied =
        plan(&manifest(vec![]), &state, &config(false), "/opt/updater", "/srv/apps/game", &vec![])
            .unwrap();
    assert_eq!(emptied.leading_deletions(), 3);
    assert_eq!(emptied.tasks.len(), 3);
}
