use fortunata::file_sync::paths::{
    admit_resolved, admit_root, climbs_out, contained, join, normalize_relative, plain, reserved,
    resolve, resolve_partial, resolve_root, split_path, starts_with_parts, state_file_path,
    target_path, PathError, Place,
};

fn place(path: &str, parts: &[&str]) -> Place {
    Place { path: path.to_owned(), parts: parts.iter().map(|p| p.to_string()).collect() }
}

fn game() -> Place {
    resolve_root("/srv/apps/game").unwrap()
}

#[test]
fn relative_paths_are_normalized() {
    assert_eq!(normalize_relative("data\\maps\\a.pak"), "data/maps/a.pak");
    assert_eq!(normalize_relative("/etc/passwd"), "etc/passwd");
    assert_eq!(normalize_relative("\\\\server\\share"), "server/share");
    assert_eq!(normalize_relative("///a//b"), "a//b");
    assert_eq!(normalize_relative("a.txt"), "a.txt");
    assert_eq!(normalize_relative(""), "");
    assert_eq!(normalize_relative("/"), "");
}

#[test]
fn paths_are_taken_apart_at_their_slashes() {
    assert_eq!(split_path("a/b/c.txt"), vec!["a", "b", "c.txt"]);
    assert_eq!(split_path("a"), vec!["a"]);
    assert_eq!(split_path(""), vec![""]);
    assert_eq!(split_path("/"), vec!["", ""]);
    assert_eq!(split_path("a//b/"), vec!["a", "", "b", ""]);
    assert_eq!(split_path("../../evil.exe"), vec!["..", "..", "evil.exe"]);
    assert_eq!(split_path("a\\b"), vec!["a\\b"]);
}

#[test]
fn paths_that_lead_out_are_told_by_their_parts() {
    assert!(climbs_out("../../evil.exe"));
    assert!(climbs_out(".."));
    assert!(climbs_out("a/../.."));
    assert!(climbs_out("a/../../b/c/d"));
    assert!(climbs_out("./../x"));
    assert!(climbs_out("a//../../x"));
    assert!(!climbs_out(""));
    assert!(!climbs_out("a.txt"));
    assert!(!climbs_out("a/.."));
    assert!(!climbs_out("a/b/../../c"));
    assert!(!climbs_out("a/./b"));
    assert!(!climbs_out("..."));
    assert!(!climbs_out("..a/b"));
    assert!(!climbs_out("a/..b"));
}

#[test]
fn paths_are_joined_with_one_slash() {
    assert_eq!(join("/srv/app", "a.txt"), "/srv/app/a.txt");
    assert_eq!(join("/srv/app/", "a.txt"), "/srv/app/a.txt");
    assert_eq!(join("/", "a.txt"), "/a.txt");
    assert_eq!(join("", "a.txt"), "/a.txt");
    assert_eq!(join("/srv/app", ""), "/srv/app/");
}

#[test]
fn target_is_the_normalized_path_under_the_root() {
    assert_eq!(target_path("/srv/app", "a\\b.txt"), "/srv/app/a/b.txt");
    assert_eq!(target_path("/srv/app", "/b.txt"), "/srv/app/b.txt");
    assert_eq!(target_path("/srv/app", "../x"), "/srv/app/../x");
    assert_eq!(target_path("/", "x"), "/x");
}

#[test]
fn roots_are_made_absolute() {
    let root = resolve_root("/srv/apps/./game/../game").unwrap();
    assert_eq!(root.path, "/srv/apps/game");
    assert_eq!(root.parts, vec!["/", "srv", "apps", "game"]);
    let disk = resolve_root("/").unwrap();
    assert_eq!(disk.path, "/");
    assert_eq!(disk.parts, vec!["/"]);
    assert!(matches!(resolve_root("/.."), Err(PathError::Resolution(_))));
}

#[test]
fn path_that_names_nothing_is_no_root() {
    assert!(matches!(resolve_root(""), Err(PathError::UnsafePath)));
    assert!(matches!(admit_root(Ok(place("", &[]))), Err(PathError::UnsafePath)));
    assert!(matches!(
        admit_root(Ok(place("/srv/../app", &["/", "srv", "..", "app"]))),
        Err(PathError::UnsafePath)
    ));
    assert!(matches!(
        admit_root(Ok(place("/srv/./app", &["/", "srv", ".", "app"]))),
        Err(PathError::UnsafePath)
    ));
    assert_eq!(admit_root(Ok(place("/srv/app", &["/", "srv", "app"]))).unwrap().path, "/srv/app");
    assert_eq!(admit_root(Ok(place("/", &["/"]))).unwrap().parts, vec!["/"]);
    let failure = path_abs::PathAbs::new("/../x").unwrap_err();
    assert!(matches!(admit_root(Err(failure)), Err(PathError::Resolution(_))));
}

#[test]
fn containment_goes_by_whole_parts() {
    let root = place("/srv/app", &["/", "srv", "app"]);
    assert!(contained(&root, &place("/srv/app/a.txt", &["/", "srv", "app", "a.txt"])));
    assert!(contained(&root, &place("/srv/app/a/b", &["/", "srv", "app", "a", "b"])));
    assert!(!contained(&root, &place("/srv/app", &["/", "srv", "app"])));
    assert!(!contained(&root, &place("/srv/application/a", &["/", "srv", "application", "a"])));
    assert!(!contained(&root, &place("/srv/a.txt", &["/", "srv", "a.txt"])));
    assert!(!contained(&root, &place("/srv", &["/", "srv"])));
    assert!(!contained(&root, &place("/evil.exe", &["/", "evil.exe"])));
    assert!(!contained(&root, &place("", &[])));
    assert!(!contained(&root, &place("/srv/app/../x", &["/", "srv", "app", "..", "x"])));
    assert!(!contained(&root, &place("/srv/app/./x", &["/", "srv", "app", ".", "x"])));
    assert!(contained(&root, &place("/srv/app/..x", &["/", "srv", "app", "..x"])));
    let disk = place("/", &["/"]);
    assert!(contained(&disk, &place("/a", &["/", "a"])));
    assert!(!contained(&disk, &place("/", &["/"])));
}

#[test]
fn one_part_that_holds_slashes_and_dots_is_not_read_as_many() {
    let root = place("\\\\?\\C:\\app", &["\\\\?\\C:", "\\", "app"]);
    let odd = place("\\\\?\\C:\\app/../../evil.exe", &["\\\\?\\C:", "\\", "app/../../evil.exe"]);
    assert!(!contained(&root, &odd));
    assert!(matches!(admit_resolved(&root, Ok(odd), false), Err(PathError::UnsafePath)));
}

#[test]
fn parts_are_compared_and_read() {
    let parts = |p: &[&str]| -> Vec<String> { p.iter().map(|s| s.to_string()).collect() };
    assert!(plain(&parts(&["/", "a", "b.txt"])));
    assert!(plain(&parts(&[])));
    assert!(plain(&parts(&["...", ".a", "a."])));
    assert!(!plain(&parts(&["/", ".", "a"])));
    assert!(!plain(&parts(&["/", "a", ".."])));
    assert!(starts_with_parts(&parts(&["/", "a", "b"]), &parts(&["/", "a"])));
    assert!(starts_with_parts(&parts(&["/", "a"]), &parts(&["/", "a"])));
    assert!(starts_with_parts(&parts(&["/", "a"]), &parts(&[])));
    assert!(!starts_with_parts(&parts(&["/", "a"]), &parts(&["/", "a", "b"])));
    assert!(!starts_with_parts(&parts(&["/", "ab", "c"]), &parts(&["/", "a"])));
}

#[test]
fn safe_paths_resolve_below_the_root() {
    let root = game();
    let a = resolve(&root, "a.txt", false).unwrap();
    assert_eq!(a.path, "/srv/apps/game/a.txt");
    assert_eq!(a.parts, vec!["/", "srv", "apps", "game", "a.txt"]);
    assert_eq!(
        resolve(&root, "data\\maps\\..\\a.pak", false).unwrap().path,
        "/srv/apps/game/data/a.pak"
    );
    assert_eq!(resolve(&root, "./x/./y", false).unwrap().path, "/srv/apps/game/x/y");
    assert_eq!(resolve(&root, "/abs/file", false).unwrap().path, "/srv/apps/game/abs/file");
    assert_eq!(resolve(&resolve_root("/").unwrap(), "x", false).unwrap().path, "/x");
}

#[test]
fn escaping_paths_are_unsafe() {
    let root = game();
    assert!(matches!(resolve(&root, "../../evil.exe", false), Err(PathError::UnsafePath)));
    assert!(matches!(resolve(&root, "..\\..\\evil.exe", false), Err(PathError::UnsafePath)));
    assert!(matches!(resolve(&root, "/../../evil.exe", false), Err(PathError::UnsafePath)));
    assert!(matches!(resolve(&root, "../game2/a", false), Err(PathError::UnsafePath)));
    assert!(matches!(resolve(&root, "../game/a", false), Err(PathError::UnsafePath)));
    assert!(matches!(resolve(&root, "a/../..", false), Err(PathError::UnsafePath)));
    assert!(matches!(resolve(&root, "", false), Err(PathError::UnsafePath)));
    assert!(matches!(resolve(&root, ".", false), Err(PathError::UnsafePath)));
    assert!(matches!(resolve(&root, "a/..", false), Err(PathError::UnsafePath)));
}

#[test]
fn escaping_paths_pass_where_allowed() {
    assert_eq!(resolve(&game(), "../../evil.exe", true).unwrap().path, "/srv/evil.exe");
}

#[test]
fn climbing_above_the_root_of_the_disk_is_unsafe() {
    let srv = resolve_root("/srv").unwrap();
    assert!(matches!(resolve(&srv, "../../../x", false), Err(PathError::UnsafePath)));
    assert!(matches!(resolve(&srv, "../../../x", true), Err(PathError::Resolution(_))));
}

#[test]
fn resolved_paths_are_admitted_by_where_they_lie() {
    let root = place("/srv/app", &["/", "srv", "app"]);
    let inside = place("/srv/app/a", &["/", "srv", "app", "a"]);
    let outside = place("/srv/other/a", &["/", "srv", "other", "a"]);
    assert_eq!(admit_resolved(&root, Ok(inside), false).unwrap().path, "/srv/app/a");
    assert!(matches!(
        admit_resolved(&root, Ok(outside.clone()), false),
        Err(PathError::UnsafePath)
    ));
    let passed = admit_resolved(&root, Ok(outside), true).unwrap();
    assert_eq!(passed.path, "/srv/other/a");
    assert_eq!(passed.parts, vec!["/", "srv", "other", "a"]);
    let failure = path_abs::PathAbs::new("/../x").unwrap_err();
    assert!(matches!(admit_resolved(&root, Err(failure), true), Err(PathError::Resolution(_))));
}

#[test]
fn resolved_places_have_plain_parts() {
    for path in ["a/./b/../c", "./x", "a/b/c/../../..//d/.", "game\\.\\y"] {
        let resolved = resolve(&game(), path, true).unwrap();
        assert!(plain(&resolved.parts), "{:?}", resolved);
    }
    assert_eq!(resolve(&game(), "a/b/c/../../..//d/.", true).unwrap().path, "/srv/apps/game/d");
}

#[test]
fn partial_file_lies_beside_the_file() {
    let file = place("/srv/app/a.txt", &["/", "srv", "app", "a.txt"]);
    let partial = resolve_partial(&file);
    assert_eq!(partial.path, "/srv/app/a.txt.part");
    assert_eq!(partial.parts, vec!["/", "srv", "app", "a.txt.part"]);
    let deep = resolve_partial(&place("/srv/app/dir/b", &["/", "srv", "app", "dir", "b"]));
    assert_eq!(deep.path, "/srv/app/dir/b.part");
    assert_eq!(deep.parts, vec!["/", "srv", "app", "dir", "b.part"]);
    let none = resolve_partial(&place("", &[]));
    assert_eq!(none.path, ".part");
    assert!(none.parts.is_empty());
}

#[test]
fn state_manifest_has_its_place() {
    assert_eq!(state_file_path("/srv/apps/game"), "/srv/apps/game/.fortunata-state.toml");
    assert_eq!(state_file_path("/"), "/.fortunata-state.toml");
    let root = game();
    assert!(reserved(&root, &resolve(&root, ".fortunata-state.toml", false).unwrap()));
    assert!(reserved(&root, &resolve(&root, ".fortunata-state.toml.part", false).unwrap()));
    assert!(reserved(&root, &resolve(&root, "x/../.fortunata-state.toml", false).unwrap()));
    assert!(!reserved(&root, &resolve(&root, "x/.fortunata-state.toml", false).unwrap()));
    assert!(!reserved(&root, &resolve(&root, ".fortunata-state.toml2", false).unwrap()));
    assert!(!reserved(&root, &root));
    let disk = resolve_root("/").unwrap();
    assert!(reserved(&disk, &resolve(&disk, ".fortunata-state.toml", false).unwrap()));
    assert!(!reserved(&disk, &resolve(&disk, "etc/.fortunata-state.toml", false).unwrap()));
}
