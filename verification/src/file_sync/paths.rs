//! The path resolver: from a path as a manifest writes it to the place on
//! disk that it names, kept inside the application's directory.

use super::super::manifest::manifest_spec::texts_of;
use super::PARTIAL_FILE_EXT;
use crate::text::{chars_of, forward_slashes, same_text, slashes_forward};
use vstd::prelude::*;
use vstd::string::StringExecFns;

verus! {

/// `path_abs::Error`: why a path could not be made absolute.
#[verifier::external_type_specification]
#[verifier::external_body]
pub struct ExPathAbsError(path_abs::Error);

/// Why a path of a manifest names no place to write to.
#[derive(Debug)]
pub enum PathError {
    /// The path leads out of the application's directory.
    UnsafePath,
    /// The path could not be made absolute.
    Resolution(path_abs::Error),
}

/// What separates the parts of a path as a manifest writes it.
pub const SEPARATOR: &'static str = "/";

/// The part of a path that names the directory it stands in.
pub const CURRENT_PART: &'static str = ".";

/// The part of a path that names the directory above.
pub const PARENT_PART: &'static str = "..";

/// Name of the file, in the application's directory, that keeps the state
/// manifest. It belongs to the updater: no manifest may put a file there.
pub const STATE_FILE_NAME: &'static str = ".fortunata-state.toml";

/// A place on disk: an absolute path, and the parts that the system reads
/// it in, from the root down.
#[derive(Debug, Clone)]
pub struct Place {
    /// The path, as it is handed to the system.
    pub path: String,
    /// The parts of the path, as the system tells them apart.
    pub parts: Vec<String>,
}

/// What a `Place` holds.
pub struct PlaceModel {
    pub path: Seq<char>,
    pub parts: Seq<Seq<char>>,
}

impl View for Place {
    type V = PlaceModel;

    open spec fn view(&self) -> PlaceModel {
        PlaceModel { path: self.path@, parts: texts_of(self.parts@) }
    }
}

/// Makes a path absolute with `path_abs::PathAbs::new`, and hands back the
/// path that comes of it together with its parts, as `Path::components` of
/// std yields them. What `path_abs` makes of a path depends on the current
/// directory and on the system, so nothing is claimed of the result: what is
/// made of it reads the parts and says what it accepts.
#[verifier::external_body]
fn absolute_path(path: &str) -> Result<Place, path_abs::Error> {
    let absolute = path_abs::PathAbs::new(path)?;
    Ok(
        Place {
            path: absolute.as_path().to_string_lossy().into_owned(),
            parts: absolute.as_path().components().map(
                |part| part.as_os_str().to_string_lossy().into_owned(),
            ).collect(),
        },
    )
}

/// `s` without the slashes it begins with.
pub open spec fn without_leading_slashes(s: Seq<char>) -> Seq<char>
    decreases s.len(),
{
    if s.len() > 0 && s[0] == '/' {
        without_leading_slashes(s.drop_first())
    } else {
        s
    }
}

/// The form in which a manifest's path is joined to a directory: its
/// backslashes turned forward, and no slash in front.
pub open spec fn normalized(relative: Seq<char>) -> Seq<char> {
    without_leading_slashes(slashes_forward(relative))
}

/// Normalizes a path of a manifest: backslashes become forward slashes, and
/// leading slashes go.
pub fn normalize_relative(relative: &str) -> (r: String)
    ensures
        r@ == normalized(relative@),
{
    let forward = forward_slashes(relative);
    let v = chars_of(forward.as_str());
    let mut k: usize = 0;
    assert(v@.skip(0) =~= v@);
    while k < v.len() && v[k] == '/'
        invariant
            k <= v@.len(),
            without_leading_slashes(v@) == without_leading_slashes(v@.skip(k as int)),
        decreases v@.len() - k,
    {
        assert(v@.skip(k as int).drop_first() =~= v@.skip(k + 1));
        k += 1;
    }
    let mut r = String::new();
    let mut i: usize = k;
    while i < v.len()
        invariant
            k <= i <= v@.len(),
            r@ == v@.subrange(k as int, i as int),
        decreases v@.len() - i,
    {
        r.push(v[i]);
        i += 1;
    }
    r
}

/// The parts of a path as a manifest writes it: what stands between its
/// slashes, in order. A path without a slash is one part.
pub open spec fn segments(path: Seq<char>) -> Seq<Seq<char>>
    decreases path.len(),
{
    if path.len() == 0 {
        seq![Seq::empty()]
    } else {
        let before = segments(path.drop_last());
        if path.last() == '/' {
            before.push(Seq::empty())
        } else {
            before.drop_last().push(before.last().push(path.last()))
        }
    }
}

/// A path has one part at least.
pub proof fn lemma_segments_exist(path: Seq<char>)
    ensures
        segments(path).len() >= 1,
    decreases path.len(),
{
    if path.len() > 0 {
        lemma_segments_exist(path.drop_last());
    }
}

/// Takes a path apart at its slashes.
pub fn split_path(path: &str) -> (r: Vec<String>)
    ensures
        texts_of(r@) == segments(path@),
{
    let v = chars_of(path);
    let mut done: Vec<String> = Vec::new();
    let mut part = String::new();
    let mut i: usize = 0;
    assert(v@.take(0) =~= Seq::<char>::empty());
    while i < v.len()
        invariant
            i <= v@.len(),
            v@ == path@,
            segments(v@.take(i as int)) == texts_of(done@).push(part@),
        decreases v@.len() - i,
    {
        assert(v@.take(i + 1).drop_last() =~= v@.take(i as int));
        let ghost before = texts_of(done@).push(part@);
        if v[i] == '/' {
            done.push(part);
            part = String::new();
            assert(texts_of(done@) =~= before);
        } else {
            part.push(v[i]);
            assert(texts_of(done@).push(part@) =~= before.drop_last().push(
                before.last().push(v@[i as int]),
            ));
        }
        i += 1;
    }
    assert(v@.take(v@.len() as int) =~= v@);
    let ghost before = texts_of(done@).push(part@);
    done.push(part);
    assert(texts_of(done@) =~= before);
    done
}

/// How far a part leads down: one step up for `..`, none for `.` and for
/// the empty part, one step down for any other.
pub open spec fn step_down(part: Seq<char>) -> int {
    if part == PARENT_PART@ {
        -1
    } else if part == CURRENT_PART@ || part.len() == 0 {
        0
    } else {
        1
    }
}

/// How far below their start the first `n` parts lead.
pub open spec fn depth_after(parts: Seq<Seq<char>>, n: int) -> int
    decreases n,
{
    if n <= 0 {
        0
    } else {
        depth_after(parts, n - 1) + step_down(parts[n - 1])
    }
}

/// Whether the first `n` parts lead above their start at some point.
pub open spec fn leaves_upto(parts: Seq<Seq<char>>, n: int) -> bool
    decreases n,
{
    n > 0 && (leaves_upto(parts, n - 1) || depth_after(parts, n) < 0)
}

/// Whether a normalized path leads out of the directory it is joined to,
/// by its parts alone: at some point it has gone up more often than down.
pub open spec fn leaves(relative: Seq<char>) -> bool {
    leaves_upto(segments(relative), segments(relative).len() as int)
}

/// Parts that have led above their start do so whatever follows.
pub proof fn lemma_left_for_good(parts: Seq<Seq<char>>, n: int, m: int)
    requires
        n <= m,
        leaves_upto(parts, n),
    ensures
        leaves_upto(parts, m),
    decreases m - n,
{
    if n < m {
        lemma_left_for_good(parts, n, m - 1);
    }
}

/// Tests whether a normalized path leads out of the directory it is joined to.
pub fn climbs_out(relative: &str) -> (r: bool)
    ensures
        r == leaves(relative@),
{
    let parts = split_path(relative);
    let ghost read = texts_of(parts@);
    let mut depth: usize = 0;
    let mut i: usize = 0;
    while i < parts.len()
        invariant
            i <= parts@.len(),
            read == texts_of(parts@),
            read == segments(relative@),
            depth == depth_after(read, i as int),
            depth <= i,
            !leaves_upto(read, i as int),
        decreases parts@.len() - i,
    {
        let part = parts[i].as_str();
        assert(read[i as int] == part@);
        if same_text(part, PARENT_PART) {
            if depth == 0 {
                proof {
                    assert(depth_after(read, i + 1) < 0);
                    assert(leaves_upto(read, i + 1));
                    lemma_left_for_good(read, i + 1, parts@.len() as int);
                }
                return true;
            }
            depth -= 1;
        } else if !same_text(part, CURRENT_PART) && !part.is_empty() {
            depth += 1;
        }
        i += 1;
    }
    false
}

/// A path without a slash is one part.
pub proof fn lemma_one_part(path: Seq<char>)
    requires
        forall|i: int| 0 <= i < path.len() ==> path[i] != '/',
    ensures
        segments(path) == seq![path],
    decreases path.len(),
{
    if path.len() > 0 {
        lemma_one_part(path.drop_last());
        assert(path.drop_last().push(path.last()) =~= path);
        assert(seq![path.drop_last()].drop_last().push(path) =~= seq![path]);
    } else {
        assert(Seq::<char>::empty() =~= path);
    }
}

/// The first part of a path is what stands before its first slash.
pub proof fn lemma_first_part(path: Seq<char>, k: int)
    requires
        0 <= k < path.len(),
        path[k] == '/',
        forall|i: int| 0 <= i < k ==> path[i] != '/',
    ensures
        segments(path).len() >= 2,
        segments(path)[0] == path.take(k),
    decreases path.len(),
{
    let before = path.drop_last();
    if k == path.len() - 1 {
        lemma_one_part(before);
        assert(before =~= path.take(k));
    } else {
        lemma_first_part(before, k);
        assert(before.take(k) =~= path.take(k));
    }
}

/// A path that begins with `../` (or `..\`), as a manifest writes it, leads
/// out of the directory it is joined to, whatever follows.
pub proof fn law_parent_first_leaves(path: Seq<char>)
    requires
        path.len() >= 3,
        path[0] == '.',
        path[1] == '.',
        path[2] == '/' || path[2] == '\\',
    ensures
        leaves(normalized(path)),
{
    reveal_strlit("..");
    let relative = normalized(path);
    assert(relative == slashes_forward(path));
    lemma_first_part(relative, 2);
    let parts = segments(relative);
    assert(parts[0] =~= PARENT_PART@);
    assert(depth_after(parts, 1) == depth_after(parts, 0) + step_down(parts[0]));
    assert(leaves_upto(parts, 1));
    lemma_left_for_good(parts, 1, parts.len() as int);
}

/// The path of `relative` under the directory `root`. One slash stands
/// between the two, the one that `root` ends in or one that is put there.
pub open spec fn joined(root: Seq<char>, relative: Seq<char>) -> Seq<char> {
    if root.len() > 0 && root.last() == '/' {
        root + relative
    } else {
        root + SEPARATOR@ + relative
    }
}

/// Joins a path to a directory.
pub fn join(root: &str, relative: &str) -> (r: String)
    ensures
        r@ == joined(root@, relative@),
{
    let v = chars_of(root);
    if v.len() > 0 && v[v.len() - 1] == '/' {
        String::from_str(root).concat(relative)
    } else {
        String::from_str(root).concat(SEPARATOR).concat(relative)
    }
}

/// Whether none of the parts names a directory by `.` or `..`: the place
/// lies where its parts read.
pub open spec fn is_plain(parts: Seq<Seq<char>>) -> bool {
    forall|i: int|
        0 <= i < parts.len() ==> (#[trigger] parts[i]) != CURRENT_PART@ && parts[i]
            != PARENT_PART@
}

/// Whether a place lies below a directory, part by part: its parts begin
/// with all the parts of `root`, and go on with at least one more.
pub open spec fn is_within(root: Seq<Seq<char>>, parts: Seq<Seq<char>>) -> bool {
    root.len() < parts.len() && parts.take(root.len() as int) == root
}

/// Whether a place is contained in a directory: it lies below it, and
/// where its parts read.
pub open spec fn is_contained(root: Seq<Seq<char>>, parts: Seq<Seq<char>>) -> bool {
    is_plain(parts) && is_within(root, parts)
}

/// Tests whether none of the parts is `.` or `..`.
pub fn plain(parts: &Vec<String>) -> (r: bool)
    ensures
        r == is_plain(texts_of(parts@)),
{
    let mut i: usize = 0;
    while i < parts.len()
        invariant
            i <= parts@.len(),
            forall|k: int|
                0 <= k < i ==> (#[trigger] texts_of(parts@)[k]) != CURRENT_PART@ && texts_of(
                    parts@,
                )[k] != PARENT_PART@,
        decreases parts@.len() - i,
    {
        assert(texts_of(parts@)[i as int] == parts@[i as int]@);
        if same_text(parts[i].as_str(), CURRENT_PART) || same_text(parts[i].as_str(), PARENT_PART) {
            return false;
        }
        i += 1;
    }
    true
}

/// Tests whether `parts` begin with the parts of `root`.
pub fn starts_with_parts(parts: &Vec<String>, root: &Vec<String>) -> (r: bool)
    ensures
        r == (root@.len() <= parts@.len() && texts_of(parts@).take(root@.len() as int)
            == texts_of(root@)),
{
    if root.len() > parts.len() {
        return false;
    }
    let mut i: usize = 0;
    while i < root.len()
        invariant
            i <= root@.len() <= parts@.len(),
            forall|k: int| 0 <= k < i ==> texts_of(parts@)[k] == texts_of(root@)[k],
        decreases root@.len() - i,
    {
        assert(texts_of(parts@)[i as int] == parts@[i as int]@);
        assert(texts_of(root@)[i as int] == root@[i as int]@);
        if parts[i] != root[i] {
            assert(texts_of(parts@).take(root@.len() as int)[i as int] != texts_of(root@)[i as int]);
            return false;
        }
        i += 1;
    }
    assert(texts_of(parts@).take(root@.len() as int) =~= texts_of(root@));
    true
}

/// Tests whether a place is contained in the directory `root`.
pub fn contained(root: &Place, place: &Place) -> (r: bool)
    ensures
        r == is_contained(root@.parts, place@.parts),
{
    root.parts.len() < place.parts.len() && starts_with_parts(&place.parts, &root.parts) && plain(
        &place.parts,
    )
}

/// What becomes of a path that was made absolute: the failure is handed on;
/// a place contained in `root` is accepted; any other place is accepted only
/// where unsafe file paths are allowed, and is an `UnsafePath` where they are
/// not.
pub open spec fn admitted(
    root: PlaceModel,
    resolved: Result<Place, path_abs::Error>,
    allow_unsafe: bool,
    r: Result<Place, PathError>,
) -> bool {
    match resolved {
        Err(e) => r matches Err(PathError::Resolution(f)) && f == e,
        Ok(place) => if allow_unsafe || is_contained(root.parts, place@.parts) {
            r matches Ok(p) && p@ == place@
        } else {
            r matches Err(PathError::UnsafePath)
        },
    }
}

/// Decides on a path that was made absolute: whether it may be written to.
pub fn admit_resolved(
    root: &Place,
    resolved: Result<Place, path_abs::Error>,
    allow_unsafe: bool,
) -> (r: Result<Place, PathError>)
    ensures
        admitted(root@, resolved, allow_unsafe, r),
{
    match resolved {
        Err(e) => Err(PathError::Resolution(e)),
        Ok(place) => {
            // Check path safety (inside app dir)
            if !allow_unsafe && !contained(root, &place) {
                Err(PathError::UnsafePath)
            } else {
                Ok(place)
            }
        },
    }
}

/// Joins the path of a file, as a manifest writes it, to the application's
/// directory: the normalized path, under `app_root`.
pub fn target_path(app_root: &str, relative: &str) -> (r: String)
    ensures
        r@ == joined(app_root@, normalized(relative@)),
{
    join(app_root, normalize_relative(relative).as_str())
}

/// Maps the path of a file, as a manifest writes it, to its place under the
/// application's directory `app_root`. Unless unsafe file paths are allowed,
/// a path that by its own parts leads out of the directory is refused at
/// once. Any other path is joined to `app_root`, made absolute, and then
/// admitted or not: the place that comes back is contained in `app_root`
/// unless unsafe file paths are allowed.
pub fn resolve(app_root: &Place, relative: &str, allow_unsafe: bool) -> (r: Result<Place, PathError>)
    ensures
        !allow_unsafe && leaves(normalized(relative@)) ==> r matches Err(PathError::UnsafePath),
        r matches Ok(place) ==> allow_unsafe || is_contained(app_root@.parts, place@.parts),
        r matches Err(PathError::UnsafePath) ==> !allow_unsafe,
{
    if !allow_unsafe && climbs_out(normalize_relative(relative).as_str()) {
        return Err(PathError::UnsafePath);
    }
    let target = target_path(app_root.path.as_str(), relative);
    admit_resolved(app_root, absolute_path(target.as_str()), allow_unsafe)
}

/// What becomes of a directory's path that was made absolute: the failure
/// is handed on; a place without parts, as the empty path is, and a place
/// that does not lie where its parts read, is no place to keep files in; any
/// other place is accepted.
pub open spec fn rooted(resolved: Result<Place, path_abs::Error>, r: Result<Place, PathError>) -> bool {
    match resolved {
        Err(e) => r matches Err(PathError::Resolution(f)) && f == e,
        Ok(root) => if root@.parts.len() > 0 && is_plain(root@.parts) {
            r matches Ok(p) && p@ == root@
        } else {
            r matches Err(PathError::UnsafePath)
        },
    }
}

/// Decides on a directory's path that was made absolute.
pub fn admit_root(resolved: Result<Place, path_abs::Error>) -> (r: Result<Place, PathError>)
    ensures
        rooted(resolved, r),
{
    match resolved {
        Err(e) => Err(PathError::Resolution(e)),
        Ok(root) => if root.parts.len() > 0 && plain(&root.parts) {
            Ok(root)
        } else {
            Err(PathError::UnsafePath)
        },
    }
}

/// Makes the path of a directory absolute: the application's directory, or
/// the updater's own. The place that comes back has parts, and none of them
/// is `.` or `..`.
pub fn resolve_root(path: &str) -> (r: Result<Place, PathError>)
    ensures
        r matches Ok(root) ==> root@.parts.len() > 0 && is_plain(root@.parts),
{
    admit_root(absolute_path(path))
}

/// The path of the state manifest under the application's directory.
pub fn state_file_path(app_root: &str) -> (r: String)
    ensures
        r@ == joined(app_root@, STATE_FILE_NAME@),
{
    join(app_root, STATE_FILE_NAME)
}

/// Whether a place is the updater's own: the state manifest directly under
/// `root`, or the file that the state manifest is written to before it takes
/// its place.
pub open spec fn is_reserved(root: Seq<Seq<char>>, parts: Seq<Seq<char>>) -> bool {
    parts == root.push(STATE_FILE_NAME@) || parts == root.push(
        STATE_FILE_NAME@ + PARTIAL_FILE_EXT@,
    )
}

/// Tests whether a place is the updater's own.
pub fn reserved(root: &Place, place: &Place) -> (r: bool)
    ensures
        r == is_reserved(root@.parts, place@.parts),
{
    let ghost above = root@.parts;
    let ghost parts = place@.parts;
    let ghost own = above.push(STATE_FILE_NAME@);
    let ghost twin = above.push(STATE_FILE_NAME@ + PARTIAL_FILE_EXT@);
    proof {
        assert(own.take(above.len() as int) =~= above);
        assert(twin.take(above.len() as int) =~= above);
        assert(own[above.len() as int] == STATE_FILE_NAME@);
        assert(twin[above.len() as int] == STATE_FILE_NAME@ + PARTIAL_FILE_EXT@);
    }
    if root.parts.len() >= place.parts.len() || place.parts.len() - root.parts.len() != 1 {
        return false;
    }
    if !starts_with_parts(&place.parts, &root.parts) {
        return false;
    }
    let last = &place.parts[root.parts.len()];
    assert(parts[above.len() as int] == last@);
    assert(parts =~= above.push(last@));
    let twin_name = String::from_str(STATE_FILE_NAME).concat(PARTIAL_FILE_EXT);
    same_text(last.as_str(), STATE_FILE_NAME) || same_text(last.as_str(), twin_name.as_str())
}

/// The directory that a path lies in: the path up to its last slash, the
/// slash included; empty where the path has no slash.
pub open spec fn directory_of(path: Seq<char>) -> Seq<char>
    decreases path.len(),
{
    if path.len() == 0 || path.last() == '/' {
        path
    } else {
        directory_of(path.drop_last())
    }
}

/// What is appended to a name without a slash in it does not change the
/// directory.
pub proof fn lemma_suffix_keeps_directory(path: Seq<char>, suffix: Seq<char>)
    requires
        forall|i: int| 0 <= i < suffix.len() ==> suffix[i] != '/',
    ensures
        directory_of(path + suffix) == directory_of(path),
    decreases suffix.len(),
{
    if suffix.len() > 0 {
        assert((path + suffix).drop_last() =~= path + suffix.drop_last());
        lemma_suffix_keeps_directory(path, suffix.drop_last());
    }
}

/// The parts of the file that a file is downloaded to: those of the file
/// itself, the last one with the partial-file extension.
pub open spec fn partial_parts(parts: Seq<Seq<char>>) -> Seq<Seq<char>> {
    if parts.len() == 0 {
        parts
    } else {
        parts.drop_last().push(parts.last() + PARTIAL_FILE_EXT@)
    }
}

/// The place that a file is downloaded to before it takes its place: the
/// file's own path with the partial-file extension, so that both lie in one
/// directory and the final rename stays on one file system.
pub fn resolve_partial(place: &Place) -> (r: Place)
    ensures
        r@.path == place@.path + PARTIAL_FILE_EXT@,
        r@.parts == partial_parts(place@.parts),
        directory_of(r@.path) == directory_of(place@.path),
{
    proof {
        reveal_strlit(".part");
        lemma_suffix_keeps_directory(place@.path, PARTIAL_FILE_EXT@);
    }
    let mut parts: Vec<String> = Vec::new();
    let mut i: usize = 0;
    while i < place.parts.len()
        invariant
            i <= place.parts@.len(),
            parts@.len() == i,
            forall|k: int|
                0 <= k < i ==> parts@[k]@ == #[trigger] partial_parts(texts_of(place.parts@))[k],
        decreases place.parts@.len() - i,
    {
        assert(texts_of(place.parts@)[i as int] == place.parts@[i as int]@);
        if i + 1 == place.parts.len() {
            parts.push(place.parts[i].clone().concat(PARTIAL_FILE_EXT));
        } else {
            parts.push(place.parts[i].clone());
        }
        i += 1;
    }
    assert(texts_of(parts@) =~= partial_parts(texts_of(place.parts@)));
    Place { path: place.path.clone().concat(PARTIAL_FILE_EXT), parts }
}

/// A partial file never leaves the application's directory: where a file's
/// place is contained in `root`, so is the place it is downloaded to.
pub proof fn law_partial_stays_within(root: Seq<Seq<char>>, parts: Seq<Seq<char>>)
    requires
        is_contained(root, parts),
    ensures
        is_contained(root, partial_parts(parts)),
{
    reveal_strlit(".part");
    reveal_strlit(".");
    reveal_strlit("..");
    let partial = partial_parts(parts);
    assert(partial.take(root.len() as int) =~= parts.take(root.len() as int));
    assert forall|i: int| 0 <= i < partial.len() implies (#[trigger] partial[i]) != CURRENT_PART@
        && partial[i] != PARENT_PART@ by {
        if i < partial.len() - 1 {
            assert(partial[i] == parts[i]);
        } else {
            assert(partial[i].len() >= 5);
        }
    }
}

/// What lies below a directory that lies below `root` lies below `root`.
pub proof fn law_within_is_transitive(
    root: Seq<Seq<char>>,
    middle: Seq<Seq<char>>,
    parts: Seq<Seq<char>>,
)
    requires
        is_within(root, middle),
        is_within(middle, parts),
    ensures
        is_within(root, parts),
{
    assert(parts.take(root.len() as int) =~= parts.take(middle.len() as int).take(
        root.len() as int,
    ));
}

} // verus!
