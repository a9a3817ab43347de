//! The canonical manifest model, shared by every manifest format.

use crate::text::same_text;
use vstd::prelude::*;

pub mod fort_1_0;
pub mod tq_xml;
pub mod vg_1_0;

verus! {

/// The mathematical value of an optional string.
pub open spec fn text_of(s: Option<String>) -> Option<Seq<char>> {
    match s {
        Some(t) => Some(t@),
        None => None,
    }
}

/// The mathematical value of a list of strings.
pub open spec fn texts_of(v: Seq<String>) -> Seq<Seq<char>> {
    Seq::new(v.len(), |i: int| v[i]@)
}

/// The mathematical value of an optional string slice.
pub open spec fn slice_text_of(s: Option<&str>) -> Option<Seq<char>> {
    match s {
        Some(t) => Some(t@),
        None => None,
    }
}

/// The mathematical value of a list of string slices.
pub open spec fn slice_texts_of(v: Seq<&str>) -> Seq<Seq<char>> {
    Seq::new(v.len(), |i: int| v[i]@)
}

/// Copies an optional string slice into an owned string.
pub fn owned_text(s: Option<&str>) -> (r: Option<String>)
    ensures
        text_of(r) == slice_text_of(s),
{
    match s {
        Some(t) => Some(t.to_owned()),
        None => None,
    }
}

/// Borrows an optional string as a slice.
pub fn borrowed_text<'a>(s: &'a Option<String>) -> (r: Option<&'a str>)
    ensures
        slice_text_of(r) == text_of(*s),
{
    match s {
        Some(t) => Some(t.as_str()),
        None => None,
    }
}

/// Copies a list of string slices into owned strings.
pub fn owned_texts(v: &Vec<&str>) -> (r: Vec<String>)
    ensures
        texts_of(r@) == slice_texts_of(v@),
{
    let mut r: Vec<String> = Vec::new();
    let mut i: usize = 0;
    while i < v.len()
        invariant
            i <= v@.len(),
            r@.len() == i,
            forall|j: int| 0 <= j < i ==> r@[j]@ == v@[j]@,
        decreases v@.len() - i,
    {
        r.push(v[i].to_owned());
        i += 1;
    }
    r
}

/// Borrows a list of strings as slices.
pub fn borrowed_texts<'a>(v: &'a Vec<String>) -> (r: Vec<&'a str>)
    ensures
        slice_texts_of(r@) == texts_of(v@),
{
    let mut r: Vec<&'a str> = Vec::new();
    let mut i: usize = 0;
    while i < v.len()
        invariant
            i <= v@.len(),
            r@.len() == i,
            forall|j: int| 0 <= j < i ==> r@[j]@ == v@[j]@,
        decreases v@.len() - i,
    {
        r.push(v[i].as_str());
        i += 1;
    }
    r
}

/// Digest algorithms a manifest may name, weakest first.
#[derive(Debug, Clone, Copy, PartialEq, Eq, Structural)]
pub enum FileHashAlg {
    Md5,
    Sha1,
    Sha256,
}

/// The name of a digest algorithm, as configuration and state files write it.
pub open spec fn alg_name(alg: FileHashAlg) -> Seq<char> {
    match alg {
        FileHashAlg::Md5 => "md5"@,
        FileHashAlg::Sha1 => "sha1"@,
        FileHashAlg::Sha256 => "sha256"@,
    }
}

/// The algorithm that a name stands for, if it is the name of one.
pub open spec fn alg_named(name: Seq<char>) -> Option<FileHashAlg> {
    if name == "sha256"@ {
        Some(FileHashAlg::Sha256)
    } else if name == "sha1"@ {
        Some(FileHashAlg::Sha1)
    } else if name == "md5"@ {
        Some(FileHashAlg::Md5)
    } else {
        None
    }
}

impl FileHashAlg {
    /// The name of this algorithm.
    pub fn name(&self) -> (r: &'static str)
        ensures
            r@ == alg_name(*self),
    {
        match self {
            FileHashAlg::Md5 => "md5",
            FileHashAlg::Sha1 => "sha1",
            FileHashAlg::Sha256 => "sha256",
        }
    }

    /// The algorithm of this name.
    pub fn from_name(name: &str) -> (r: Option<FileHashAlg>)
        ensures
            r == alg_named(name@),
    {
        if same_text(name, "sha256") {
            Some(FileHashAlg::Sha256)
        } else if same_text(name, "sha1") {
            Some(FileHashAlg::Sha1)
        } else if same_text(name, "md5") {
            Some(FileHashAlg::Md5)
        } else {
            None
        }
    }
}

/// Every algorithm is the one that its name stands for.
pub proof fn law_algorithms_are_named(alg: FileHashAlg)
    ensures
        alg_named(alg_name(alg)) == Some(alg),
{
    reveal_strlit("md5");
    reveal_strlit("sha1");
    reveal_strlit("sha256");
    assert("md5"@.len() == 3 && "sha1"@.len() == 4 && "sha256"@.len() == 6);
}

/// Defines a Manifest.
/// This type is a superset of all versioned manifest types, and owns the data
/// read through them.
#[derive(Debug, Clone)]
pub struct Manifest {
    /// Version identifier (ie, fort-1.0).
    /// Tequila does not specify a version attribute, so `tq-xml` is used for all Tequila XML manifests.
    pub version: String,
    /// Global application name for the manifest.
    pub label: String,
    /// URL of the webpage for the application.
    pub webpage: Option<String>,
    /// URL of the forums for the application.
    pub forums: Option<String>,
    /// Discord invite link for the application's Discord community.
    pub discord: Option<String>,
    /// URL for an RSS news feed for the application.
    pub rss: Option<String>,
    /// URL of a banner image to display on GUI launchers.
    pub poster_image: Option<String>,
    /// List of executable profiles.
    pub profiles: Vec<ManifestProfile>,
    /// List of files to patch.
    pub files: Vec<ManifestFile>,
}

/// Defines a launchable application profile.
#[derive(Debug, Clone)]
pub struct ManifestProfile {
    /// Profile name.
    pub name: String,
    /// Executable file.
    pub executable: String,
    /// Sort order of the profile for UI.
    pub order: Option<u8>,
    /// Application params for launch.
    pub params: Option<String>,
    /// Application icon URL.
    pub icon: Option<String>,
    /// Application architecture.
    pub architecture: Option<String>,
}

/// Defines a patchable file. MD5, SHA1, or SHA256 is required for secure patching.
#[derive(Debug, Clone)]
pub struct ManifestFile {
    /// Filepath of the file on disk, relative to app dir.
    pub path: String,
    /// URL(s) to retrieve the file from, in order of preference.
    pub mirrors: Vec<String>,
    /// Size in bytes of the file.
    pub size: Option<u64>,
    /// MD5 hash of the file.
    pub md5: Option<String>,
    /// SHA1 hash of the file.
    pub sha1: Option<String>,
    /// SHA256 hash of the file.
    pub sha256: Option<String>,
}

/// What a `ManifestProfile` holds.
pub struct ProfileModel {
    pub name: Seq<char>,
    pub executable: Seq<char>,
    pub order: Option<u8>,
    pub params: Option<Seq<char>>,
    pub icon: Option<Seq<char>>,
    pub architecture: Option<Seq<char>>,
}

/// What a `ManifestFile` holds.
pub struct FileModel {
    pub path: Seq<char>,
    pub mirrors: Seq<Seq<char>>,
    pub size: Option<u64>,
    pub md5: Option<Seq<char>>,
    pub sha1: Option<Seq<char>>,
    pub sha256: Option<Seq<char>>,
}

/// What a `Manifest` holds.
pub struct ManifestModel {
    pub version: Seq<char>,
    pub label: Seq<char>,
    pub webpage: Option<Seq<char>>,
    pub forums: Option<Seq<char>>,
    pub discord: Option<Seq<char>>,
    pub rss: Option<Seq<char>>,
    pub poster_image: Option<Seq<char>>,
    pub profiles: Seq<ProfileModel>,
    pub files: Seq<FileModel>,
}

impl View for ManifestProfile {
    type V = ProfileModel;

    open spec fn view(&self) -> ProfileModel {
        ProfileModel {
            name: self.name@,
            executable: self.executable@,
            order: self.order,
            params: text_of(self.params),
            icon: text_of(self.icon),
            architecture: text_of(self.architecture),
        }
    }
}

impl View for ManifestFile {
    type V = FileModel;

    open spec fn view(&self) -> FileModel {
        FileModel {
            path: self.path@,
            mirrors: texts_of(self.mirrors@),
            size: self.size,
            md5: text_of(self.md5),
            sha1: text_of(self.sha1),
            sha256: text_of(self.sha256),
        }
    }
}

/// The models of a list of profiles.
pub open spec fn profiles_of(v: Seq<ManifestProfile>) -> Seq<ProfileModel> {
    Seq::new(v.len(), |i: int| v[i]@)
}

/// The models of a list of files.
pub open spec fn files_of(v: Seq<ManifestFile>) -> Seq<FileModel> {
    Seq::new(v.len(), |i: int| v[i]@)
}

impl View for Manifest {
    type V = ManifestModel;

    open spec fn view(&self) -> ManifestModel {
        ManifestModel {
            version: self.version@,
            label: self.label@,
            webpage: text_of(self.webpage),
            forums: text_of(self.forums),
            discord: text_of(self.discord),
            rss: text_of(self.rss),
            poster_image: text_of(self.poster_image),
            profiles: profiles_of(self.profiles@),
            files: files_of(self.files@),
        }
    }
}

} // verus!
