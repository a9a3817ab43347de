//! The Vanguard TOML 1.0 (`vg-1.0`) manifest format, the predecessor of
//! `fort-1.0`: a file lists its sources under `url`, and a profile has no icon.

use super::{borrowed_text, borrowed_texts, owned_text, owned_texts};
use super::{files_of, profiles_of, slice_text_of, slice_texts_of};
use super::{FileModel, Manifest, ManifestFile, ManifestModel, ManifestProfile, ProfileModel};
use vstd::prelude::*;

verus! {


/// Manifest version `vg-1.0` (Vanguard TOML 1.0)
#[derive(Debug)]
#[allow(non_camel_case_types)]
pub struct Manifest_VG_1_0<'a> {
    /// Version identifier (ie, vg-1.0).
    pub version: &'a str,
    /// Global application name for the manifest.
    pub label: &'a str,
    /// URL of the webpage for the application.
    pub webpage: Option<&'a str>,
    /// URL of the forums for the application.
    pub forums: Option<&'a str>,
    /// Discord invite link for the application's Discord community.
    pub discord: Option<&'a str>,
    /// URL for an RSS news feed for the application.
    pub rss: Option<&'a str>,
    /// URL of a banner image to display on GUI launchers.
    pub poster_image: Option<&'a str>,
    /// List of executable profiles.
    pub profiles: Vec<MF_Profile_VG_1_0<'a>>,
    /// List of files to patch.
    pub files: Vec<MF_File_VG_1_0<'a>>,
}

/// Defines a launchable application profile.
#[derive(Debug)]
#[allow(non_camel_case_types)]
pub struct MF_Profile_VG_1_0<'a> {
    /// Profile name.
    pub name: &'a str,
    /// Executable file.
    pub executable: &'a str,
    /// Sort order of the profile for UI.
    pub order: Option<u8>,
    /// Application params for launch.
    pub params: Option<&'a str>,
    /// Application architecture. Assumed to be x64 if missing.
    pub architecture: Option<&'a str>,
}

/// Defines a patchable file. MD5, SHA1, or sha256 is required for secure patching.
#[derive(Debug)]
#[allow(non_camel_case_types)]
pub struct MF_File_VG_1_0<'a> {
    /// Filepath of the file on disk, relative to app dir.
    pub path: &'a str,
    /// URL(s) to retrieve the file from.
    pub url: Vec<&'a str>,
    /// Size in bytes of the file.
    pub size: Option<u64>,
    /// MD5 hash of the file.
    pub md5: Option<&'a str>,
    /// SHA1 hash of the file.
    pub sha1: Option<&'a str>,
    /// sha256 hash of the file.
    pub sha256: Option<&'a str>,
}

impl<'a> View for MF_Profile_VG_1_0<'a> {
    type V = ProfileModel;

    open spec fn view(&self) -> ProfileModel {
        ProfileModel {
            name: self.name@,
            executable: self.executable@,
            order: self.order,
            params: slice_text_of(self.params),
            icon: None,
            architecture: slice_text_of(self.architecture),
        }
    }
}

impl<'a> View for MF_File_VG_1_0<'a> {
    type V = FileModel;

    open spec fn view(&self) -> FileModel {
        FileModel {
            path: self.path@,
            mirrors: slice_texts_of(self.url@),
            size: self.size,
            md5: slice_text_of(self.md5),
            sha1: slice_text_of(self.sha1),
            sha256: slice_text_of(self.sha256),
        }
    }
}

/// The models of a list of wire profiles.
pub open spec fn wire_profiles_of(v: Seq<MF_Profile_VG_1_0<'_>>) -> Seq<ProfileModel> {
    Seq::new(v.len(), |i: int| v[i]@)
}

/// The models of a list of wire files.
pub open spec fn wire_files_of(v: Seq<MF_File_VG_1_0<'_>>) -> Seq<FileModel> {
    Seq::new(v.len(), |i: int| v[i]@)
}

impl<'a> View for Manifest_VG_1_0<'a> {
    type V = ManifestModel;

    open spec fn view(&self) -> ManifestModel {
        ManifestModel {
            version: self.version@,
            label: self.label@,
            webpage: slice_text_of(self.webpage),
            forums: slice_text_of(self.forums),
            discord: slice_text_of(self.discord),
            rss: slice_text_of(self.rss),
            poster_image: slice_text_of(self.poster_image),
            profiles: wire_profiles_of(self.profiles@),
            files: wire_files_of(self.files@),
        }
    }
}

/// The model profile that a wire profile describes.
pub fn profile_from_wire(item: &MF_Profile_VG_1_0<'_>) -> (r: ManifestProfile)
    ensures
        r@ == item@,
{
    ManifestProfile {
        name: item.name.to_owned(),
        executable: item.executable.to_owned(),
        order: item.order,
        params: owned_text(item.params),
        icon: None,
        architecture: owned_text(item.architecture),
    }
}

/// The model file that a wire file describes.
pub fn file_from_wire(item: &MF_File_VG_1_0<'_>) -> (r: ManifestFile)
    ensures
        r@ == item@,
{
    ManifestFile {
        path: item.path.to_owned(),
        mirrors: owned_texts(&item.url),
        size: item.size,
        md5: owned_text(item.md5),
        sha1: owned_text(item.sha1),
        sha256: owned_text(item.sha256),
    }
}

/// A profile without its icon, which `vg-1.0` cannot carry.
pub open spec fn without_icon(p: ProfileModel) -> ProfileModel {
    ProfileModel { icon: None, ..p }
}

/// A manifest whose profiles have lost their icons.
pub open spec fn without_icons(m: ManifestModel) -> ManifestModel {
    ManifestModel { profiles: Seq::new(m.profiles.len(), |i: int| without_icon(m.profiles[i])), ..m }
}

/// The wire profile that borrows from a model profile; the icon is dropped.
pub fn profile_to_wire<'a>(item: &'a ManifestProfile) -> (r: MF_Profile_VG_1_0<'a>)
    ensures
        r@ == without_icon(item@),
{
    MF_Profile_VG_1_0 {
        name: item.name.as_str(),
        executable: item.executable.as_str(),
        order: item.order,
        params: borrowed_text(&item.params),
        architecture: borrowed_text(&item.architecture),
    }
}

/// The wire file that borrows from a model file.
pub fn file_to_wire<'a>(item: &'a ManifestFile) -> (r: MF_File_VG_1_0<'a>)
    ensures
        r@ == item@,
{
    MF_File_VG_1_0 {
        path: item.path.as_str(),
        url: borrowed_texts(&item.mirrors),
        size: item.size,
        md5: borrowed_text(&item.md5),
        sha1: borrowed_text(&item.sha1),
        sha256: borrowed_text(&item.sha256),
    }
}

impl<'a> vstd::std_specs::convert::FromSpecImpl<MF_Profile_VG_1_0<'a>> for ManifestProfile {
    open spec fn obeys_from_spec() -> bool {
        false
    }

    open spec fn from_spec(item: MF_Profile_VG_1_0<'a>) -> Self {
        arbitrary()
    }
}

impl<'a> std::convert::From<MF_Profile_VG_1_0<'a>> for ManifestProfile {
    /// Implementation of wire profile -> `ManifestProfile` conversion
    fn from(item: MF_Profile_VG_1_0<'a>) -> (r: Self)
        ensures
            r@ == item@,
    {
        profile_from_wire(&item)
    }
}

impl<'a> vstd::std_specs::convert::FromSpecImpl<MF_File_VG_1_0<'a>> for ManifestFile {
    open spec fn obeys_from_spec() -> bool {
        false
    }

    open spec fn from_spec(item: MF_File_VG_1_0<'a>) -> Self {
        arbitrary()
    }
}

impl<'a> std::convert::From<MF_File_VG_1_0<'a>> for ManifestFile {
    /// Implementation of wire file -> `ManifestFile` conversion
    fn from(item: MF_File_VG_1_0<'a>) -> (r: Self)
        ensures
            r@ == item@,
    {
        file_from_wire(&item)
    }
}

impl<'a> vstd::std_specs::convert::FromSpecImpl<Manifest_VG_1_0<'a>> for Manifest {
    open spec fn obeys_from_spec() -> bool {
        false
    }

    open spec fn from_spec(item: Manifest_VG_1_0<'a>) -> Self {
        arbitrary()
    }
}

impl<'a> std::convert::From<Manifest_VG_1_0<'a>> for Manifest {
    /// Implementation of wire manifest -> `Manifest` conversion: every field
    /// is carried over, profiles and files in their order.
    fn from(item: Manifest_VG_1_0<'a>) -> (r: Self)
        ensures
            r@ == item@,
    {
        let mut profiles: Vec<ManifestProfile> = Vec::new();
        let mut i: usize = 0;
        while i < item.profiles.len()
            invariant
                i <= item.profiles@.len(),
                profiles@.len() == i,
                forall|j: int| 0 <= j < i ==> profiles@[j]@ == item.profiles@[j]@,
            decreases item.profiles@.len() - i,
        {
            profiles.push(profile_from_wire(&item.profiles[i]));
            i += 1;
        }
        let mut files: Vec<ManifestFile> = Vec::new();
        let mut k: usize = 0;
        while k < item.files.len()
            invariant
                k <= item.files@.len(),
                files@.len() == k,
                forall|j: int| 0 <= j < k ==> files@[j]@ == item.files@[j]@,
            decreases item.files@.len() - k,
        {
            files.push(file_from_wire(&item.files[k]));
            k += 1;
        }
        assert(profiles_of(profiles@) =~= wire_profiles_of(item.profiles@));
        assert(files_of(files@) =~= wire_files_of(item.files@));
        Manifest {
            version: item.version.to_owned(),
            label: item.label.to_owned(),
            profiles,
            files,
            webpage: owned_text(item.webpage),
            forums: owned_text(item.forums),
            poster_image: owned_text(item.poster_image),
            discord: owned_text(item.discord),
            rss: owned_text(item.rss),
        }
    }
}

impl<'a> vstd::std_specs::convert::FromSpecImpl<&'a Manifest> for Manifest_VG_1_0<'a> {
    open spec fn obeys_from_spec() -> bool {
        false
    }

    open spec fn from_spec(item: &'a Manifest) -> Self {
        arbitrary()
    }
}

impl<'a> std::convert::From<&'a Manifest> for Manifest_VG_1_0<'a> {
    /// Implementation of `&Manifest` -> wire manifest conversion: every field
    /// but the profiles' icons is borrowed, profiles and files in their order.
    fn from(item: &'a Manifest) -> (r: Self)
        ensures
            r@ == without_icons(item@),
    {
        let mut profiles: Vec<MF_Profile_VG_1_0<'a>> = Vec::new();
        let mut i: usize = 0;
        while i < item.profiles.len()
            invariant
                i <= item.profiles@.len(),
                profiles@.len() == i,
                forall|j: int| 0 <= j < i ==> profiles@[j]@ == without_icon(item.profiles@[j]@),
            decreases item.profiles@.len() - i,
        {
            profiles.push(profile_to_wire(&item.profiles[i]));
            i += 1;
        }
        let mut files: Vec<MF_File_VG_1_0<'a>> = Vec::new();
        let mut k: usize = 0;
        while k < item.files.len()
            invariant
                k <= item.files@.len(),
                files@.len() == k,
                forall|j: int| 0 <= j < k ==> files@[j]@ == item.files@[j]@,
            decreases item.files@.len() - k,
        {
            files.push(file_to_wire(&item.files[k]));
            k += 1;
        }
        assert(wire_profiles_of(profiles@) =~= without_icons(item@).profiles);
        assert(wire_files_of(files@) =~= files_of(item.files@));
        Manifest_VG_1_0 {
            version: item.version.as_str(),
            label: item.label.as_str(),
            profiles,
            files,
            webpage: borrowed_text(&item.webpage),
            forums: borrowed_text(&item.forums),
            poster_image: borrowed_text(&item.poster_image),
            discord: borrowed_text(&item.discord),
            rss: borrowed_text(&item.rss),
        }
    }
}

} // verus!
