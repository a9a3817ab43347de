use fortunata::manifest::manifest_spec::vg_1_0::{
    MF_File_VG_1_0, MF_Profile_VG_1_0, Manifest_VG_1_0,
};
use fortunata::manifest::manifest_spec::{Manifest, ManifestFile, ManifestProfile};

#[test]
fn vg_manifest_becomes_model() {
    let wire = Manifest_VG_1_0 {
        version: "vg-1.0",
        label: "Old Manifest",
        webpage: None,
        forums: Some("https://example.forums"),
        discord: None,
        rss: None,
        poster_image: None,
        profiles: vec![MF_Profile_VG_1_0 {
            name: "App",
            executable: "app.exe",
            order: Some(2),
            params: Some("-x"),
            architecture: Some("x86"),
        }],
        files: vec![MF_File_VG_1_0 {
            path: "app.exe",
            url: vec!["https://m1/app.exe", "https://m2/app.exe"],
            size: Some(5),
            md5: Some("m"),
            sha1: None,
            sha256: None,
        }],
    };
    let manifest = Manifest::from(wire);
    assert_eq!(manifest.version, "vg-1.0");
    assert_eq!(manifest.label, "Old Manifest");
    assert_eq!(manifest.forums.as_deref(), Some("https://example.forums"));
    assert_eq!(manifest.profiles[0].name, "App");
    assert_eq!(manifest.profiles[0].order, Some(2));
    assert_eq!(manifest.profiles[0].icon, None);
    assert_eq!(manifest.profiles[0].architecture.as_deref(), Some("x86"));
    assert_eq!(
        manifest.files[0].mirrors,
        vec!["https://m1/app.exe".to_owned(), "https://m2/app.exe".to_owned()]
    );
    assert_eq!(manifest.files[0].md5.as_deref(), Some("m"));
}

#[test]
fn model_becomes_vg_manifest_without_icons() {
    let manifest = Manifest {
        version: "fort-1.0".to_owned(),
        label: "New".to_owned(),
        webpage: Some("https://example.com".to_owned()),
        forums: None,
        discord: None,
        rss: None,
        poster_image: None,
        profiles: vec![ManifestProfile {
            name: "App".to_owned(),
            executable: "app.exe".to_owned(),
            order: None,
            params: None,
            icon: Some("https://example.com/icon.ico".to_owned()),
            architecture: None,
        }],
        files: vec![ManifestFile {
            path: "a.txt".to_owned(),
            mirrors: vec!["https://m1/a.txt".to_owned()],
            size: None,
            md5: None,
            sha1: None,
            sha256: Some("abc".to_owned()),
        }],
    };
    let wire = Manifest_VG_1_0::from(&manifest);
    assert_eq!(wire.version, "fort-1.0");
    assert_eq!(wire.webpage, Some("https://example.com"));
    assert_eq!(wire.profiles[0].name, "App");
    assert_eq!(wire.profiles[0].executable, "app.exe");
    assert_eq!(wire.files[0].url, vec!["https://m1/a.txt"]);
    assert_eq!(wire.files[0].sha256, Some("abc"));
    let back = Manifest::from(wire);
    assert_eq!(back.profiles[0].icon, None);
    assert_eq!(back.files[0].path, "a.txt");
}
