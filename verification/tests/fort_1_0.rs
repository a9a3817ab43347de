use fortunata::manifest::manifest_spec::fort_1_0::{
    versioned_manifest, MF_File_VG_1_0, MF_Profile_VG_1_0, Manifest_VG_1_0, VERSION,
};
use fortunata::manifest::manifest_spec::{Manifest, ManifestFile, ManifestProfile};

fn text_at<'a>(table: &'a toml::Value, key: &str) -> Option<&'a str> {
    table.get(key).and_then(|v| v.as_str())
}

fn wire_of<'a>(doc: &'a toml::Value) -> Manifest_VG_1_0<'a> {
    let profiles = doc.get("profile").unwrap().as_array().unwrap();
    let files = doc.get("file").unwrap().as_array().unwrap();
    Manifest_VG_1_0 {
        version: text_at(doc, "version").unwrap(),
        label: text_at(doc, "label").unwrap(),
        webpage: text_at(doc, "webpage"),
        forums: text_at(doc, "forums"),
        discord: text_at(doc, "discord"),
        rss: text_at(doc, "rss"),
        poster_image: text_at(doc, "poster_image"),
        profiles: profiles
            .iter()
            .map(|p| MF_Profile_VG_1_0 {
                name: text_at(p, "name").unwrap(),
                executable: text_at(p, "exec").unwrap(),
                order: p.get("order").and_then(|v| v.as_integer()).map(|v| v as u8),
                params: text_at(p, "params"),
                icon: text_at(p, "icon"),
                architecture: text_at(p, "architecture"),
            })
            .collect(),
        files: files
            .iter()
            .map(|f| MF_File_VG_1_0 {
                path: text_at(f, "path").unwrap(),
                mirrors: f
                    .get("mirrors")
                    .unwrap()
                    .as_array()
                    .unwrap()
                    .iter()
                    .map(|m| m.as_str().unwrap())
                    .collect(),
                size: f.get("size").and_then(|v| v.as_integer()).map(|v| v as u64),
                md5: text_at(f, "md5"),
                sha1: text_at(f, "sha1"),
                sha256: text_at(f, "sha256"),
            })
            .collect(),
    }
}

#[test]
fn fort_1_0_should_deserialize() {
    let test_toml = r#"
			version = "fort-1.0"
			label = "Test Manifest"
			webpage = "https://example.com"
			forums = "https://example.forums"
			discord = "https://a.discord.invite"
			rss = "https://example.com/some-rss-feed.rss"
			poster_image = "https://example.com/some-image.png"
	
			[[profile]]
			name = "Awesome App"
			exec = "app.exe"
			order = 0
			params = "--be-awesome"
			icon = "https://example.com/icon.ico"
			architecture = "x64"
	
			[[profile]]
			name = "Awesome App 2"
			exec = "app2.exe"
	
			[[file]]
			path = "app.exe"
			mirrors = ["https://example.download.mirror/app.exe", "https://another.download.mirror/app.exe"]
			size = 256
			md5 = "a-real-hash"
			sha1 = "a-realer-hash"
			sha256 = "the-realest-hash"
	
			[[file]]
			path = "app2.exe"
			mirrors = ["https://example.download.mirror/app2.exe"]
		"#;
    let doc = test_toml.parse::<toml::Value>().unwrap();
    let deser = Manifest::from(wire_of(&doc));

    assert_eq!(deser.label, "Test Manifest");

    assert_eq!(deser.profiles[0].name, "Awesome App");
    assert_eq!(deser.profiles[0].executable, "app.exe");
    assert_eq!(deser.profiles[0].order.unwrap(), 0);
    assert_eq!(deser.profiles[0].params.as_ref().unwrap(), "--be-awesome");
    assert_eq!(deser.profiles[0].architecture.as_ref().unwrap(), "x64");

    assert_eq!(deser.profiles[1].name, "Awesome App 2");
    assert_eq!(deser.profiles[1].executable, "app2.exe");

    assert_eq!(deser.files[0].path, "app.exe");
    assert_eq!(deser.files[0].mirrors[0], "https://example.download.mirror/app.exe");
    assert_eq!(deser.files[0].mirrors[1], "https://another.download.mirror/app.exe");
    assert_eq!(deser.files[0].size.unwrap(), 256);
    assert_eq!(deser.files[0].md5.as_ref().unwrap(), "a-real-hash");
    assert_eq!(deser.files[0].sha1.as_ref().unwrap(), "a-realer-hash");
    assert_eq!(deser.files[0].sha256.as_ref().unwrap(), "the-realest-hash");

    assert_eq!(deser.files[1].path, "app2.exe");
    assert_eq!(deser.files[1].mirrors[0], "https://example.download.mirror/app2.exe");

    assert_eq!(deser.forums.unwrap(), "https://example.forums");
    assert_eq!(deser.webpage.unwrap(), "https://example.com");
    assert_eq!(deser.discord.unwrap(), "https://a.discord.invite");
    assert_eq!(deser.rss.unwrap(), "https://example.com/some-rss-feed.rss");
    assert_eq!(deser.poster_image.unwrap(), "https://example.com/some-image.png");
}

fn sample_manifest() -> Manifest {
    Manifest {
        version: "tq-xml".to_owned(),
        label: "Test Manifest".to_owned(),
        profiles: vec![
            ManifestProfile {
                name: "Awesome App".to_owned(),
                executable: "app.exe".to_owned(),
                params: Some("--be-awesome".to_owned()),
                icon: Some("https://example.com/icon.ico".to_owned()),
                order: Some(0),
                architecture: Some("x64".to_owned()),
            },
            ManifestProfile {
                name: "Awesome App 2".to_owned(),
                executable: "app2.exe".to_owned(),
                params: None,
                icon: None,
                order: None,
                architecture: None,
            },
        ],
        files: vec![
            ManifestFile {
                path: "app.exe".to_owned(),
                mirrors: vec![
                    "https://example.download.mirror/app.exe".to_owned(),
                    "https://another.download.mirror/app.exe".to_owned(),
                ],
                size: Some(256),
                md5: Some("a-real-hash".to_owned()),
                sha1: Some("a-realer-hash".to_owned()),
                sha256: Some("the-realest-hash".to_owned()),
            },
            ManifestFile {
                path: "app2.exe".to_owned(),
                mirrors: vec!["https://example.download.mirror/app2.exe".to_owned()],
                size: None,
                md5: None,
                sha1: None,
                sha256: None,
            },
        ],
        webpage: Some("https://example.com".to_owned()),
        forums: Some("https://example.forums".to_owned()),
        discord: Some("https://a.discord.invite".to_owned()),
        rss: Some("https://example.com/some-rss-feed.rss".to_owned()),
        poster_image: Some("https://example.com/some-image.png".to_owned()),
    }
}

#[test]
fn versioned_manifest_overwrites_the_version_only() {
    let manifest = sample_manifest();
    let wire = versioned_manifest(&manifest);
    assert_eq!(VERSION, "fort-1.0");
    assert_eq!(wire.version, "fort-1.0");
    assert_eq!(wire.label, "Test Manifest");
    assert_eq!(wire.webpage, Some("https://example.com"));
    assert_eq!(wire.forums, Some("https://example.forums"));
    assert_eq!(wire.discord, Some("https://a.discord.invite"));
    assert_eq!(wire.rss, Some("https://example.com/some-rss-feed.rss"));
    assert_eq!(wire.poster_image, Some("https://example.com/some-image.png"));
    assert_eq!(wire.profiles.len(), 2);
    assert_eq!(wire.profiles[0].name, "Awesome App");
    assert_eq!(wire.profiles[0].executable, "app.exe");
    assert_eq!(wire.profiles[0].order, Some(0));
    assert_eq!(wire.profiles[0].icon, Some("https://example.com/icon.ico"));
    assert_eq!(wire.profiles[1].params, None);
    assert_eq!(wire.files.len(), 2);
    assert_eq!(wire.files[0].path, "app.exe");
    assert_eq!(
        wire.files[0].mirrors,
        vec!["https://example.download.mirror/app.exe", "https://another.download.mirror/app.exe"]
    );
    assert_eq!(wire.files[0].size, Some(256));
    assert_eq!(wire.files[0].sha256, Some("the-realest-hash"));
    assert_eq!(wire.files[1].mirrors, vec!["https://example.download.mirror/app2.exe"]);
    assert_eq!(wire.files[1].md5, None);
}

#[test]
fn wire_and_model_round_trip() {
    let manifest = sample_manifest();
    let back = Manifest::from(Manifest_VG_1_0::from(&manifest));
    assert_eq!(back.version, "tq-xml");
    assert_eq!(back.label, manifest.label);
    assert_eq!(back.profiles.len(), 2);
    assert_eq!(back.profiles[0].icon, manifest.profiles[0].icon);
    assert_eq!(back.profiles[1].name, "Awesome App 2");
    assert_eq!(back.files[0].mirrors, manifest.files[0].mirrors);
    assert_eq!(back.files[0].sha1, manifest.files[0].sha1);
    assert_eq!(back.files[1].size, None);
    assert_eq!(back.rss, manifest.rss);
}

#[test]
fn single_items_convert() {
    let profile = ManifestProfile::from(MF_Profile_VG_1_0 {
        name: "Game",
        executable: "bin/game.exe",
        order: Some(7),
        params: None,
        icon: Some("icon.ico"),
        architecture: None,
    });
    assert_eq!(profile.name, "Game");
    assert_eq!(profile.executable, "bin/game.exe");
    assert_eq!(profile.order, Some(7));
    assert_eq!(profile.icon.as_deref(), Some("icon.ico"));
    let file = ManifestFile::from(MF_File_VG_1_0 {
        path: "data/a.pak",
        mirrors: vec!["https://m1/a.pak"],
        size: Some(9),
        md5: None,
        sha1: Some("abc"),
        sha256: None,
    });
    assert_eq!(file.path, "data/a.pak");
    assert_eq!(file.mirrors, vec!["https://m1/a.pak".to_owned()]);
    assert_eq!(file.size, Some(9));
    assert_eq!(file.sha1.as_deref(), Some("abc"));
    assert_eq!(file.sha256, None);
}
