use fortunata::manifest::manifest_spec::tq_xml::deserialize_manifest;

#[test]
fn tq_xml_should_deserialize() {
    let test_xml = r#"
			<manifest>
				<label>Test Manifest</label>
				<profiles>
					<launch exec="app.exe" order="0" params="--be-awesome" icon="https://example.com/icon.ico" architecture="x64">Awesome App</launch>
					<launch exec="app2.exe">Awesome App 2</launch>
				</profiles>
				<filelist>
					<file name="app.exe" size="256" md5="a-real-hash">
						<url>https://example.download.mirror/app.exe</url>
						<url>https://another.download.mirror/app.exe</url>
					</file>
					<file name="app2.exe">
						<url>https://example.download.mirror/app2.exe</url>
					</file>
					<file name="ignored.dll" size="0">
						<url>https://example.download.mirror/ignored.dll</url>
					</file>
				</filelist>
				<forums>
					<forum name="Awesome Forums" url="https://example.forums" />
				</forums>
				<webpage>https://example.com</webpage>
				<poster_image url="https://example.com/some-image.png" />
			</manifest>
		"#;
    let deser = deserialize_manifest(&test_xml).unwrap();

    assert_eq!(deser.label, "Test Manifest");

    assert_eq!(deser.profiles[0].name, "Awesome App");
    assert_eq!(deser.profiles[0].executable, "app.exe");
    assert_eq!(deser.profiles[0].order.unwrap(), 0);
    assert_eq!(deser.profiles[0].params.as_ref().unwrap(), "--be-awesome");
    assert_eq!(deser.profiles[0].icon.as_ref().unwrap(), "https://example.com/icon.ico");
    assert_eq!(deser.profiles[0].architecture.as_ref().unwrap(), "x64");

    assert_eq!(deser.profiles[1].name, "Awesome App 2");
    assert_eq!(deser.profiles[1].executable, "app2.exe");

    assert_eq!(deser.files[0].path, "app.exe");
    assert_eq!(deser.files[0].mirrors[0], "https://example.download.mirror/app.exe");
    assert_eq!(deser.files[0].mirrors[1], "https://another.download.mirror/app.exe");
    assert_eq!(deser.files[0].size.unwrap(), 256);
    assert_eq!(deser.files[0].md5.as_ref().unwrap(), "a-real-hash");

    assert_eq!(deser.files[1].path, "app2.exe");
    assert_eq!(deser.files[1].mirrors[0], "https://example.download.mirror/app2.exe");

    assert_eq!(deser.files.len(), 2);

    assert_eq!(deser.forums.unwrap(), "https://example.forums");
    assert_eq!(deser.webpage.unwrap(), "https://example.com");
    assert_eq!(deser.poster_image.unwrap(), "https://example.com/some-image.png");
}

fn missing_value(xml: &str) -> String {
    match deserialize_manifest(xml) {
        Err(fortunata::manifest::ManifestError::MissingRequiredValue(name)) => name.to_owned(),
        other => panic!("expected a missing value, got {:?}", other.map(|m| m.label)),
    }
}

#[test]
fn xml_that_is_not_well_formed_is_invalid() {
    let r = deserialize_manifest("<manifest><label>Open</manifest>");
    assert!(matches!(r, Err(fortunata::manifest::ManifestError::InvalidXML(_))));
    let r = deserialize_manifest("");
    assert!(matches!(r, Err(fortunata::manifest::ManifestError::InvalidXML(_))));
}

#[test]
fn root_element_must_be_manifest() {
    assert_eq!(missing_value("<files><label>x</label></files>"), "manifest");
    assert_eq!(missing_value("<!-- first --><manifest></manifest>"), "manifest");
}

#[test]
fn empty_manifest_has_defaults() {
    let m = deserialize_manifest("<?xml version=\"1.0\"?><manifest></manifest>").unwrap();
    assert_eq!(m.version, "tq-xml");
    assert_eq!(m.label, "Unknown");
    assert!(m.profiles.is_empty());
    assert!(m.files.is_empty());
    assert_eq!(m.webpage, None);
    assert_eq!(m.forums, None);
    assert_eq!(m.poster_image, None);
    assert_eq!(m.discord, None);
    assert_eq!(m.rss, None);
}

#[test]
fn launch_without_exec_is_refused() {
    let xml = "<manifest><profiles><launch>App</launch></profiles></manifest>";
    assert_eq!(missing_value(xml), "exec");
}

#[test]
fn launch_without_name_is_refused() {
    let xml = "<manifest><profiles><launch exec=\"a.exe\"/></profiles></manifest>";
    assert_eq!(missing_value(xml), "name");
}

#[test]
fn file_without_name_is_refused() {
    let xml = "<manifest><filelist><file size=\"3\"><url>https://m/a</url></file></filelist></manifest>";
    assert_eq!(missing_value(xml), "name");
}

#[test]
fn label_without_text_is_refused() {
    assert_eq!(missing_value("<manifest><label/></manifest>"), "label");
}

#[test]
fn first_failure_wins() {
    let xml = "<manifest><profiles><launch exec=\"a.exe\"/></profiles><label/></manifest>";
    assert_eq!(missing_value(xml), "name");
    let xml = "<manifest><label/><profiles><launch exec=\"a.exe\"/></profiles></manifest>";
    assert_eq!(missing_value(xml), "label");
}

#[test]
fn backslashes_in_paths_are_turned() {
    let xml = "<manifest>\
        <profiles><launch exec=\"bin\\win\\app.exe\">App</launch></profiles>\
        <filelist><file name=\"data\\maps\\a.pak\"><url>https://m/a.pak</url></file></filelist>\
        </manifest>";
    let m = deserialize_manifest(xml).unwrap();
    assert_eq!(m.profiles[0].executable, "bin/win/app.exe");
    assert_eq!(m.files[0].path, "data/maps/a.pak");
}

#[test]
fn numbers_that_do_not_parse_are_dropped() {
    let xml = "<manifest>\
        <profiles>\
        <launch exec=\"a\" order=\"300\">A</launch>\
        <launch exec=\"b\" order=\"-1\">B</launch>\
        <launch exec=\"c\" order=\"+12\">C</launch>\
        <launch exec=\"d\" order=\"255\">D</launch>\
        <launch exec=\"e\" order=\"\">E</launch>\
        </profiles>\
        <filelist>\
        <file name=\"a\" size=\"abc\"/>\
        <file name=\"b\" size=\"18446744073709551615\"/>\
        <file name=\"c\" size=\"18446744073709551616\"/>\
        <file name=\"d\" size=\"000\"/>\
        <file name=\"e\" size=\"+0\"/>\
        <file name=\"f\" size=\"007\"/>\
        </filelist>\
        </manifest>";
    let m = deserialize_manifest(xml).unwrap();
    let orders: Vec<Option<u8>> = m.profiles.iter().map(|p| p.order).collect();
    assert_eq!(orders, vec![None, None, Some(12), Some(255), None]);
    let files: Vec<(String, Option<u64>)> =
        m.files.iter().map(|f| (f.path.clone(), f.size)).collect();
    assert_eq!(
        files,
        vec![
            ("a".to_owned(), None),
            ("b".to_owned(), Some(18446744073709551615)),
            ("c".to_owned(), None),
            ("f".to_owned(), Some(7)),
        ]
    );
}

#[test]
fn only_children_count() {
    let xml = "<manifest>\
        <extra><profiles><launch exec=\"x\">Nested</launch></profiles></extra>\
        <profiles><group><launch exec=\"y\">Deep</launch></group><launch exec=\"z\">Direct</launch></profiles>\
        <profiles><launch exec=\"w\">Second</launch></profiles>\
        <filelist><file name=\"a\"><url>https://m/1</url><alt><url>https://m/2</url></alt><url/><url>https://m/3</url></file></filelist>\
        <discord>https://a.discord.invite</discord>\
        <rss>https://example.com/feed.rss</rss>\
        <webpage>https://first</webpage><webpage>https://second</webpage>\
        <forums><other url=\"no\"/><forum url=\"https://one\"/><forum url=\"https://two\"/></forums>\
        </manifest>";
    let m = deserialize_manifest(xml).unwrap();
    let names: Vec<&str> = m.profiles.iter().map(|p| p.name.as_str()).collect();
    assert_eq!(names, vec!["Direct", "Second"]);
    assert_eq!(m.files[0].mirrors, vec!["https://m/1".to_owned(), "https://m/3".to_owned()]);
    assert_eq!(m.discord.as_deref(), Some("https://a.discord.invite"));
    assert_eq!(m.rss.as_deref(), Some("https://example.com/feed.rss"));
    assert_eq!(m.webpage.as_deref(), Some("https://second"));
    assert_eq!(m.forums.as_deref(), Some("https://one"));
}

#[test]
fn namespaced_attributes_are_not_mistaken() {
    let xml = "<manifest xmlns:n=\"http://example.com/ns\">\
        <filelist><file n:name=\"wrong\" name=\"right\" n:md5=\"other\"/></filelist>\
        </manifest>";
    let m = deserialize_manifest(xml).unwrap();
    assert_eq!(m.files[0].path, "right");
    assert_eq!(m.files[0].md5, None);
}

#[test]
fn forum_without_address_clears_the_forums() {
    let xml = "<manifest><forums><forum name=\"x\"/></forums></manifest>";
    let m = deserialize_manifest(xml).unwrap();
    assert_eq!(m.forums, None);
}
