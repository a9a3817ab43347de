use fortunata::config::{
    unsafe_config_warnings, Config, ConfigError, ConfigWarning, ManifestConfig, UnsafeSetting,
    CFG_FILE_NAME, CFG_VERSION,
};

fn manifest_config(insecure: bool, unchecked: bool, unsafe_paths: bool) -> ManifestConfig {
    ManifestConfig {
        url: "https://example.com/manifest.xml".to_owned(),
        application_path: "/srv/apps/game".to_owned(),
        allow_unsafe_file_paths: unsafe_paths,
        allow_insecure_patching: insecure,
        ignore_hash_check: unchecked,
        maximum_parallel_files: 4,
        use_symlinked_storage: true,
        ignore_profiles: vec![],
    }
}

#[test]
fn default_config() {
    let cfg = Config::default();
    assert_eq!(cfg.version, "1.0");
    assert_eq!(cfg.maximum_parallel_files, 4);
    assert!(cfg.use_symlinked_storage);
    assert!(cfg.manifests.is_empty());
    assert_eq!(CFG_VERSION, "1.0");
    assert_eq!(CFG_FILE_NAME, "vanguard.toml");
}

#[test]
fn safe_config_has_no_warnings() {
    let mut cfg = Config::default();
    assert!(unsafe_config_warnings(&cfg).is_empty());
    cfg.manifests.push(manifest_config(false, false, false));
    assert!(unsafe_config_warnings(&cfg).is_empty());
}

#[test]
fn every_unsafe_setting_is_warned_of_in_order() {
    let mut cfg = Config::default();
    cfg.manifests.push(manifest_config(false, true, false));
    cfg.manifests.push(manifest_config(false, false, false));
    cfg.manifests.push(manifest_config(true, true, true));
    cfg.manifests.push(manifest_config(true, false, true));
    assert_eq!(
        unsafe_config_warnings(&cfg),
        vec![
            ConfigWarning { manifest: 0, setting: UnsafeSetting::IgnoredHashCheck },
            ConfigWarning { manifest: 2, setting: UnsafeSetting::InsecurePatching },
            ConfigWarning { manifest: 2, setting: UnsafeSetting::IgnoredHashCheck },
            ConfigWarning { manifest: 2, setting: UnsafeSetting::UnsafeFilePaths },
            ConfigWarning { manifest: 3, setting: UnsafeSetting::InsecurePatching },
            ConfigWarning { manifest: 3, setting: UnsafeSetting::UnsafeFilePaths },
        ]
    );
}

#[test]
fn warnings_name_the_manifest() {
    let (first, second) = UnsafeSetting::InsecurePatching.warning("https://example.com/m.xml");
    assert_eq!(
        first,
        "WARNING: allow_insecure_patching enabled for manifest: https://example.com/m.xml"
    );
    assert_eq!(
        second,
        "         Insecure HTTP download mirrors may be used, which could possibly be used to send malicious code."
    );
    let (first, second) = UnsafeSetting::IgnoredHashCheck.warning("u");
    assert_eq!(first, "WARNING: ignore_hash_check enabled for manifest: u");
    assert_eq!(
        second,
        "         File contents will not be validated, possibly allowing broken or malicious files to be saved."
    );
    let (first, second) = UnsafeSetting::UnsafeFilePaths.warning("u");
    assert_eq!(first, "WARNING: allow_unsafe_file_paths enabled for manifest: u");
    assert_eq!(
        second,
        "         This is __extremely unsafe__ and allows Vanguard to potentially modify any file on your system."
    );
}

#[test]
fn config_errors_describe_themselves() {
    let e = ConfigError::InvalidConfig("no manifests".to_owned());
    assert_eq!(e.message(), "Invalid config - no manifests");
    let io = std::io::Error::new(std::io::ErrorKind::NotFound, "vanguard.toml not found");
    let e = ConfigError::from(io);
    assert!(matches!(e, ConfigError::FileIO(_)));
    assert_eq!(e.message(), "vanguard.toml not found");
    let broken = "version = ".parse::<toml::Value>().unwrap_err();
    let text = broken.to_string();
    let e = ConfigError::from(broken);
    assert!(matches!(e, ConfigError::InvalidSyntax(_)));
    assert_eq!(e.message(), text);
    let unwritable = toml::to_string(&None::<u8>).unwrap_err();
    let text = unwritable.to_string();
    let e = ConfigError::from(unwritable);
    assert!(matches!(e, ConfigError::InvalidModel(_)));
    assert_eq!(e.message(), text);
}

#[test]
fn serializer_failures_without_a_text_are_put_into_words() {
    assert_eq!(
        ConfigError::InvalidModel(toml::ser::Error::KeyNewline).message(),
        "map key held a newline"
    );
    assert_eq!(
        ConfigError::InvalidModel(toml::ser::Error::ArrayMixedType).message(),
        "array held values of more than one type"
    );
    assert_eq!(
        ConfigError::InvalidModel(toml::ser::Error::KeyNotString).message(),
        "map key was not a string"
    );
}
