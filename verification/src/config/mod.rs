//! The updater's configuration: the model of `vanguard.toml` and what is
//! checked of it.

use crate::manifest::{toml_de_error_text, toml_ser_error_text};
use vstd::prelude::*;
use vstd::string::StringExecFns;

verus! {

/// `std::io::Error`: why the file system or the network refused something.
#[verifier::external_type_specification]
#[verifier::external_body]
pub struct ExIoError(std::io::Error);

/// Version identifier
pub const CFG_VERSION: &'static str = "1.0";

/// Config file name
pub const CFG_FILE_NAME: &'static str = "vanguard.toml";

/// File workers that run side by side unless the configuration says otherwise.
pub const DEFAULT_PARALLEL_FILES: u8 = 4;

/// Config file data model
#[derive(Debug, Clone)]
pub struct Config {
    /// Version identifier for config file
    pub version: String,
    /// Maximum parallel file workers to use.
    pub maximum_parallel_files: u8,
    /// If true, application files are kept in shared storage and linked into place.
    pub use_symlinked_storage: bool,
    /// Array-table of manifests in use
    pub manifests: Vec<ManifestConfig>,
}

/// Per-manifest config data model
#[derive(Debug, Clone)]
pub struct ManifestConfig {
    /// URL of the manifest. Config entires without a manifest URL will be ignored.
    pub url: String,
    /// Path to which application files are downloaded.
    pub application_path: String,
    /// If true, files may be placed outside the application path.
    pub allow_unsafe_file_paths: bool,
    /// If true, allows patching from non-https mirrors.
    pub allow_insecure_patching: bool,
    /// If true, checksumming is not performed on files.
    pub ignore_hash_check: bool,
    /// Maximum parallel file workers to use for this manifest.
    pub maximum_parallel_files: u8,
    /// If true, application files are kept in shared storage and linked into place.
    pub use_symlinked_storage: bool,
    /// Vec of launcher profiles to hide, by name.
    pub ignore_profiles: Vec<String>,
}

impl Default for Config {
    fn default() -> (r: Config)
        ensures
            r.version@ == CFG_VERSION@,
            r.maximum_parallel_files == DEFAULT_PARALLEL_FILES,
            r.use_symlinked_storage,
            r.manifests@.len() == 0,
    {
        Config {
            version: String::from_str(CFG_VERSION),
            maximum_parallel_files: DEFAULT_PARALLEL_FILES,
            use_symlinked_storage: true,
            manifests: Vec::new(),
        }
    }
}

/// Wrapper for config-related errors.
#[derive(Debug)]
pub enum ConfigError {
    FileIO(std::io::Error),
    InvalidConfig(String),
    InvalidModel(toml::ser::Error),
    InvalidSyntax(toml::de::Error),
}

impl vstd::std_specs::convert::FromSpecImpl<std::io::Error> for ConfigError {
    open spec fn obeys_from_spec() -> bool {
        true
    }

    open spec fn from_spec(item: std::io::Error) -> Self {
        ConfigError::FileIO(item)
    }
}

impl std::convert::From<std::io::Error> for ConfigError {
    fn from(item: std::io::Error) -> (r: ConfigError) {
        ConfigError::FileIO(item)
    }
}

impl vstd::std_specs::convert::FromSpecImpl<toml::ser::Error> for ConfigError {
    open spec fn obeys_from_spec() -> bool {
        true
    }

    open spec fn from_spec(item: toml::ser::Error) -> Self {
        ConfigError::InvalidModel(item)
    }
}

impl std::convert::From<toml::ser::Error> for ConfigError {
    fn from(item: toml::ser::Error) -> (r: ConfigError) {
        ConfigError::InvalidModel(item)
    }
}

impl vstd::std_specs::convert::FromSpecImpl<toml::de::Error> for ConfigError {
    open spec fn obeys_from_spec() -> bool {
        true
    }

    open spec fn from_spec(item: toml::de::Error) -> Self {
        ConfigError::InvalidSyntax(item)
    }
}

impl std::convert::From<toml::de::Error> for ConfigError {
    fn from(item: toml::de::Error) -> (r: ConfigError) {
        ConfigError::InvalidSyntax(item)
    }
}

/// What `std::io::Error` shows of itself through `Display`.
#[verifier::external_body]
pub(crate) fn io_error_text(e: &std::io::Error) -> String {
    format!("{}", e)
}

impl ConfigError {
    /// The text that describes this error to a user. For an invalid
    /// configuration it is a fixed heading and the description; for the
    /// others it is what the outside error shows of itself.
    pub fn message(&self) -> (r: String)
        ensures
            self matches ConfigError::InvalidConfig(desc) ==> r@ == "Invalid config - "@ + desc@,
    {
        match self {
            ConfigError::FileIO(e) => io_error_text(e),
            ConfigError::InvalidConfig(desc) => String::from_str("Invalid config - ").concat(
                desc.as_str(),
            ),
            ConfigError::InvalidModel(e) => toml_ser_error_text(e),
            ConfigError::InvalidSyntax(e) => toml_de_error_text(e),
        }
    }
}

/// The settings of a manifest that put the user's system at risk.
#[derive(Debug, Clone, Copy, PartialEq, Eq, Structural)]
pub enum UnsafeSetting {
    /// Insecure HTTP download mirrors may be used.
    InsecurePatching,
    /// File contents will not be validated.
    IgnoredHashCheck,
    /// Files may be written anywhere on the system.
    UnsafeFilePaths,
}

/// A warning that an unsafe setting is switched on for a manifest.
#[derive(Debug, Clone, Copy, PartialEq, Eq, Structural)]
pub struct ConfigWarning {
    /// Position of the manifest in the configuration.
    pub manifest: usize,
    /// The setting that is switched on.
    pub setting: UnsafeSetting,
}

/// The warnings that one manifest's settings call for: insecure patching
/// first, then the ignored hash check, then unsafe file paths.
pub open spec fn manifest_warnings(index: usize, cfg: ManifestConfig) -> Seq<ConfigWarning> {
    let insecure = if cfg.allow_insecure_patching {
        seq![ConfigWarning { manifest: index, setting: UnsafeSetting::InsecurePatching }]
    } else {
        Seq::empty()
    };
    let unchecked = if cfg.ignore_hash_check {
        seq![ConfigWarning { manifest: index, setting: UnsafeSetting::IgnoredHashCheck }]
    } else {
        Seq::empty()
    };
    let unsafe_paths = if cfg.allow_unsafe_file_paths {
        seq![ConfigWarning { manifest: index, setting: UnsafeSetting::UnsafeFilePaths }]
    } else {
        Seq::empty()
    };
    insecure + unchecked + unsafe_paths
}

/// The warnings that the first `n` manifests of a configuration call for, in
/// the order of the manifests.
pub open spec fn warnings_upto(manifests: Seq<ManifestConfig>, n: int) -> Seq<ConfigWarning>
    decreases n,
{
    if n <= 0 {
        Seq::empty()
    } else {
        warnings_upto(manifests, n - 1) + manifest_warnings((n - 1) as usize, manifests[n - 1])
    }
}

/// Lists what a user who wants to hurt themselves and/or their system has to
/// be warned of: every unsafe setting of every manifest, in order.
pub fn unsafe_config_warnings(config: &Config) -> (r: Vec<ConfigWarning>)
    ensures
        r@ == warnings_upto(config.manifests@, config.manifests@.len() as int),
{
    let mut found: Vec<ConfigWarning> = Vec::new();
    let mut i: usize = 0;
    while i < config.manifests.len()
        invariant
            i <= config.manifests@.len(),
            found@ == warnings_upto(config.manifests@, i as int),
        decreases config.manifests@.len() - i,
    {
        let cfg = &config.manifests[i];
        if cfg.allow_insecure_patching {
            found.push(ConfigWarning { manifest: i, setting: UnsafeSetting::InsecurePatching });
        }
        if cfg.ignore_hash_check {
            found.push(ConfigWarning { manifest: i, setting: UnsafeSetting::IgnoredHashCheck });
        }
        if cfg.allow_unsafe_file_paths {
            found.push(ConfigWarning { manifest: i, setting: UnsafeSetting::UnsafeFilePaths });
        }
        i += 1;
    }
    found
}

/// The line that names an unsafe setting, up to the manifest's address.
pub open spec fn warning_heading(setting: UnsafeSetting) -> Seq<char> {
    match setting {
        UnsafeSetting::InsecurePatching => "WARNING: allow_insecure_patching enabled for manifest: "@,
        UnsafeSetting::IgnoredHashCheck => "WARNING: ignore_hash_check enabled for manifest: "@,
        UnsafeSetting::UnsafeFilePaths => "WARNING: allow_unsafe_file_paths enabled for manifest: "@,
    }
}

/// The line that says what an unsafe setting puts at risk.
pub open spec fn warning_advice(setting: UnsafeSetting) -> Seq<char> {
    match setting {
        UnsafeSetting::InsecurePatching => "         Insecure HTTP download mirrors may be used, which could possibly be used to send malicious code."@,
        UnsafeSetting::IgnoredHashCheck => "         File contents will not be validated, possibly allowing broken or malicious files to be saved."@,
        UnsafeSetting::UnsafeFilePaths => "         This is __extremely unsafe__ and allows Vanguard to potentially modify any file on your system."@,
    }
}

impl UnsafeSetting {
    /// The two lines that warn of this setting, for the manifest at `url`.
    pub fn warning(&self, url: &str) -> (r: (String, String))
        ensures
            r.0@ == warning_heading(*self) + url@,
            r.1@ == warning_advice(*self),
    {
        match self {
            UnsafeSetting::InsecurePatching => (
                String::from_str("WARNING: allow_insecure_patching enabled for manifest: ").concat(
                    url,
                ),
                String::from_str(
                    "         Insecure HTTP download mirrors may be used, which could possibly be used to send malicious code.",
                ),
            ),
            UnsafeSetting::IgnoredHashCheck => (
                String::from_str("WARNING: ignore_hash_check enabled for manifest: ").concat(url),
                String::from_str(
                    "         File contents will not be validated, possibly allowing broken or malicious files to be saved.",
                ),
            ),
            UnsafeSetting::UnsafeFilePaths => (
                String::from_str("WARNING: allow_unsafe_file_paths enabled for manifest: ").concat(
                    url,
                ),
                String::from_str(
                    "         This is __extremely unsafe__ and allows Vanguard to potentially modify any file on your system.",
                ),
            ),
        }
    }
}

} // verus!
