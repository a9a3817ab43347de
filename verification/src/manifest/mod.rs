//! Manifests: the canonical model, the formats it is read from, and the
//! errors of reading and writing them.

use crate::text::{contains, same_text, has_substring};
use vstd::prelude::*;
use vstd::string::StringExecFns;

pub mod manifest_spec;

verus! {

/// `toml::ser::Error`: why a manifest could not be written as TOML.
#[verifier::external_type_specification]
#[verifier::external_body]
pub struct ExTomlSerError(toml::ser::Error);

/// `toml::de::Error`: why a text could not be read as a TOML manifest.
#[verifier::external_type_specification]
#[verifier::external_body]
pub struct ExTomlDeError(toml::de::Error);

/// `roxmltree::Error`: why a text could not be read as XML.
#[verifier::external_type_specification]
#[verifier::external_body]
pub struct ExXmlError(roxmltree::Error);

/// Defines a Manifest IO / parse error
#[derive(Debug)]
pub enum ManifestError {
    InvalidModel(toml::ser::Error),
    InvalidSyntax(toml::de::Error),
    InvalidXML(roxmltree::Error),
    MissingRequiredValue(&'static str),
    UnknownType,
}

impl vstd::std_specs::convert::FromSpecImpl<toml::ser::Error> for ManifestError {
    open spec fn obeys_from_spec() -> bool {
        true
    }

    open spec fn from_spec(item: toml::ser::Error) -> Self {
        ManifestError::InvalidModel(item)
    }
}

/// Extension of ManifestError to support toml serializer error mapping
impl std::convert::From<toml::ser::Error> for ManifestError {
    fn from(item: toml::ser::Error) -> (r: ManifestError) {
        ManifestError::InvalidModel(item)
    }
}

impl vstd::std_specs::convert::FromSpecImpl<toml::de::Error> for ManifestError {
    open spec fn obeys_from_spec() -> bool {
        true
    }

    open spec fn from_spec(item: toml::de::Error) -> Self {
        ManifestError::InvalidSyntax(item)
    }
}

/// Extension of ManifestError to support toml deserializer error mapping
impl std::convert::From<toml::de::Error> for ManifestError {
    fn from(item: toml::de::Error) -> (r: ManifestError) {
        // All toml parsing errors result from invalid syntax.
        ManifestError::InvalidSyntax(item)
    }
}

impl vstd::std_specs::convert::FromSpecImpl<roxmltree::Error> for ManifestError {
    open spec fn obeys_from_spec() -> bool {
        true
    }

    open spec fn from_spec(item: roxmltree::Error) -> Self {
        ManifestError::InvalidXML(item)
    }
}

/// Extension of ManifestError to support roxmltree error mapping
impl std::convert::From<roxmltree::Error> for ManifestError {
    fn from(item: roxmltree::Error) -> (r: ManifestError) {
        // All roxmltree parsing errors result from invalid syntax.
        ManifestError::InvalidXML(item)
    }
}

/// The wire formats a manifest text can be in.
#[derive(Debug, Clone, Copy, PartialEq, Eq, Structural)]
pub enum ManifestFormat {
    /// Tequila XML.
    Xml,
    /// One of the TOML formats; its `version` field says which.
    Toml,
}

/// What marks a manifest text as XML.
pub const XML_PROLOG: &'static str = "<?xml";

/// Tells the format of a manifest text by its cheapest mark: a text that
/// holds an XML prolog anywhere is XML, any other is TOML.
pub fn manifest_format(manifest: &str) -> (r: ManifestFormat)
    ensures
        r == if has_substring(manifest@, XML_PROLOG@) {
            ManifestFormat::Xml
        } else {
            ManifestFormat::Toml
        },
{
    if contains(manifest, XML_PROLOG) {
        ManifestFormat::Xml
    } else {
        ManifestFormat::Toml
    }
}

/// Accepts the `version` field of a TOML manifest if it names a format that
/// can be read, which is `fort-1.0` alone.
pub fn check_toml_version(version: &str) -> (r: Result<(), ManifestError>)
    ensures
        r is Ok <==> version@ == manifest_spec::fort_1_0::VERSION@,
        r is Err ==> r->Err_0 is UnknownType,
{
    if same_text(version, manifest_spec::fort_1_0::VERSION) {
        Ok(())
    } else {
        Err(ManifestError::UnknownType)
    }
}

/// What a `toml::ser::Error` has to say of itself. Two of its kinds, which
/// `toml` keeps but makes no more, have no text of their own.
#[derive(Debug)]
pub enum SerializerFailure {
    /// A key held a newline.
    KeyNewline,
    /// An array held values of more than one type.
    ArrayMixedType,
    /// Any other failure, with the text that it shows.
    Shown(String),
}

/// What is said of a key that held a newline.
pub const KEY_NEWLINE_TEXT: &'static str = "map key held a newline";

/// What is said of an array that held values of more than one type.
pub const ARRAY_MIXED_TYPE_TEXT: &'static str = "array held values of more than one type";

/// Tells the kinds of `toml::ser::Error` apart. `KeyNewline` and
/// `ArrayMixedType` are handed on as they are: `Display` has no text for
/// them and must not be asked. For every other kind the text that `Display`
/// shows is handed on.
#[verifier::external_body]
fn toml_ser_failure(e: &toml::ser::Error) -> SerializerFailure {
    match e {
        toml::ser::Error::KeyNewline => SerializerFailure::KeyNewline,
        toml::ser::Error::ArrayMixedType => SerializerFailure::ArrayMixedType,
        shown => SerializerFailure::Shown(format!("{}", shown)),
    }
}

/// The text of a failure of the serializer: its own where it has one, a
/// fixed one for the two kinds that have none.
pub open spec fn failure_shown(failure: SerializerFailure) -> Seq<char> {
    match failure {
        SerializerFailure::KeyNewline => KEY_NEWLINE_TEXT@,
        SerializerFailure::ArrayMixedType => ARRAY_MIXED_TYPE_TEXT@,
        SerializerFailure::Shown(text) => text@,
    }
}

/// Puts a failure of the serializer into words.
pub fn serializer_failure_text(failure: SerializerFailure) -> (r: String)
    ensures
        r@ == failure_shown(failure),
{
    match failure {
        SerializerFailure::KeyNewline => String::from_str(KEY_NEWLINE_TEXT),
        SerializerFailure::ArrayMixedType => String::from_str(ARRAY_MIXED_TYPE_TEXT),
        SerializerFailure::Shown(text) => text,
    }
}

/// The text that describes a `toml::ser::Error` to a user.
pub(crate) fn toml_ser_error_text(e: &toml::ser::Error) -> String {
    serializer_failure_text(toml_ser_failure(e))
}

/// What `toml::de::Error` shows of itself through `Display`.
#[verifier::external_body]
pub(crate) fn toml_de_error_text(e: &toml::de::Error) -> String {
    format!("{}", e)
}

/// What `roxmltree::Error` shows of itself through `Display`.
#[verifier::external_body]
fn xml_error_text(e: &roxmltree::Error) -> String {
    format!("{}", e)
}

impl ManifestError {
    /// The text that describes this error to a user. For the two errors of
    /// this library it is fixed; for the others it is what the outside error
    /// shows of itself.
    pub fn message(&self) -> (r: String)
        ensures
            self matches ManifestError::MissingRequiredValue(name) ==> r@
                == "Missing required value: "@ + name@,
            self is UnknownType ==> r@ == "Could not determine manifest format/version."@,
    {
        match self {
            ManifestError::InvalidModel(e) => toml_ser_error_text(e),
            ManifestError::InvalidSyntax(e) => toml_de_error_text(e),
            ManifestError::InvalidXML(e) => xml_error_text(e),
            ManifestError::MissingRequiredValue(name) => String::from_str(
                "Missing required value: ",
            ).concat(name),
            ManifestError::UnknownType => String::from_str(
                "Could not determine manifest format/version.",
            ),
        }
    }
}

} // verus!
