//! The Tequila XML (`tq-xml`) manifest format.
//!
//! The XML itself is read by `roxmltree`; what it finds is handed over as a
//! table of nodes in document order, and everything a manifest means is
//! decided here, on that table.

use super::super::ManifestError;
use super::{owned_text, slice_text_of, text_of};
use super::{FileModel, Manifest, ManifestFile, ManifestModel, ManifestProfile, ProfileModel};
use super::{files_of, profiles_of, texts_of};
use crate::text::{bounded_value, forward_slashes, parse_unsigned, same_text, slashes_forward};
use vstd::prelude::*;
use vstd::string::StringExecFns;

verus! {

pub const VERSION: &'static str = "tq-xml";

/// The label of a manifest that names none.
pub const DEFAULT_LABEL: &'static str = "Unknown";

pub const TQ_TAG_MANIFEST: &'static str = "manifest";

pub const TQ_TAG_LABEL: &'static str = "label";

pub const TQ_TAG_PROFILES: &'static str = "profiles";

pub const TQ_TAG_LAUNCH: &'static str = "launch";

pub const TQ_TAG_FILELIST: &'static str = "filelist";

pub const TQ_TAG_FILE: &'static str = "file";

pub const TQ_TAG_URL: &'static str = "url";

pub const TQ_TAG_FORUMS: &'static str = "forums";

pub const TQ_TAG_FORUM: &'static str = "forum";

pub const TQ_TAG_WEBPAGE: &'static str = "webpage";

pub const TQ_TAG_POSTER: &'static str = "poster_image";

// --- Tags added by Fortunata, which Tequila itself does not know
pub const TQ_TAG_DISCORD: &'static str = "discord";

pub const TQ_TAG_RSS: &'static str = "rss";

pub const TQ_ATTR_EXEC: &'static str = "exec";

pub const TQ_ATTR_NAME: &'static str = "name";

pub const TQ_ATTR_PARAMS: &'static str = "params";

pub const TQ_ATTR_ICON: &'static str = "icon";

pub const TQ_ATTR_ORDER: &'static str = "order";

pub const TQ_ATTR_ARCH: &'static str = "architecture";

pub const TQ_ATTR_URL: &'static str = "url";

pub const TQ_ATTR_SIZE: &'static str = "size";

pub const TQ_ATTR_MD5: &'static str = "md5";

// --- Attributes added by Fortunata, which Tequila itself does not know
pub const TQ_ATTR_SHA1: &'static str = "sha1";

pub const TQ_ATTR_SHA256: &'static str = "sha256";

/// One attribute of an XML element.
#[derive(Debug, Clone)]
pub struct XmlAttribute {
    /// URI of the attribute's namespace, if it has one.
    pub namespace: Option<String>,
    /// Local name.
    pub name: String,
    /// Value, with entities resolved.
    pub value: String,
}

/// One node of an XML document: the root, an element, a text, a comment or a
/// processing instruction.
#[derive(Debug, Clone)]
pub struct XmlNode {
    /// Position of the parent in the table; `None` for the root.
    pub parent: Option<usize>,
    /// Whether the node is an element.
    pub element: bool,
    /// Local tag name; empty unless the node is an element.
    pub tag: String,
    /// For an element, the text it begins with; for a text or a comment, its own.
    pub text: Option<String>,
    /// Attributes, in document order.
    pub attributes: Vec<XmlAttribute>,
}

/// What an `XmlAttribute` holds.
pub struct AttributeModel {
    pub namespace: Option<Seq<char>>,
    pub name: Seq<char>,
    pub value: Seq<char>,
}

/// What an `XmlNode` holds.
pub struct NodeModel {
    pub parent: Option<usize>,
    pub element: bool,
    pub tag: Seq<char>,
    pub text: Option<Seq<char>>,
    pub attributes: Seq<AttributeModel>,
}

impl View for XmlAttribute {
    type V = AttributeModel;

    open spec fn view(&self) -> AttributeModel {
        AttributeModel { namespace: text_of(self.namespace), name: self.name@, value: self.value@ }
    }
}

/// The models of a list of attributes.
pub open spec fn attributes_of(v: Seq<XmlAttribute>) -> Seq<AttributeModel> {
    Seq::new(v.len(), |i: int| v[i]@)
}

impl View for XmlNode {
    type V = NodeModel;

    open spec fn view(&self) -> NodeModel {
        NodeModel {
            parent: self.parent,
            element: self.element,
            tag: self.tag@,
            text: text_of(self.text),
            attributes: attributes_of(self.attributes@),
        }
    }
}

/// The models of a table of nodes.
pub open spec fn nodes_of(v: Seq<XmlNode>) -> Seq<NodeModel> {
    Seq::new(v.len(), |i: int| v[i]@)
}

/// The node table of the XML document that `text` is: all its nodes in
/// document order, the root first. `None` where `text` is not well-formed XML.
pub uninterp spec fn xml_nodes(text: Seq<char>) -> Option<Seq<NodeModel>>;

/// Reads `text` with `roxmltree::Document::parse` and lists what
/// `Document::descendants` yields: every node of the document in document
/// order, starting with the root. Of each node the table keeps the position of
/// its parent (`Node::parent`; a node's id is its position in document
/// order), whether it is an element (`Node::is_element`), its local tag name
/// (`Node::tag_name`), its text (`Node::text`) and its attributes
/// (`Node::attributes`). The parse fails exactly where `roxmltree` rejects the
/// text, and its outcome depends on the text alone.
#[verifier::external_body]
fn read_nodes(text: &str) -> (r: Result<Vec<XmlNode>, roxmltree::Error>)
    ensures
        match r {
            Ok(nodes) => xml_nodes(text@) == Some(nodes_of(nodes@)),
            Err(_) => xml_nodes(text@) is None,
        },
{
    let doc = roxmltree::Document::parse(text)?;
    Ok(doc.descendants().map(|n| XmlNode {
        parent: n.parent().map(|p| p.id().get_usize()),
        element: n.is_element(),
        tag: n.tag_name().name().to_owned(),
        text: n.text().map(String::from),
        attributes: n.attributes().iter().map(|a| XmlAttribute {
            namespace: a.namespace().map(String::from),
            name: a.name().to_owned(),
            value: a.value().to_owned(),
        }).collect(),
    }).collect())
}

/// The value of the first attribute among `attrs` that has no namespace and
/// the name `name`.
pub open spec fn attribute_in(attrs: Seq<AttributeModel>, name: Seq<char>) -> Option<Seq<char>>
    decreases attrs.len(),
{
    if attrs.len() == 0 {
        None
    } else if attrs[0].namespace is None && attrs[0].name == name {
        Some(attrs[0].value)
    } else {
        attribute_in(attrs.drop_first(), name)
    }
}

/// Looks an attribute of `node` up by its name.
pub fn attribute<'a>(node: &'a XmlNode, name: &str) -> (r: Option<&'a str>)
    ensures
        slice_text_of(r) == attribute_in(node@.attributes, name@),
{
    let ghost attrs = node@.attributes;
    assert(attrs.skip(0) =~= attrs);
    let mut i: usize = 0;
    while i < node.attributes.len()
        invariant
            i <= node.attributes@.len(),
            attrs == node@.attributes,
            attribute_in(attrs, name@) == attribute_in(attrs.skip(i as int), name@),
        decreases node.attributes@.len() - i,
    {
        let a = &node.attributes[i];
        assert(attrs.skip(i as int).drop_first() =~= attrs.skip(i + 1));
        if a.namespace.is_none() && same_text(a.name.as_str(), name) {
            return Some(a.value.as_str());
        }
        i += 1;
    }
    None
}

/// Whether node `j` of the table is a child of node `p`.
pub open spec fn is_child(nodes: Seq<NodeModel>, j: int, p: usize) -> bool {
    0 <= j < nodes.len() && nodes[j].parent == Some(p)
}

/// Whether node `j` is an element with the tag `tag` under node `p`.
pub open spec fn is_child_element(nodes: Seq<NodeModel>, j: int, p: usize, tag: Seq<char>) -> bool {
    is_child(nodes, j, p) && nodes[j].element && nodes[j].tag == tag
}

/// The first child of node `p` at or after position `from`.
pub open spec fn first_child_from(nodes: Seq<NodeModel>, p: usize, from: int) -> Option<int>
    decreases nodes.len() - from,
{
    if from < 0 || from >= nodes.len() {
        None
    } else if is_child(nodes, from, p) {
        Some(from)
    } else {
        first_child_from(nodes, p, from + 1)
    }
}

/// An unsigned number written in an attribute, if the attribute is there and
/// writes one that is at most `max`.
pub open spec fn number_in(attrs: Seq<AttributeModel>, name: Seq<char>, max: nat) -> Option<nat> {
    match attribute_in(attrs, name) {
        Some(v) => bounded_value(v, max),
        None => None,
    }
}

/// The profile that a `launch` element describes, or the name of what it
/// lacks: the `exec` attribute first, then the text that names the profile.
pub open spec fn launch_profile(node: NodeModel) -> Result<ProfileModel, Seq<char>> {
    match attribute_in(node.attributes, TQ_ATTR_EXEC@) {
        None => Err(TQ_ATTR_EXEC@),
        Some(executable) => match node.text {
            None => Err(TQ_ATTR_NAME@),
            Some(name) => Ok(
                ProfileModel {
                    name,
                    executable: slashes_forward(executable),
                    order: match number_in(node.attributes, TQ_ATTR_ORDER@, u8::MAX as nat) {
                        Some(v) => Some(v as u8),
                        None => None,
                    },
                    params: attribute_in(node.attributes, TQ_ATTR_PARAMS@),
                    icon: attribute_in(node.attributes, TQ_ATTR_ICON@),
                    architecture: attribute_in(node.attributes, TQ_ATTR_ARCH@),
                },
            ),
        },
    }
}

/// The profiles that the first `n` nodes of the table add under the
/// `profiles` element `p`: one for each `launch` element among its children,
/// in document order. The first `launch` that lacks something fails the lot.
pub open spec fn profiles_upto(nodes: Seq<NodeModel>, p: usize, n: int) -> Result<
    Seq<ProfileModel>,
    Seq<char>,
>
    decreases n,
{
    if n <= 0 {
        Ok(Seq::empty())
    } else {
        match profiles_upto(nodes, p, n - 1) {
            Err(e) => Err(e),
            Ok(found) => if is_child_element(nodes, n - 1, p, TQ_TAG_LAUNCH@) {
                match launch_profile(nodes[n - 1]) {
                    Ok(profile) => Ok(found.push(profile)),
                    Err(e) => Err(e),
                }
            } else {
                Ok(found)
            },
        }
    }
}

/// The mirrors that the first `n` nodes of the table add under the `file`
/// element `f`: the text of each `url` child that has one, in document order.
pub open spec fn mirrors_upto(nodes: Seq<NodeModel>, f: usize, n: int) -> Seq<Seq<char>>
    decreases n,
{
    if n <= 0 {
        Seq::empty()
    } else {
        let found = mirrors_upto(nodes, f, n - 1);
        if is_child(nodes, n - 1, f) && nodes[n - 1].tag == TQ_TAG_URL@ {
            match nodes[n - 1].text {
                Some(url) => found.push(url),
                None => found,
            }
        } else {
            found
        }
    }
}

/// The size that a node states, if it states one that fits in 64 bits.
pub open spec fn stated_size(node: NodeModel) -> Option<u64> {
    match number_in(node.attributes, TQ_ATTR_SIZE@, u64::MAX as nat) {
        Some(v) => Some(v as u64),
        None => None,
    }
}

/// Whether node `j` under the `filelist` element `p` stands for a file to
/// patch: a `file` element that does not state the size 0. In Tequila a size of
/// 0 asks for the file to be deleted; no file is deleted on a manifest's word,
/// so such an entry is passed over.
pub open spec fn is_file_entry(nodes: Seq<NodeModel>, j: int, p: usize) -> bool {
    is_child_element(nodes, j, p, TQ_TAG_FILE@) && stated_size(nodes[j]) != Some(0u64)
}

/// The file that the `file` element at position `j` describes, or the name
/// of what it lacks.
pub open spec fn file_entry(nodes: Seq<NodeModel>, j: int) -> Result<FileModel, Seq<char>> {
    let node = nodes[j];
    match attribute_in(node.attributes, TQ_ATTR_NAME@) {
        None => Err(TQ_ATTR_NAME@),
        Some(path) => Ok(
            FileModel {
                path: slashes_forward(path),
                mirrors: mirrors_upto(nodes, j as usize, nodes.len() as int),
                size: stated_size(node),
                md5: attribute_in(node.attributes, TQ_ATTR_MD5@),
                sha1: attribute_in(node.attributes, TQ_ATTR_SHA1@),
                sha256: attribute_in(node.attributes, TQ_ATTR_SHA256@),
            },
        ),
    }
}

/// The files that the first `n` nodes of the table add under the `filelist`
/// element `p`, in document order. The first entry that lacks its name fails
/// the lot.
pub open spec fn files_upto(nodes: Seq<NodeModel>, p: usize, n: int) -> Result<
    Seq<FileModel>,
    Seq<char>,
>
    decreases n,
{
    if n <= 0 {
        Ok(Seq::empty())
    } else {
        match files_upto(nodes, p, n - 1) {
            Err(e) => Err(e),
            Ok(found) => if is_file_entry(nodes, n - 1, p) {
                match file_entry(nodes, n - 1) {
                    Ok(file) => Ok(found.push(file)),
                    Err(e) => Err(e),
                }
            } else {
                Ok(found)
            },
        }
    }
}

/// The forum address under the `forums` element `p`: the `url` attribute of
/// its first child with the tag `forum`, looked for at or after `from`.
pub open spec fn forum_from(nodes: Seq<NodeModel>, p: usize, from: int) -> Option<Seq<char>>
    decreases nodes.len() - from,
{
    if from < 0 || from >= nodes.len() {
        None
    } else if is_child(nodes, from, p) && nodes[from].tag == TQ_TAG_FORUM@ {
        attribute_in(nodes[from].attributes, TQ_ATTR_URL@)
    } else {
        forum_from(nodes, p, from + 1)
    }
}

/// The manifest that holds nothing yet.
pub open spec fn blank_manifest() -> ManifestModel {
    ManifestModel {
        version: VERSION@,
        label: DEFAULT_LABEL@,
        webpage: None,
        forums: None,
        discord: None,
        rss: None,
        poster_image: None,
        profiles: Seq::empty(),
        files: Seq::empty(),
    }
}

/// What the element at position `j` adds to the manifest read so far.
/// Elements with an unknown tag add nothing.
pub open spec fn with_entry(nodes: Seq<NodeModel>, so_far: ManifestModel, j: int) -> Result<
    ManifestModel,
    Seq<char>,
> {
    let node = nodes[j];
    let len = nodes.len() as int;
    if node.tag == TQ_TAG_PROFILES@ {
        match profiles_upto(nodes, j as usize, len) {
            Ok(found) => Ok(ManifestModel { profiles: so_far.profiles + found, ..so_far }),
            Err(e) => Err(e),
        }
    } else if node.tag == TQ_TAG_FILELIST@ {
        match files_upto(nodes, j as usize, len) {
            Ok(found) => Ok(ManifestModel { files: so_far.files + found, ..so_far }),
            Err(e) => Err(e),
        }
    } else if node.tag == TQ_TAG_FORUMS@ {
        Ok(ManifestModel { forums: forum_from(nodes, j as usize, 0), ..so_far })
    } else if node.tag == TQ_TAG_LABEL@ {
        match node.text {
            Some(label) => Ok(ManifestModel { label, ..so_far }),
            None => Err(TQ_TAG_LABEL@),
        }
    } else if node.tag == TQ_TAG_WEBPAGE@ {
        Ok(ManifestModel { webpage: node.text, ..so_far })
    } else if node.tag == TQ_TAG_POSTER@ {
        Ok(ManifestModel { poster_image: attribute_in(node.attributes, TQ_ATTR_URL@), ..so_far })
    } else if node.tag == TQ_TAG_DISCORD@ {
        Ok(ManifestModel { discord: node.text, ..so_far })
    } else if node.tag == TQ_TAG_RSS@ {
        Ok(ManifestModel { rss: node.text, ..so_far })
    } else {
        Ok(so_far)
    }
}

/// The manifest that the first `n` nodes of the table make under the
/// `manifest` element `m`: each element among its children adds its part, in
/// document order, and the first failure fails the lot.
pub open spec fn manifest_upto(nodes: Seq<NodeModel>, m: usize, n: int) -> Result<
    ManifestModel,
    Seq<char>,
>
    decreases n,
{
    if n <= 0 {
        Ok(blank_manifest())
    } else {
        match manifest_upto(nodes, m, n - 1) {
            Err(e) => Err(e),
            Ok(so_far) => if is_child(nodes, n - 1, m) && nodes[n - 1].element {
                with_entry(nodes, so_far, n - 1)
            } else {
                Ok(so_far)
            },
        }
    }
}

/// The manifest that a table of nodes describes, or the name of the first
/// required value that it lacks. The first child of the root (node 0) has to
/// be the `manifest` element.
pub open spec fn manifest_in(nodes: Seq<NodeModel>) -> Result<ManifestModel, Seq<char>> {
    match first_child_from(nodes, 0, 0) {
        None => Err(TQ_TAG_MANIFEST@),
        Some(m) => if nodes[m].element && nodes[m].tag == TQ_TAG_MANIFEST@ {
            manifest_upto(nodes, m as usize, nodes.len() as int)
        } else {
            Err(TQ_TAG_MANIFEST@)
        },
    }
}

/// Whether a result of reading says what the model of the reading says: the
/// same manifest, or the same missing value.
pub open spec fn reads_as(r: Result<Manifest, ManifestError>, m: Result<ManifestModel, Seq<char>>) -> bool {
    match r {
        Ok(manifest) => m == Ok::<ManifestModel, Seq<char>>(manifest@),
        Err(ManifestError::MissingRequiredValue(name)) => m == Err::<ManifestModel, Seq<char>>(
            name@,
        ),
        Err(_) => false,
    }
}

/// Whether an error says that the value called `name` is missing.
pub open spec fn is_missing(e: ManifestError, name: Seq<char>) -> bool {
    e matches ManifestError::MissingRequiredValue(n) && n@ == name
}

/// Once the profiles have failed, more nodes do not mend them.
pub proof fn lemma_profiles_stay_failed(nodes: Seq<NodeModel>, p: usize, n: int, m: int)
    requires
        0 <= n <= m,
        profiles_upto(nodes, p, n) is Err,
    ensures
        profiles_upto(nodes, p, m) == profiles_upto(nodes, p, n),
    decreases m - n,
{
    if n < m {
        lemma_profiles_stay_failed(nodes, p, n, m - 1);
    }
}

/// Once the files have failed, more nodes do not mend them.
pub proof fn lemma_files_stay_failed(nodes: Seq<NodeModel>, p: usize, n: int, m: int)
    requires
        0 <= n <= m,
        files_upto(nodes, p, n) is Err,
    ensures
        files_upto(nodes, p, m) == files_upto(nodes, p, n),
    decreases m - n,
{
    if n < m {
        lemma_files_stay_failed(nodes, p, n, m - 1);
    }
}

/// Once the manifest has failed, more nodes do not mend it.
pub proof fn lemma_manifest_stays_failed(nodes: Seq<NodeModel>, root: usize, n: int, m: int)
    requires
        0 <= n <= m,
        manifest_upto(nodes, root, n) is Err,
    ensures
        manifest_upto(nodes, root, m) == manifest_upto(nodes, root, n),
    decreases m - n,
{
    if n < m {
        lemma_manifest_stays_failed(nodes, root, n, m - 1);
    }
}

/// Tests whether `node` hangs under the node at position `p`.
fn hangs_under(node: &XmlNode, p: usize) -> (r: bool)
    ensures
        r == (node@.parent == Some(p)),
{
    match node.parent {
        Some(q) => q == p,
        None => false,
    }
}

/// Reads the unsigned number that an attribute of `node` writes.
fn number_attribute(node: &XmlNode, name: &str, max: u64) -> (r: Option<u64>)
    ensures
        match r {
            Some(v) => number_in(node@.attributes, name@, max as nat) == Some(v as nat),
            None => number_in(node@.attributes, name@, max as nat) is None,
        },
{
    match attribute(node, name) {
        Some(v) => parse_unsigned(v, max),
        None => None,
    }
}

/// Reads the profile that a `launch` element describes.
fn read_launch(node: &XmlNode) -> (r: Result<ManifestProfile, ManifestError>)
    ensures
        match r {
            Ok(profile) => launch_profile(node@) matches Ok(m) && m == profile@,
            Err(e) => launch_profile(node@) matches Err(name) && is_missing(e, name),
        },
{
    let executable = match attribute(node, TQ_ATTR_EXEC) {
        // Standardizes the occasional backslash in file paths
        Some(v) => forward_slashes(v),
        None => {
            return Err(ManifestError::MissingRequiredValue(TQ_ATTR_EXEC));
        },
    };
    let name = match &node.text {
        Some(t) => t.clone(),
        None => {
            return Err(ManifestError::MissingRequiredValue(TQ_ATTR_NAME));
        },
    };
    let order = match number_attribute(node, TQ_ATTR_ORDER, 255) {
        Some(v) => Some(v as u8),
        None => None,
    };
    Ok(
        ManifestProfile {
            executable,
            name,
            params: owned_text(attribute(node, TQ_ATTR_PARAMS)),
            icon: owned_text(attribute(node, TQ_ATTR_ICON)),
            order,
            architecture: owned_text(attribute(node, TQ_ATTR_ARCH)),
        },
    )
}

/// Parses a Tequila XML <profiles> tree, adding profile data to the `manifest`.
/// On failure the manifest is left as it was.
pub fn parse_profiles(nodes: &Vec<XmlNode>, profiles: usize, manifest: &mut Manifest) -> (r: Result<
    (),
    ManifestError,
>)
    ensures
        match r {
            Ok(_) => profiles_upto(nodes_of(nodes@), profiles, nodes@.len() as int) matches Ok(
                found,
            ) && final(manifest)@ == (ManifestModel {
                profiles: old(manifest)@.profiles + found,
                ..old(manifest)@
            }),
            Err(e) => profiles_upto(nodes_of(nodes@), profiles, nodes@.len() as int) matches Err(
                name,
            ) && is_missing(e, name) && final(manifest)@ == old(manifest)@,
        },
{
    let ghost table = nodes_of(nodes@);
    let mut found: Vec<ManifestProfile> = Vec::new();
    let mut j: usize = 0;
    while j < nodes.len()
        invariant
            j <= nodes@.len(),
            table == nodes_of(nodes@),
            profiles_upto(table, profiles, j as int) matches Ok(m) && m == profiles_of(found@),
        decreases nodes@.len() - j,
    {
        let node = &nodes[j];
        if hangs_under(node, profiles) && node.element && same_text(
            node.tag.as_str(),
            TQ_TAG_LAUNCH,
        ) {
            match read_launch(node) {
                Ok(profile) => {
                    found.push(profile);
                },
                Err(e) => {
                    proof {
                        lemma_profiles_stay_failed(
                            table,
                            profiles,
                            j + 1,
                            nodes@.len() as int,
                        );
                    }
                    return Err(e);
                },
            }
        }
        j += 1;
    }
    let ghost before = manifest.profiles@;
    let ghost added = found@;
    manifest.profiles.append(&mut found);
    assert(profiles_of(before + added) =~= profiles_of(before) + profiles_of(added));
    Ok(())
}

/// Reads the mirrors of the `file` element at position `file`.
fn read_mirrors(nodes: &Vec<XmlNode>, file: usize) -> (r: Vec<String>)
    ensures
        texts_of(r@) == mirrors_upto(nodes_of(nodes@), file, nodes@.len() as int),
{
    let ghost table = nodes_of(nodes@);
    let mut found: Vec<String> = Vec::new();
    let mut j: usize = 0;
    while j < nodes.len()
        invariant
            j <= nodes@.len(),
            table == nodes_of(nodes@),
            texts_of(found@) == mirrors_upto(table, file, j as int),
        decreases nodes@.len() - j,
    {
        let node = &nodes[j];
        if hangs_under(node, file) && same_text(node.tag.as_str(), TQ_TAG_URL) {
            match &node.text {
                Some(url) => {
                    found.push(url.clone());
                },
                None => (),
            }
        }
        j += 1;
    }
    found
}

/// Reads the size that a node states.
fn read_size(node: &XmlNode) -> (r: Option<u64>)
    ensures
        r == stated_size(node@),
{
    number_attribute(node, TQ_ATTR_SIZE, u64::MAX)
}

/// Reads the file that the `file` element at position `j` describes.
fn read_file(nodes: &Vec<XmlNode>, j: usize) -> (r: Result<ManifestFile, ManifestError>)
    requires
        j < nodes@.len(),
    ensures
        match r {
            Ok(file) => file_entry(nodes_of(nodes@), j as int) matches Ok(m) && m == file@,
            Err(e) => file_entry(nodes_of(nodes@), j as int) matches Err(name) && is_missing(
                e,
                name,
            ),
        },
{
    let node = &nodes[j];
    let path = match attribute(node, TQ_ATTR_NAME) {
        // Standardizes the occasional backslash in file paths
        Some(v) => forward_slashes(v),
        None => {
            return Err(ManifestError::MissingRequiredValue(TQ_ATTR_NAME));
        },
    };
    Ok(
        ManifestFile {
            path,
            mirrors: read_mirrors(nodes, j),
            size: read_size(node),
            md5: owned_text(attribute(node, TQ_ATTR_MD5)),
            sha1: owned_text(attribute(node, TQ_ATTR_SHA1)),
            sha256: owned_text(attribute(node, TQ_ATTR_SHA256)),
        },
    )
}

/// Parses a Tequila XML <filelist> tree, adding file data to the `manifest`.
/// On failure the manifest is left as it was.
pub fn parse_filelist(nodes: &Vec<XmlNode>, filelist: usize, manifest: &mut Manifest) -> (r: Result<
    (),
    ManifestError,
>)
    ensures
        match r {
            Ok(_) => files_upto(nodes_of(nodes@), filelist, nodes@.len() as int) matches Ok(found)
                && final(manifest)@ == (ManifestModel {
                files: old(manifest)@.files + found,
                ..old(manifest)@
            }),
            Err(e) => files_upto(nodes_of(nodes@), filelist, nodes@.len() as int) matches Err(name)
                && is_missing(e, name) && final(manifest)@ == old(manifest)@,
        },
{
    let ghost table = nodes_of(nodes@);
    let mut found: Vec<ManifestFile> = Vec::new();
    let mut j: usize = 0;
    while j < nodes.len()
        invariant
            j <= nodes@.len(),
            table == nodes_of(nodes@),
            files_upto(table, filelist, j as int) matches Ok(m) && m == files_of(found@),
        decreases nodes@.len() - j,
    {
        let node = &nodes[j];
        if hangs_under(node, filelist) && node.element {
            let size = read_size(node);
            // Size = 0 is used as a delete flag in vanilla Tequila. For security reasons,
            // no file is deleted that was not first downloaded, so 0-size files are skipped.
            let flagged = match size {
                Some(n) => n == 0,
                None => false,
            };
            if !flagged && same_text(node.tag.as_str(), TQ_TAG_FILE) {
                match read_file(nodes, j) {
                    Ok(file) => {
                        found.push(file);
                    },
                    Err(e) => {
                        proof {
                            lemma_files_stay_failed(table, filelist, j + 1, nodes@.len() as int);
                        }
                        return Err(e);
                    },
                }
            }
        }
        j += 1;
    }
    let ghost before = manifest.files@;
    let ghost added = found@;
    manifest.files.append(&mut found);
    assert(files_of(before + added) =~= files_of(before) + files_of(added));
    Ok(())
}

/// Parses a Tequila XML <forums> tree, adding the forum address to the `manifest`.
/// Multiple forum URLs are not supported, so any entries after the first child are silently dropped.
pub fn parse_forums(nodes: &Vec<XmlNode>, forums: usize, manifest: &mut Manifest)
    ensures
        final(manifest)@ == (ManifestModel {
            forums: forum_from(nodes_of(nodes@), forums, 0),
            ..old(manifest)@
        }),
{
    let ghost table = nodes_of(nodes@);
    let mut j: usize = 0;
    while j < nodes.len()
        invariant
            j <= nodes@.len(),
            table == nodes_of(nodes@),
            manifest@ == old(manifest)@,
            forum_from(table, forums, 0) == forum_from(table, forums, j as int),
        decreases nodes@.len() - j,
    {
        let node = &nodes[j];
        if hangs_under(node, forums) && same_text(node.tag.as_str(), TQ_TAG_FORUM) {
            manifest.forums = owned_text(attribute(node, TQ_ATTR_URL));
            return ;
        }
        j += 1;
    }
    manifest.forums = None;
}

/// Finds the first child of the root of the table.
fn first_child_of_root(nodes: &Vec<XmlNode>) -> (r: Option<usize>)
    ensures
        match r {
            Some(m) => first_child_from(nodes_of(nodes@), 0, 0) == Some(m as int) && m
                < nodes@.len(),
            None => first_child_from(nodes_of(nodes@), 0, 0) is None,
        },
{
    let ghost table = nodes_of(nodes@);
    let mut j: usize = 0;
    while j < nodes.len()
        invariant
            j <= nodes@.len(),
            table == nodes_of(nodes@),
            first_child_from(table, 0, 0) == first_child_from(table, 0, j as int),
        decreases nodes@.len() - j,
    {
        if hangs_under(&nodes[j], 0) {
            return Some(j);
        }
        j += 1;
    }
    None
}

/// Adds to `manifest` what the element at position `j` says.
fn read_entry(nodes: &Vec<XmlNode>, j: usize, manifest: &mut Manifest) -> (r: Result<
    (),
    ManifestError,
>)
    requires
        j < nodes@.len(),
    ensures
        match r {
            Ok(_) => with_entry(nodes_of(nodes@), old(manifest)@, j as int) matches Ok(m) && m
                == final(manifest)@,
            Err(e) => with_entry(nodes_of(nodes@), old(manifest)@, j as int) matches Err(name)
                && is_missing(e, name),
        },
{
    let node = &nodes[j];
    let tag = node.tag.as_str();
    if same_text(tag, TQ_TAG_PROFILES) {
        parse_profiles(nodes, j, manifest)
    } else if same_text(tag, TQ_TAG_FILELIST) {
        parse_filelist(nodes, j, manifest)
    } else if same_text(tag, TQ_TAG_FORUMS) {
        parse_forums(nodes, j, manifest);
        Ok(())
    } else if same_text(tag, TQ_TAG_LABEL) {
        match &node.text {
            Some(label) => {
                manifest.label = label.clone();
                Ok(())
            },
            None => Err(ManifestError::MissingRequiredValue(TQ_TAG_LABEL)),
        }
    } else if same_text(tag, TQ_TAG_WEBPAGE) {
        manifest.webpage = node.text.clone();
        Ok(())
    } else if same_text(tag, TQ_TAG_POSTER) {
        manifest.poster_image = owned_text(attribute(node, TQ_ATTR_URL));
        Ok(())
    } else if same_text(tag, TQ_TAG_DISCORD) {
        manifest.discord = node.text.clone();
        Ok(())
    } else if same_text(tag, TQ_TAG_RSS) {
        manifest.rss = node.text.clone();
        Ok(())
    } else {
        Ok(())
    }
}

/// Builds the manifest that a table of XML nodes describes. A Tequila
/// manifest has one root element named `manifest`; of its children the known
/// elements are read in document order, and unknown or unused ones are
/// silently discarded.
pub fn manifest_from_nodes(nodes: &Vec<XmlNode>) -> (r: Result<Manifest, ManifestError>)
    ensures
        reads_as(r, manifest_in(nodes_of(nodes@))),
{
    let ghost table = nodes_of(nodes@);
    let root = match first_child_of_root(nodes) {
        Some(m) => m,
        None => {
            return Err(ManifestError::MissingRequiredValue(TQ_TAG_MANIFEST));
        },
    };
    if !nodes[root].element || !same_text(nodes[root].tag.as_str(), TQ_TAG_MANIFEST) {
        return Err(ManifestError::MissingRequiredValue(TQ_TAG_MANIFEST));
    }
    // Init base return object
    let mut manifest = Manifest {
        version: String::from_str(VERSION),
        label: String::from_str(DEFAULT_LABEL),
        profiles: Vec::new(),
        files: Vec::new(),
        webpage: None,
        forums: None,
        poster_image: None,
        discord: None,
        rss: None,
    };
    assert(manifest@ =~= blank_manifest()) by {
        assert(manifest@.profiles =~= Seq::<ProfileModel>::empty());
        assert(manifest@.files =~= Seq::<FileModel>::empty());
    }
    let mut j: usize = 0;
    while j < nodes.len()
        invariant
            j <= nodes@.len(),
            table == nodes_of(nodes@),
            manifest_in(table) == manifest_upto(table, root, nodes@.len() as int),
            manifest_upto(table, root, j as int) matches Ok(m) && m == manifest@,
        decreases nodes@.len() - j,
    {
        let node = &nodes[j];
        if hangs_under(node, root) && node.element {
            match read_entry(nodes, j, &mut manifest) {
                Ok(_) => (),
                Err(e) => {
                    proof {
                        lemma_manifest_stays_failed(table, root, j + 1, nodes@.len() as int);
                    }
                    return Err(e);
                },
            }
        }
        j += 1;
    }
    Ok(manifest)
}

/// Deserializes the contents of a Tequila XML (`tq-xml`) manifest file, returning a `Manifest`.
/// Note that tq_xml does not support re-serialization, but deserialized XML manifests may be output through other serializers.
/// # Arguments
/// * `manifest` - A string slice containing the manifest file contents
pub fn deserialize_manifest(manifest: &str) -> (r: Result<Manifest, ManifestError>)
    ensures
        match xml_nodes(manifest@) {
            Some(nodes) => reads_as(r, manifest_in(nodes)),
            None => r matches Err(ManifestError::InvalidXML(_)),
        },
{
    match read_nodes(manifest) {
        Ok(nodes) => manifest_from_nodes(&nodes),
        Err(e) => Err(ManifestError::InvalidXML(e)),
    }
}

} // verus!
