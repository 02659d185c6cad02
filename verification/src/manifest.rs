//! The signature record that a pack manifest carries under
//! `[greentic.signature]`: finding the manifest, reading the record, writing
//! it, and the manifest's content with the record taken out.

use crate::clock::format_rfc3339;
use crate::clock::parse_rfc3339;
use crate::clock::rfc3339_instant;
use crate::clock::rfc3339_text;
use crate::clock::Timestamp;
use crate::document::is_table;
use crate::document::list_items;
use crate::document::new_table;
use crate::document::parse_document;
use crate::document::render;
use crate::document::render_pretty;
use crate::document::scalar_text;
use crate::document::table_get;
use crate::document::table_insert;
use crate::document::table_is_empty;
use crate::document::table_remove;
use crate::document::text_of;
use crate::document::text_value;
use crate::document::toml_parsed;
use crate::document::toml_rendered;
use crate::document::toml_rendered_pretty;
use crate::document::tree_of;
use crate::document::Tree;
use crate::encoding::base64url_decode;
use crate::encoding::base64url_decoded;
use crate::paths::parts_view;
use crate::paths::PartView;
use crate::paths::PathPart;
use crate::snapshot::ManifestSource;
use crate::snapshot::ManifestSourceView;
use crate::snapshot::PackDirectory;
use crate::text::eq_ignore_ascii_case;
use crate::text::same_ignoring_ascii_case;
use crate::text::str_eq;
use vstd::prelude::*;
use vstd::string::StrSliceExecFns;
use vstd::utf8::encode_utf8;

verus! {

/// The signature record of a pack.
#[derive(Debug, Clone, PartialEq, Eq)]
pub struct PackSignature {
    /// `ed25519`, or `none` for an unsigned pack that was let through.
    pub alg: String,
    /// Which key signed.
    pub key_id: String,
    /// When the signature was made.
    pub created_at: Timestamp,
    /// `sha256:` and the digest of the canonical bytes in hexadecimal.
    pub digest: String,
    /// The signature in URL-safe base64 without padding.
    pub sig: String,
}

/// A signature record with its texts as sequences of characters.
pub struct SignatureView {
    pub alg: Seq<char>,
    pub key_id: Seq<char>,
    pub created_at: Timestamp,
    pub digest: Seq<char>,
    pub sig: Seq<char>,
}

impl View for PackSignature {
    type V = SignatureView;

    open spec fn view(&self) -> SignatureView {
        SignatureView {
            alg: self.alg@,
            key_id: self.key_id@,
            created_at: self.created_at,
            digest: self.digest@,
            sig: self.sig@,
        }
    }
}

/// Whether an algorithm name is `ed25519` in any mix of upper and lower case.
pub open spec fn is_ed25519(alg: Seq<char>) -> bool {
    same_ignoring_ascii_case(encode_utf8(alg), encode_utf8("ed25519"@))
}

/// The algorithms of the shared signature type.
#[derive(Debug, Clone, Copy, PartialEq, Eq)]
pub enum SignatureAlgorithm {
    Ed25519,
}

/// A signature with its bytes decoded, as other packages exchange it.
#[derive(Debug, PartialEq, Eq)]
pub struct SharedSignature {
    pub key_id: String,
    pub algorithm: SignatureAlgorithm,
    pub signature: Vec<u8>,
}

/// Why a record has no shared form.
#[derive(Debug, Clone, Copy, PartialEq, Eq)]
pub enum SharedSignatureError {
    /// The algorithm is not `ed25519`.
    UnsupportedAlgorithm,
    /// The signature text is not URL-safe base64 without padding.
    InvalidEncoding,
}

impl PackSignature {
    /// A copy of the record.
    pub fn duplicate(&self) -> (copy: PackSignature)
        ensures
            copy@ == self@,
    {
        PackSignature {
            alg: self.alg.clone(),
            key_id: self.key_id.clone(),
            created_at: self.created_at,
            digest: self.digest.clone(),
            sig: self.sig.clone(),
        }
    }

    /// Converts this record into the shared form, with the signature decoded.
    pub fn to_shared(&self) -> (out: Result<SharedSignature, SharedSignatureError>)
        ensures
            !is_ed25519(self.alg@) ==> out == Err::<SharedSignature, _>(
                SharedSignatureError::UnsupportedAlgorithm,
            ),
            is_ed25519(self.alg@) && base64url_decoded(self.sig@) is None ==> out == Err::<
                SharedSignature,
                _,
            >(SharedSignatureError::InvalidEncoding),
            is_ed25519(self.alg@) && base64url_decoded(self.sig@) is Some ==> out is Ok
                && out->Ok_0.key_id@ == self.key_id@ && out->Ok_0.algorithm
                == SignatureAlgorithm::Ed25519 && out->Ok_0.signature@ == base64url_decoded(
                self.sig@,
            )->0,
    {
        if !eq_ignore_ascii_case(self.alg.as_str(), "ed25519") {
            return Err(SharedSignatureError::UnsupportedAlgorithm);
        }
        match base64url_decode(self.sig.as_str()) {
            Ok(raw) => Ok(
                SharedSignature {
                    key_id: self.key_id.clone(),
                    algorithm: SignatureAlgorithm::Ed25519,
                    signature: raw,
                },
            ),
            Err(_) => Err(SharedSignatureError::InvalidEncoding),
        }
    }
}

/// Why the manifest could not be used.
#[derive(Debug, Clone, Copy, PartialEq, Eq)]
pub enum ManifestError {
    /// The pack root holds no file with a manifest's name.
    NotFound,
    /// The manifest could not be read as text.
    Unreadable,
    /// The manifest is not TOML.
    Parse,
    /// The document cannot be written as TOML.
    Serialize,
    /// The document is not a table.
    NotATable,
    /// `greentic` is there and is not a table.
    SectionNotTable,
    /// `greentic.signature` is there and is no signature record.
    SignatureBlock,
    /// The record's time has no RFC 3339 text.
    TimestampFormat,
}

/// Whether a file name is one of the names a manifest goes by.
pub open spec fn is_manifest_name(name: Seq<char>) -> bool {
    name == "pack.toml"@ || name == "greentic-pack.toml"@
}

/// The manifest among `present`: `pack.toml` before `greentic-pack.toml`.
pub open spec fn first_candidate(present: Seq<Seq<char>>) -> Option<Seq<char>> {
    if present.contains("pack.toml"@) {
        Some("pack.toml"@)
    } else if present.contains("greentic-pack.toml"@) {
        Some("greentic-pack.toml"@)
    } else {
        None
    }
}

fn holds_name(present: &Vec<String>, name: &str) -> (found: bool)
    ensures
        found == present.deep_view().contains(name@),
{
    let mut i: usize = 0;
    while i < present.len()
        invariant
            i <= present@.len(),
            forall|k: int| 0 <= k < i ==> present.deep_view()[k] != name@,
        decreases present@.len() - i,
    {
        if str_eq(present[i].as_str(), name) {
            assert(present.deep_view()[i as int] == name@);
            return true;
        }
        i += 1;
    }
    false
}

/// Picks the manifest among the names that exist in the pack root: the first
/// of the recognised names, in their fixed order, that is there.
pub fn find_manifest_path(present: &Vec<String>) -> (found: Option<String>)
    ensures
        match found {
            Some(name) => first_candidate(present.deep_view()) == Some(name@),
            None => first_candidate(present.deep_view()) is None,
        },
{
    if holds_name(present, "pack.toml") {
        Some("pack.toml".to_owned())
    } else if holds_name(present, "greentic-pack.toml") {
        Some("greentic-pack.toml".to_owned())
    } else {
        None
    }
}

/// As `find_manifest_path`, with the lack of a manifest as an error.
pub fn manifest_path(present: &Vec<String>) -> (found: Result<String, ManifestError>)
    ensures
        match found {
            Ok(name) => first_candidate(present.deep_view()) == Some(name@),
            Err(e) => first_candidate(present.deep_view()) is None && e == ManifestError::NotFound,
        },
{
    match find_manifest_path(present) {
        Some(name) => Ok(name),
        None => Err(ManifestError::NotFound),
    }
}

/// Whether a path below the pack root is that of a manifest: one ordinary
/// component, with a manifest's name. A file of that name further down is a
/// file like any other.
pub open spec fn is_root_manifest(path: Seq<PartView>) -> bool {
    path.len() == 1 && path[0] is Normal && is_manifest_name(path[0]->Normal_0)
}

/// Whether a path below the pack root is that of the pack's manifest: a file
/// with a manifest's name in the root itself.
pub fn is_pack_manifest_path(path: &Vec<PathPart>) -> (b: bool)
    ensures
        b == is_root_manifest(parts_view(path@)),
{
    if path.len() != 1 {
        return false;
    }
    match &path[0] {
        PathPart::Normal(name) => {
            str_eq(name.as_str(), "pack.toml") || str_eq(name.as_str(), "greentic-pack.toml")
        },
        _ => false,
    }
}

/// A document with the signature record taken out of its `greentic` table,
/// and that table too where nothing else is in it.
pub open spec fn stripped(doc: Tree) -> Tree {
    match doc {
        Tree::Table(root) => {
            if root.contains_key("greentic"@) && root["greentic"@] is Table {
                let rest = root["greentic"@]->Table_0.remove("signature"@);
                if rest == Map::<Seq<char>, Tree>::empty() {
                    Tree::Table(root.remove("greentic"@))
                } else {
                    Tree::Table(root.insert("greentic"@, Tree::Table(rest)))
                }
            } else {
                doc
            }
        },
        _ => doc,
    }
}

/// Takes the signature record out of a document.
pub fn strip_signature(doc: &mut toml::Value)
    ensures
        tree_of(*final(doc)) == stripped(tree_of(*old(doc))),
{
    if !is_table(doc) {
        return ;
    }
    let ghost root = tree_of(*doc)->Table_0;
    match table_remove(doc, "greentic") {
        None => {
            assert(root.remove("greentic"@) =~= root);
        },
        Some(section) => {
            let mut section = section;
            if is_table(&section) {
                let ghost before = tree_of(section)->Table_0;
                table_remove(&mut section, "signature");
                if !table_is_empty(&section) {
                    table_insert(doc, "greentic", section);
                    assert(root.remove("greentic"@).insert(
                        "greentic"@,
                        Tree::Table(before.remove("signature"@)),
                    ) =~= root.insert("greentic"@, Tree::Table(before.remove("signature"@))));
                }
            } else {
                table_insert(doc, "greentic", section);
                assert(root.remove("greentic"@).insert("greentic"@, root["greentic"@]) =~= root);
            }
        },
    }
}

/// The table that a signature record is written as, given the text of its time.
pub open spec fn record_tree(sig: SignatureView, created_at: Seq<char>) -> Tree {
    Tree::Table(
        Map::<Seq<char>, Tree>::empty().insert("alg"@, Tree::Text(sig.alg)).insert(
            "key_id"@,
            Tree::Text(sig.key_id),
        ).insert("created_at"@, Tree::Text(created_at)).insert("digest"@, Tree::Text(sig.digest)).insert(
            "sig"@,
            Tree::Text(sig.sig),
        ),
    )
}

/// A document with `record` put under `greentic.signature`, the `greentic`
/// table made where there was none. There is no such document where the
/// document or its `greentic` entry is not a table.
pub open spec fn with_record(doc: Tree, record: Tree) -> Option<Tree> {
    match doc {
        Tree::Table(root) => {
            let section = if root.contains_key("greentic"@) {
                root["greentic"@]
            } else {
                Tree::Table(Map::<Seq<char>, Tree>::empty())
            };
            match section {
                Tree::Table(entries) => Some(
                    Tree::Table(
                        root.insert("greentic"@, Tree::Table(entries.insert("signature"@, record))),
                    ),
                ),
                _ => None,
            }
        },
        _ => None,
    }
}

/// What `set_signature` makes of a document.
pub open spec fn signed_document(doc: Tree, sig: SignatureView) -> Result<Tree, ManifestError> {
    if !(doc is Table) {
        Err(ManifestError::NotATable)
    } else if doc->Table_0.contains_key("greentic"@) && !(doc->Table_0["greentic"@] is Table) {
        Err(ManifestError::SectionNotTable)
    } else {
        match rfc3339_text(sig.created_at.unix_nanos as int, sig.created_at.offset_seconds as int) {
            None => Err(ManifestError::TimestampFormat),
            Some(text) => Ok(with_record(doc, record_tree(sig, text))->0),
        }
    }
}

fn signature_value(signature: &PackSignature) -> (out: Option<toml::Value>)
    ensures
        match rfc3339_text(
            signature.created_at.unix_nanos as int,
            signature.created_at.offset_seconds as int,
        ) {
            Some(text) => out is Some && tree_of(out->0) == record_tree(signature@, text),
            None => out is None,
        },
{
    let created_at = match format_rfc3339(signature.created_at) {
        Some(text) => text,
        None => {
            return None;
        },
    };
    let mut record = new_table();
    table_insert(&mut record, "alg", text_value(signature.alg.as_str()));
    table_insert(&mut record, "key_id", text_value(signature.key_id.as_str()));
    table_insert(&mut record, "created_at", text_value(created_at.as_str()));
    table_insert(&mut record, "digest", text_value(signature.digest.as_str()));
    table_insert(&mut record, "sig", text_value(signature.sig.as_str()));
    Some(record)
}

/// Puts the record under `greentic.signature`, in place of one that is there.
/// A document that is refused stays as it was.
pub fn set_signature(doc: &mut toml::Value, signature: &PackSignature) -> (out: Result<
    (),
    ManifestError,
>)
    ensures
        match signed_document(tree_of(*old(doc)), signature@) {
            Ok(signed) => out is Ok && tree_of(*final(doc)) == signed,
            Err(e) => out == Err::<(), _>(e) && tree_of(*final(doc)) == tree_of(*old(doc)),
        },
{
    if !is_table(doc) {
        return Err(ManifestError::NotATable);
    }
    let ghost root = tree_of(*doc)->Table_0;
    let section_is_table = match table_get(doc, "greentic") {
        Some(section) => is_table(section),
        None => true,
    };
    if !section_is_table {
        return Err(ManifestError::SectionNotTable);
    }
    let record = match signature_value(signature) {
        Some(record) => record,
        None => {
            return Err(ManifestError::TimestampFormat);
        },
    };
    let mut section = match table_remove(doc, "greentic") {
        Some(section) => section,
        None => new_table(),
    };
    let ghost entries = tree_of(section)->Table_0;
    table_insert(&mut section, "signature", record);
    table_insert(doc, "greentic", section);
    proof {
        let made = Tree::Table(entries.insert("signature"@, tree_of(record)));
        assert(root.remove("greentic"@).insert("greentic"@, made) =~= root.insert("greentic"@, made));
    }
    Ok(())
}

/// The text under `key`, where the table has the key and a string or a
/// date-time stands under it.
pub open spec fn field_text(entries: Map<Seq<char>, Tree>, key: Seq<char>) -> Option<Seq<char>> {
    if entries.contains_key(key) {
        text_of(entries[key])
    } else {
        None
    }
}

/// The text at `index`, where the array reaches that far and a string or a
/// date-time stands there.
pub open spec fn item_text(items: Seq<Tree>, index: int) -> Option<Seq<char>> {
    if 0 <= index < items.len() {
        text_of(items[index])
    } else {
        None
    }
}

/// The record that five texts make: all must be there, and the third must be
/// an RFC 3339 time.
pub open spec fn record_from_texts(
    alg: Option<Seq<char>>,
    key_id: Option<Seq<char>>,
    created_at: Option<Seq<char>>,
    digest: Option<Seq<char>>,
    sig: Option<Seq<char>>,
) -> Option<SignatureView> {
    if alg is Some && key_id is Some && created_at is Some && digest is Some && sig is Some
        && rfc3339_instant(created_at->0) is Some {
        let instant = rfc3339_instant(created_at->0)->0;
        Some(
            SignatureView {
                alg: alg->0,
                key_id: key_id->0,
                created_at: Timestamp {
                    unix_nanos: instant.0 as i128,
                    offset_seconds: instant.1 as i32,
                },
                digest: digest->0,
                sig: sig->0,
            },
        )
    } else {
        None
    }
}

/// The signature record that a value stands for: a table with the five
/// fields, other keys being passed over, or an array of exactly the five
/// values in the order `alg`, `key_id`, `created_at`, `digest`, `sig`.
pub open spec fn record_of(block: Tree) -> Option<SignatureView> {
    match block {
        Tree::Table(entries) => record_from_texts(
            field_text(entries, "alg"@),
            field_text(entries, "key_id"@),
            field_text(entries, "created_at"@),
            field_text(entries, "digest"@),
            field_text(entries, "sig"@),
        ),
        Tree::List(items) => if items.len() == 5 {
            record_from_texts(
                item_text(items, 0),
                item_text(items, 1),
                item_text(items, 2),
                item_text(items, 3),
                item_text(items, 4),
            )
        } else {
            None
        },
        _ => None,
    }
}

fn field(block: &toml::Value, key: &str) -> (out: Option<String>)
    requires
        tree_of(*block) is Table,
    ensures
        match out {
            Some(s) => field_text(tree_of(*block)->Table_0, key@) == Some(s@),
            None => field_text(tree_of(*block)->Table_0, key@) is None,
        },
{
    match table_get(block, key) {
        Some(value) => scalar_text(value),
        None => None,
    }
}

fn item(items: &Vec<toml::Value>, index: usize) -> (out: Option<String>)
    ensures
        match out {
            Some(s) => item_text(items@.map_values(|x: toml::Value| tree_of(x)), index as int)
                == Some(s@),
            None => item_text(items@.map_values(|x: toml::Value| tree_of(x)), index as int) is None,
        },
{
    if index < items.len() {
        scalar_text(&items[index])
    } else {
        None
    }
}

fn record_from_parts(
    alg: Option<String>,
    key_id: Option<String>,
    created_at: Option<String>,
    digest: Option<String>,
    sig: Option<String>,
) -> (out: Option<PackSignature>)
    ensures
        match out {
            Some(record) => record_from_texts(
                spec_text(alg),
                spec_text(key_id),
                spec_text(created_at),
                spec_text(digest),
                spec_text(sig),
            ) == Some(record@),
            None => record_from_texts(
                spec_text(alg),
                spec_text(key_id),
                spec_text(created_at),
                spec_text(digest),
                spec_text(sig),
            ) is None,
        },
{
    match (alg, key_id, created_at, digest, sig) {
        (Some(alg), Some(key_id), Some(created_at), Some(digest), Some(sig)) => {
            match parse_rfc3339(created_at.as_str()) {
                Some(at) => Some(PackSignature { alg, key_id, created_at: at, digest, sig }),
                None => None,
            }
        },
        _ => None,
    }
}

/// The characters of an optional string.
pub open spec fn spec_text(s: Option<String>) -> Option<Seq<char>> {
    match s {
        Some(s) => Some(s@),
        None => None,
    }
}

/// Reads a value as a signature record.
pub fn read_record(block: &toml::Value) -> (out: Option<PackSignature>)
    ensures
        match out {
            Some(record) => record_of(tree_of(*block)) == Some(record@),
            None => record_of(tree_of(*block)) is None,
        },
{
    if is_table(block) {
        record_from_parts(
            field(block, "alg"),
            field(block, "key_id"),
            field(block, "created_at"),
            field(block, "digest"),
            field(block, "sig"),
        )
    } else {
        match list_items(block) {
            Some(items) => {
                if items.len() == 5 {
                    record_from_parts(
                        item(items, 0),
                        item(items, 1),
                        item(items, 2),
                        item(items, 3),
                        item(items, 4),
                    )
                } else {
                    None
                }
            },
            None => None,
        }
    }
}

/// The record that a document carries: none where it has no `greentic` table
/// or that table no `signature`; an error where what stands there cannot be
/// read.
pub open spec fn stored_record(doc: Tree) -> Result<Option<SignatureView>, ManifestError> {
    match doc {
        Tree::Table(root) => {
            if !root.contains_key("greentic"@) {
                Ok(None)
            } else {
                match root["greentic"@] {
                    Tree::Table(section) => {
                        if !section.contains_key("signature"@) {
                            Ok(None)
                        } else {
                            match record_of(section["signature"@]) {
                                Some(record) => Ok(Some(record)),
                                None => Err(ManifestError::SignatureBlock),
                            }
                        }
                    },
                    _ => Err(ManifestError::SectionNotTable),
                }
            }
        },
        _ => Err(ManifestError::NotATable),
    }
}

/// The views of an optional record.
pub open spec fn spec_record(r: Option<PackSignature>) -> Option<SignatureView> {
    match r {
        Some(r) => Some(r@),
        None => None,
    }
}

/// Reads the signature record out of a document.
pub fn signature_from_doc(doc: &toml::Value) -> (out: Result<Option<PackSignature>, ManifestError>)
    ensures
        match out {
            Ok(record) => stored_record(tree_of(*doc)) == Ok::<_, ManifestError>(spec_record(record)),
            Err(e) => stored_record(tree_of(*doc)) == Err::<Option<SignatureView>, _>(e),
        },
{
    if !is_table(doc) {
        return Err(ManifestError::NotATable);
    }
    let section = match table_get(doc, "greentic") {
        Some(section) => section,
        None => {
            return Ok(None);
        },
    };
    if !is_table(section) {
        return Err(ManifestError::SectionNotTable);
    }
    let block = match table_get(section, "signature") {
        Some(block) => block,
        None => {
            return Ok(None);
        },
    };
    match read_record(block) {
        Some(record) => Ok(Some(record)),
        None => Err(ManifestError::SignatureBlock),
    }
}

/// The bytes that stand for a manifest in the canonical form of a pack: the
/// document with the signature record taken out, written as TOML.
pub open spec fn content_without_signature(source: Seq<char>) -> Result<Seq<u8>, ManifestError> {
    match toml_parsed(source) {
        None => Err(ManifestError::Parse),
        Some(doc) => match toml_rendered(stripped(doc)) {
            None => Err(ManifestError::Serialize),
            Some(text) => Ok(encode_utf8(text)),
        },
    }
}

/// Gives the content of a manifest with the signature record taken out.
pub fn read_manifest_without_signature(source: &str) -> (out: Result<Vec<u8>, ManifestError>)
    ensures
        match out {
            Ok(bytes) => content_without_signature(source@) == Ok::<_, ManifestError>(bytes@),
            Err(e) => content_without_signature(source@) == Err::<Seq<u8>, _>(e),
        },
{
    let mut doc = match parse_document(source) {
        Ok(doc) => doc,
        Err(_) => {
            return Err(ManifestError::Parse);
        },
    };
    strip_signature(&mut doc);
    match render(&doc) {
        Ok(text) => Ok(text.as_str().as_bytes_vec()),
        Err(_) => Err(ManifestError::Serialize),
    }
}

/// The record that a manifest carries. A pack without a manifest has nothing
/// to read a record from, which is an error.
pub open spec fn signature_in(manifest: ManifestSourceView) -> Result<
    Option<SignatureView>,
    ManifestError,
> {
    match manifest {
        ManifestSourceView::Missing => Err(ManifestError::NotFound),
        ManifestSourceView::Unreadable => Err(ManifestError::Unreadable),
        ManifestSourceView::Text(source) => match toml_parsed(source) {
            None => Err(ManifestError::Parse),
            Some(doc) => stored_record(doc),
        },
    }
}

/// Reads the signature record of a pack from its manifest.
pub fn read_signature(pack_dir: &PackDirectory) -> (out: Result<
    Option<PackSignature>,
    ManifestError,
>)
    ensures
        match out {
            Ok(record) => signature_in(pack_dir@.manifest) == Ok::<_, ManifestError>(
                spec_record(record),
            ),
            Err(e) => signature_in(pack_dir@.manifest) == Err::<Option<SignatureView>, _>(e),
        },
{
    match &pack_dir.manifest {
        ManifestSource::Missing => Err(ManifestError::NotFound),
        ManifestSource::Unreadable => Err(ManifestError::Unreadable),
        ManifestSource::Text(source) => {
            match parse_document(source.as_str()) {
                Ok(doc) => signature_from_doc(&doc),
                Err(_) => Err(ManifestError::Parse),
            }
        },
    }
}

/// The text of a manifest once `sig` is written into it.
pub open spec fn manifest_with_signature(manifest: ManifestSourceView, sig: SignatureView) -> Result<
    Seq<char>,
    ManifestError,
> {
    match manifest {
        ManifestSourceView::Missing => Err(ManifestError::NotFound),
        ManifestSourceView::Unreadable => Err(ManifestError::Unreadable),
        ManifestSourceView::Text(source) => match toml_parsed(source) {
            None => Err(ManifestError::Parse),
            Some(doc) => match signed_document(doc, sig) {
                Err(e) => Err(e),
                Ok(signed) => match toml_rendered_pretty(signed) {
                    None => Err(ManifestError::Serialize),
                    Some(text) => Ok(text),
                },
            },
        },
    }
}

/// Writes the record into the manifest and gives the manifest's new text.
pub fn write_signature(pack_dir: &PackDirectory, signature: &PackSignature) -> (out: Result<
    String,
    ManifestError,
>)
    ensures
        match out {
            Ok(text) => manifest_with_signature(pack_dir@.manifest, signature@) == Ok::<
                _,
                ManifestError,
            >(text@),
            Err(e) => manifest_with_signature(pack_dir@.manifest, signature@) == Err::<Seq<char>, _>(
                e,
            ),
        },
{
    let source = match &pack_dir.manifest {
        ManifestSource::Missing => {
            return Err(ManifestError::NotFound);
        },
        ManifestSource::Unreadable => {
            return Err(ManifestError::Unreadable);
        },
        ManifestSource::Text(source) => source,
    };
    let mut doc = match parse_document(source.as_str()) {
        Ok(doc) => doc,
        Err(_) => {
            return Err(ManifestError::Parse);
        },
    };
    match set_signature(&mut doc, signature) {
        Ok(()) => {},
        Err(e) => {
            return Err(e);
        },
    }
    match render_pretty(&doc) {
        Ok(text) => Ok(text),
        Err(_) => Err(ManifestError::Serialize),
    }
}

/// Writing a record into a document does not change what the document is
/// once the record is taken out again, whether or not it carried one before.
pub proof fn lemma_strip_forgets_record(doc: Tree, record: Tree)
    requires
        with_record(doc, record) is Some,
    ensures
        stripped(with_record(doc, record)->0) == stripped(doc),
{
    let root = doc->Table_0;
    let entries = if root.contains_key("greentic"@) {
        root["greentic"@]->Table_0
    } else {
        Map::<Seq<char>, Tree>::empty()
    };
    let signed_entries = entries.insert("signature"@, record);
    let signed_root = root.insert("greentic"@, Tree::Table(signed_entries));
    assert(with_record(doc, record)->0 == Tree::Table(signed_root));
    assert(signed_entries.remove("signature"@) =~= entries.remove("signature"@));
    let rest = entries.remove("signature"@);
    if rest == Map::<Seq<char>, Tree>::empty() {
        assert(signed_root.remove("greentic"@) =~= root.remove("greentic"@));
        if !root.contains_key("greentic"@) {
            assert(root.remove("greentic"@) =~= root);
        }
    } else {
        assert(signed_root.insert("greentic"@, Tree::Table(rest)) =~= root.insert(
            "greentic"@,
            Tree::Table(rest),
        ));
        if !root.contains_key("greentic"@) {
            assert(rest =~= Map::<Seq<char>, Tree>::empty());
        }
    }
}

/// Taking the record out twice is taking it out once.
pub proof fn lemma_strip_idempotent(doc: Tree)
    ensures
        stripped(stripped(doc)) == stripped(doc),
{
    if doc is Table {
        let root = doc->Table_0;
        if root.contains_key("greentic"@) && root["greentic"@] is Table {
            let rest = root["greentic"@]->Table_0.remove("signature"@);
            if rest == Map::<Seq<char>, Tree>::empty() {
                assert(!root.remove("greentic"@).contains_key("greentic"@));
            } else {
                let once = root.insert("greentic"@, Tree::Table(rest));
                assert(rest.remove("signature"@) =~= rest);
                assert(once.insert("greentic"@, Tree::Table(rest)) =~= once);
            }
        }
    }
}

/// A manifest that was signed, and whose written text reads back as the
/// document it was written from, has the content without signature that it
/// had before signing.
pub proof fn lemma_signing_keeps_manifest_content(
    source: Seq<char>,
    sig: SignatureView,
    written: Seq<char>,
)
    requires
        manifest_with_signature(ManifestSourceView::Text(source), sig) == Ok::<_, ManifestError>(
            written,
        ),
        toml_parsed(written) == Some(signed_document(toml_parsed(source)->0, sig)->Ok_0),
    ensures
        content_without_signature(written) == content_without_signature(source),
{
    let doc = toml_parsed(source)->0;
    let text = rfc3339_text(sig.created_at.unix_nanos as int, sig.created_at.offset_seconds as int)->0;
    lemma_strip_forgets_record(doc, record_tree(sig, text));
}

} // verus!
