//! The templates of a pack: from the files that were found below the
//! template directories to the list of template assets, sorted by logical
//! path.

use crate::digest::hex_lower;
use crate::digest::sha256;
use crate::digest::sha256_hex;
use crate::paths::joined;
use crate::sorting::inserted_by;
use crate::sorting::lemma_inserted_by_at;
use crate::sorting::sorted_by_key;
use crate::sorting::text_le;
use crate::text::copy_bytes;
use crate::text::str_eq;
use crate::text::str_le;
use vstd::prelude::*;
use vstd::string::StringExecFns;

verus! {

/// A template of a pack.
#[derive(Debug, Clone)]
pub struct TemplateAsset {
    /// The path below the pack root, joined by `/`.
    pub logical_path: String,
    /// Where the file was found.
    pub absolute_path: String,
    /// What the file holds.
    pub bytes: Vec<u8>,
    /// The SHA-256 digest of the content in hexadecimal.
    pub sha256: String,
    /// The number of bytes.
    pub size: u64,
}

/// A template asset with its texts and bytes as sequences.
pub struct TemplateAssetView {
    pub logical_path: Seq<char>,
    pub absolute_path: Seq<char>,
    pub bytes: Seq<u8>,
    pub sha256: Seq<char>,
    pub size: u64,
}

impl View for TemplateAsset {
    type V = TemplateAssetView;

    open spec fn view(&self) -> TemplateAssetView {
        TemplateAssetView {
            logical_path: self.logical_path@,
            absolute_path: self.absolute_path@,
            bytes: self.bytes@,
            sha256: self.sha256@,
            size: self.size,
        }
    }
}

/// The assets of a list, each by its view.
pub open spec fn assets_view(assets: Seq<TemplateAsset>) -> Seq<TemplateAssetView> {
    assets.map_values(|a: TemplateAsset| a@)
}

/// A file that was found below a template directory.
#[derive(Debug, Clone)]
pub struct FoundTemplate {
    /// The components of the path below the pack root, each as text.
    pub components: Vec<String>,
    /// Where the file was found.
    pub absolute_path: String,
    /// What the file holds; nothing where it could not be read.
    pub bytes: Option<Vec<u8>>,
}

/// Why the templates of a pack cannot be listed.
#[derive(Debug, Clone, Copy, PartialEq, Eq)]
pub enum TemplatesError {
    /// The file at `index` has the logical path of an earlier one.
    Duplicate { index: usize },
    /// The file at `index` could not be read.
    Unreadable { index: usize },
}

/// The logical path of a file: its components joined by `/`.
pub open spec fn logical_path_of(file: FoundTemplate) -> Seq<char> {
    joined(file.components.deep_view(), "/"@)
}

/// The asset that a file becomes.
pub open spec fn asset_of(file: FoundTemplate) -> TemplateAssetView {
    TemplateAssetView {
        logical_path: logical_path_of(file),
        absolute_path: file.absolute_path@,
        bytes: file.bytes->0@,
        sha256: hex_lower(sha256(file.bytes->0@)),
        size: file.bytes->0@.len() as u64,
    }
}

/// What is wrong with the file at `at`: its logical path is taken, or it
/// could not be read.
pub open spec fn fault_at(found: Seq<FoundTemplate>, at: int) -> Option<TemplatesError> {
    if exists|j: int| 0 <= j < at && logical_path_of(#[trigger] found[j]) == logical_path_of(found[at]) {
        Some(TemplatesError::Duplicate { index: at as usize })
    } else if found[at].bytes is None {
        Some(TemplatesError::Unreadable { index: at as usize })
    } else {
        None
    }
}

/// The fault of the first file that has one, among the first `upto`.
pub open spec fn first_fault(found: Seq<FoundTemplate>, upto: int) -> Option<TemplatesError>
    decreases upto,
{
    if upto <= 0 {
        None
    } else {
        match first_fault(found, upto - 1) {
            Some(e) => Some(e),
            None => fault_at(found, upto - 1),
        }
    }
}

/// A fault among the first files is the first fault of all files.
pub proof fn lemma_first_fault_stays(found: Seq<FoundTemplate>, k: int, n: int)
    requires
        0 <= k <= n,
        first_fault(found, k) is Some,
    ensures
        first_fault(found, n) == first_fault(found, k),
    decreases n - k,
{
    if k < n {
        lemma_first_fault_stays(found, k, n - 1);
    }
}

/// The assets of the first `upto` files, in the order of the files.
pub open spec fn assets_of(found: Seq<FoundTemplate>, upto: int) -> Seq<TemplateAssetView>
    decreases upto,
{
    if upto <= 0 {
        Seq::empty()
    } else {
        assets_of(found, upto - 1).push(asset_of(found[upto - 1]))
    }
}

/// The key that templates are sorted by: their logical path.
pub open spec fn by_logical_path() -> spec_fn(TemplateAssetView) -> Seq<char> {
    |a: TemplateAssetView| a.logical_path
}

/// Joins the components of a path by `/`.
pub fn join_components(components: &Vec<String>) -> (path: String)
    ensures
        path@ == joined(components.deep_view(), "/"@),
{
    let mut path = String::new();
    let mut i: usize = 0;
    let ghost names = components.deep_view();
    assert(names.take(0) == Seq::<Seq<char>>::empty());
    while i < components.len()
        invariant
            i <= components@.len(),
            names == components.deep_view(),
            path@ == joined(names.take(i as int), "/"@),
        decreases components@.len() - i,
    {
        proof {
            assert(names.take(i + 1).drop_last() == names.take(i as int));
            assert(names.take(i + 1).last() == components@[i as int]@);
            if i == 0 {
                assert(joined(names.take(0), "/"@) == Seq::<char>::empty());
            }
        }
        if i > 0 {
            path.append("/");
        }
        path.append(components[i].as_str());
        assert(path@ =~= joined(names.take(i + 1), "/"@));
        i += 1;
    }
    assert(names.take(components@.len() as int) == names);
    path
}

fn path_seen(paths: &Vec<String>, path: &str) -> (seen: bool)
    ensures
        seen == exists|j: int| 0 <= j < paths@.len() && (#[trigger] paths@[j])@ == path@,
{
    let mut j: usize = 0;
    while j < paths.len()
        invariant
            j <= paths@.len(),
            forall|k: int| 0 <= k < j ==> (#[trigger] paths@[k])@ != path@,
        decreases paths@.len() - j,
    {
        if str_eq(paths[j].as_str(), path) {
            return true;
        }
        j += 1;
    }
    false
}

fn insert_sorted(assets: &mut Vec<TemplateAsset>, asset: TemplateAsset)
    ensures
        assets_view(final(assets)@) == inserted_by(
            assets_view(old(assets)@),
            asset@,
            by_logical_path(),
        ),
{
    let ghost before = assets_view(assets@);
    let ghost key = by_logical_path();
    let mut pos: usize = assets.len();
    while pos > 0 && !str_le(assets[pos - 1].logical_path.as_str(), asset.logical_path.as_str())
        invariant
            pos <= assets@.len(),
            assets_view(assets@) == before,
            key == by_logical_path(),
            forall|k: int| pos <= k < before.len() ==> !text_le(key(#[trigger] before[k]), key(asset@)),
        decreases pos,
    {
        pos -= 1;
    }
    proof {
        lemma_inserted_by_at(before, asset@, key, pos as int);
    }
    assets.insert(pos, asset);
    assert(assets_view(assets@) =~= before.insert(pos as int, asset@));
}

/// Lists the templates of a pack: each under its logical path, with digest
/// and size, sorted by logical path. A file whose logical path is taken is an
/// error, and so is one that could not be read.
pub fn collect_templates(found: &Vec<FoundTemplate>) -> (out: Result<Vec<TemplateAsset>, TemplatesError>)
    ensures
        match out {
            Ok(assets) => first_fault(found@, found@.len() as int) is None && assets_view(assets@)
                == sorted_by_key(assets_of(found@, found@.len() as int), by_logical_path()),
            Err(e) => first_fault(found@, found@.len() as int) == Some(e),
        },
{
    let mut assets: Vec<TemplateAsset> = Vec::new();
    let mut paths: Vec<String> = Vec::new();
    let mut i: usize = 0;
    while i < found.len()
        invariant
            i <= found@.len(),
            first_fault(found@, i as int) is None,
            assets_view(assets@) == sorted_by_key(assets_of(found@, i as int), by_logical_path()),
            paths@.len() == i,
            forall|k: int| 0 <= k < i ==> (#[trigger] paths@[k])@ == logical_path_of(found@[k]),
        decreases found@.len() - i,
    {
        let file = &found[i];
        let logical_path = join_components(&file.components);
        if path_seen(&paths, logical_path.as_str()) {
            proof {
                let j = choose|j: int| 0 <= j < paths@.len() && (#[trigger] paths@[j])@ == logical_path@;
                assert(logical_path_of(found@[j]) == logical_path_of(found@[i as int]));
                assert(first_fault(found@, i + 1) == Some(TemplatesError::Duplicate { index: i }));
                lemma_first_fault_stays(found@, i + 1, found@.len() as int);
            }
            return Err(TemplatesError::Duplicate { index: i });
        }
        proof {
            if exists|j: int|
                0 <= j < i && logical_path_of(#[trigger] found@[j]) == logical_path_of(
                    found@[i as int],
                ) {
                let j = choose|j: int|
                    0 <= j < i && logical_path_of(#[trigger] found@[j]) == logical_path_of(
                        found@[i as int],
                    );
                assert(paths@[j]@ == logical_path@);
            }
        }
        let bytes = match &file.bytes {
            Some(bytes) => copy_bytes(bytes.as_slice()),
            None => {
                proof {
                    assert(first_fault(found@, i + 1) == Some(TemplatesError::Unreadable { index: i }));
                    lemma_first_fault_stays(found@, i + 1, found@.len() as int);
                }
                return Err(TemplatesError::Unreadable { index: i });
            },
        };
        let sha256 = sha256_hex(bytes.as_slice());
        let size = bytes.len() as u64;
        let asset = TemplateAsset {
            logical_path: logical_path.clone(),
            absolute_path: file.absolute_path.clone(),
            bytes,
            sha256,
            size,
        };
        proof {
            assert(asset@ == asset_of(found@[i as int]));
            let grown = assets_of(found@, i + 1);
            assert(grown.drop_last() == assets_of(found@, i as int));
            assert(grown.last() == asset@);
        }
        insert_sorted(&mut assets, asset);
        paths.push(logical_path);
        i += 1;
    }
    Ok(assets)
}

} // verus!
