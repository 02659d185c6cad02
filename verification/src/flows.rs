//! The flows of a pack: from what reading and parsing each flow file gave to
//! the list of flow assets, each under its own identifier, sorted.

use crate::digest::hex_lower;
use crate::digest::sha256;
use crate::digest::sha256_hex;
use crate::paths::file_name;
use crate::paths::file_name_of;
use crate::paths::parts_view;
use crate::paths::PartView;
use crate::paths::PathPart;
use crate::sorting::inserted_by;
use crate::sorting::lemma_inserted_by_at;
use crate::sorting::sorted_by_key;
use crate::sorting::text_le;
use crate::text::is_blank;
use crate::text::str_eq;
use crate::text::str_is_blank;
use crate::text::str_le;
use vstd::prelude::*;
use vstd::string::StrSliceExecFns;
use vstd::utf8::encode_utf8;

verus! {

/// A flow of a pack.
#[derive(Debug, Clone)]
pub struct FlowAsset {
    /// The identifier of the flow.
    pub id: String,
    /// The kind of flow.
    pub flow_type: String,
    /// The node the flow starts at.
    pub start: Option<String>,
    /// The path of the flow file below the pack root.
    pub relative_path: String,
    /// The text of the flow file.
    pub raw: String,
    /// The SHA-256 digest of the text in hexadecimal.
    pub sha256: String,
}

/// What reading and parsing one flow file gave.
#[derive(Debug, Clone)]
pub struct LoadedFlow {
    /// The path as the pack names it.
    pub relative_path: String,
    /// The same path by its components.
    pub path: Vec<PathPart>,
    /// The text of the file.
    pub raw: String,
    /// The identifier that the flow gives itself; may be blank.
    pub id: String,
    /// The kind of flow.
    pub flow_type: String,
    /// The node the flow starts at.
    pub start: Option<String>,
}

/// Why the flows of a pack cannot be listed.
#[derive(Debug, Clone, Copy, PartialEq, Eq)]
pub enum FlowsError {
    /// The flow at `index` has the identifier of an earlier flow.
    DuplicateId { index: usize },
}

/// The place of the last dot in a name, none where it has no dot.
pub open spec fn last_dot(name: Seq<char>) -> Option<int>
    decreases name.len(),
{
    if name.len() == 0 {
        None
    } else if name.last() == '.' {
        Some(name.len() - 1)
    } else {
        last_dot(name.drop_last())
    }
}

/// A file name without its extension: what stands before the last dot. A
/// name without a dot, or with its only dot at the front, is its own stem,
/// and so is `..`.
pub open spec fn stem_of(name: Seq<char>) -> Seq<char> {
    match last_dot(name) {
        None => name,
        Some(dot) => if dot == 0 || name == ".."@ {
            name
        } else {
            name.take(dot)
        },
    }
}

/// The identifier that a flow has from its path: the stem of its file name,
/// or `flow` where the path ends in no Unicode file name.
pub open spec fn flow_id_from_path(path: Seq<PartView>) -> Seq<char> {
    match file_name_of(path) {
        Some(name) => stem_of(name),
        None => "flow"@,
    }
}

fn find_last_dot(name: &str) -> (at: Option<usize>)
    ensures
        match at {
            Some(dot) => last_dot(name@) == Some(dot as int) && dot < name@.len(),
            None => last_dot(name@) is None,
        },
{
    let total = name.unicode_len();
    let mut found: Option<usize> = None;
    let mut count: usize = 0;
    assert(name@.take(0) == Seq::<char>::empty());
    for c in it: name.chars()
        invariant
            it.seq() == name@,
            total == name@.len(),
            count == it.index(),
            count <= name@.len(),
            match found {
                Some(dot) => last_dot(name@.take(count as int)) == Some(dot as int) && dot < count,
                None => last_dot(name@.take(count as int)) is None,
            },
    {
        proof {
            let k = count as int;
            assert(c == name@[k]);
            assert(name@.take(k + 1).drop_last() == name@.take(k));
            assert(name@.take(k + 1).last() == c);
        }
        if c == '.' {
            found = Some(count);
        }
        count = count + 1;
    }
    assert(name@.take(name@.len() as int) == name@);
    found
}

/// Derives the identifier of a flow from the path of its file.
pub fn derive_flow_id(path: &Vec<PathPart>) -> (id: String)
    ensures
        id@ == flow_id_from_path(parts_view(path@)),
{
    match file_name(path) {
        None => "flow".to_owned(),
        Some(name) => {
            match find_last_dot(name) {
                None => name.to_owned(),
                Some(dot) => {
                    if dot == 0 || str_eq(name, "..") {
                        name.to_owned()
                    } else {
                        let stem = name.substring_char(0, dot);
                        assert(stem@ == name@.take(dot as int));
                        stem.to_owned()
                    }
                },
            }
        },
    }
}

/// The identifier under which a loaded flow goes: its own, or the one from
/// its path where its own is blank.
pub open spec fn identifier_of(flow: LoadedFlow) -> Seq<char> {
    if is_blank(flow.id@) {
        flow_id_from_path(parts_view(flow.path@))
    } else {
        flow.id@
    }
}

/// A flow asset with its texts as sequences of characters.
pub struct FlowAssetView {
    pub id: Seq<char>,
    pub flow_type: Seq<char>,
    pub start: Option<Seq<char>>,
    pub relative_path: Seq<char>,
    pub raw: Seq<char>,
    pub sha256: Seq<char>,
}

impl View for FlowAsset {
    type V = FlowAssetView;

    open spec fn view(&self) -> FlowAssetView {
        FlowAssetView {
            id: self.id@,
            flow_type: self.flow_type@,
            start: match self.start {
                Some(s) => Some(s@),
                None => None,
            },
            relative_path: self.relative_path@,
            raw: self.raw@,
            sha256: self.sha256@,
        }
    }
}

/// The assets of a list, each by its view.
pub open spec fn assets_view(assets: Seq<FlowAsset>) -> Seq<FlowAssetView> {
    assets.map_values(|a: FlowAsset| a@)
}

/// The asset that a loaded flow becomes.
pub open spec fn asset_of(flow: LoadedFlow) -> FlowAssetView {
    FlowAssetView {
        id: identifier_of(flow),
        flow_type: flow.flow_type@,
        start: match flow.start {
            Some(s) => Some(s@),
            None => None,
        },
        relative_path: flow.relative_path@,
        raw: flow.raw@,
        sha256: hex_lower(sha256(encode_utf8(flow.raw@))),
    }
}

/// Whether the flow at `at` has the identifier of an earlier flow.
pub open spec fn repeats(loaded: Seq<LoadedFlow>, at: int) -> bool {
    exists|j: int| 0 <= j < at && identifier_of(#[trigger] loaded[j]) == identifier_of(loaded[at])
}

/// The place of the first flow that has the identifier of an earlier one,
/// among the first `upto`.
pub open spec fn first_repeat(loaded: Seq<LoadedFlow>, upto: int) -> Option<int>
    decreases upto,
{
    if upto <= 0 {
        None
    } else {
        match first_repeat(loaded, upto - 1) {
            Some(at) => Some(at),
            None => if repeats(loaded, upto - 1) {
                Some(upto - 1)
            } else {
                None
            },
        }
    }
}

/// A repeated identifier among the first flows is the first of all flows.
pub proof fn lemma_first_repeat_stays(loaded: Seq<LoadedFlow>, k: int, n: int)
    requires
        0 <= k <= n,
        first_repeat(loaded, k) is Some,
    ensures
        first_repeat(loaded, n) == first_repeat(loaded, k),
    decreases n - k,
{
    if k < n {
        lemma_first_repeat_stays(loaded, k, n - 1);
    }
}

/// The assets of the first `upto` flows, in the order of the flows.
pub open spec fn assets_of(loaded: Seq<LoadedFlow>, upto: int) -> Seq<FlowAssetView>
    decreases upto,
{
    if upto <= 0 {
        Seq::empty()
    } else {
        assets_of(loaded, upto - 1).push(asset_of(loaded[upto - 1]))
    }
}

/// The key that flows are sorted by: their identifier.
pub open spec fn by_id() -> spec_fn(FlowAssetView) -> Seq<char> {
    |a: FlowAssetView| a.id
}

fn id_seen(ids: &Vec<String>, id: &str) -> (seen: bool)
    ensures
        seen == exists|j: int| 0 <= j < ids@.len() && (#[trigger] ids@[j])@ == id@,
{
    let mut j: usize = 0;
    while j < ids.len()
        invariant
            j <= ids@.len(),
            forall|k: int| 0 <= k < j ==> (#[trigger] ids@[k])@ != id@,
        decreases ids@.len() - j,
    {
        if str_eq(ids[j].as_str(), id) {
            return true;
        }
        j += 1;
    }
    false
}

fn insert_sorted(assets: &mut Vec<FlowAsset>, asset: FlowAsset)
    ensures
        assets_view(final(assets)@) == inserted_by(assets_view(old(assets)@), asset@, by_id()),
{
    let ghost before = assets_view(assets@);
    let ghost key = by_id();
    let mut pos: usize = assets.len();
    while pos > 0 && !str_le(assets[pos - 1].id.as_str(), asset.id.as_str())
        invariant
            pos <= assets@.len(),
            assets_view(assets@) == before,
            key == by_id(),
            forall|k: int| pos <= k < before.len() ==> !text_le(key(#[trigger] before[k]), key(asset@)),
        decreases pos,
    {
        pos -= 1;
    }
    proof {
        lemma_inserted_by_at(before, asset@, key, pos as int);
    }
    assets.insert(pos, asset);
    assert(assets_view(assets@) =~= before.insert(pos as int, asset@));
}

/// Lists the flows of a pack: each under its identifier, with the digest of
/// its text, sorted by identifier. A flow that has the identifier of an
/// earlier one is an error.
pub fn load_flows(loaded: &Vec<LoadedFlow>) -> (out: Result<Vec<FlowAsset>, FlowsError>)
    ensures
        match out {
            Ok(assets) => first_repeat(loaded@, loaded@.len() as int) is None && assets_view(assets@)
                == sorted_by_key(assets_of(loaded@, loaded@.len() as int), by_id()),
            Err(FlowsError::DuplicateId { index }) => first_repeat(loaded@, loaded@.len() as int)
                == Some(index as int),
        },
{
    let mut assets: Vec<FlowAsset> = Vec::new();
    let mut ids: Vec<String> = Vec::new();
    let ghost key = by_id();
    let mut i: usize = 0;
    while i < loaded.len()
        invariant
            i <= loaded@.len(),
            key == by_id(),
            first_repeat(loaded@, i as int) is None,
            assets_view(assets@) == sorted_by_key(assets_of(loaded@, i as int), key),
            ids@.len() == i,
            forall|k: int| 0 <= k < i ==> (#[trigger] ids@[k])@ == identifier_of(loaded@[k]),
        decreases loaded@.len() - i,
    {
        let flow = &loaded[i];
        let id = if str_is_blank(flow.id.as_str()) {
            derive_flow_id(&flow.path)
        } else {
            flow.id.clone()
        };
        if id_seen(&ids, id.as_str()) {
            proof {
                let j = choose|j: int| 0 <= j < ids@.len() && (#[trigger] ids@[j])@ == id@;
                assert(identifier_of(loaded@[j]) == identifier_of(loaded@[i as int]));
                assert(repeats(loaded@, i as int));
                assert(first_repeat(loaded@, i + 1) == Some(i as int));
                lemma_first_repeat_stays(loaded@, i + 1, loaded@.len() as int);
            }
            return Err(FlowsError::DuplicateId { index: i });
        }
        proof {
            if repeats(loaded@, i as int) {
                let j = choose|j: int|
                    0 <= j < i && identifier_of(#[trigger] loaded@[j]) == identifier_of(
                        loaded@[i as int],
                    );
                assert(ids@[j]@ == id@);
            }
        }
        let asset = FlowAsset {
            id: id.clone(),
            flow_type: flow.flow_type.clone(),
            start: match &flow.start {
                Some(s) => Some(s.clone()),
                None => None,
            },
            relative_path: flow.relative_path.clone(),
            raw: flow.raw.clone(),
            sha256: sha256_hex(flow.raw.as_str().as_bytes()),
        };
        assert(asset@ == asset_of(loaded@[i as int]));
        proof {
            let grown = assets_of(loaded@, i + 1);
            assert(grown.drop_last() == assets_of(loaded@, i as int));
            assert(grown.last() == asset@);
        }
        insert_sorted(&mut assets, asset);
        ids.push(id);
        i += 1;
    }
    Ok(assets)
}

} // verus!
