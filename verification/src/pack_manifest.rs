//! The description of a pack that is built, and the manifest that is made of
//! it with its flows and templates.

use crate::clock::format_rfc3339;
use crate::clock::now_utc;
use crate::flows::FlowAsset;
use crate::templates::TemplateAsset;
use crate::text::is_blank;
use crate::text::str_is_blank;
use vstd::prelude::*;
use vstd::utf8::encode_utf8;

verus! {

/// The description of a pack as `pack.yaml` gives it.
#[derive(Debug, Clone)]
pub struct PackSpec {
    pub id: String,
    pub version: String,
    pub flow_files: Vec<String>,
    pub template_dirs: Vec<String>,
    pub imports_required: Vec<String>,
}

/// What a pack description lacks.
#[derive(Debug, Clone, Copy, PartialEq, Eq)]
pub enum SpecError {
    /// The identifier is blank.
    EmptyId,
    /// The version is blank.
    EmptyVersion,
}

impl PackSpec {
    /// Checks that identifier and version are not blank, the identifier
    /// first.
    pub fn validate(&self) -> (out: Result<(), SpecError>)
        ensures
            is_blank(self.id@) ==> out == Err::<(), _>(SpecError::EmptyId),
            !is_blank(self.id@) && is_blank(self.version@) ==> out == Err::<(), _>(
                SpecError::EmptyVersion,
            ),
            !is_blank(self.id@) && !is_blank(self.version@) ==> out is Ok,
    {
        if str_is_blank(self.id.as_str()) {
            return Err(SpecError::EmptyId);
        }
        if str_is_blank(self.version.as_str()) {
            return Err(SpecError::EmptyVersion);
        }
        Ok(())
    }
}

/// A pack description with the place it was read from.
#[derive(Debug, Clone)]
pub struct SpecBundle {
    pub spec: PackSpec,
    pub source: String,
}

/// The manifest of a built pack.
#[derive(Debug, Clone)]
pub struct PackManifest {
    pub pack_id: String,
    pub version: String,
    pub created_at: String,
    pub flows: Vec<FlowEntry>,
    pub templates: Vec<BlobEntry>,
    pub imports_required: Vec<String>,
}

/// A flow in the manifest.
#[derive(Debug, Clone)]
pub struct FlowEntry {
    pub id: String,
    pub flow_type: String,
    pub start: Option<String>,
    pub source: Option<String>,
    pub sha256: Option<String>,
    pub size: Option<u64>,
}

/// A template in the manifest.
#[derive(Debug, Clone)]
pub struct BlobEntry {
    pub logical_path: String,
    pub sha256: String,
    pub size: u64,
}

/// The characters of an optional string.
pub open spec fn text(s: Option<String>) -> Option<Seq<char>> {
    match s {
        Some(s) => Some(s@),
        None => None,
    }
}

/// Whether an entry is the one that stands for a flow: identifier, kind and
/// start as the flow has them, with its path, its digest and the number of
/// bytes of its text.
pub open spec fn entry_for_flow(entry: FlowEntry, flow: FlowAsset) -> bool {
    &&& entry.id@ == flow.id@
    &&& entry.flow_type@ == flow.flow_type@
    &&& text(entry.start) == text(flow.start)
    &&& text(entry.source) == Some(flow.relative_path@)
    &&& text(entry.sha256) == Some(flow.sha256@)
    &&& entry.size == Some(encode_utf8(flow.raw@).len() as usize as u64)
}

/// Whether an entry is the one that stands for a template.
pub open spec fn entry_for_template(entry: BlobEntry, template: TemplateAsset) -> bool {
    &&& entry.logical_path@ == template.logical_path@
    &&& entry.sha256@ == template.sha256@
    &&& entry.size == template.size
}

/// Whether a manifest is the one that is made of a pack at the time with the
/// text `created_at`: one entry for each flow and each template, in their
/// order.
pub open spec fn manifest_of(
    manifest: PackManifest,
    bundle: SpecBundle,
    flows: Seq<FlowAsset>,
    templates: Seq<TemplateAsset>,
    created_at: Seq<char>,
) -> bool {
    &&& manifest.pack_id@ == bundle.spec.id@
    &&& manifest.version@ == bundle.spec.version@
    &&& manifest.created_at@ == created_at
    &&& manifest.flows@.len() == flows.len()
    &&& forall|i: int| 0 <= i < flows.len() ==> entry_for_flow(#[trigger] manifest.flows@[i], flows[i])
    &&& manifest.templates@.len() == templates.len()
    &&& forall|i: int|
        0 <= i < templates.len() ==> entry_for_template(
            #[trigger] manifest.templates@[i],
            templates[i],
        )
    &&& manifest.imports_required.deep_view() == bundle.spec.imports_required.deep_view()
}

/// A copy of a list of strings.
pub fn copy_strings(list: &Vec<String>) -> (copy: Vec<String>)
    ensures
        copy.deep_view() == list.deep_view(),
{
    let mut copy: Vec<String> = Vec::new();
    let mut i: usize = 0;
    while i < list.len()
        invariant
            i <= list@.len(),
            copy@.len() == i,
            forall|k: int| 0 <= k < i ==> (#[trigger] copy@[k])@ == list@[k]@,
        decreases list@.len() - i,
    {
        copy.push(list[i].clone());
        i += 1;
    }
    assert(copy.deep_view() =~= list.deep_view());
    copy
}

/// Makes the manifest of a pack, with the text of the time of making given.
pub fn build_manifest_at(
    bundle: &SpecBundle,
    flows: &Vec<FlowAsset>,
    templates: &Vec<TemplateAsset>,
    created_at: String,
) -> (manifest: PackManifest)
    ensures
        manifest_of(manifest, *bundle, flows@, templates@, created_at@),
{
    let mut flow_entries: Vec<FlowEntry> = Vec::new();
    let mut i: usize = 0;
    while i < flows.len()
        invariant
            i <= flows@.len(),
            flow_entries@.len() == i,
            forall|k: int| 0 <= k < i ==> entry_for_flow(#[trigger] flow_entries@[k], flows@[k]),
        decreases flows@.len() - i,
    {
        let flow = &flows[i];
        flow_entries.push(
            FlowEntry {
                id: flow.id.clone(),
                flow_type: flow.flow_type.clone(),
                start: match &flow.start {
                    Some(s) => Some(s.clone()),
                    None => None,
                },
                source: Some(flow.relative_path.clone()),
                sha256: Some(flow.sha256.clone()),
                size: Some(flow.raw.as_str().len() as u64),
            },
        );
        i += 1;
    }
    let mut template_entries: Vec<BlobEntry> = Vec::new();
    let mut j: usize = 0;
    while j < templates.len()
        invariant
            j <= templates@.len(),
            template_entries@.len() == j,
            forall|k: int|
                0 <= k < j ==> entry_for_template(#[trigger] template_entries@[k], templates@[k]),
        decreases templates@.len() - j,
    {
        let blob = &templates[j];
        template_entries.push(
            BlobEntry {
                logical_path: blob.logical_path.clone(),
                sha256: blob.sha256.clone(),
                size: blob.size,
            },
        );
        j += 1;
    }
    PackManifest {
        pack_id: bundle.spec.id.clone(),
        version: bundle.spec.version.clone(),
        created_at,
        flows: flow_entries,
        templates: template_entries,
        imports_required: copy_strings(&bundle.spec.imports_required),
    }
}

/// The text of the present time, or of the epoch where the present has none.
pub(crate) fn timestamp_now() -> (text: String)
    ensures
        exists|at: crate::clock::Timestamp|
            at.offset_seconds == 0 && #[trigger] timestamp_text(at) == text@,
{
    let at = now_utc();
    let text = timestamp_text_of(at);
    assert(at.offset_seconds == 0 && timestamp_text(at) == text@);
    text
}

/// The text that stands for a point in time in a manifest or a bill of
/// materials: its RFC 3339 text, or that of the epoch where it has none.
pub open spec fn timestamp_text(at: crate::clock::Timestamp) -> Seq<char> {
    match crate::clock::rfc3339_text(at.unix_nanos as int, at.offset_seconds as int) {
        Some(text) => text,
        None => "1970-01-01T00:00:00Z"@,
    }
}

/// Writes a point in time as text, the epoch in place of a time that has no
/// RFC 3339 text.
pub fn timestamp_text_of(at: crate::clock::Timestamp) -> (text: String)
    ensures
        text@ == timestamp_text(at),
{
    match format_rfc3339(at) {
        Some(text) => text,
        None => "1970-01-01T00:00:00Z".to_owned(),
    }
}

/// Makes the manifest of a pack now. Its time is the text of some instant
/// in UTC; nothing but that instant is open.
pub fn build_manifest(
    bundle: &SpecBundle,
    flows: &Vec<FlowAsset>,
    templates: &Vec<TemplateAsset>,
) -> (manifest: PackManifest)
    ensures
        manifest_of(manifest, *bundle, flows@, templates@, manifest.created_at@),
        exists|at: crate::clock::Timestamp|
            at.offset_seconds == 0 && #[trigger] timestamp_text(at) == manifest.created_at@,
{
    build_manifest_at(bundle, flows, templates, timestamp_now())
}

} // verus!
