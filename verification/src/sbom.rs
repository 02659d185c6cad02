//! The bill of materials of a pack in the CycloneDX form: one component for
//! each flow and each template, with its SHA-256 digest.

use crate::flows::FlowAsset;
use crate::pack_manifest::timestamp_now;
use crate::pack_manifest::timestamp_text;
use crate::pack_manifest::SpecBundle;
use crate::templates::TemplateAsset;
use vstd::prelude::*;

verus! {

/// A bill of materials.
#[derive(Debug)]
pub struct CycloneDxBom {
    pub bom_format: &'static str,
    pub spec_version: &'static str,
    pub version: u32,
    pub metadata: Metadata,
    pub components: Vec<Component>,
}

/// When the bill was made, and of what.
#[derive(Debug)]
pub struct Metadata {
    pub timestamp: String,
    pub component: ComponentSummary,
}

/// The pack that the bill is about.
#[derive(Debug)]
pub struct ComponentSummary {
    pub name: String,
    pub version: String,
    pub component_type: &'static str,
}

/// One item of the bill.
#[derive(Debug)]
pub struct Component {
    pub name: String,
    pub component_type: &'static str,
    pub version: Option<String>,
    pub hashes: Option<Vec<HashEntry>>,
}

/// A digest of an item.
#[derive(Debug)]
pub struct HashEntry {
    pub alg: &'static str,
    pub content: String,
}

/// Whether a component is the file with the name `name` and the SHA-256
/// digest `digest`.
pub open spec fn is_file_component(c: Component, name: Seq<char>, digest: Seq<char>) -> bool {
    &&& c.name@ == name
    &&& c.component_type@ == "file"@
    &&& c.version is None
    &&& c.hashes is Some
    &&& c.hashes->0@.len() == 1
    &&& c.hashes->0@[0].alg@ == "SHA-256"@
    &&& c.hashes->0@[0].content@ == digest
}

/// Whether a bill is the one of a pack at the time with the text
/// `timestamp`: the flows first, then the templates, each in their order.
pub open spec fn bom_of(
    bom: CycloneDxBom,
    spec: SpecBundle,
    flows: Seq<FlowAsset>,
    templates: Seq<TemplateAsset>,
    timestamp: Seq<char>,
) -> bool {
    &&& bom.bom_format@ == "CycloneDX"@
    &&& bom.spec_version@ == "1.5"@
    &&& bom.version == 1
    &&& bom.metadata.timestamp@ == timestamp
    &&& bom.metadata.component.name@ == spec.spec.id@
    &&& bom.metadata.component.version@ == spec.spec.version@
    &&& bom.metadata.component.component_type@ == "application"@
    &&& bom.components@.len() == flows.len() + templates.len()
    &&& forall|i: int|
        0 <= i < flows.len() ==> is_file_component(
            #[trigger] bom.components@[i],
            flows[i].id@,
            flows[i].sha256@,
        )
    &&& forall|i: int|
        0 <= i < templates.len() ==> is_file_component(
            #[trigger] bom.components@[flows.len() + i],
            templates[i].logical_path@,
            templates[i].sha256@,
        )
}

fn file_component(name: &String, digest: &String) -> (c: Component)
    ensures
        is_file_component(c, name@, digest@),
{
    let mut hashes: Vec<HashEntry> = Vec::new();
    hashes.push(HashEntry { alg: "SHA-256", content: digest.clone() });
    Component { name: name.clone(), component_type: "file", version: None, hashes: Some(hashes) }
}

/// Makes the bill of materials of a pack, with the text of the time given.
pub fn generate_at(
    spec: &SpecBundle,
    flows: &Vec<FlowAsset>,
    templates: &Vec<TemplateAsset>,
    timestamp: String,
) -> (bom: CycloneDxBom)
    ensures
        bom_of(bom, *spec, flows@, templates@, timestamp@),
{
    let mut components: Vec<Component> = Vec::new();
    let mut i: usize = 0;
    while i < flows.len()
        invariant
            i <= flows@.len(),
            components@.len() == i,
            forall|k: int|
                0 <= k < i ==> is_file_component(
                    #[trigger] components@[k],
                    flows@[k].id@,
                    flows@[k].sha256@,
                ),
        decreases flows@.len() - i,
    {
        components.push(file_component(&flows[i].id, &flows[i].sha256));
        i += 1;
    }
    let mut j: usize = 0;
    while j < templates.len()
        invariant
            j <= templates@.len(),
            components@.len() == flows@.len() + j,
            forall|k: int|
                0 <= k < flows@.len() ==> is_file_component(
                    #[trigger] components@[k],
                    flows@[k].id@,
                    flows@[k].sha256@,
                ),
            forall|k: int|
                0 <= k < j ==> is_file_component(
                    #[trigger] components@[flows@.len() + k],
                    templates@[k].logical_path@,
                    templates@[k].sha256@,
                ),
        decreases templates@.len() - j,
    {
        components.push(file_component(&templates[j].logical_path, &templates[j].sha256));
        j += 1;
    }
    CycloneDxBom {
        bom_format: "CycloneDX",
        spec_version: "1.5",
        version: 1,
        metadata: Metadata {
            timestamp,
            component: ComponentSummary {
                name: spec.spec.id.clone(),
                version: spec.spec.version.clone(),
                component_type: "application",
            },
        },
        components,
    }
}

/// Makes the bill of materials of a pack now. Its time is the text of some
/// instant in UTC; nothing but that instant is open.
pub fn generate(spec: &SpecBundle, flows: &Vec<FlowAsset>, templates: &Vec<TemplateAsset>) -> (bom:
    CycloneDxBom)
    ensures
        bom_of(bom, *spec, flows@, templates@, bom.metadata.timestamp@),
        exists|at: crate::clock::Timestamp|
            at.offset_seconds == 0 && #[trigger] timestamp_text(at) == bom.metadata.timestamp@,
{
    generate_at(spec, flows, templates, timestamp_now())
}

} // verus!
