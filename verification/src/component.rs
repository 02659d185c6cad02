//! A pack component: the manifest, flows and templates that were embedded in
//! it, and the answers it gives its host about them.

use crate::interfaces::A2AItem;
use crate::interfaces::FlowInfo;
use crate::interfaces::PrepareResult;
use crate::interfaces::RunResult;
use crate::interfaces::SchemaDoc;
use crate::text::concat;
use crate::text::str_eq;
use vstd::prelude::*;

verus! {

/// What was embedded in a component.
#[derive(Debug, Default)]
pub struct PackData {
    /// The pack manifest as CBOR bytes.
    pub manifest_cbor: Vec<u8>,
    /// The flows as pairs of identifier and source.
    pub flows: Vec<(String, String)>,
    /// The templates as pairs of logical path and content.
    pub templates: Vec<(String, Vec<u8>)>,
}

/// Return the embedded pack manifest as CBOR bytes.
pub fn manifest_cbor(data: &PackData) -> (bytes: &Vec<u8>)
    ensures
        bytes == &data.manifest_cbor,
{
    &data.manifest_cbor
}

/// Access the embedded flow sources as `(id, raw_ygtc)` tuples.
pub fn flows(data: &PackData) -> (list: &Vec<(String, String)>)
    ensures
        list == &data.flows,
{
    &data.flows
}

/// Access the embedded templates as `(logical_path, bytes)` tuples.
pub fn templates(data: &PackData) -> (list: &Vec<(String, Vec<u8>)>)
    ensures
        list == &data.templates,
{
    &data.templates
}

/// Whether `i` is the place of the first template with the path `path`.
pub open spec fn first_template_at(list: Seq<(String, Vec<u8>)>, path: Seq<char>, i: int) -> bool {
    &&& 0 <= i < list.len()
    &&& list[i].0@ == path
    &&& forall|j: int| 0 <= j < i ==> (#[trigger] list[j]).0@ != path
}

/// Lookup a template payload by logical path: the first template that has
/// the path.
pub fn template_by_path<'a>(data: &'a PackData, path: &str) -> (found: Option<&'a Vec<u8>>)
    ensures
        match found {
            Some(bytes) => exists|i: int|
                first_template_at(data.templates@, path@, i) && bytes == &data.templates@[i].1,
            None => forall|i: int|
                0 <= i < data.templates@.len() ==> (#[trigger] data.templates@[i]).0@ != path@,
        },
{
    let mut i: usize = 0;
    while i < data.templates.len()
        invariant
            i <= data.templates@.len(),
            forall|j: int| 0 <= j < i ==> (#[trigger] data.templates@[j]).0@ != path@,
        decreases data.templates@.len() - i,
    {
        if str_eq(data.templates[i].0.as_str(), path) {
            assert(first_template_at(data.templates@, path@, i as int));
            return Some(&data.templates[i].1);
        }
        i += 1;
    }
    None
}

/// Whether a flow with the identifier `id` is embedded.
pub open spec fn has_flow(list: Seq<(String, String)>, id: Seq<char>) -> bool {
    exists|i: int| 0 <= i < list.len() && (#[trigger] list[i]).0@ == id
}

/// Component instance that answers for what is embedded in it.
#[derive(Debug, Default)]
pub struct Component {
    pub data: PackData,
}

impl Component {
    fn knows(&self, flow_id: &str) -> (known: bool)
        ensures
            known == has_flow(self.data.flows@, flow_id@),
    {
        let mut i: usize = 0;
        while i < self.data.flows.len()
            invariant
                i <= self.data.flows@.len(),
                forall|j: int| 0 <= j < i ==> (#[trigger] self.data.flows@[j]).0@ != flow_id@,
            decreases self.data.flows@.len() - i,
        {
            if str_eq(self.data.flows[i].0.as_str(), flow_id) {
                return true;
            }
            i += 1;
        }
        false
    }

    /// The embedded flows by identifier, in their order.
    pub fn list_flows(&self) -> (list: Vec<FlowInfo>)
        ensures
            list@.len() == self.data.flows@.len(),
            forall|i: int|
                0 <= i < list@.len() ==> (#[trigger] list@[i]).id@ == self.data.flows@[i].0@
                    && list@[i].human_name is None && list@[i].description is None,
    {
        let mut list: Vec<FlowInfo> = Vec::new();
        let mut i: usize = 0;
        while i < self.data.flows.len()
            invariant
                i <= self.data.flows@.len(),
                list@.len() == i,
                forall|k: int|
                    0 <= k < i ==> (#[trigger] list@[k]).id@ == self.data.flows@[k].0@
                        && list@[k].human_name is None && list@[k].description is None,
            decreases self.data.flows@.len() - i,
        {
            list.push(
                FlowInfo { id: self.data.flows[i].0.clone(), human_name: None, description: None },
            );
            i += 1;
        }
        list
    }

    /// The schema of an embedded flow: the empty object.
    pub fn get_flow_schema(&self, flow_id: &str) -> (doc: Option<SchemaDoc>)
        ensures
            doc is Some <==> has_flow(self.data.flows@, flow_id@),
            doc is Some ==> doc->0.flow_id@ == flow_id@ && doc->0.schema_json@ == "{}"@,
    {
        if self.knows(flow_id) {
            Some(SchemaDoc { flow_id: flow_id.to_owned(), schema_json: "{}".to_owned() })
        } else {
            None
        }
    }

    /// Whether a flow can be run: `ok` for an embedded flow, else an error
    /// that names the flow.
    pub fn prepare_flow(&self, flow_id: &str) -> (result: PrepareResult)
        ensures
            has_flow(self.data.flows@, flow_id@) ==> result.status@ == "ok"@ && result.error is None,
            !has_flow(self.data.flows@, flow_id@) ==> result.status@ == "error"@ && result.error
                is Some && result.error->0@ == "unknown flow: "@ + flow_id@,
    {
        if self.knows(flow_id) {
            PrepareResult { status: "ok".to_owned(), error: None }
        } else {
            PrepareResult {
                status: "error".to_owned(),
                error: Some(concat("unknown flow: ", flow_id)),
            }
        }
    }

    /// Runs a flow. No flow can be run yet: the result is an error, which
    /// says so for an embedded flow and names every other.
    pub fn run_flow(&self, flow_id: &str) -> (result: RunResult)
        ensures
            result.status@ == "error"@,
            result.output is None,
            result.error is Some,
            has_flow(self.data.flows@, flow_id@) ==> result.error->0@ == "not-implemented-in-M1"@,
            !has_flow(self.data.flows@, flow_id@) ==> result.error->0@ == "unknown flow: "@
                + flow_id@,
    {
        if self.knows(flow_id) {
            RunResult {
                status: "error".to_owned(),
                output: None,
                error: Some("not-implemented-in-M1".to_owned()),
            }
        } else {
            RunResult {
                status: "error".to_owned(),
                output: None,
                error: Some(concat("unknown flow: ", flow_id)),
            }
        }
    }

    /// Searches the flows. Nothing is ever found.
    pub fn a2a_search(&self, _query: &str) -> (items: Vec<A2AItem>)
        ensures
            items@.len() == 0,
    {
        Vec::new()
    }
}

/// Convenience helper for hosts that want an owned component.
pub fn component(data: PackData) -> (c: Component)
    ensures
        c.data == data,
{
    Component { data }
}

} // verus!
