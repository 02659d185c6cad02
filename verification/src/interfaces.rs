//! The values that a pack component hands to its host.

use vstd::prelude::*;

verus! {

/// A flow as a component lists it.
#[derive(Debug, Clone)]
pub struct FlowInfo {
    pub id: String,
    pub human_name: Option<String>,
    pub description: Option<String>,
}

/// The schema of a flow, as JSON text.
#[derive(Debug, Clone)]
pub struct SchemaDoc {
    pub flow_id: String,
    pub schema_json: String,
}

/// Whether a flow can be run.
#[derive(Debug, Clone)]
pub struct PrepareResult {
    pub status: String,
    pub error: Option<String>,
}

/// The outcome of running a flow; `output` is JSON text.
#[derive(Debug, Clone)]
pub struct RunResult {
    pub status: String,
    pub output: Option<String>,
    pub error: Option<String>,
}

/// A hit of a search over the flows.
#[derive(Debug, Clone)]
pub struct A2AItem {
    pub title: String,
    pub flow_id: String,
}

} // verus!
