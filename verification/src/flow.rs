//! Flow documents: the source of a flow under its identifier.

use vstd::prelude::*;

verus! {

/// The source of a flow under its identifier.
#[derive(Debug, Clone)]
pub struct FlowDocument {
    pub id: String,
    pub source: String,
}

/// Why a flow could not be loaded.
#[derive(Debug, Clone, Copy, PartialEq, Eq)]
pub enum FlowError {
    /// The identifier is empty.
    EmptyId,
}

impl FlowError {
    /// The error in words.
    pub fn message(&self) -> (text: String)
        ensures
            text@ == "flow id must not be empty"@,
    {
        match self {
            FlowError::EmptyId => "flow id must not be empty".to_owned(),
        }
    }
}

impl FlowDocument {
    /// A flow document with the given identifier and source.
    pub fn new(id: &str, source: &str) -> (doc: FlowDocument)
        ensures
            doc.id@ == id@,
            doc.source@ == source@,
    {
        FlowDocument { id: id.to_owned(), source: source.to_owned() }
    }
}

/// Loads a flow from its source text. The identifier must not be empty.
pub fn load_ygtc_from_str(id: &str, source: &str) -> (out: Result<FlowDocument, FlowError>)
    ensures
        id@.len() == 0 ==> out == Err::<FlowDocument, _>(FlowError::EmptyId),
        id@.len() > 0 ==> out is Ok && out->Ok_0.id@ == id@ && out->Ok_0.source@ == source@,
{
    if id.is_empty() {
        return Err(FlowError::EmptyId);
    }
    Ok(FlowDocument::new(id, source))
}

} // verus!
