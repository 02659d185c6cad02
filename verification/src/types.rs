//! The description of a pack as other packages exchange it.

use vstd::prelude::*;

verus! {

/// The description of a pack: identifier, version and what it is made of.
#[derive(Debug, Clone, Default)]
pub struct PackSpec {
    pub id: String,
    pub version: String,
    pub flow_files: Vec<String>,
    pub template_dirs: Vec<String>,
    pub imports_required: Vec<String>,
}

/// What `validate` says of a description: nothing where it has an identifier
/// and a version, else which of the two it lacks, the identifier first.
pub open spec fn spec_complaint(spec: PackSpec) -> Option<Seq<char>> {
    if spec.id@.len() == 0 {
        Some("pack id must not be empty"@)
    } else if spec.version@.len() == 0 {
        Some("pack version must not be empty"@)
    } else {
        None
    }
}

impl PackSpec {
    /// Checks that the pack has an identifier and a version.
    pub fn validate(&self) -> (out: Result<(), String>)
        ensures
            match out {
                Ok(_) => spec_complaint(*self) is None,
                Err(message) => spec_complaint(*self) == Some(message@),
            },
    {
        if self.id.as_str().is_empty() {
            return Err("pack id must not be empty".to_owned());
        }
        if self.version.as_str().is_empty() {
            return Err("pack version must not be empty".to_owned());
        }
        Ok(())
    }
}

} // verus!
