//! The `messaging` section of a pack: the adapters it declares.

use crate::text::concat;
use crate::text::find_blank;
use crate::text::first_blank;
use crate::text::is_blank;
use crate::text::str_eq;
use crate::text::str_is_blank;
use vstd::prelude::*;

verus! {

/// The `messaging` section: the adapters in the order they are declared.
#[derive(Clone, Debug, PartialEq, Eq, Default)]
pub struct MessagingSection {
    pub adapters: Option<Vec<MessagingAdapter>>,
}

/// One messaging adapter.
#[derive(Clone, Debug, PartialEq, Eq)]
pub struct MessagingAdapter {
    pub name: String,
    pub kind: MessagingAdapterKind,
    pub component: String,
    pub default_flow: Option<String>,
    pub custom_flow: Option<String>,
    pub capabilities: Option<MessagingAdapterCapabilities>,
}

/// The direction an adapter carries messages in.
#[derive(Clone, Copy, Debug, PartialEq, Eq)]
pub enum MessagingAdapterKind {
    Ingress,
    Egress,
    IngressEgress,
}

/// What a messaging adapter can do.
#[derive(Clone, Debug, PartialEq, Eq, Default)]
pub struct MessagingAdapterCapabilities {
    pub direction: Vec<String>,
    pub features: Vec<String>,
}

/// What is wrong with a list of capabilities.
#[derive(Clone, Copy, Debug, PartialEq, Eq)]
pub enum CapabilityFault {
    /// The direction at `entry` is blank.
    EmptyDirection { entry: usize },
    /// The feature at `entry` is blank.
    EmptyFeature { entry: usize },
}

/// What is wrong with a `messaging` section. `adapter` is the place of the
/// adapter in the section.
#[derive(Clone, Copy, Debug, PartialEq, Eq)]
pub enum MessagingError {
    /// The adapter has no name.
    NameMissing { adapter: usize },
    /// The adapter names no component.
    ComponentEmpty { adapter: usize },
    /// The adapter's capabilities hold a blank value.
    Capability { adapter: usize, fault: CapabilityFault },
    /// An earlier adapter has the same name.
    DuplicateName { adapter: usize },
}

/// The name of the adapter at a place of the section, empty where the
/// section has no adapters or does not reach that far.
pub open spec fn adapter_name(section: MessagingSection, at: usize) -> Seq<char> {
    match section.adapters {
        Some(adapters) => if at < adapters@.len() {
            adapters@[at as int].name@
        } else {
            Seq::empty()
        },
        None => Seq::empty(),
    }
}

/// An error in words, with the name of the adapter it is about.
pub open spec fn error_text(e: MessagingError, section: MessagingSection) -> Seq<char> {
    match e {
        MessagingError::NameMissing { adapter } => "messaging.adapters[].name is required"@,
        MessagingError::ComponentEmpty { adapter } => "messaging.adapters["@ + adapter_name(
            section,
            adapter,
        ) + "].component must not be empty"@,
        MessagingError::Capability { adapter, fault } => "messaging.adapters["@ + adapter_name(
            section,
            adapter,
        ) + match fault {
            CapabilityFault::EmptyDirection { entry } => {
                "].capabilities.direction must not contain empty values"@
            },
            CapabilityFault::EmptyFeature { entry } => {
                "].capabilities.features must not contain empty values"@
            },
        },
        MessagingError::DuplicateName { adapter } => "duplicate messaging adapter name: "@
            + adapter_name(section, adapter),
    }
}

impl MessagingError {
    /// The error in words. `section` is the section that was checked.
    pub fn message(&self, section: &MessagingSection) -> (text: String)
        ensures
            text@ == error_text(*self, *section),
    {
        let at = match self {
            MessagingError::NameMissing { adapter } => *adapter,
            MessagingError::ComponentEmpty { adapter } => *adapter,
            MessagingError::Capability { adapter, fault } => *adapter,
            MessagingError::DuplicateName { adapter } => *adapter,
        };
        let name = match &section.adapters {
            Some(adapters) => if at < adapters.len() {
                adapters[at].name.as_str()
            } else {
                ""
            },
            None => "",
        };
        proof {
            reveal_strlit("");
            assert(name@ =~= adapter_name(*section, at));
        }
        match self {
            MessagingError::NameMissing { adapter } => {
                "messaging.adapters[].name is required".to_owned()
            },
            MessagingError::ComponentEmpty { adapter } => {
                let head = concat("messaging.adapters[", name);
                concat(head.as_str(), "].component must not be empty")
            },
            MessagingError::Capability { adapter, fault } => {
                let head = concat("messaging.adapters[", name);
                match fault {
                    CapabilityFault::EmptyDirection { entry } => concat(
                        head.as_str(),
                        "].capabilities.direction must not contain empty values",
                    ),
                    CapabilityFault::EmptyFeature { entry } => concat(
                        head.as_str(),
                        "].capabilities.features must not contain empty values",
                    ),
                }
            },
            MessagingError::DuplicateName { adapter } => {
                concat("duplicate messaging adapter name: ", name)
            },
        }
    }
}

/// The first blank value among the capabilities: directions before features.
pub open spec fn capability_fault(c: MessagingAdapterCapabilities) -> Option<CapabilityFault> {
    match first_blank(c.direction@) {
        Some(entry) => Some(CapabilityFault::EmptyDirection { entry }),
        None => match first_blank(c.features@) {
            Some(entry) => Some(CapabilityFault::EmptyFeature { entry }),
            None => None,
        },
    }
}

/// What is wrong with one adapter: its name, then its component, then its
/// capabilities.
pub open spec fn adapter_fault(a: MessagingAdapter, adapter: usize) -> Option<MessagingError> {
    if is_blank(a.name@) {
        Some(MessagingError::NameMissing { adapter })
    } else if is_blank(a.component@) {
        Some(MessagingError::ComponentEmpty { adapter })
    } else {
        match a.capabilities {
            None => None,
            Some(c) => match capability_fault(c) {
                Some(fault) => Some(MessagingError::Capability { adapter, fault }),
                None => None,
            },
        }
    }
}

/// Whether one of the first `upto` adapters has the name `name`.
pub open spec fn name_taken(adapters: Seq<MessagingAdapter>, upto: int, name: Seq<char>) -> bool {
    exists|j: int| 0 <= j < upto && j < adapters.len() && (#[trigger] adapters[j]).name@ == name
}

/// What is wrong with the adapter at `at`, itself or by its name being taken.
pub open spec fn fault_at(adapters: Seq<MessagingAdapter>, at: int) -> Option<MessagingError> {
    match adapter_fault(adapters[at], at as usize) {
        Some(e) => Some(e),
        None => if name_taken(adapters, at, adapters[at].name@) {
            Some(MessagingError::DuplicateName { adapter: at as usize })
        } else {
            None
        },
    }
}

/// The fault of the first adapter that has one, among the first `upto`.
pub open spec fn first_fault(adapters: Seq<MessagingAdapter>, upto: int) -> Option<MessagingError>
    decreases upto,
{
    if upto <= 0 {
        None
    } else {
        match first_fault(adapters, upto - 1) {
            Some(e) => Some(e),
            None => fault_at(adapters, upto - 1),
        }
    }
}

/// The fault of a section: that of its adapters, none where it has none.
pub open spec fn section_fault(section: MessagingSection) -> Option<MessagingError> {
    match section.adapters {
        None => None,
        Some(adapters) => first_fault(adapters@, adapters@.len() as int),
    }
}

/// A fault among the first adapters is the fault of the section.
pub proof fn lemma_first_fault_stays(adapters: Seq<MessagingAdapter>, k: int, n: int)
    requires
        0 <= k <= n,
        first_fault(adapters, k) is Some,
    ensures
        first_fault(adapters, n) == first_fault(adapters, k),
    decreases n - k,
{
    if k < n {
        lemma_first_fault_stays(adapters, k, n - 1);
    }
}

impl MessagingAdapterCapabilities {
    /// Looks for a blank direction or feature, directions first.
    pub fn validate(&self) -> (out: Result<(), CapabilityFault>)
        ensures
            match out {
                Ok(_) => capability_fault(*self) is None,
                Err(e) => capability_fault(*self) == Some(e),
            },
    {
        if let Some(entry) = find_blank(&self.direction) {
            return Err(CapabilityFault::EmptyDirection { entry });
        }
        if let Some(entry) = find_blank(&self.features) {
            return Err(CapabilityFault::EmptyFeature { entry });
        }
        Ok(())
    }
}

impl MessagingAdapter {
    /// Checks one adapter: name, component and capabilities. `adapter` is its
    /// place in the section.
    pub fn validate(&self, adapter: usize) -> (out: Result<(), MessagingError>)
        ensures
            match out {
                Ok(_) => adapter_fault(*self, adapter) is None,
                Err(e) => adapter_fault(*self, adapter) == Some(e),
            },
    {
        if str_is_blank(self.name.as_str()) {
            return Err(MessagingError::NameMissing { adapter });
        }
        if str_is_blank(self.component.as_str()) {
            return Err(MessagingError::ComponentEmpty { adapter });
        }
        if let Some(capabilities) = &self.capabilities {
            if let Err(fault) = capabilities.validate() {
                return Err(MessagingError::Capability { adapter, fault });
            }
        }
        Ok(())
    }
}

fn name_seen(adapters: &Vec<MessagingAdapter>, upto: usize, name: &str) -> (seen: bool)
    requires
        upto <= adapters@.len(),
    ensures
        seen == name_taken(adapters@, upto as int, name@),
{
    let mut j: usize = 0;
    while j < upto
        invariant
            j <= upto <= adapters@.len(),
            forall|k: int| 0 <= k < j ==> (#[trigger] adapters@[k]).name@ != name@,
        decreases upto - j,
    {
        if str_eq(adapters[j].name.as_str(), name) {
            return true;
        }
        j += 1;
    }
    false
}

impl MessagingSection {
    /// Checks the adapters in their order: each by itself, and its name
    /// against those before it.
    pub fn validate(&self) -> (out: Result<(), MessagingError>)
        ensures
            match out {
                Ok(_) => section_fault(*self) is None,
                Err(e) => section_fault(*self) == Some(e),
            },
    {
        let adapters = match &self.adapters {
            Some(adapters) => adapters,
            None => {
                return Ok(());
            },
        };
        let mut i: usize = 0;
        while i < adapters.len()
            invariant
                i <= adapters@.len(),
                self.adapters == Some(*adapters),
                first_fault(adapters@, i as int) is None,
            decreases adapters@.len() - i,
        {
            let adapter = &adapters[i];
            let fault = match adapter.validate(i) {
                Err(e) => Some(e),
                Ok(_) => if name_seen(adapters, i, adapter.name.as_str()) {
                    Some(MessagingError::DuplicateName { adapter: i })
                } else {
                    None
                },
            };
            if let Some(e) = fault {
                proof {
                    assert(first_fault(adapters@, i + 1) == Some(e));
                    lemma_first_fault_stays(adapters@, i + 1, adapters@.len() as int);
                }
                return Err(e);
            }
            i += 1;
        }
        Ok(())
    }
}

} // verus!
