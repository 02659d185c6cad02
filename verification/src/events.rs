//! The `events` section of a pack: the event providers it declares.

use crate::text::concat;
use crate::text::find_blank;
use crate::text::first_blank;
use crate::text::is_blank;
use crate::text::str_eq;
use crate::text::str_is_blank;
use vstd::prelude::*;

verus! {

/// The `events` section: the providers in the order they are declared.
#[derive(Clone, Debug, PartialEq, Eq, Default)]
pub struct EventsSection {
    pub providers: Vec<EventProviderSpec>,
}

/// One event provider.
#[derive(Clone, Debug, PartialEq, Eq)]
pub struct EventProviderSpec {
    pub name: String,
    pub kind: EventProviderKind,
    pub component: String,
    pub default_flow: Option<String>,
    pub custom_flow: Option<String>,
    pub capabilities: EventProviderCapabilities,
}

/// What an event provider can do.
#[derive(Clone, Debug, PartialEq, Eq, Default)]
pub struct EventProviderCapabilities {
    pub transport: Option<TransportKind>,
    pub reliability: Option<ReliabilityKind>,
    pub ordering: Option<OrderingKind>,
    pub topics: Vec<String>,
}

/// The part an event provider plays.
#[derive(Clone, Copy, Debug, PartialEq, Eq)]
pub enum EventProviderKind {
    Broker,
    Source,
    Sink,
    Bridge,
}

/// How events travel; a transport without a name of its own is `Other`.
#[derive(Clone, Debug, PartialEq, Eq)]
pub enum TransportKind {
    Nats,
    Kafka,
    Sqs,
    Webhook,
    Email,
    Other(String),
}

/// How often an event is delivered.
#[derive(Clone, Copy, Debug, PartialEq, Eq)]
pub enum ReliabilityKind {
    AtMostOnce,
    AtLeastOnce,
    EffectivelyOnce,
}

/// In what order events are delivered.
#[derive(Clone, Copy, Debug, PartialEq, Eq)]
pub enum OrderingKind {
    Unordered,
    PerKey,
    Global,
}

impl EventProviderKind {
    /// The name of the kind as it is written in a manifest.
    pub fn label(&self) -> (text: &'static str)
        ensures
            text@ == match self {
                EventProviderKind::Broker => "broker"@,
                EventProviderKind::Source => "source"@,
                EventProviderKind::Sink => "sink"@,
                EventProviderKind::Bridge => "bridge"@,
            },
    {
        match self {
            EventProviderKind::Broker => "broker",
            EventProviderKind::Source => "source",
            EventProviderKind::Sink => "sink",
            EventProviderKind::Bridge => "bridge",
        }
    }
}

impl TransportKind {
    /// The name of the transport as it is written in a manifest.
    pub fn label(&self) -> (text: &str)
        ensures
            text@ == match self {
                TransportKind::Nats => "nats"@,
                TransportKind::Kafka => "kafka"@,
                TransportKind::Sqs => "sqs"@,
                TransportKind::Webhook => "webhook"@,
                TransportKind::Email => "email"@,
                TransportKind::Other(value) => value@,
            },
    {
        match self {
            TransportKind::Nats => "nats",
            TransportKind::Kafka => "kafka",
            TransportKind::Sqs => "sqs",
            TransportKind::Webhook => "webhook",
            TransportKind::Email => "email",
            TransportKind::Other(value) => value.as_str(),
        }
    }
}

impl ReliabilityKind {
    /// The name of the guarantee as it is written in a manifest.
    pub fn label(&self) -> (text: &'static str)
        ensures
            text@ == match self {
                ReliabilityKind::AtMostOnce => "at_most_once"@,
                ReliabilityKind::AtLeastOnce => "at_least_once"@,
                ReliabilityKind::EffectivelyOnce => "effectively_once"@,
            },
    {
        match self {
            ReliabilityKind::AtMostOnce => "at_most_once",
            ReliabilityKind::AtLeastOnce => "at_least_once",
            ReliabilityKind::EffectivelyOnce => "effectively_once",
        }
    }
}

impl OrderingKind {
    /// The name of the order as it is written in a manifest.
    pub fn label(&self) -> (text: &'static str)
        ensures
            text@ == match self {
                OrderingKind::Unordered => "none"@,
                OrderingKind::PerKey => "per_key"@,
                OrderingKind::Global => "global"@,
            },
    {
        match self {
            OrderingKind::Unordered => "none",
            OrderingKind::PerKey => "per_key",
            OrderingKind::Global => "global",
        }
    }
}

/// What is wrong with an `events` section. `provider` is the place of the
/// provider in the section.
#[derive(Clone, Copy, Debug, PartialEq, Eq)]
pub enum EventsError {
    /// The provider has no name.
    NameMissing { provider: usize },
    /// The provider names no component.
    ComponentEmpty { provider: usize },
    /// The topic at `topic` is blank.
    EmptyTopic { provider: usize, topic: usize },
    /// An earlier provider has the same name.
    DuplicateName { provider: usize },
}

/// The name of the provider at a place of the section, empty where the
/// section does not reach that far.
pub open spec fn provider_name(providers: Seq<EventProviderSpec>, at: usize) -> Seq<char> {
    if at < providers.len() {
        providers[at as int].name@
    } else {
        Seq::empty()
    }
}

/// An error in words, with the name of the provider it is about.
pub open spec fn error_text(e: EventsError, providers: Seq<EventProviderSpec>) -> Seq<char> {
    match e {
        EventsError::NameMissing { provider } => "events.providers[].name is required"@,
        EventsError::ComponentEmpty { provider } => "events.providers["@ + provider_name(
            providers,
            provider,
        ) + "].component must not be empty"@,
        EventsError::EmptyTopic { provider, topic } => "events.providers["@ + provider_name(
            providers,
            provider,
        ) + "].capabilities.topics may not contain empty entries"@,
        EventsError::DuplicateName { provider } => "duplicate events provider name: "@
            + provider_name(providers, provider),
    }
}

impl EventsError {
    /// The error in words. `section` is the section that was checked.
    pub fn message(&self, section: &EventsSection) -> (text: String)
        ensures
            text@ == error_text(*self, section.providers@),
    {
        let at = match self {
            EventsError::NameMissing { provider } => *provider,
            EventsError::ComponentEmpty { provider } => *provider,
            EventsError::EmptyTopic { provider, topic } => *provider,
            EventsError::DuplicateName { provider } => *provider,
        };
        let name = if at < section.providers.len() {
            section.providers[at].name.as_str()
        } else {
            ""
        };
        proof {
            reveal_strlit("");
            assert(name@ =~= provider_name(section.providers@, at));
        }
        match self {
            EventsError::NameMissing { provider } => {
                "events.providers[].name is required".to_owned()
            },
            EventsError::ComponentEmpty { provider } => {
                let head = concat("events.providers[", name);
                concat(head.as_str(), "].component must not be empty")
            },
            EventsError::EmptyTopic { provider, topic } => {
                let head = concat("events.providers[", name);
                concat(head.as_str(), "].capabilities.topics may not contain empty entries")
            },
            EventsError::DuplicateName { provider } => {
                concat("duplicate events provider name: ", name)
            },
        }
    }
}

/// What is wrong with one provider: its name, then its component, then its
/// first blank topic.
pub open spec fn provider_fault(p: EventProviderSpec, provider: usize) -> Option<EventsError> {
    if is_blank(p.name@) {
        Some(EventsError::NameMissing { provider })
    } else if is_blank(p.component@) {
        Some(EventsError::ComponentEmpty { provider })
    } else {
        match first_blank(p.capabilities.topics@) {
            Some(topic) => Some(EventsError::EmptyTopic { provider, topic }),
            None => None,
        }
    }
}

/// Whether one of the first `upto` providers has the name `name`.
pub open spec fn name_taken(providers: Seq<EventProviderSpec>, upto: int, name: Seq<char>) -> bool {
    exists|j: int| 0 <= j < upto && j < providers.len() && (#[trigger] providers[j]).name@ == name
}

/// What is wrong with the provider at `at`, itself or by its name being taken.
pub open spec fn fault_at(providers: Seq<EventProviderSpec>, at: int) -> Option<EventsError> {
    match provider_fault(providers[at], at as usize) {
        Some(e) => Some(e),
        None => if name_taken(providers, at, providers[at].name@) {
            Some(EventsError::DuplicateName { provider: at as usize })
        } else {
            None
        },
    }
}

/// The fault of the first provider that has one, among the first `upto`.
pub open spec fn first_fault(providers: Seq<EventProviderSpec>, upto: int) -> Option<EventsError>
    decreases upto,
{
    if upto <= 0 {
        None
    } else {
        match first_fault(providers, upto - 1) {
            Some(e) => Some(e),
            None => fault_at(providers, upto - 1),
        }
    }
}

/// A fault among the first providers is the fault of the section.
pub proof fn lemma_first_fault_stays(providers: Seq<EventProviderSpec>, k: int, n: int)
    requires
        0 <= k <= n,
        first_fault(providers, k) is Some,
    ensures
        first_fault(providers, n) == first_fault(providers, k),
    decreases n - k,
{
    if k < n {
        lemma_first_fault_stays(providers, k, n - 1);
    }
}

impl EventProviderSpec {
    /// Checks one provider: name, component and topics must not be blank.
    /// `provider` is its place in the section.
    pub fn validate(&self, provider: usize) -> (out: Result<(), EventsError>)
        ensures
            match out {
                Ok(_) => provider_fault(*self, provider) is None,
                Err(e) => provider_fault(*self, provider) == Some(e),
            },
    {
        if str_is_blank(self.name.as_str()) {
            return Err(EventsError::NameMissing { provider });
        }
        if str_is_blank(self.component.as_str()) {
            return Err(EventsError::ComponentEmpty { provider });
        }
        match find_blank(&self.capabilities.topics) {
            Some(topic) => Err(EventsError::EmptyTopic { provider, topic }),
            None => Ok(()),
        }
    }
}

fn name_seen(providers: &Vec<EventProviderSpec>, upto: usize, name: &str) -> (seen: bool)
    requires
        upto <= providers@.len(),
    ensures
        seen == name_taken(providers@, upto as int, name@),
{
    let mut j: usize = 0;
    while j < upto
        invariant
            j <= upto <= providers@.len(),
            forall|k: int| 0 <= k < j ==> (#[trigger] providers@[k]).name@ != name@,
        decreases upto - j,
    {
        if str_eq(providers[j].name.as_str(), name) {
            return true;
        }
        j += 1;
    }
    false
}

impl EventsSection {
    /// Checks the providers in their order: each by itself, and its name
    /// against those before it.
    pub fn validate(&self) -> (out: Result<(), EventsError>)
        ensures
            match out {
                Ok(_) => first_fault(self.providers@, self.providers@.len() as int) is None,
                Err(e) => first_fault(self.providers@, self.providers@.len() as int) == Some(e),
            },
    {
        let mut i: usize = 0;
        while i < self.providers.len()
            invariant
                i <= self.providers@.len(),
                first_fault(self.providers@, i as int) is None,
            decreases self.providers@.len() - i,
        {
            let provider = &self.providers[i];
            let fault = match provider.validate(i) {
                Err(e) => Some(e),
                Ok(_) => if name_seen(&self.providers, i, provider.name.as_str()) {
                    Some(EventsError::DuplicateName { provider: i })
                } else {
                    None
                },
            };
            if let Some(e) = fault {
                proof {
                    assert(first_fault(self.providers@, i + 1) == Some(e));
                    lemma_first_fault_stays(self.providers@, i + 1, self.providers@.len() as int);
                }
                return Err(e);
            }
            i += 1;
        }
        Ok(())
    }
}

} // verus!
