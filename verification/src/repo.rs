//! The `repo` section of a pack: the role the pack plays in a repository,
//! with the capabilities and bindings that go with the role.

use crate::text::concat;
use crate::text::find_blank;
use crate::text::first_blank;
use crate::text::is_blank;
use crate::text::str_is_blank;
use vstd::prelude::*;
use vstd::string::StringExecFns;

verus! {

/// The role of a pack.
#[derive(Clone, Copy, Debug, PartialEq, Eq)]
pub enum RepoPackKind {
    SourceProvider,
    Scanner,
    Signing,
    Attestation,
    PolicyEngine,
    OciProvider,
    BillingProvider,
    SearchProvider,
    RecommendationProvider,
}

/// The key under which a role's capabilities and bindings stand.
#[derive(Clone, Copy, Debug, PartialEq, Eq)]
pub enum RepoKey {
    Source,
    Scan,
    Signing,
    Attestation,
    Policy,
    Oci,
    Billing,
    Search,
    Reco,
}

/// The place of a key in the fixed order of the keys.
pub open spec fn key_rank(key: RepoKey) -> int {
    match key {
        RepoKey::Source => 0,
        RepoKey::Scan => 1,
        RepoKey::Signing => 2,
        RepoKey::Attestation => 3,
        RepoKey::Policy => 4,
        RepoKey::Oci => 5,
        RepoKey::Billing => 6,
        RepoKey::Search => 7,
        RepoKey::Reco => 8,
    }
}

/// The key at a place of the fixed order.
pub open spec fn key_at(rank: int) -> RepoKey {
    if rank == 0 {
        RepoKey::Source
    } else if rank == 1 {
        RepoKey::Scan
    } else if rank == 2 {
        RepoKey::Signing
    } else if rank == 3 {
        RepoKey::Attestation
    } else if rank == 4 {
        RepoKey::Policy
    } else if rank == 5 {
        RepoKey::Oci
    } else if rank == 6 {
        RepoKey::Billing
    } else if rank == 7 {
        RepoKey::Search
    } else {
        RepoKey::Reco
    }
}

/// The key that goes with a role.
pub open spec fn key_of(kind: RepoPackKind) -> RepoKey {
    match kind {
        RepoPackKind::SourceProvider => RepoKey::Source,
        RepoPackKind::Scanner => RepoKey::Scan,
        RepoPackKind::Signing => RepoKey::Signing,
        RepoPackKind::Attestation => RepoKey::Attestation,
        RepoPackKind::PolicyEngine => RepoKey::Policy,
        RepoPackKind::OciProvider => RepoKey::Oci,
        RepoPackKind::BillingProvider => RepoKey::Billing,
        RepoPackKind::SearchProvider => RepoKey::Search,
        RepoPackKind::RecommendationProvider => RepoKey::Reco,
    }
}

impl RepoPackKind {
    /// The name of the role as it is written in a manifest.
    pub fn label(&self) -> (text: &'static str)
        ensures
            text@ == kind_text(*self),
    {
        match self {
            RepoPackKind::SourceProvider => "source-provider",
            RepoPackKind::Scanner => "scanner",
            RepoPackKind::Signing => "signing",
            RepoPackKind::Attestation => "attestation",
            RepoPackKind::PolicyEngine => "policy-engine",
            RepoPackKind::OciProvider => "oci-provider",
            RepoPackKind::BillingProvider => "billing-provider",
            RepoPackKind::SearchProvider => "search-provider",
            RepoPackKind::RecommendationProvider => "recommendation-provider",
        }
    }
}

impl RepoKey {
    /// The key as it is written in a manifest.
    pub fn label(&self) -> (text: &'static str)
        ensures
            text@ == key_text(*self),
    {
        match self {
            RepoKey::Source => "source",
            RepoKey::Scan => "scan",
            RepoKey::Signing => "signing",
            RepoKey::Attestation => "attestation",
            RepoKey::Policy => "policy",
            RepoKey::Oci => "oci",
            RepoKey::Billing => "billing",
            RepoKey::Search => "search",
            RepoKey::Reco => "reco",
        }
    }

    fn rank(&self) -> (r: usize)
        ensures
            r == key_rank(*self),
            key_at(r as int) == *self,
    {
        match self {
            RepoKey::Source => 0,
            RepoKey::Scan => 1,
            RepoKey::Signing => 2,
            RepoKey::Attestation => 3,
            RepoKey::Policy => 4,
            RepoKey::Oci => 5,
            RepoKey::Billing => 6,
            RepoKey::Search => 7,
            RepoKey::Reco => 8,
        }
    }

    fn at(rank: usize) -> (key: RepoKey)
        requires
            rank < 9,
        ensures
            key == key_at(rank as int),
            key_rank(key) == rank,
    {
        if rank == 0 {
            RepoKey::Source
        } else if rank == 1 {
            RepoKey::Scan
        } else if rank == 2 {
            RepoKey::Signing
        } else if rank == 3 {
            RepoKey::Attestation
        } else if rank == 4 {
            RepoKey::Policy
        } else if rank == 5 {
            RepoKey::Oci
        } else if rank == 6 {
            RepoKey::Billing
        } else if rank == 7 {
            RepoKey::Search
        } else {
            RepoKey::Reco
        }
    }
}

/// Gives the key under which a role's capabilities and bindings stand.
pub fn expected_capability_key(kind: &RepoPackKind) -> (key: RepoKey)
    ensures
        key == key_of(*kind),
{
    match kind {
        RepoPackKind::SourceProvider => RepoKey::Source,
        RepoPackKind::Scanner => RepoKey::Scan,
        RepoPackKind::Signing => RepoKey::Signing,
        RepoPackKind::Attestation => RepoKey::Attestation,
        RepoPackKind::PolicyEngine => RepoKey::Policy,
        RepoPackKind::OciProvider => RepoKey::Oci,
        RepoPackKind::BillingProvider => RepoKey::Billing,
        RepoPackKind::SearchProvider => RepoKey::Search,
        RepoPackKind::RecommendationProvider => RepoKey::Reco,
    }
}

/// The capabilities of a pack, by key.
#[derive(Clone, Debug, PartialEq, Eq, Default)]
pub struct RepoCapabilities {
    pub source: Vec<String>,
    pub scan: Vec<String>,
    pub signing: Vec<String>,
    pub attestation: Vec<String>,
    pub policy: Vec<String>,
    pub oci: Vec<String>,
    pub billing: Vec<String>,
    pub search: Vec<String>,
    pub reco: Vec<String>,
}

/// The bindings of a pack, by key.
#[derive(Clone, Debug, PartialEq, Eq, Default)]
pub struct RepoBindings {
    pub source: Vec<RepoBinding>,
    pub scan: Vec<RepoBinding>,
    pub signing: Vec<RepoBinding>,
    pub attestation: Vec<RepoBinding>,
    pub policy: Vec<RepoBinding>,
    pub oci: Vec<RepoBinding>,
    pub billing: Vec<RepoBinding>,
    pub search: Vec<RepoBinding>,
    pub reco: Vec<RepoBinding>,
}

/// One binding of a capability to a component.
#[derive(Clone, Debug, PartialEq, Eq)]
pub struct RepoBinding {
    pub package: String,
    pub world: String,
    pub version: String,
    pub component: String,
    pub entrypoint: String,
    pub profile: Option<String>,
}

/// The `repo` section of a pack.
#[derive(Clone, Debug, PartialEq, Eq)]
pub struct RepoPackSection {
    pub kind: RepoPackKind,
    pub capabilities: RepoCapabilities,
    pub bindings: RepoBindings,
}

/// A field of a binding.
#[derive(Clone, Copy, Debug, PartialEq, Eq)]
pub enum BindingField {
    Package,
    World,
    Version,
    Component,
    Entrypoint,
    Profile,
}

/// What is wrong with a `repo` section.
#[derive(Clone, Copy, Debug, PartialEq, Eq)]
pub enum RepoError {
    /// A capability under `key` is blank.
    EmptyCapability { key: RepoKey },
    /// A binding under `key` lacks `field`, or has a blank profile.
    BindingField { key: RepoKey, field: BindingField },
    /// Capabilities stand under `key`, which is not the key of the role.
    UnexpectedCapability { key: RepoKey, expected: RepoKey },
    /// Bindings stand under `key`, which is not the key of the role.
    UnexpectedBinding { key: RepoKey, expected: RepoKey },
    /// The role has no capability.
    NoCapability,
    /// The role has no binding.
    NoBinding,
}

/// The name of a role as it is written in a manifest.
pub open spec fn kind_text(kind: RepoPackKind) -> Seq<char> {
    match kind {
        RepoPackKind::SourceProvider => "source-provider"@,
        RepoPackKind::Scanner => "scanner"@,
        RepoPackKind::Signing => "signing"@,
        RepoPackKind::Attestation => "attestation"@,
        RepoPackKind::PolicyEngine => "policy-engine"@,
        RepoPackKind::OciProvider => "oci-provider"@,
        RepoPackKind::BillingProvider => "billing-provider"@,
        RepoPackKind::SearchProvider => "search-provider"@,
        RepoPackKind::RecommendationProvider => "recommendation-provider"@,
    }
}

/// A key as it is written in a manifest.
pub open spec fn key_text(key: RepoKey) -> Seq<char> {
    match key {
        RepoKey::Source => "source"@,
        RepoKey::Scan => "scan"@,
        RepoKey::Signing => "signing"@,
        RepoKey::Attestation => "attestation"@,
        RepoKey::Policy => "policy"@,
        RepoKey::Oci => "oci"@,
        RepoKey::Billing => "billing"@,
        RepoKey::Search => "search"@,
        RepoKey::Reco => "reco"@,
    }
}

/// What is said of a field of a binding that is blank.
pub open spec fn field_text(field: BindingField) -> Seq<char> {
    match field {
        BindingField::Package => "[].package is required"@,
        BindingField::World => "[].world is required"@,
        BindingField::Version => "[].version is required"@,
        BindingField::Component => "[].component is required"@,
        BindingField::Entrypoint => "[].entrypoint is required"@,
        BindingField::Profile => "[].profile must not be empty when present"@,
    }
}

/// An error in words. `kind` is the role of the section that was checked.
pub open spec fn error_text(e: RepoError, kind: RepoPackKind) -> Seq<char> {
    match e {
        RepoError::EmptyCapability { key } => key_text(key)
            + " capability values must not be empty"@,
        RepoError::BindingField { key, field } => "bindings."@ + key_text(key) + field_text(field),
        RepoError::UnexpectedCapability { key, expected } => "capabilities for "@ + kind_text(kind)
            + " may not include `"@ + key_text(key) + "`; use the "@ + key_text(expected)
            + " key instead"@,
        RepoError::UnexpectedBinding { key, expected } => "bindings for "@ + kind_text(kind)
            + " may not include `"@ + key_text(key) + "`; use the "@ + key_text(expected)
            + " key instead"@,
        RepoError::NoCapability => "capabilities for role "@ + kind_text(kind)
            + " must include at least one entry"@,
        RepoError::NoBinding => "bindings for role "@ + kind_text(kind)
            + " must include at least one entry"@,
    }
}

impl BindingField {
    fn complaint(&self) -> (text: &'static str)
        ensures
            text@ == field_text(*self),
    {
        match self {
            BindingField::Package => "[].package is required",
            BindingField::World => "[].world is required",
            BindingField::Version => "[].version is required",
            BindingField::Component => "[].component is required",
            BindingField::Entrypoint => "[].entrypoint is required",
            BindingField::Profile => "[].profile must not be empty when present",
        }
    }
}

fn unexpected(what: &str, kind: &RepoPackKind, key: &RepoKey, expected: &RepoKey) -> (text: String)
    ensures
        text@ == what@ + kind_text(*kind) + " may not include `"@ + key_text(*key) + "`; use the "@
            + key_text(*expected) + " key instead"@,
{
    let mut text = what.to_owned();
    text.append(kind.label());
    text.append(" may not include `");
    text.append(key.label());
    text.append("`; use the ");
    text.append(expected.label());
    text.append(" key instead");
    text
}

impl RepoError {
    /// The error in words. `kind` is the role of the section that was
    /// checked.
    pub fn message(&self, kind: &RepoPackKind) -> (text: String)
        ensures
            text@ == error_text(*self, *kind),
    {
        match self {
            RepoError::EmptyCapability { key } => concat(
                key.label(),
                " capability values must not be empty",
            ),
            RepoError::BindingField { key, field } => {
                let head = concat("bindings.", key.label());
                concat(head.as_str(), field.complaint())
            },
            RepoError::UnexpectedCapability { key, expected } => unexpected(
                "capabilities for ",
                kind,
                key,
                expected,
            ),
            RepoError::UnexpectedBinding { key, expected } => unexpected(
                "bindings for ",
                kind,
                key,
                expected,
            ),
            RepoError::NoCapability => {
                let head = concat("capabilities for role ", kind.label());
                concat(head.as_str(), " must include at least one entry")
            },
            RepoError::NoBinding => {
                let head = concat("bindings for role ", kind.label());
                concat(head.as_str(), " must include at least one entry")
            },
        }
    }
}

/// The capabilities under a key.
pub open spec fn capabilities_under(caps: RepoCapabilities, key: RepoKey) -> Seq<String> {
    match key {
        RepoKey::Source => caps.source@,
        RepoKey::Scan => caps.scan@,
        RepoKey::Signing => caps.signing@,
        RepoKey::Attestation => caps.attestation@,
        RepoKey::Policy => caps.policy@,
        RepoKey::Oci => caps.oci@,
        RepoKey::Billing => caps.billing@,
        RepoKey::Search => caps.search@,
        RepoKey::Reco => caps.reco@,
    }
}

/// The bindings under a key.
pub open spec fn bindings_under(bindings: RepoBindings, key: RepoKey) -> Seq<RepoBinding> {
    match key {
        RepoKey::Source => bindings.source@,
        RepoKey::Scan => bindings.scan@,
        RepoKey::Signing => bindings.signing@,
        RepoKey::Attestation => bindings.attestation@,
        RepoKey::Policy => bindings.policy@,
        RepoKey::Oci => bindings.oci@,
        RepoKey::Billing => bindings.billing@,
        RepoKey::Search => bindings.search@,
        RepoKey::Reco => bindings.reco@,
    }
}

/// The first field of a binding that is blank, a profile only where there is
/// one.
pub open spec fn binding_fault(b: RepoBinding) -> Option<BindingField> {
    if is_blank(b.package@) {
        Some(BindingField::Package)
    } else if is_blank(b.world@) {
        Some(BindingField::World)
    } else if is_blank(b.version@) {
        Some(BindingField::Version)
    } else if is_blank(b.component@) {
        Some(BindingField::Component)
    } else if is_blank(b.entrypoint@) {
        Some(BindingField::Entrypoint)
    } else if b.profile is Some && is_blank(b.profile->0@) {
        Some(BindingField::Profile)
    } else {
        None
    }
}

/// The fault of the first binding that has one, among the first `upto`.
pub open spec fn first_binding_fault(list: Seq<RepoBinding>, upto: int) -> Option<BindingField>
    decreases upto,
{
    if upto <= 0 {
        None
    } else {
        match first_binding_fault(list, upto - 1) {
            Some(f) => Some(f),
            None => binding_fault(list[upto - 1]),
        }
    }
}

/// A fault among the first bindings is the first fault of the list.
pub proof fn lemma_first_binding_fault_stays(list: Seq<RepoBinding>, k: int, n: int)
    requires
        0 <= k <= n,
        first_binding_fault(list, k) is Some,
    ensures
        first_binding_fault(list, n) == first_binding_fault(list, k),
    decreases n - k,
{
    if k < n {
        lemma_first_binding_fault_stays(list, k, n - 1);
    }
}

/// What is wrong under one key of the capabilities.
pub open spec fn capability_fault_under(caps: RepoCapabilities, key: RepoKey) -> Option<RepoError> {
    if first_blank(capabilities_under(caps, key)) is Some {
        Some(RepoError::EmptyCapability { key })
    } else {
        None
    }
}

/// What is wrong under one key of the bindings.
pub open spec fn binding_fault_under(bindings: RepoBindings, key: RepoKey) -> Option<RepoError> {
    let list = bindings_under(bindings, key);
    match first_binding_fault(list, list.len() as int) {
        Some(field) => Some(RepoError::BindingField { key, field }),
        None => None,
    }
}

/// Capabilities under a key that is not the role's.
pub open spec fn foreign_capability(caps: RepoCapabilities, kind: RepoPackKind, key: RepoKey) -> Option<
    RepoError,
> {
    if key != key_of(kind) && capabilities_under(caps, key).len() > 0 {
        Some(RepoError::UnexpectedCapability { key, expected: key_of(kind) })
    } else {
        None
    }
}

/// Bindings under a key that is not the role's.
pub open spec fn foreign_binding(bindings: RepoBindings, kind: RepoPackKind, key: RepoKey) -> Option<
    RepoError,
> {
    if key != key_of(kind) && bindings_under(bindings, key).len() > 0 {
        Some(RepoError::UnexpectedBinding { key, expected: key_of(kind) })
    } else {
        None
    }
}

/// The first fault that `check` finds, going through the first `upto` keys in
/// their fixed order.
pub open spec fn first_over_keys(check: spec_fn(RepoKey) -> Option<RepoError>, upto: int) -> Option<
    RepoError,
>
    decreases upto,
{
    if upto <= 0 {
        None
    } else {
        match first_over_keys(check, upto - 1) {
            Some(e) => Some(e),
            None => check(key_at(upto - 1)),
        }
    }
}

/// A fault under the first keys is the first fault over all keys.
pub proof fn lemma_first_over_keys_stays(check: spec_fn(RepoKey) -> Option<RepoError>, k: int, n: int)
    requires
        0 <= k <= n,
        first_over_keys(check, k) is Some,
    ensures
        first_over_keys(check, n) == first_over_keys(check, k),
    decreases n - k,
{
    if k < n {
        lemma_first_over_keys_stays(check, k, n - 1);
    }
}

/// The first blank capability, by key.
pub open spec fn capabilities_fault(caps: RepoCapabilities) -> Option<RepoError> {
    first_over_keys(|key: RepoKey| capability_fault_under(caps, key), 9)
}

/// The first faulty binding, by key.
pub open spec fn bindings_fault(bindings: RepoBindings) -> Option<RepoError> {
    first_over_keys(|key: RepoKey| binding_fault_under(bindings, key), 9)
}

/// The first key with capabilities that is not the role's.
pub open spec fn capability_keys_fault(caps: RepoCapabilities, kind: RepoPackKind) -> Option<RepoError> {
    first_over_keys(|key: RepoKey| foreign_capability(caps, kind, key), 9)
}

/// The first key with bindings that is not the role's.
pub open spec fn binding_keys_fault(bindings: RepoBindings, kind: RepoPackKind) -> Option<RepoError> {
    first_over_keys(|key: RepoKey| foreign_binding(bindings, kind, key), 9)
}

/// What is wrong with a section: blank capabilities first, then faulty
/// bindings, then capabilities and bindings under keys that are not the
/// role's, then the lack of a capability and of a binding for the role.
pub open spec fn section_fault(section: RepoPackSection) -> Option<RepoError> {
    if capabilities_fault(section.capabilities) is Some {
        capabilities_fault(section.capabilities)
    } else if bindings_fault(section.bindings) is Some {
        bindings_fault(section.bindings)
    } else if capability_keys_fault(section.capabilities, section.kind) is Some {
        capability_keys_fault(section.capabilities, section.kind)
    } else if binding_keys_fault(section.bindings, section.kind) is Some {
        binding_keys_fault(section.bindings, section.kind)
    } else if capabilities_under(section.capabilities, key_of(section.kind)).len() == 0 {
        Some(RepoError::NoCapability)
    } else if bindings_under(section.bindings, key_of(section.kind)).len() == 0 {
        Some(RepoError::NoBinding)
    } else {
        None
    }
}

impl RepoCapabilities {
    fn under(&self, key: RepoKey) -> (list: &Vec<String>)
        ensures
            list@ == capabilities_under(*self, key),
    {
        match key {
            RepoKey::Source => &self.source,
            RepoKey::Scan => &self.scan,
            RepoKey::Signing => &self.signing,
            RepoKey::Attestation => &self.attestation,
            RepoKey::Policy => &self.policy,
            RepoKey::Oci => &self.oci,
            RepoKey::Billing => &self.billing,
            RepoKey::Search => &self.search,
            RepoKey::Reco => &self.reco,
        }
    }

    /// Looks for a blank capability, key by key.
    pub fn validate(&self) -> (out: Result<(), RepoError>)
        ensures
            match out {
                Ok(_) => capabilities_fault(*self) is None,
                Err(e) => capabilities_fault(*self) == Some(e),
            },
    {
        let ghost check = |key: RepoKey| capability_fault_under(*self, key);
        let mut rank: usize = 0;
        while rank < 9
            invariant
                rank <= 9,
                check == (|key: RepoKey| capability_fault_under(*self, key)),
                first_over_keys(check, rank as int) is None,
            decreases 9 - rank,
        {
            let key = RepoKey::at(rank);
            if find_blank(self.under(key)).is_some() {
                proof {
                    assert(check(key) == Some(RepoError::EmptyCapability { key }));
                    assert(first_over_keys(check, rank + 1) == Some(
                        RepoError::EmptyCapability { key },
                    ));
                    lemma_first_over_keys_stays(check, rank + 1, 9);
                }
                return Err(RepoError::EmptyCapability { key });
            }
            assert(check(key) is None);
            rank += 1;
        }
        Ok(())
    }

    /// Whether the role has a capability.
    pub fn has_for_kind(&self, kind: &RepoPackKind) -> (has: bool)
        ensures
            has == (capabilities_under(*self, key_of(*kind)).len() > 0),
    {
        self.under(expected_capability_key(kind)).len() > 0
    }
}

impl RepoBinding {
    /// Looks for a field of the binding that is blank. `label` is the key
    /// under which the binding stands.
    pub fn validate(&self, label: RepoKey) -> (out: Result<(), RepoError>)
        ensures
            match out {
                Ok(_) => binding_fault(*self) is None,
                Err(e) => binding_fault(*self) is Some && e == (RepoError::BindingField {
                    key: label,
                    field: binding_fault(*self)->0,
                }),
            },
    {
        if str_is_blank(self.package.as_str()) {
            return Err(RepoError::BindingField { key: label, field: BindingField::Package });
        }
        if str_is_blank(self.world.as_str()) {
            return Err(RepoError::BindingField { key: label, field: BindingField::World });
        }
        if str_is_blank(self.version.as_str()) {
            return Err(RepoError::BindingField { key: label, field: BindingField::Version });
        }
        if str_is_blank(self.component.as_str()) {
            return Err(RepoError::BindingField { key: label, field: BindingField::Component });
        }
        if str_is_blank(self.entrypoint.as_str()) {
            return Err(RepoError::BindingField { key: label, field: BindingField::Entrypoint });
        }
        if let Some(profile) = &self.profile {
            if str_is_blank(profile.as_str()) {
                return Err(RepoError::BindingField { key: label, field: BindingField::Profile });
            }
        }
        Ok(())
    }
}

fn validate_bindings_under(list: &Vec<RepoBinding>, key: RepoKey) -> (out: Result<(), RepoError>)
    ensures
        match out {
            Ok(_) => first_binding_fault(list@, list@.len() as int) is None,
            Err(e) => first_binding_fault(list@, list@.len() as int) is Some && e == (
            RepoError::BindingField { key, field: first_binding_fault(list@, list@.len() as int)->0 }),
        },
{
    let mut i: usize = 0;
    while i < list.len()
        invariant
            i <= list@.len(),
            first_binding_fault(list@, i as int) is None,
        decreases list@.len() - i,
    {
        if let Err(e) = list[i].validate(key) {
            proof {
                assert(first_binding_fault(list@, i + 1) == binding_fault(list@[i as int]));
                lemma_first_binding_fault_stays(list@, i + 1, list@.len() as int);
            }
            return Err(e);
        }
        i += 1;
    }
    Ok(())
}

impl RepoBindings {
    fn under(&self, key: RepoKey) -> (list: &Vec<RepoBinding>)
        ensures
            list@ == bindings_under(*self, key),
    {
        match key {
            RepoKey::Source => &self.source,
            RepoKey::Scan => &self.scan,
            RepoKey::Signing => &self.signing,
            RepoKey::Attestation => &self.attestation,
            RepoKey::Policy => &self.policy,
            RepoKey::Oci => &self.oci,
            RepoKey::Billing => &self.billing,
            RepoKey::Search => &self.search,
            RepoKey::Reco => &self.reco,
        }
    }

    /// Looks for a faulty binding, key by key.
    pub fn validate(&self) -> (out: Result<(), RepoError>)
        ensures
            match out {
                Ok(_) => bindings_fault(*self) is None,
                Err(e) => bindings_fault(*self) == Some(e),
            },
    {
        let ghost check = |key: RepoKey| binding_fault_under(*self, key);
        let mut rank: usize = 0;
        while rank < 9
            invariant
                rank <= 9,
                check == (|key: RepoKey| binding_fault_under(*self, key)),
                first_over_keys(check, rank as int) is None,
            decreases 9 - rank,
        {
            let key = RepoKey::at(rank);
            if let Err(e) = validate_bindings_under(self.under(key), key) {
                proof {
                    assert(check(key) == Some(e));
                    assert(first_over_keys(check, rank + 1) == Some(e));
                    lemma_first_over_keys_stays(check, rank + 1, 9);
                }
                return Err(e);
            }
            assert(check(key) is None);
            rank += 1;
        }
        Ok(())
    }

    /// Whether the role has a binding.
    pub fn has_for_kind(&self, kind: &RepoPackKind) -> (has: bool)
        ensures
            has == (bindings_under(*self, key_of(*kind)).len() > 0),
    {
        self.under(expected_capability_key(kind)).len() > 0
    }
}

/// Looks for capabilities under a key that is not the role's.
pub fn ensure_capability_keys_match_kind(caps: &RepoCapabilities, kind: &RepoPackKind) -> (out: Result<
    (),
    RepoError,
>)
    ensures
        match out {
            Ok(_) => capability_keys_fault(*caps, *kind) is None,
            Err(e) => capability_keys_fault(*caps, *kind) == Some(e),
        },
{
    let expected = expected_capability_key(kind);
    let ghost check = |key: RepoKey| foreign_capability(*caps, *kind, key);
    let mut rank: usize = 0;
    while rank < 9
        invariant
            rank <= 9,
            expected == key_of(*kind),
            check == (|key: RepoKey| foreign_capability(*caps, *kind, key)),
            first_over_keys(check, rank as int) is None,
        decreases 9 - rank,
    {
        let key = RepoKey::at(rank);
        if rank != expected.rank() && caps.under(key).len() > 0 {
            let e = RepoError::UnexpectedCapability { key, expected };
            proof {
                assert(check(key) == Some(e));
                assert(first_over_keys(check, rank + 1) == Some(e));
                lemma_first_over_keys_stays(check, rank + 1, 9);
            }
            return Err(e);
        }
        assert(check(key) is None);
        rank += 1;
    }
    Ok(())
}

/// Looks for bindings under a key that is not the role's.
pub fn ensure_binding_keys_match_kind(bindings: &RepoBindings, kind: &RepoPackKind) -> (out: Result<
    (),
    RepoError,
>)
    ensures
        match out {
            Ok(_) => binding_keys_fault(*bindings, *kind) is None,
            Err(e) => binding_keys_fault(*bindings, *kind) == Some(e),
        },
{
    let expected = expected_capability_key(kind);
    let ghost check = |key: RepoKey| foreign_binding(*bindings, *kind, key);
    let mut rank: usize = 0;
    while rank < 9
        invariant
            rank <= 9,
            expected == key_of(*kind),
            check == (|key: RepoKey| foreign_binding(*bindings, *kind, key)),
            first_over_keys(check, rank as int) is None,
        decreases 9 - rank,
    {
        let key = RepoKey::at(rank);
        if rank != expected.rank() && bindings.under(key).len() > 0 {
            let e = RepoError::UnexpectedBinding { key, expected };
            proof {
                assert(check(key) == Some(e));
                assert(first_over_keys(check, rank + 1) == Some(e));
                lemma_first_over_keys_stays(check, rank + 1, 9);
            }
            return Err(e);
        }
        assert(check(key) is None);
        rank += 1;
    }
    Ok(())
}

impl RepoPackSection {
    /// Checks the section: its values, then its keys against its role, then
    /// that the role has a capability and a binding.
    pub fn validate(&self) -> (out: Result<(), RepoError>)
        ensures
            match out {
                Ok(_) => section_fault(*self) is None,
                Err(e) => section_fault(*self) == Some(e),
            },
    {
        if let Err(e) = self.capabilities.validate() {
            return Err(e);
        }
        if let Err(e) = self.bindings.validate() {
            return Err(e);
        }
        if let Err(e) = ensure_capability_keys_match_kind(&self.capabilities, &self.kind) {
            return Err(e);
        }
        if let Err(e) = ensure_binding_keys_match_kind(&self.bindings, &self.kind) {
            return Err(e);
        }
        if !self.capabilities.has_for_kind(&self.kind) {
            return Err(RepoError::NoCapability);
        }
        if !self.bindings.has_for_kind(&self.kind) {
            return Err(RepoError::NoBinding);
        }
        Ok(())
    }
}

} // verus!
