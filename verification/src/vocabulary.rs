//! The provider-neutral vocabulary that the ordinary and meta planes speak:
//! providers, capabilities, DNS records, redirects, zones, plans and hosts.
//!
//! Names and identifiers are `String`s; every record type carries a view in
//! which those strings are `Seq<char>`, and the contracts speak of views.
use vstd::prelude::*;

verus! {

/// A cloud provider the daemon can speak to.
#[derive(Clone, Copy, Debug, PartialEq, Eq, Structural)]
pub enum Provider {
    Cloudflare,
    GoogleCloud,
    Hetzner,
    DigitalOcean,
}

/// A provider-side capability.
#[derive(Clone, Copy, Debug, PartialEq, Eq, Structural)]
pub enum Capability {
    DomainNameSystemRecords,
    RedirectRules,
    CloudHosts,
    Networks,
    Firewalls,
    LoadBalancers,
}

/// How far a capability is available on this daemon.
#[derive(Clone, Copy, Debug, PartialEq, Eq, Structural)]
pub enum CapabilityState {
    NotBuilt,
    Unsupported,
    Compiled,
    Configured,
    Authorized,
    Unauthorized,
}

/// The DNS record kinds the daemon understands.
#[derive(Clone, Copy, Debug, PartialEq, Eq, Structural)]
pub enum RecordKind {
    AddressV4,
    AddressV6,
    CanonicalName,
    Text,
    MailExchange,
    NameServer,
    Pointer,
    Service,
    CertificateAuthorityAuthorization,
    SecureShellFingerprint,
    TransportLayerSecurityAuthentication,
    UniformResourceIdentifier,
    ServiceBinding,
    HttpsBinding,
    Location,
}

/// Whether a record is served directly or through the provider's proxy.
#[derive(Clone, Copy, Debug, PartialEq, Eq, Structural)]
pub enum ProxyMode {
    Direct,
    ProviderProxy,
}

#[derive(Clone, Copy, Debug, PartialEq, Eq, Structural)]
pub enum FindingSeverity {
    Error,
    Warning,
    Notice,
}

#[derive(Clone, Copy, Debug, PartialEq, Eq, Structural)]
pub enum UnsupportedReason {
    ProviderNotBuilt,
    ProviderNotCompiled,
    ProviderNotConfigured,
    CapabilityNotCompiled,
    CapabilityNotConfigured,
    CapabilityUnauthorized,
}

/// Why an ordinary request was rejected.
#[derive(Clone, Copy, Debug, PartialEq, Eq, Structural)]
pub enum RejectionReason {
    InvalidDesiredState,
    PlanExpired,
    ProviderRateLimited,
    ProviderUnavailable,
}

/// Why a meta (owner) request was rejected.
#[derive(Clone, Copy, Debug, PartialEq, Eq, Structural)]
pub enum MetaRejectionReason {
    AccountUnknown,
    CapabilityUnauthorized,
    CredentialHandleUnknown,
    PlanGenerationFailed,
    PlanNotApproved,
    PlanUnknown,
    ProviderNotConfigured,
}

#[derive(Clone, Copy, Debug, PartialEq, Eq, Structural)]
pub enum RedirectStatus {
    Permanent,
    Temporary,
}

#[derive(Clone, Copy, Debug, PartialEq, Eq, Structural)]
pub enum PathTreatment {
    Preserve,
    Replace,
}

#[derive(Clone, Copy, Debug, PartialEq, Eq, Structural)]
pub enum HostStatus {
    Initializing,
    Running,
    Stopped,
    Deleting,
    Unknown,
}

/// Whether a host plan creates or destroys its host.
#[derive(Clone, Copy, Debug, PartialEq, Eq, Structural)]
pub enum HostIntent {
    Create,
    Destroy,
}

#[derive(Clone, Copy, Debug, PartialEq, Eq, Structural)]
pub enum CapabilityDirective {
    Enable,
    Disable,
}

// ---------------------------------------------------------------- records

/// One desired or observed DNS record.
#[derive(Debug, PartialEq, Eq)]
pub struct DomainNameSystemRecord {
    pub name: String,
    pub kind: RecordKind,
    pub value: String,
    pub proxy_mode: ProxyMode,
}

pub struct RecordView {
    pub name: Seq<char>,
    pub kind: RecordKind,
    pub value: Seq<char>,
    pub proxy_mode: ProxyMode,
}

impl View for DomainNameSystemRecord {
    type V = RecordView;

    open spec fn view(&self) -> RecordView {
        RecordView { name: self.name@, kind: self.kind, value: self.value@, proxy_mode: self.proxy_mode }
    }
}

impl DeepView for DomainNameSystemRecord {
    type V = RecordView;

    open spec fn deep_view(&self) -> RecordView {
        self@
    }
}

impl Clone for DomainNameSystemRecord {
    fn clone(&self) -> (copy: Self)
        ensures
            copy@ == self@,
    {
        DomainNameSystemRecord {
            name: self.name.clone(),
            kind: self.kind,
            value: self.value.clone(),
            proxy_mode: self.proxy_mode,
        }
    }
}

/// One redirect rule.
#[derive(Debug, PartialEq, Eq)]
pub struct RedirectRule {
    pub source: String,
    pub target: String,
    pub status: RedirectStatus,
    pub path_treatment: PathTreatment,
}

pub struct RedirectView {
    pub source: Seq<char>,
    pub target: Seq<char>,
    pub status: RedirectStatus,
    pub path_treatment: PathTreatment,
}

impl View for RedirectRule {
    type V = RedirectView;

    open spec fn view(&self) -> RedirectView {
        RedirectView {
            source: self.source@,
            target: self.target@,
            status: self.status,
            path_treatment: self.path_treatment,
        }
    }
}

impl DeepView for RedirectRule {
    type V = RedirectView;

    open spec fn deep_view(&self) -> RedirectView {
        self@
    }
}

impl Clone for RedirectRule {
    fn clone(&self) -> (copy: Self)
        ensures
            copy@ == self@,
    {
        RedirectRule {
            source: self.source.clone(),
            target: self.target.clone(),
            status: self.status,
            path_treatment: self.path_treatment,
        }
    }
}

/// The records and redirects a zone should carry on one provider.
#[derive(Debug, PartialEq, Eq)]
pub struct DesiredState {
    pub provider: Provider,
    pub zone: String,
    pub records: Vec<DomainNameSystemRecord>,
    pub redirects: Vec<RedirectRule>,
}

// ------------------------------------------------------------------ zones

/// A DNS zone one provider account holds.
#[derive(Debug, PartialEq, Eq)]
pub struct Zone {
    pub provider: Provider,
    pub account: String,
    pub identifier: String,
    pub name: String,
}

pub struct ZoneView {
    pub provider: Provider,
    pub account: Seq<char>,
    pub identifier: Seq<char>,
    pub name: Seq<char>,
}

impl View for Zone {
    type V = ZoneView;

    open spec fn view(&self) -> ZoneView {
        ZoneView {
            provider: self.provider,
            account: self.account@,
            identifier: self.identifier@,
            name: self.name@,
        }
    }
}

impl DeepView for Zone {
    type V = ZoneView;

    open spec fn deep_view(&self) -> ZoneView {
        self@
    }
}

impl Clone for Zone {
    fn clone(&self) -> (copy: Self)
        ensures
            copy@ == self@,
    {
        Zone {
            provider: self.provider,
            account: self.account.clone(),
            identifier: self.identifier.clone(),
            name: self.name.clone(),
        }
    }
}

// ------------------------------------------------------------------ plans

/// A prepared change set for one zone.
#[derive(Debug, PartialEq, Eq)]
pub struct Plan {
    pub identifier: String,
    pub provider: Provider,
    pub zone: String,
    pub records_to_create: Vec<DomainNameSystemRecord>,
    pub records_to_update: Vec<DomainNameSystemRecord>,
    pub record_names_to_delete: Vec<String>,
    pub redirects_to_create: Vec<RedirectRule>,
    pub redirects_to_update: Vec<RedirectRule>,
    pub redirect_sources_to_delete: Vec<String>,
}

pub struct PlanView {
    pub identifier: Seq<char>,
    pub provider: Provider,
    pub zone: Seq<char>,
    pub records_to_create: Seq<RecordView>,
    pub records_to_update: Seq<RecordView>,
    pub record_names_to_delete: Seq<Seq<char>>,
    pub redirects_to_create: Seq<RedirectView>,
    pub redirects_to_update: Seq<RedirectView>,
    pub redirect_sources_to_delete: Seq<Seq<char>>,
}

impl View for Plan {
    type V = PlanView;

    open spec fn view(&self) -> PlanView {
        PlanView {
            identifier: self.identifier@,
            provider: self.provider,
            zone: self.zone@,
            records_to_create: self.records_to_create.deep_view(),
            records_to_update: self.records_to_update.deep_view(),
            record_names_to_delete: self.record_names_to_delete.deep_view(),
            redirects_to_create: self.redirects_to_create.deep_view(),
            redirects_to_update: self.redirects_to_update.deep_view(),
            redirect_sources_to_delete: self.redirect_sources_to_delete.deep_view(),
        }
    }
}

impl PlanView {
    /// Whether the plan changes any redirect.
    pub open spec fn changes_redirects(self) -> bool {
        self.redirects_to_create.len() > 0 || self.redirects_to_update.len() > 0
            || self.redirect_sources_to_delete.len() > 0
    }
}

/// A prepared host creation or destruction.
#[derive(Debug, PartialEq, Eq)]
pub struct HostPlan {
    pub identifier: String,
    pub provider: Provider,
    pub host_name: String,
    pub server_type: String,
    pub image_name: String,
    pub ssh_key_name: String,
    pub intent: HostIntent,
}

pub struct HostPlanView {
    pub identifier: Seq<char>,
    pub provider: Provider,
    pub host_name: Seq<char>,
    pub server_type: Seq<char>,
    pub image_name: Seq<char>,
    pub ssh_key_name: Seq<char>,
    pub intent: HostIntent,
}

impl View for HostPlan {
    type V = HostPlanView;

    open spec fn view(&self) -> HostPlanView {
        HostPlanView {
            identifier: self.identifier@,
            provider: self.provider,
            host_name: self.host_name@,
            server_type: self.server_type@,
            image_name: self.image_name@,
            ssh_key_name: self.ssh_key_name@,
            intent: self.intent,
        }
    }
}

/// The host an owner wants to exist.
#[derive(Debug, PartialEq, Eq)]
pub struct DesiredHostState {
    pub provider: Provider,
    pub host_name: String,
    pub server_type: String,
    pub image_name: String,
    pub ssh_key_name: String,
}

/// The host an owner wants gone.
#[derive(Debug, PartialEq, Eq)]
pub struct HostDestruction {
    pub provider: Provider,
    pub host_name: String,
}

/// A compute host as a provider reports it.
#[derive(Debug, PartialEq, Eq)]
pub struct CloudHost {
    pub provider: Provider,
    pub account: String,
    pub identifier: String,
    pub name: String,
    pub server_type: String,
    pub image: String,
    pub ipv4: String,
    pub status: HostStatus,
}

pub struct CloudHostView {
    pub provider: Provider,
    pub account: Seq<char>,
    pub identifier: Seq<char>,
    pub name: Seq<char>,
    pub server_type: Seq<char>,
    pub image: Seq<char>,
    pub ipv4: Seq<char>,
    pub status: HostStatus,
}

impl View for CloudHost {
    type V = CloudHostView;

    open spec fn view(&self) -> CloudHostView {
        CloudHostView {
            provider: self.provider,
            account: self.account@,
            identifier: self.identifier@,
            name: self.name@,
            server_type: self.server_type@,
            image: self.image@,
            ipv4: self.ipv4@,
            status: self.status,
        }
    }
}

impl DeepView for CloudHost {
    type V = CloudHostView;

    open spec fn deep_view(&self) -> CloudHostView {
        self@
    }
}

// ----------------------------------------------------------------- policy

/// The zones one account may touch.
#[derive(Debug, PartialEq, Eq)]
pub struct ZonePolicy {
    pub provider: Provider,
    pub account: String,
    pub allowed_zones: Vec<String>,
}

pub struct ZonePolicyView {
    pub provider: Provider,
    pub account: Seq<char>,
    pub allowed_zones: Seq<Seq<char>>,
}

impl View for ZonePolicy {
    type V = ZonePolicyView;

    open spec fn view(&self) -> ZonePolicyView {
        ZonePolicyView {
            provider: self.provider,
            account: self.account@,
            allowed_zones: self.allowed_zones.deep_view(),
        }
    }
}

impl DeepView for ZonePolicy {
    type V = ZonePolicyView;

    open spec fn deep_view(&self) -> ZonePolicyView {
        self@
    }
}

#[derive(Debug, PartialEq, Eq)]
pub struct CapabilityPolicy {
    pub provider: Provider,
    pub account: String,
    pub capability: Capability,
    pub directive: CapabilityDirective,
}

/// The owner policy: zone and capability grants.
#[derive(Debug, PartialEq, Eq)]
pub struct Policy {
    pub zones: Vec<ZonePolicy>,
    pub capabilities: Vec<CapabilityPolicy>,
}

/// A provider account with the handle of its credential.
#[derive(Debug, PartialEq, Eq)]
pub struct Registration {
    pub provider: Provider,
    pub account: String,
    pub credential: String,
}

#[derive(Debug, PartialEq, Eq)]
pub struct Rotation {
    pub provider: Provider,
    pub account: String,
    pub credential: String,
}

#[derive(Debug, PartialEq, Eq)]
pub struct Retirement {
    pub provider: Provider,
    pub account: String,
}

// ------------------------------------------------------- ordinary requests

#[derive(Clone, Copy, Debug, PartialEq, Eq, Structural)]
pub struct CapabilityQuery {
    pub provider: Option<Provider>,
    pub capability: Option<Capability>,
}

#[derive(Debug, PartialEq, Eq)]
pub struct ZoneQuery {
    pub provider: Option<Provider>,
    pub account: Option<String>,
}

#[derive(Debug, PartialEq, Eq)]
pub struct RecordQuery {
    pub provider: Provider,
    pub zone: String,
}

#[derive(Debug, PartialEq, Eq)]
pub struct RedirectQuery {
    pub provider: Provider,
    pub zone: String,
}

#[derive(Debug, PartialEq, Eq)]
pub struct HostQuery {
    pub provider: Provider,
    pub account: Option<String>,
}

/// What an ordinary caller wants to observe.
#[derive(Debug, PartialEq, Eq)]
pub enum Observation {
    Capabilities(CapabilityQuery),
    Zones(ZoneQuery),
    Records(RecordQuery),
    Redirects(RedirectQuery),
    Plan(String),
    Servers(HostQuery),
}

/// One ordinary request.
#[derive(Debug, PartialEq, Eq)]
pub enum Operation {
    Observe(Observation),
    Validate(DesiredState),
}

/// One capability and how far it is available.
#[derive(Clone, Copy, Debug, PartialEq, Eq, Structural)]
pub struct CapabilityObservation {
    pub provider: Provider,
    pub capability: Capability,
    pub state: CapabilityState,
}

/// One problem validation found in a desired state.
#[derive(Debug, PartialEq, Eq)]
pub struct ValidationFinding {
    pub severity: FindingSeverity,
    pub message: String,
}

pub struct FindingView {
    pub severity: FindingSeverity,
    pub message: Seq<char>,
}

impl View for ValidationFinding {
    type V = FindingView;

    open spec fn view(&self) -> FindingView {
        FindingView { severity: self.severity, message: self.message@ }
    }
}

impl DeepView for ValidationFinding {
    type V = FindingView;

    open spec fn deep_view(&self) -> FindingView {
        self@
    }
}

#[derive(Debug, PartialEq, Eq)]
pub enum ObservationResult {
    Capabilities(Vec<CapabilityObservation>),
    Zones(Vec<Zone>),
    Records(Vec<DomainNameSystemRecord>),
    Redirects(Vec<RedirectRule>),
    Plan(Plan),
    Servers(Vec<CloudHost>),
}

#[derive(Clone, Copy, Debug, PartialEq, Eq, Structural)]
pub struct RequestUnsupported {
    pub provider: Option<Provider>,
    pub capability: Option<Capability>,
    pub reason: UnsupportedReason,
}

/// The answer to one ordinary request.
#[derive(Debug, PartialEq, Eq)]
pub enum Reply {
    Observed(ObservationResult),
    Validated(Vec<ValidationFinding>),
    RequestUnsupported(RequestUnsupported),
    RequestRejected(RejectionReason),
}

// ----------------------------------------------------------- meta requests

/// Provider-neutral projection vocabulary: record kinds.
#[derive(Clone, Copy, Debug, PartialEq, Eq, Structural)]
pub enum ProjectedRecordKind {
    AddressV4,
    AddressV6,
    CanonicalName,
    Text,
}

#[derive(Clone, Copy, Debug, PartialEq, Eq, Structural)]
pub enum ProjectedRedirectStatus {
    Permanent,
    Temporary,
}

#[derive(Clone, Copy, Debug, PartialEq, Eq, Structural)]
pub enum ProjectedPathTreatment {
    Preserve,
    Replace,
}

/// A provider-neutral DNS record of a domain projection.
#[derive(Debug, PartialEq, Eq)]
pub struct ProjectedRecord {
    pub name: String,
    pub kind: ProjectedRecordKind,
    pub value: String,
}

/// A provider-neutral redirect of a domain projection.
#[derive(Debug, PartialEq, Eq)]
pub struct ProjectedRedirect {
    pub source: String,
    pub target: String,
    pub status: ProjectedRedirectStatus,
    pub path_treatment: ProjectedPathTreatment,
}

/// What a domain should carry, independent of any provider.
#[derive(Debug, PartialEq, Eq)]
pub struct Projection {
    pub domain: String,
    pub records: Vec<ProjectedRecord>,
    pub redirects: Vec<ProjectedRedirect>,
}

/// A projection to be lowered onto one provider.
#[derive(Debug, PartialEq, Eq)]
pub struct ProjectionPreparation {
    pub provider: Provider,
    pub projection: Projection,
}

/// One meta (owner) request.
#[derive(Debug, PartialEq, Eq)]
pub enum MetaOperation {
    RegisterAccount(Registration),
    RotateCredential(Rotation),
    SetPolicy(Policy),
    PreparePlan(DesiredState),
    PrepareHostPlan(DesiredHostState),
    PrepareHostDestruction(HostDestruction),
    PrepareProjection(ProjectionPreparation),
    ApprovePlan(String),
    ApplyPlan(String),
    RetireAccount(Retirement),
}

/// The answer to one meta request.
#[derive(Debug, PartialEq, Eq)]
pub enum MetaReply {
    AccountRegistered { provider: Provider, account: String },
    CredentialRotated { provider: Provider, account: String },
    PolicySet { capability_policy_count: u64, zone_policy_count: u64 },
    PlanPrepared(Plan),
    HostPlanPrepared(HostPlan),
    PlanApproved(String),
    PlanApplied(String),
    AccountRetired { provider: Provider, account: String },
    RequestRejected(MetaRejectionReason),
}

} // verus!

verus! {

/// A copy of a list of records.
pub fn clone_records(records: &Vec<DomainNameSystemRecord>) -> (copy: Vec<DomainNameSystemRecord>)
    ensures
        copy.deep_view() == records.deep_view(),
{
    let mut copy: Vec<DomainNameSystemRecord> = Vec::new();
    let mut index: usize = 0;
    while index < records.len()
        invariant
            index <= records.len(),
            copy.deep_view() == records.deep_view().take(index as int),
        decreases records.len() - index,
    {
        let item = records[index].clone();
        assert(item.deep_view() == records.deep_view()[index as int]);
        let ghost before = copy.deep_view();
        let ghost item_view = item.deep_view();
        copy.push(item);
        assert(copy.deep_view() =~= before.push(item_view));
        assert(records.deep_view().take(index + 1) =~= records.deep_view().take(index as int).push(item_view));
        index = index + 1;
    }
    assert(records.deep_view().take(records.len() as int) =~= records.deep_view());
    copy
}

/// A copy of a list of redirects.
pub fn clone_redirects(redirects: &Vec<RedirectRule>) -> (copy: Vec<RedirectRule>)
    ensures
        copy.deep_view() == redirects.deep_view(),
{
    let mut copy: Vec<RedirectRule> = Vec::new();
    let mut index: usize = 0;
    while index < redirects.len()
        invariant
            index <= redirects.len(),
            copy.deep_view() == redirects.deep_view().take(index as int),
        decreases redirects.len() - index,
    {
        let item = redirects[index].clone();
        assert(item.deep_view() == redirects.deep_view()[index as int]);
        let ghost before = copy.deep_view();
        let ghost item_view = item.deep_view();
        copy.push(item);
        assert(copy.deep_view() =~= before.push(item_view));
        assert(redirects.deep_view().take(index + 1) =~= redirects.deep_view().take(index as int).push(item_view));
        index = index + 1;
    }
    assert(redirects.deep_view().take(redirects.len() as int) =~= redirects.deep_view());
    copy
}

/// A copy of a list of strings.
pub fn clone_strings(strings: &Vec<String>) -> (copy: Vec<String>)
    ensures
        copy.deep_view() == strings.deep_view(),
{
    let mut copy: Vec<String> = Vec::new();
    let mut index: usize = 0;
    while index < strings.len()
        invariant
            index <= strings.len(),
            copy.deep_view() == strings.deep_view().take(index as int),
        decreases strings.len() - index,
    {
        let item = strings[index].clone();
        assert(item.deep_view() == strings.deep_view()[index as int]);
        let ghost before = copy.deep_view();
        let ghost item_view = item.deep_view();
        copy.push(item);
        assert(copy.deep_view() =~= before.push(item_view));
        assert(strings.deep_view().take(index + 1) =~= strings.deep_view().take(index as int).push(item_view));
        index = index + 1;
    }
    assert(strings.deep_view().take(strings.len() as int) =~= strings.deep_view());
    copy
}

/// A copy of a list of zones.
pub fn clone_zones(zones: &Vec<Zone>) -> (copy: Vec<Zone>)
    ensures
        copy.deep_view() == zones.deep_view(),
{
    let mut copy: Vec<Zone> = Vec::new();
    let mut index: usize = 0;
    while index < zones.len()
        invariant
            index <= zones.len(),
            copy.deep_view() == zones.deep_view().take(index as int),
        decreases zones.len() - index,
    {
        let item = zones[index].clone();
        assert(item.deep_view() == zones.deep_view()[index as int]);
        let ghost before = copy.deep_view();
        let ghost item_view = item.deep_view();
        copy.push(item);
        assert(copy.deep_view() =~= before.push(item_view));
        assert(zones.deep_view().take(index + 1) =~= zones.deep_view().take(index as int).push(item_view));
        index = index + 1;
    }
    assert(zones.deep_view().take(zones.len() as int) =~= zones.deep_view());
    copy
}

impl Clone for Plan {
    fn clone(&self) -> (copy: Self)
        ensures
            copy@ == self@,
    {
        Plan {
            identifier: self.identifier.clone(),
            provider: self.provider,
            zone: self.zone.clone(),
            records_to_create: clone_records(&self.records_to_create),
            records_to_update: clone_records(&self.records_to_update),
            record_names_to_delete: clone_strings(&self.record_names_to_delete),
            redirects_to_create: clone_redirects(&self.redirects_to_create),
            redirects_to_update: clone_redirects(&self.redirects_to_update),
            redirect_sources_to_delete: clone_strings(&self.redirect_sources_to_delete),
        }
    }
}

impl Clone for HostPlan {
    fn clone(&self) -> (copy: Self)
        ensures
            copy@ == self@,
    {
        HostPlan {
            identifier: self.identifier.clone(),
            provider: self.provider,
            host_name: self.host_name.clone(),
            server_type: self.server_type.clone(),
            image_name: self.image_name.clone(),
            ssh_key_name: self.ssh_key_name.clone(),
            intent: self.intent,
        }
    }
}

impl Clone for CloudHost {
    fn clone(&self) -> (copy: Self)
        ensures
            copy@ == self@,
    {
        CloudHost {
            provider: self.provider,
            account: self.account.clone(),
            identifier: self.identifier.clone(),
            name: self.name.clone(),
            server_type: self.server_type.clone(),
            image: self.image.clone(),
            ipv4: self.ipv4.clone(),
            status: self.status,
        }
    }
}

} // verus!
