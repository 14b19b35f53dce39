use std::sync::{Arc, Mutex};

use cloud::client::{argument_source, ArgumentSource, ClientError};
use cloud::cloudflare::{Api, ApiRecord, ApiZone, CredentialSource, Error, ProviderClient, RecordIdentifier, Token};
use cloud::effects::CloudflareEffects;
use cloud::store::Store;
use cloud::vocabulary::{
    Capability, CapabilityDirective, CapabilityPolicy, CapabilityQuery, CapabilityState, DesiredState,
    DomainNameSystemRecord, FindingSeverity, MetaOperation, MetaRejectionReason, MetaReply, Observation,
    ObservationResult, Operation, Policy, ProjectedRecord, ProjectedRecordKind, Projection, ProjectionPreparation,
    Provider, ProxyMode, RecordKind, RecordQuery, Registration, Reply, RequestUnsupported, UnsupportedReason,
    ZonePolicy,
};

struct FixtureCredentialSource {
    token: Option<String>,
}

impl FixtureCredentialSource {
    fn available() -> Self {
        Self { token: Some("fixture-token".to_owned()) }
    }

    fn missing() -> Self {
        Self { token: None }
    }
}

impl CredentialSource for FixtureCredentialSource {
    fn token(&self, handle: &String) -> Result<Token, Error> {
        match &self.token {
            Some(token) => Ok(Token::new(token.clone())),
            None => Err(Error::CredentialUnavailable(handle.clone())),
        }
    }
}

struct FixtureCloudflareApi {
    zones: Vec<(String, String)>,
    records: Mutex<Vec<ApiRecord>>,
    queried_record_zones: Mutex<Vec<String>>,
}

impl FixtureCloudflareApi {
    fn new() -> Self {
        Self {
            zones: vec![("zone-one".to_owned(), "goldragon.criome".to_owned())],
            records: Mutex::new(vec![ApiRecord {
                identifier: RecordIdentifier::new("record-one".to_owned()),
                name: "goldragon.criome".to_owned(),
                kind: RecordKind::AddressV4,
                value: "203.0.113.7".to_owned(),
                proxy_mode: ProxyMode::ProviderProxy,
            }]),
            queried_record_zones: Mutex::new(Vec::new()),
        }
    }

    fn queried_record_zones(&self) -> Vec<String> {
        self.queried_record_zones.lock().expect("queried record zones").clone()
    }
}

struct SharedApi(Arc<FixtureCloudflareApi>);

impl Api for SharedApi {
    fn zones(&self, _token: &Token, name: Option<&String>) -> Result<Vec<ApiZone>, Error> {
        Ok(self
            .0
            .zones
            .iter()
            .filter(|(_, zone)| name.is_none_or(|name| zone == name))
            .map(|(identifier, zone)| ApiZone { identifier: identifier.clone(), name: zone.clone() })
            .collect())
    }

    fn records(&self, _token: &Token, zone: &String) -> Result<Vec<ApiRecord>, Error> {
        self.0.queried_record_zones.lock().expect("queried record zones").push(zone.clone());
        Ok(self.0.records.lock().expect("records").clone())
    }

    fn create_record(&self, _token: &Token, _zone: &String, record: &DomainNameSystemRecord) -> Result<ApiRecord, Error> {
        let mut records = self.0.records.lock().expect("records");
        let created = ApiRecord {
            identifier: RecordIdentifier::new(format!("record-{}", records.len() + 1)),
            name: record.name.clone(),
            kind: record.kind,
            value: record.value.clone(),
            proxy_mode: record.proxy_mode,
        };
        records.push(created.clone());
        Ok(created)
    }

    fn update_record(
        &self,
        _token: &Token,
        _zone: &String,
        identifier: &RecordIdentifier,
        record: &DomainNameSystemRecord,
    ) -> Result<ApiRecord, Error> {
        let mut records = self.0.records.lock().expect("records");
        let Some(existing) = records.iter_mut().find(|existing| existing.identifier == *identifier) else {
            return Err(Error::RequestRejected(format!("record {} not found", identifier.as_str())));
        };
        existing.name = record.name.clone();
        existing.kind = record.kind;
        existing.value = record.value.clone();
        existing.proxy_mode = record.proxy_mode;
        Ok(existing.clone())
    }

    fn delete_record(&self, _token: &Token, _zone: &String, identifier: &RecordIdentifier) -> Result<(), Error> {
        self.0.records.lock().expect("records").retain(|record| record.identifier != *identifier);
        Ok(())
    }
}

type CloudflareStore = Store<CloudflareEffects<SharedApi, FixtureCredentialSource>>;

fn cloudflare_fixture_store(credentials: FixtureCredentialSource) -> (CloudflareStore, Arc<FixtureCloudflareApi>) {
    let api = Arc::new(FixtureCloudflareApi::new());
    let client = ProviderClient::new(SharedApi(api.clone()), credentials);
    (Store::new(CloudflareEffects { client }), api)
}

fn configure_cloudflare_account(store: &mut CloudflareStore, credential: &str) {
    let registration = MetaOperation::RegisterAccount(Registration {
        provider: Provider::Cloudflare,
        account: "primary".to_owned(),
        credential: credential.to_owned(),
    });
    assert!(matches!(store.handle_meta_request(vec![registration]).remove(0), MetaReply::AccountRegistered { .. }));

    let policy = MetaOperation::SetPolicy(Policy {
        zones: vec![ZonePolicy {
            provider: Provider::Cloudflare,
            account: "primary".to_owned(),
            allowed_zones: vec!["goldragon.criome".to_owned()],
        }],
        capabilities: vec![CapabilityPolicy {
            provider: Provider::Cloudflare,
            account: "primary".to_owned(),
            capability: Capability::DomainNameSystemRecords,
            directive: CapabilityDirective::Enable,
        }],
    });
    assert!(matches!(store.handle_meta_request(vec![policy]).remove(0), MetaReply::PolicySet { .. }));
}

fn record(name: &str, kind: RecordKind, value: &str, proxy_mode: ProxyMode) -> DomainNameSystemRecord {
    DomainNameSystemRecord { name: name.to_owned(), kind, value: value.to_owned(), proxy_mode }
}

#[test]
fn store_answers_schema_capability_observation_through_provider_logic() {
    let (mut store, _api) = cloudflare_fixture_store(FixtureCredentialSource::available());
    let request = Operation::Observe(Observation::Capabilities(CapabilityQuery {
        provider: Some(Provider::Cloudflare),
        capability: Some(Capability::DomainNameSystemRecords),
    }));
    let Reply::Observed(ObservationResult::Capabilities(report)) = store.handle_ordinary_request(vec![request]).remove(0)
    else {
        panic!("unexpected capability reply");
    };
    assert_eq!(report.len(), 1);
    assert_eq!(report[0].state, CapabilityState::Compiled);
}

#[test]
fn store_reports_not_built_provider_over_schema_input() {
    let (mut store, _api) = cloudflare_fixture_store(FixtureCredentialSource::available());
    let request = Operation::Observe(Observation::Capabilities(CapabilityQuery {
        provider: Some(Provider::GoogleCloud),
        capability: Some(Capability::DomainNameSystemRecords),
    }));
    let Reply::Observed(ObservationResult::Capabilities(report)) = store.handle_ordinary_request(vec![request]).remove(0)
    else {
        panic!("unexpected capability reply");
    };
    assert_eq!(report.len(), 1);
    assert_eq!(report[0].state, CapabilityState::NotBuilt);
}

#[test]
fn not_built_provider_dispatch_is_never_configured() {
    let (mut store, _api) = cloudflare_fixture_store(FixtureCredentialSource::available());
    let registration = MetaOperation::RegisterAccount(Registration {
        provider: Provider::GoogleCloud,
        account: "primary".to_owned(),
        credential: "google-cloud-dns-token".to_owned(),
    });
    assert_eq!(
        store.handle_meta_request(vec![registration]).remove(0),
        MetaReply::RequestRejected(MetaRejectionReason::ProviderNotConfigured)
    );

    let request = Operation::Observe(Observation::Records(RecordQuery {
        provider: Provider::GoogleCloud,
        zone: "goldragon.criome".to_owned(),
    }));
    match store.handle_ordinary_request(vec![request]).remove(0) {
        Reply::RequestUnsupported(RequestUnsupported { provider, capability, reason }) => {
            assert_eq!(provider, Some(Provider::GoogleCloud));
            assert_eq!(capability, Some(Capability::DomainNameSystemRecords));
            assert_eq!(reason, UnsupportedReason::ProviderNotBuilt);
        }
        other => panic!("unexpected observe reply {other:?}"),
    }
}

#[test]
fn cloudflare_record_observation_uses_provider_actor_and_caches_last_known_state() {
    let (mut store, api) = cloudflare_fixture_store(FixtureCredentialSource::available());
    configure_cloudflare_account(&mut store, "CLOUDFLARE_DNS_TOKEN");

    let request = Operation::Observe(Observation::Records(RecordQuery {
        provider: Provider::Cloudflare,
        zone: "goldragon.criome".to_owned(),
    }));
    let listing = match store.handle_ordinary_request(vec![request]).remove(0) {
        Reply::Observed(ObservationResult::Records(listing)) => listing,
        other => panic!("unexpected observe reply {other:?}"),
    };

    let expected = vec![record("goldragon.criome", RecordKind::AddressV4, "203.0.113.7", ProxyMode::ProviderProxy)];
    assert_eq!(listing, expected);
    assert_eq!(api.queried_record_zones(), vec!["zone-one".to_owned()]);
    assert_eq!(
        store.last_known_records(Provider::Cloudflare, &"goldragon.criome".to_owned()).expect("last known records"),
        expected
    );
}

#[test]
fn cloudflare_record_observation_requires_credential_environment() {
    let (mut store, api) = cloudflare_fixture_store(FixtureCredentialSource::missing());
    let registration = MetaOperation::RegisterAccount(Registration {
        provider: Provider::Cloudflare,
        account: "primary".to_owned(),
        credential: "CLOUDFLARE_DNS_TOKEN".to_owned(),
    });
    assert_eq!(
        store.handle_meta_request(vec![registration]).remove(0),
        MetaReply::RequestRejected(MetaRejectionReason::CredentialHandleUnknown)
    );

    let request = Operation::Observe(Observation::Records(RecordQuery {
        provider: Provider::Cloudflare,
        zone: "goldragon.criome".to_owned(),
    }));
    match store.handle_ordinary_request(vec![request]).remove(0) {
        Reply::RequestUnsupported(RequestUnsupported { provider, capability, reason }) => {
            assert_eq!(provider, Some(Provider::Cloudflare));
            assert_eq!(capability, Some(Capability::DomainNameSystemRecords));
            assert_eq!(reason, UnsupportedReason::ProviderNotConfigured);
        }
        other => panic!("unexpected observe reply {other:?}"),
    }

    assert!(api.queried_record_zones().is_empty());
    assert!(store.last_known_records(Provider::Cloudflare, &"goldragon.criome".to_owned()).is_none());
}

#[test]
fn validation_reports_malformed_dns_record_values() {
    let (mut store, _api) = cloudflare_fixture_store(FixtureCredentialSource::available());
    configure_cloudflare_account(&mut store, "CLOUDFLARE_DNS_TOKEN");

    let request = Operation::Validate(DesiredState {
        provider: Provider::Cloudflare,
        zone: "goldragon.criome".to_owned(),
        records: vec![record("goldragon.criome", RecordKind::AddressV4, "not-an-ip", ProxyMode::Direct)],
        redirects: vec![],
    });
    match store.handle_ordinary_request(vec![request]).remove(0) {
        Reply::Validated(findings) => {
            assert_eq!(findings.len(), 1);
            assert_eq!(findings[0].severity, FindingSeverity::Error);
        }
        other => panic!("unexpected validation reply {other:?}"),
    }
}

#[test]
fn meta_policy_allows_approved_dns_plan_application() {
    let (mut store, _api) = cloudflare_fixture_store(FixtureCredentialSource::available());
    configure_cloudflare_account(&mut store, "CLOUDFLARE_DNS_TOKEN");

    let plan_request = MetaOperation::PreparePlan(DesiredState {
        provider: Provider::Cloudflare,
        zone: "goldragon.criome".to_owned(),
        records: vec![
            record("goldragon.criome", RecordKind::AddressV4, "203.0.113.8", ProxyMode::ProviderProxy),
            record("www.goldragon.criome", RecordKind::CanonicalName, "goldragon.criome", ProxyMode::ProviderProxy),
        ],
        redirects: Vec::new(),
    });
    let plan = match store.handle_meta_request(vec![plan_request]).remove(0) {
        MetaReply::PlanPrepared(plan) => plan,
        other => panic!("unexpected plan reply {other:?}"),
    };
    assert_eq!(plan.records_to_create.len(), 1);
    assert_eq!(plan.records_to_update.len(), 1);
    assert!(plan.record_names_to_delete.is_empty());

    assert!(matches!(
        store.handle_meta_request(vec![MetaOperation::ApprovePlan(plan.identifier.clone())]).remove(0),
        MetaReply::PlanApproved(_)
    ));
    match store.handle_meta_request(vec![MetaOperation::ApplyPlan(plan.identifier)]).remove(0) {
        MetaReply::PlanApplied(_) => {}
        other => panic!("unexpected apply reply {other:?}"),
    }

    let expected = vec![
        record("goldragon.criome", RecordKind::AddressV4, "203.0.113.8", ProxyMode::ProviderProxy),
        record("www.goldragon.criome", RecordKind::CanonicalName, "goldragon.criome", ProxyMode::ProviderProxy),
    ];
    assert_eq!(
        store.last_known_records(Provider::Cloudflare, &"goldragon.criome".to_owned()).expect("last known records"),
        expected
    );
}

#[test]
fn domain_projection_prepares_and_applies_cloudflare_dns_plan() {
    let (mut store, _api) = cloudflare_fixture_store(FixtureCredentialSource::available());
    configure_cloudflare_account(&mut store, "CLOUDFLARE_DNS_TOKEN");

    let plan_request = MetaOperation::PrepareProjection(ProjectionPreparation {
        provider: Provider::Cloudflare,
        projection: Projection {
            domain: "goldragon.criome".to_owned(),
            records: vec![ProjectedRecord {
                name: "goldragon.criome".to_owned(),
                kind: ProjectedRecordKind::AddressV4,
                value: "203.0.113.10".to_owned(),
            }],
            redirects: vec![],
        },
    });
    let plan = match store.handle_meta_request(vec![plan_request]).remove(0) {
        MetaReply::PlanPrepared(plan) => plan,
        other => panic!("unexpected projection plan reply {other:?}"),
    };
    assert_eq!(plan.records_to_create.len(), 0);
    assert_eq!(plan.records_to_update.len(), 1);
    assert_eq!(plan.records_to_update[0].proxy_mode, ProxyMode::Direct);

    assert!(matches!(
        store.handle_meta_request(vec![MetaOperation::ApprovePlan(plan.identifier.clone())]).remove(0),
        MetaReply::PlanApproved(_)
    ));
    match store.handle_meta_request(vec![MetaOperation::ApplyPlan(plan.identifier)]).remove(0) {
        MetaReply::PlanApplied(_) => {}
        other => panic!("unexpected projection apply reply {other:?}"),
    }

    let expected = vec![record("goldragon.criome", RecordKind::AddressV4, "203.0.113.10", ProxyMode::Direct)];
    assert_eq!(
        store.last_known_records(Provider::Cloudflare, &"goldragon.criome".to_owned()).expect("last known records"),
        expected
    );
}

#[test]
fn store_answers_schema_meta_registration_through_provider_logic() {
    let (mut store, _api) = cloudflare_fixture_store(FixtureCredentialSource::available());
    let registration = MetaOperation::RegisterAccount(Registration {
        provider: Provider::Cloudflare,
        account: "primary".to_owned(),
        credential: "cloudflare-dns-token".to_owned(),
    });
    match store.handle_meta_request(vec![registration]).remove(0) {
        MetaReply::AccountRegistered { provider, account } => {
            assert_eq!(provider, Provider::Cloudflare);
            assert_eq!(account, "primary");
        }
        other => panic!("unexpected meta reply {other:?}"),
    }
}

#[test]
fn command_line_request_rejects_flags_and_extra_arguments() {
    assert!(matches!(argument_source(vec!["--help".to_owned()]), Err(ClientError::FlagArgument(_))));
    assert!(matches!(
        argument_source(vec!["(Observe (Capabilities None None))".to_owned(), "extra".to_owned()]),
        Err(ClientError::ExpectedSingleArgument)
    ));
}

#[test]
fn command_line_argument_is_inline_text_or_a_file() {
    assert_eq!(
        argument_source(vec!["  (Observe (Capabilities None None))".to_owned()]),
        Ok(ArgumentSource::Inline("  (Observe (Capabilities None None))".to_owned()))
    );
    assert_eq!(argument_source(vec!["[1 2]".to_owned()]), Ok(ArgumentSource::Inline("[1 2]".to_owned())));
    assert_eq!(
        argument_source(vec!["request.nota".to_owned()]),
        Ok(ArgumentSource::File("request.nota".to_owned()))
    );
    assert_eq!(argument_source(Vec::new()), Err(ClientError::ExpectedSingleArgument));
}

#[test]
fn unapproved_plan_is_never_applied() {
    let (mut store, api) = cloudflare_fixture_store(FixtureCredentialSource::available());
    configure_cloudflare_account(&mut store, "CLOUDFLARE_DNS_TOKEN");
    let plan = match store
        .handle_meta_request(vec![MetaOperation::PreparePlan(DesiredState {
            provider: Provider::Cloudflare,
            zone: "goldragon.criome".to_owned(),
            records: vec![record("api.goldragon.criome", RecordKind::AddressV4, "203.0.113.9", ProxyMode::Direct)],
            redirects: Vec::new(),
        })])
        .remove(0)
    {
        MetaReply::PlanPrepared(plan) => plan,
        other => panic!("unexpected plan reply {other:?}"),
    };
    assert_eq!(plan.identifier, "goldragon.criome-Cloudflare-plan");
    assert_eq!(
        store.handle_meta_request(vec![MetaOperation::ApplyPlan(plan.identifier.clone())]).remove(0),
        MetaReply::RequestRejected(MetaRejectionReason::PlanNotApproved)
    );
    assert_eq!(api.records.lock().expect("records").len(), 1);
    assert_eq!(
        store.handle_meta_request(vec![MetaOperation::ApplyPlan("unknown-plan".to_owned())]).remove(0),
        MetaReply::RequestRejected(MetaRejectionReason::PlanUnknown)
    );
    assert_eq!(
        store.handle_meta_request(vec![MetaOperation::ApprovePlan("unknown-plan".to_owned())]).remove(0),
        MetaReply::RequestRejected(MetaRejectionReason::PlanUnknown)
    );
}

#[test]
fn ordinary_requests_answer_each_operation_in_order() {
    let (mut store, _api) = cloudflare_fixture_store(FixtureCredentialSource::available());
    let replies = store.handle_ordinary_request(vec![
        Operation::Observe(Observation::Plan("missing".to_owned())),
        Operation::Observe(Observation::Capabilities(CapabilityQuery { provider: Some(Provider::Hetzner), capability: None })),
    ]);
    assert_eq!(replies.len(), 2);
    assert_eq!(replies[0], Reply::RequestRejected(cloud::vocabulary::RejectionReason::PlanExpired));
    match &replies[1] {
        Reply::Observed(ObservationResult::Capabilities(report)) => {
            assert_eq!(report.len(), 4);
            assert!(report.iter().all(|entry| entry.provider == Provider::Hetzner && entry.state == CapabilityState::Compiled));
        }
        other => panic!("unexpected capability reply {other:?}"),
    }
}

#[test]
fn host_plan_for_a_dns_provider_is_unauthorized() {
    let api = Arc::new(FixtureCloudflareApi::new());
    let client = ProviderClient::new(SharedApi(api), FixtureCredentialSource::available());
    let mut store = Store::new(CloudflareEffects { client });
    store.handle_meta_request(vec![MetaOperation::RegisterAccount(Registration {
        provider: Provider::Cloudflare,
        account: "primary".to_owned(),
        credential: "token".to_owned(),
    })]);
    let reply = store
        .handle_meta_request(vec![MetaOperation::PrepareHostPlan(cloud::vocabulary::DesiredHostState {
            provider: Provider::Cloudflare,
            host_name: "edge".to_owned(),
            server_type: "small".to_owned(),
            image_name: "debian".to_owned(),
            ssh_key_name: "operator".to_owned(),
        })])
        .remove(0);
    assert_eq!(reply, MetaReply::RequestRejected(MetaRejectionReason::CapabilityUnauthorized));
}
