use std::collections::VecDeque;
use std::sync::{Arc, Mutex};

use cloud::cloudflare::{CredentialSource, Error, ProviderClient, Token};
use cloud::cloudflare_cli::{
    CommandRunner, FlarectlApi, FlarectlBinary, FlarectlDecoder, FlarectlRecord, FlarectlZone, StringOrBool,
};
use cloud::effects::CloudflareEffects;
use cloud::store::Store;
use cloud::vocabulary::{
    Capability, CapabilityDirective, CapabilityPolicy, CapabilityQuery, CapabilityState, DesiredState,
    DomainNameSystemRecord, MetaOperation, MetaReply, Observation, ObservationResult, Operation, Policy, Provider,
    ProxyMode, RecordKind, RecordQuery, RedirectQuery, Registration, Reply, Retirement, Rotation, ZonePolicy,
    ZoneQuery,
};
use serde_json::Value;

struct ScriptRunner {
    responses: Mutex<VecDeque<Vec<u8>>>,
    captured: Mutex<Vec<(String, Vec<String>)>>,
}

impl ScriptRunner {
    fn with_responses(responses: Vec<Vec<u8>>) -> Arc<Self> {
        Arc::new(Self { responses: Mutex::new(VecDeque::from(responses)), captured: Mutex::new(Vec::new()) })
    }

    fn captured(&self) -> Vec<(String, Vec<String>)> {
        self.captured.lock().expect("captured").clone()
    }

    fn remaining_responses(&self) -> usize {
        self.responses.lock().expect("responses").len()
    }
}

struct SharedRunner(Arc<ScriptRunner>);

impl CommandRunner for SharedRunner {
    fn run(&self, binary: &FlarectlBinary, arguments: &Vec<String>, _token: &Token) -> Result<Vec<u8>, Error> {
        self.0.captured.lock().expect("captured").push((binary.as_str().to_owned(), arguments.clone()));
        self.0.responses.lock().expect("responses").pop_front().ok_or_else(|| {
            Error::RequestFailed(format!(
                "ScriptRunner exhausted; flarectl was called with {arguments:?} but no response queued"
            ))
        })
    }
}

fn field(object: &Value, names: &[&str]) -> Option<Value> {
    names.iter().find_map(|name| object.get(*name).cloned())
}

fn text_field(object: &Value, names: &[&str]) -> Result<String, Error> {
    match field(object, names) {
        Some(Value::String(text)) => Ok(text),
        _ => Err(Error::RequestFailed(format!("flarectl json parse: missing {}", names[0]))),
    }
}

struct JsonDecoder;

impl FlarectlDecoder for JsonDecoder {
    fn zones(&self, output: &Vec<u8>) -> Result<Vec<FlarectlZone>, Error> {
        let rows: Vec<Value> = serde_json::from_slice(output)
            .map_err(|error| Error::RequestFailed(format!("flarectl json parse: {error}")))?;
        rows.iter()
            .map(|row| {
                Ok(FlarectlZone {
                    identifier: text_field(row, &["ID", "id"])?,
                    name: text_field(row, &["Name", "name", "Zone"])?,
                })
            })
            .collect()
    }

    fn records(&self, output: &Vec<u8>) -> Result<Vec<FlarectlRecord>, Error> {
        let rows: Vec<Value> = serde_json::from_slice(output)
            .map_err(|error| Error::RequestFailed(format!("flarectl json parse: {error}")))?;
        rows.iter()
            .map(|row| {
                let proxied = match field(row, &["Proxy", "Proxied", "proxied"]) {
                    Some(Value::Bool(flag)) => Some(StringOrBool::Bool(flag)),
                    Some(Value::String(text)) => Some(StringOrBool::String(text)),
                    _ => None,
                };
                Ok(FlarectlRecord {
                    identifier: text_field(row, &["ID", "id"])?,
                    name: text_field(row, &["Name", "name"])?,
                    kind: text_field(row, &["Type", "type"])?,
                    content: text_field(row, &["Content", "content"])?,
                    proxied,
                })
            })
            .collect()
    }
}

struct FixtureCredentialSource {
    token: String,
}

impl CredentialSource for FixtureCredentialSource {
    fn token(&self, _handle: &String) -> Result<Token, Error> {
        Ok(Token::new(self.token.clone()))
    }
}

type FlarectlStore = Store<CloudflareEffects<FlarectlApi<SharedRunner, JsonDecoder>, FixtureCredentialSource>>;

fn zone_list_response(zones: &[(&str, &str)]) -> Vec<u8> {
    let mut buffer = String::from("[");
    for (index, (identifier, name)) in zones.iter().enumerate() {
        if index > 0 {
            buffer.push(',');
        }
        buffer.push_str(&format!(r#"{{"ID":"{identifier}","Name":"{name}"}}"#));
    }
    buffer.push(']');
    buffer.into_bytes()
}

fn record_list_response(records: &[(&str, &str, &str, &str, bool)]) -> Vec<u8> {
    let mut buffer = String::from("[");
    for (index, (identifier, name, kind, content, proxied)) in records.iter().enumerate() {
        if index > 0 {
            buffer.push(',');
        }
        buffer.push_str(&format!(
            r#"{{"ID":"{identifier}","Name":"{name}","Type":"{kind}","Content":"{content}","Proxied":{proxied}}}"#
        ));
    }
    buffer.push(']');
    buffer.into_bytes()
}

const ACCOUNT_HANDLE: &str = "designer-test-account";
const CREDENTIAL_HANDLE: &str = "CLOUDFLARE_DNS_TOKEN_TEST";

fn flarectl_store(responses: Vec<Vec<u8>>) -> (FlarectlStore, Arc<ScriptRunner>) {
    let runner = ScriptRunner::with_responses(responses);
    let api = FlarectlApi::with_runner(SharedRunner(runner.clone()), JsonDecoder);
    let credentials = FixtureCredentialSource { token: "test-token-value".to_owned() };
    let client = ProviderClient::new(api, credentials);
    (Store::new(CloudflareEffects { client }), runner)
}

fn meta(store: &mut FlarectlStore, operation: MetaOperation) -> MetaReply {
    store.handle_meta_request(vec![operation]).remove(0)
}

fn ordinary(store: &mut FlarectlStore, operation: Operation) -> Reply {
    store.handle_ordinary_request(vec![operation]).remove(0)
}

fn expect_meta_accepted(reply: MetaReply) {
    if matches!(reply, MetaReply::RequestRejected(_)) {
        panic!("expected the meta request accepted, got {reply:?}");
    }
}

fn register_and_set_policy(store: &mut FlarectlStore) {
    let registration = MetaOperation::RegisterAccount(Registration {
        provider: Provider::Cloudflare,
        account: ACCOUNT_HANDLE.to_owned(),
        credential: CREDENTIAL_HANDLE.to_owned(),
    });
    expect_meta_accepted(meta(store, registration));

    let policy = MetaOperation::SetPolicy(Policy {
        zones: vec![ZonePolicy {
            provider: Provider::Cloudflare,
            account: ACCOUNT_HANDLE.to_owned(),
            allowed_zones: vec!["example.test".to_owned()],
        }],
        capabilities: vec![CapabilityPolicy {
            provider: Provider::Cloudflare,
            account: ACCOUNT_HANDLE.to_owned(),
            capability: Capability::DomainNameSystemRecords,
            directive: CapabilityDirective::Enable,
        }],
    });
    expect_meta_accepted(meta(store, policy));
}

fn prepare_apply(store: &mut FlarectlStore, desired: DesiredState) -> String {
    let plan = match meta(store, MetaOperation::PreparePlan(desired)) {
        MetaReply::PlanPrepared(plan) => plan,
        other => panic!("unexpected plan reply {other:?}"),
    };
    expect_meta_accepted(meta(store, MetaOperation::ApprovePlan(plan.identifier.clone())));
    expect_meta_accepted(meta(store, MetaOperation::ApplyPlan(plan.identifier.clone())));
    plan.identifier
}

fn is_dns(arguments: &[String], verb: &str) -> bool {
    arguments
        .iter()
        .position(|argument| argument == verb)
        .is_some_and(|index| index > 0 && arguments[index - 1] == "dns")
}

#[test]
fn flarectl_apply_plan_creates_records_via_correct_argv() {
    let zone_response = zone_list_response(&[("zone-id-1", "example.test")]);
    let empty_records = record_list_response(&[]);
    let single_record = record_list_response(&[("rec-1", "www.example.test", "A", "203.0.113.7", false)]);

    let (mut store, runner) = flarectl_store(vec![
        zone_response.clone(),
        zone_response.clone(),
        empty_records.clone(),
        zone_response.clone(),
        zone_response.clone(),
        empty_records,
        zone_response.clone(),
        b"{}".to_vec(),
        zone_response.clone(),
        single_record,
    ]);
    register_and_set_policy(&mut store);

    let desired = DesiredState {
        provider: Provider::Cloudflare,
        zone: "example.test".to_owned(),
        records: vec![DomainNameSystemRecord {
            name: "www.example.test".to_owned(),
            kind: RecordKind::AddressV4,
            value: "203.0.113.7".to_owned(),
            proxy_mode: ProxyMode::Direct,
        }],
        redirects: Vec::new(),
    };
    let plan = match meta(&mut store, MetaOperation::PreparePlan(desired)) {
        MetaReply::PlanPrepared(plan) => plan,
        other => panic!("unexpected plan reply {other:?}"),
    };
    expect_meta_accepted(meta(&mut store, MetaOperation::ApprovePlan(plan.identifier.clone())));
    match meta(&mut store, MetaOperation::ApplyPlan(plan.identifier.clone())) {
        MetaReply::PlanApplied(_) => {}
        other => panic!("unexpected apply reply {other:?}"),
    }

    let captured = runner.captured();
    let dns_create = captured.iter().find(|(_, args)| is_dns(args, "create")).expect("dns create invocation");
    assert!(dns_create.1.contains(&"--name".to_owned()));
    assert!(dns_create.1.contains(&"www.example.test".to_owned()));
    assert!(dns_create.1.contains(&"--type".to_owned()));
    assert!(dns_create.1.contains(&"A".to_owned()));
    assert!(dns_create.1.contains(&"--content".to_owned()));
    assert!(dns_create.1.contains(&"203.0.113.7".to_owned()));
    assert!(!dns_create.1.contains(&"--proxy".to_owned()), "ProxyMode::Direct must not emit --proxy");
    assert_eq!(runner.remaining_responses(), 0, "all scripted responses consumed");
}

#[test]
fn flarectl_apply_plan_emits_proxy_flag_when_provider_proxy() {
    let zone_response = zone_list_response(&[("zone-id-1", "example.test")]);
    let single_record = record_list_response(&[("rec-1", "api.example.test", "CNAME", "target.example.test", true)]);
    let (mut store, runner) = flarectl_store(vec![
        zone_response.clone(),
        zone_response.clone(),
        record_list_response(&[]),
        zone_response.clone(),
        zone_response.clone(),
        record_list_response(&[]),
        zone_response.clone(),
        b"{}".to_vec(),
        zone_response.clone(),
        single_record,
    ]);
    register_and_set_policy(&mut store);

    let plan = prepare_apply(
        &mut store,
        DesiredState {
            provider: Provider::Cloudflare,
            zone: "example.test".to_owned(),
            records: vec![DomainNameSystemRecord {
                name: "api.example.test".to_owned(),
                kind: RecordKind::CanonicalName,
                value: "target.example.test".to_owned(),
                proxy_mode: ProxyMode::ProviderProxy,
            }],
            redirects: Vec::new(),
        },
    );
    let captured = runner.captured();
    let dns_create = captured.iter().find(|(_, args)| is_dns(args, "create")).expect("dns create invocation");
    assert!(dns_create.1.contains(&"--proxy".to_owned()), "ProxyMode::ProviderProxy must emit --proxy");
    assert!(dns_create.1.contains(&"CNAME".to_owned()));
    drop(plan);
}

#[test]
fn flarectl_apply_plan_deletes_records_omitted_from_desired_state() {
    let zone_response = zone_list_response(&[("zone-id-1", "example.test")]);
    let existing = record_list_response(&[("rec-old", "www.example.test", "A", "198.51.100.1", false)]);
    let updated = record_list_response(&[("rec-old", "www.example.test", "A", "203.0.113.7", false)]);
    let (mut store, runner) = flarectl_store(vec![
        zone_response.clone(),
        zone_response.clone(),
        existing.clone(),
        zone_response.clone(),
        zone_response.clone(),
        existing,
        zone_response.clone(),
        b"{}".to_vec(),
        zone_response.clone(),
        updated,
    ]);
    register_and_set_policy(&mut store);

    let _ = prepare_apply(
        &mut store,
        DesiredState {
            provider: Provider::Cloudflare,
            zone: "example.test".to_owned(),
            records: vec![DomainNameSystemRecord {
                name: "www.example.test".to_owned(),
                kind: RecordKind::AddressV4,
                value: "203.0.113.7".to_owned(),
                proxy_mode: ProxyMode::Direct,
            }],
            redirects: Vec::new(),
        },
    );

    let captured = runner.captured();
    let update_calls: Vec<_> = captured.iter().filter(|(_, args)| is_dns(args, "update")).collect();
    assert_eq!(update_calls.len(), 1, "exactly one dns update for the matched record");
    assert!(update_calls[0].1.contains(&"rec-old".to_owned()), "update targets existing record id");

    let delete_calls: Vec<_> = captured.iter().filter(|(_, args)| is_dns(args, "delete")).collect();
    assert_eq!(delete_calls.len(), 0, "no deletes: the desired record keeps its name");
}

#[test]
fn observe_records_via_flarectl_uses_zone_name_lookup() {
    let zone_response = zone_list_response(&[("zone-id-1", "example.test")]);
    let records = record_list_response(&[("rec-1", "example.test", "A", "203.0.113.7", true)]);
    let (mut store, runner) = flarectl_store(vec![zone_response.clone(), zone_response, records]);
    register_and_set_policy(&mut store);

    let observation = Operation::Observe(Observation::Records(RecordQuery {
        provider: Provider::Cloudflare,
        zone: "example.test".to_owned(),
    }));
    match ordinary(&mut store, observation) {
        Reply::Observed(ObservationResult::Records(listing)) => {
            assert_eq!(listing.len(), 1);
            assert_eq!(listing[0].name, "example.test");
            assert_eq!(listing[0].kind, RecordKind::AddressV4);
            assert_eq!(listing[0].proxy_mode, ProxyMode::ProviderProxy);
        }
        other => panic!("unexpected observe reply {other:?}"),
    }

    let captured = runner.captured();
    assert!(captured.iter().any(|(_, args)| args == &vec!["--json", "zone", "list"]), "zone list invoked");
    assert!(
        captured.iter().any(|(_, args)| args == &vec!["--json", "dns", "list", "--zone", "example.test"]),
        "dns list invoked with zone name (not zone id)"
    );
}

#[test]
fn observe_capabilities_does_not_spawn_flarectl() {
    let (mut store, runner) = flarectl_store(Vec::new());
    let observation = Operation::Observe(Observation::Capabilities(CapabilityQuery {
        provider: Some(Provider::Cloudflare),
        capability: Some(Capability::DomainNameSystemRecords),
    }));
    match ordinary(&mut store, observation) {
        Reply::Observed(ObservationResult::Capabilities(report)) => {
            assert!(report.iter().any(|observation| {
                observation.provider == Provider::Cloudflare
                    && observation.capability == Capability::DomainNameSystemRecords
            }));
            assert!(matches!(
                report[0].state,
                CapabilityState::Compiled | CapabilityState::Configured | CapabilityState::Authorized
            ));
        }
        other => panic!("unexpected capability reply {other:?}"),
    }
    assert_eq!(runner.captured().len(), 0, "capability query is local");
}

#[test]
fn observe_zones_via_flarectl_lists_configured_provider_zones() {
    let zone_response = zone_list_response(&[("zone-id-1", "example.test"), ("zone-id-2", "other.test")]);
    let (mut store, runner) = flarectl_store(vec![zone_response]);
    register_and_set_policy(&mut store);

    let observation = Operation::Observe(Observation::Zones(ZoneQuery {
        provider: Some(Provider::Cloudflare),
        account: Some(ACCOUNT_HANDLE.to_owned()),
    }));
    match ordinary(&mut store, observation) {
        Reply::Observed(ObservationResult::Zones(listing)) => {
            let names: Vec<_> = listing.iter().map(|zone| zone.name.clone()).collect();
            assert!(names.contains(&"example.test".to_owned()));
        }
        other => panic!("unexpected zone reply {other:?}"),
    }
    let captured = runner.captured();
    assert!(captured.iter().any(|(_, args)| args == &vec!["--json", "zone", "list"]), "zone list spawned");
}

#[test]
fn observe_plan_returns_plan_after_preparation() {
    let zone_response = zone_list_response(&[("zone-id-1", "example.test")]);
    let (mut store, _runner) =
        flarectl_store(vec![zone_response.clone(), zone_response, record_list_response(&[])]);
    register_and_set_policy(&mut store);

    let desired = DesiredState {
        provider: Provider::Cloudflare,
        zone: "example.test".to_owned(),
        records: vec![DomainNameSystemRecord {
            name: "example.test".to_owned(),
            kind: RecordKind::AddressV4,
            value: "203.0.113.7".to_owned(),
            proxy_mode: ProxyMode::Direct,
        }],
        redirects: Vec::new(),
    };
    let plan = match meta(&mut store, MetaOperation::PreparePlan(desired)) {
        MetaReply::PlanPrepared(plan) => plan,
        other => panic!("unexpected plan reply {other:?}"),
    };

    match ordinary(&mut store, Operation::Observe(Observation::Plan(plan.identifier.clone()))) {
        Reply::Observed(ObservationResult::Plan(observed)) => {
            assert_eq!(observed.identifier, plan.identifier);
        }
        other => panic!("unexpected plan observe reply {other:?}"),
    }
}

#[test]
fn validate_returns_validated_for_supported_desired_state() {
    let (mut store, _runner) = flarectl_store(Vec::new());
    register_and_set_policy(&mut store);

    let validation = Operation::Validate(DesiredState {
        provider: Provider::Cloudflare,
        zone: "example.test".to_owned(),
        records: vec![DomainNameSystemRecord {
            name: "www.example.test".to_owned(),
            kind: RecordKind::AddressV4,
            value: "203.0.113.7".to_owned(),
            proxy_mode: ProxyMode::Direct,
        }],
        redirects: Vec::new(),
    });
    match ordinary(&mut store, validation) {
        Reply::Validated(_) => {}
        other => panic!("unexpected validate reply {other:?}"),
    }
}

#[test]
fn credential_rotation_updates_binding_without_spawning_flarectl() {
    let (mut store, runner) = flarectl_store(Vec::new());
    register_and_set_policy(&mut store);

    let rotation = MetaOperation::RotateCredential(Rotation {
        provider: Provider::Cloudflare,
        account: ACCOUNT_HANDLE.to_owned(),
        credential: "CLOUDFLARE_DNS_TOKEN_NEW".to_owned(),
    });
    match meta(&mut store, rotation) {
        MetaReply::CredentialRotated { .. } => {}
        other => panic!("unexpected rotate reply {other:?}"),
    }
    assert_eq!(runner.captured().len(), 0, "rotation is local-only");
}

#[test]
fn account_retirement_removes_binding_without_spawning_flarectl() {
    let (mut store, runner) = flarectl_store(Vec::new());
    register_and_set_policy(&mut store);

    let retirement = MetaOperation::RetireAccount(Retirement {
        provider: Provider::Cloudflare,
        account: ACCOUNT_HANDLE.to_owned(),
    });
    match meta(&mut store, retirement) {
        MetaReply::AccountRetired { .. } => {}
        other => panic!("unexpected retire reply {other:?}"),
    }
    assert_eq!(runner.captured().len(), 0, "retirement is local-only");
}

#[test]
fn redirect_observation_returns_unsupported_via_flarectl_path() {
    let (mut store, runner) = flarectl_store(Vec::new());
    register_and_set_policy(&mut store);

    let observation = Operation::Observe(Observation::Redirects(RedirectQuery {
        provider: Provider::Cloudflare,
        zone: "example.test".to_owned(),
    }));
    match ordinary(&mut store, observation) {
        Reply::Observed(ObservationResult::Redirects(listing)) => {
            assert!(listing.is_empty(), "redirect listing must be empty until flarectl pagerules is wired");
        }
        Reply::RequestUnsupported(_) => {}
        other => panic!("unexpected redirect reply {other:?}"),
    }
    assert_eq!(runner.captured().len(), 0, "no flarectl pagerules spawn (read path not wired)");
}

#[test]
fn store_observe_answers_redirects_as_unsupported_without_reading() {
    let (mut store, runner) = flarectl_store(Vec::new());
    register_and_set_policy(&mut store);

    let reply = store.observe(Observation::Redirects(RedirectQuery {
        provider: Provider::Cloudflare,
        zone: "example.test".to_owned(),
    }));
    match reply {
        Reply::RequestUnsupported(refusal) => {
            assert_eq!(refusal.provider, Some(Provider::Cloudflare));
            assert_eq!(refusal.capability, Some(Capability::RedirectRules));
        }
        other => panic!("unexpected redirect reply {other:?}"),
    }
    assert_eq!(runner.captured().len(), 0, "redirects are read from no provider");
}

#[test]
fn cloudflare_zones_concatenate_one_listing_per_name_in_order() {
    let listing = zone_list_response(&[("zone-a", "a.test"), ("zone-b", "b.test")]);
    let runner = ScriptRunner::with_responses(vec![listing.clone(), listing]);
    let api = FlarectlApi::with_runner(SharedRunner(runner.clone()), JsonDecoder);
    let client = ProviderClient::new(api, FixtureCredentialSource { token: "test-token-value".to_owned() });

    let zones = client
        .zones(&ACCOUNT_HANDLE.to_owned(), &CREDENTIAL_HANDLE.to_owned(), &vec!["b.test".to_owned(), "a.test".to_owned()])
        .expect("zones");
    let seen: Vec<(String, String)> = zones.iter().map(|zone| (zone.identifier.clone(), zone.name.clone())).collect();
    assert_eq!(seen, vec![("zone-b".to_owned(), "b.test".to_owned()), ("zone-a".to_owned(), "a.test".to_owned())]);
    assert!(zones.iter().all(|zone| zone.provider == Provider::Cloudflare && zone.account == ACCOUNT_HANDLE));
    assert_eq!(runner.captured().len(), 2, "one zone listing per name");
}

#[test]
fn cloudflare_zones_stop_at_the_first_failed_listing() {
    let listing = zone_list_response(&[("zone-a", "a.test")]);
    let runner = ScriptRunner::with_responses(vec![listing]);
    let api = FlarectlApi::with_runner(SharedRunner(runner.clone()), JsonDecoder);
    let client = ProviderClient::new(api, FixtureCredentialSource { token: "test-token-value".to_owned() });

    let names = vec!["a.test".to_owned(), "b.test".to_owned(), "c.test".to_owned()];
    let outcome = client.zones(&ACCOUNT_HANDLE.to_owned(), &CREDENTIAL_HANDLE.to_owned(), &names);
    assert!(matches!(outcome, Err(Error::RequestFailed(_))), "the second listing's error is returned");
    assert_eq!(runner.captured().len(), 2, "no listing is asked for after the failed one");
}

#[test]
fn flarectl_runner_receives_the_configured_binary() {
    let runner = ScriptRunner::with_responses(vec![zone_list_response(&[])]);
    let api = FlarectlApi::with_runner(SharedRunner(runner.clone()), JsonDecoder)
        .with_binary(FlarectlBinary::new("/opt/flarectl/bin/flarectl".to_owned()));
    let client = ProviderClient::new(api, FixtureCredentialSource { token: "test-token-value".to_owned() });

    client.zones(&ACCOUNT_HANDLE.to_owned(), &CREDENTIAL_HANDLE.to_owned(), &Vec::new()).expect("zones");
    let captured = runner.captured();
    assert_eq!(captured.len(), 1);
    assert_eq!(captured[0].0, "/opt/flarectl/bin/flarectl".to_owned());
    assert_eq!(captured[0].1, vec!["--json".to_owned(), "zone".to_owned(), "list".to_owned()]);
}
