use std::sync::{Arc, Mutex};

use cloud::effects::DigitalOceanEffects;
use cloud::digitalocean::{hosts_for_servers, Api, ApiServer, CredentialSource, Error, ProviderClient, ServerSpec, Token};
use cloud::store::Store;
use cloud::vocabulary::{
    CloudHost, DesiredHostState, HostDestruction, HostIntent, HostQuery, HostStatus, MetaOperation, MetaReply,
    Observation, ObservationResult, Operation, Provider, Registration, Reply,
};

struct FixtureCredentialSource;

impl CredentialSource for FixtureCredentialSource {
    fn token(&self, _handle: &String) -> Result<Token, Error> {
        Ok(Token::new("fixture-token".to_owned()))
    }
}

struct MissingCredentialSource;

impl CredentialSource for MissingCredentialSource {
    fn token(&self, handle: &String) -> Result<Token, Error> {
        Err(Error::CredentialUnavailable(handle.clone()))
    }
}

struct FixtureDigitalOceanApi {
    servers: Mutex<Vec<ApiServer>>,
    created: Mutex<Vec<ServerSpec>>,
    deleted: Mutex<Vec<String>>,
}

fn server(identifier: &str, name: &str, server_type: &str, image: &str, ipv4: &str, status: HostStatus) -> ApiServer {
    ApiServer {
        identifier: identifier.to_owned(),
        name: name.to_owned(),
        server_type: server_type.to_owned(),
        image: image.to_owned(),
        ipv4: ipv4.to_owned(),
        status,
    }
}

fn copy_server(server: &ApiServer) -> ApiServer {
    ApiServer {
        identifier: server.identifier.clone(),
        name: server.name.clone(),
        server_type: server.server_type.clone(),
        image: server.image.clone(),
        ipv4: server.ipv4.clone(),
        status: server.status,
    }
}

fn copy_spec(spec: &ServerSpec) -> ServerSpec {
    ServerSpec {
        name: spec.name.clone(),
        server_type: spec.server_type.clone(),
        image: spec.image.clone(),
        ssh_keys: spec.ssh_keys.clone(),
        location: spec.location.clone(),
    }
}

impl FixtureDigitalOceanApi {
    fn new() -> Self {
        Self {
            servers: Mutex::new(vec![server("4711", "edge-one", "s-1vcpu-512mb-10gb", "ubuntu-24-04-x64", "203.0.113.7", HostStatus::Running)]),
            created: Mutex::new(Vec::new()),
            deleted: Mutex::new(Vec::new()),
        }
    }

    fn deleted(&self) -> Vec<String> {
        self.deleted.lock().expect("deleted").clone()
    }
}

struct SharedApi(Arc<FixtureDigitalOceanApi>);

impl Api for SharedApi {
    fn ensure_ssh_key(&self, _token: &Token, _name: &String, _public_key: &String) -> Result<String, Error> {
        Ok("aa:bb:cc:dd".to_owned())
    }

    fn delete_ssh_key(&self, _token: &Token, _fingerprint: &String) -> Result<(), Error> {
        Ok(())
    }

    fn create_server(&self, _token: &Token, spec: &ServerSpec) -> Result<ApiServer, Error> {
        self.0.created.lock().expect("created").push(copy_spec(spec));
        let created = server("5012", &spec.name, &spec.server_type, &spec.image, "203.0.113.40", HostStatus::Initializing);
        self.0.servers.lock().expect("servers").push(copy_server(&created));
        Ok(created)
    }

    fn get_server(&self, _token: &Token, identifier: &String) -> Result<ApiServer, Error> {
        self.0
            .servers
            .lock()
            .expect("servers")
            .iter()
            .find(|server| server.identifier == *identifier)
            .map(copy_server)
            .ok_or_else(|| Error::HostNotFound(identifier.clone()))
    }

    fn list_servers(&self, _token: &Token) -> Result<Vec<ApiServer>, Error> {
        Ok(self.0.servers.lock().expect("servers").iter().map(copy_server).collect())
    }

    fn delete_server(&self, _token: &Token, identifier: &String) -> Result<(), Error> {
        self.0.deleted.lock().expect("deleted").push(identifier.clone());
        self.0.servers.lock().expect("servers").retain(|server| server.identifier != *identifier);
        Ok(())
    }
}

fn provider_client(api: Arc<FixtureDigitalOceanApi>) -> ProviderClient<SharedApi, FixtureCredentialSource> {
    ProviderClient::new(SharedApi(api), FixtureCredentialSource)
}

type FixtureStore = Store<DigitalOceanEffects<SharedApi, FixtureCredentialSource>>;

fn host(identifier: &str, name: &str, server_type: &str, image: &str, ipv4: &str, status: HostStatus) -> CloudHost {
    CloudHost {
        provider: Provider::DigitalOcean,
        account: "primary".to_owned(),
        identifier: identifier.to_owned(),
        name: name.to_owned(),
        server_type: server_type.to_owned(),
        image: image.to_owned(),
        ipv4: ipv4.to_owned(),
        status,
    }
}

#[test]
fn create_host_maps_droplet_to_cloud_host() {
    let api = Arc::new(FixtureDigitalOceanApi::new());
    let client = provider_client(api.clone());
    let credential = "DIGITALOCEAN_ACCESS_TOKEN".to_owned();
    let account = "primary".to_owned();
    let spec = ServerSpec {
        name: "edge-two".to_owned(),
        server_type: "s-1vcpu-1gb".to_owned(),
        image: "ubuntu-24-04-x64".to_owned(),
        ssh_keys: vec!["operator".to_owned()],
        location: Some("nyc1".to_owned()),
    };

    let created = client.create_host(&credential, &account, &spec).expect("create host");

    assert_eq!(created, host("5012", "edge-two", "s-1vcpu-1gb", "ubuntu-24-04-x64", "203.0.113.40", HostStatus::Initializing));
    assert_eq!(api.created.lock().expect("created").len(), 1);
}

#[test]
fn observe_hosts_maps_every_droplet() {
    let api = Arc::new(FixtureDigitalOceanApi::new());
    let client = provider_client(api);
    let credential = "DIGITALOCEAN_ACCESS_TOKEN".to_owned();
    let account = "primary".to_owned();

    let hosts = client.observe_hosts(&credential, &account).expect("observe hosts");

    assert_eq!(hosts, vec![host("4711", "edge-one", "s-1vcpu-512mb-10gb", "ubuntu-24-04-x64", "203.0.113.7", HostStatus::Running)]);
}

#[test]
fn digitalocean_destroy_host_forwards_identifier_to_api() {
    let api = Arc::new(FixtureDigitalOceanApi::new());
    let client = provider_client(api.clone());
    let credential = "DIGITALOCEAN_ACCESS_TOKEN".to_owned();

    client.destroy_host(&credential, &"4711".to_owned()).expect("destroy host");

    assert_eq!(api.deleted(), vec!["4711".to_owned()]);
    assert!(api.servers.lock().expect("servers").is_empty());
}

#[test]
fn digitalocean_create_host_surfaces_missing_credential() {
    let api = Arc::new(FixtureDigitalOceanApi::new());
    let client = ProviderClient::new(SharedApi(api), MissingCredentialSource);
    let credential = "DIGITALOCEAN_ACCESS_TOKEN".to_owned();
    let account = "primary".to_owned();
    let spec = ServerSpec {
        name: "edge-two".to_owned(),
        server_type: "s-1vcpu-1gb".to_owned(),
        image: "ubuntu-24-04-x64".to_owned(),
        ssh_keys: Vec::new(),
        location: None,
    };

    let error = client.create_host(&credential, &account, &spec).expect_err("missing credential should error");
    assert!(matches!(error, Error::CredentialUnavailable(_)));
}

fn fixture_store(api: Arc<FixtureDigitalOceanApi>) -> FixtureStore {
    Store::new(DigitalOceanEffects { client: ProviderClient::new(SharedApi(api), FixtureCredentialSource) })
}

fn register_account(store: &mut FixtureStore) {
    let registration = MetaOperation::RegisterAccount(Registration {
        provider: Provider::DigitalOcean,
        account: "primary".to_owned(),
        credential: "DIGITALOCEAN_ACCESS_TOKEN".to_owned(),
    });
    assert!(matches!(store.handle_meta_request(vec![registration]).remove(0), MetaReply::AccountRegistered { .. }));
}

fn observe_hosts(store: &mut FixtureStore) -> Vec<CloudHost> {
    let request = Operation::Observe(Observation::Servers(HostQuery { provider: Provider::DigitalOcean, account: None }));
    match store.handle_ordinary_request(vec![request]).remove(0) {
        Reply::Observed(ObservationResult::Servers(listing)) => listing,
        other => panic!("unexpected observe reply {other:?}"),
    }
}

#[test]
fn store_observes_digitalocean_hosts_through_provider() {
    let api = Arc::new(FixtureDigitalOceanApi::new());
    let mut store = fixture_store(api);
    register_account(&mut store);

    assert_eq!(
        observe_hosts(&mut store),
        vec![host("4711", "edge-one", "s-1vcpu-512mb-10gb", "ubuntu-24-04-x64", "203.0.113.7", HostStatus::Running)]
    );
}

fn approve_and_apply_plan(store: &mut FixtureStore, plan: &String) {
    assert!(matches!(store.handle_meta_request(vec![MetaOperation::ApprovePlan(plan.clone())]).remove(0), MetaReply::PlanApproved(_)));
    match store.handle_meta_request(vec![MetaOperation::ApplyPlan(plan.clone())]).remove(0) {
        MetaReply::PlanApplied(applied) => assert_eq!(&applied, plan),
        other => panic!("unexpected apply reply {other:?}"),
    }
}

#[test]
fn digitalocean_store_prepares_and_applies_a_host_create_plan() {
    let api = Arc::new(FixtureDigitalOceanApi::new());
    let mut store = fixture_store(api.clone());
    register_account(&mut store);

    let preparation = MetaOperation::PrepareHostPlan(DesiredHostState {
        provider: Provider::DigitalOcean,
        host_name: "edge-three".to_owned(),
        server_type: "s-1vcpu-512mb-10gb".to_owned(),
        image_name: "ubuntu-24-04-x64".to_owned(),
        ssh_key_name: "operator".to_owned(),
    });
    let plan = match store.handle_meta_request(vec![preparation]).remove(0) {
        MetaReply::HostPlanPrepared(plan) => plan,
        other => panic!("unexpected prepare reply {other:?}"),
    };
    assert_eq!(plan.intent, HostIntent::Create);

    approve_and_apply_plan(&mut store, &plan.identifier);

    assert_eq!(api.created.lock().expect("created").len(), 1);
    assert_eq!(api.created.lock().expect("created")[0].name, "edge-three".to_owned());
    assert_eq!(api.created.lock().expect("created")[0].ssh_keys, vec!["operator".to_owned()]);
}

#[test]
fn destroy_host_by_name_resolves_identifier_before_delete() {
    let api = Arc::new(FixtureDigitalOceanApi::new());
    let client = provider_client(api.clone());
    let credential = "DIGITALOCEAN_ACCESS_TOKEN".to_owned();

    client.destroy_host_by_name(&credential, &"edge-one".to_owned()).expect("destroy host by name");

    assert_eq!(api.deleted(), vec!["4711".to_owned()]);
    assert!(api.servers.lock().expect("servers").is_empty());
}

#[test]
fn destroy_host_by_name_treats_missing_host_as_already_gone() {
    let api = Arc::new(FixtureDigitalOceanApi::new());
    let client = provider_client(api.clone());
    let credential = "DIGITALOCEAN_ACCESS_TOKEN".to_owned();

    client.destroy_host_by_name(&credential, &"absent-host".to_owned()).expect("missing host is already gone");

    assert!(api.deleted().is_empty());
}

#[test]
fn full_host_lifecycle_runs_through_the_store_handlers() {
    let api = Arc::new(FixtureDigitalOceanApi::new());
    let mut store = fixture_store(api.clone());
    register_account(&mut store);

    let names = |store: &mut FixtureStore| -> Vec<String> { observe_hosts(store).iter().map(|host| host.name.clone()).collect() };
    assert_eq!(names(&mut store), vec!["edge-one".to_owned()]);

    let preparation = MetaOperation::PrepareHostPlan(DesiredHostState {
        provider: Provider::DigitalOcean,
        host_name: "edge-four".to_owned(),
        server_type: "s-1vcpu-512mb-10gb".to_owned(),
        image_name: "ubuntu-24-04-x64".to_owned(),
        ssh_key_name: "operator".to_owned(),
    });
    let create_plan = match store.handle_meta_request(vec![preparation]).remove(0) {
        MetaReply::HostPlanPrepared(plan) => plan,
        other => panic!("unexpected prepare reply {other:?}"),
    };
    assert_eq!(create_plan.intent, HostIntent::Create);

    approve_and_apply_plan(&mut store, &create_plan.identifier);

    assert_eq!(names(&mut store), vec!["edge-one".to_owned(), "edge-four".to_owned()]);

    let destruction = MetaOperation::PrepareHostDestruction(HostDestruction {
        provider: Provider::DigitalOcean,
        host_name: "edge-four".to_owned(),
    });
    let destroy_plan = match store.handle_meta_request(vec![destruction]).remove(0) {
        MetaReply::HostPlanPrepared(plan) => plan,
        other => panic!("unexpected destruction reply {other:?}"),
    };
    assert_eq!(destroy_plan.intent, HostIntent::Destroy);
    assert_eq!(destroy_plan.host_name, "edge-four".to_owned());
    assert_eq!(destroy_plan.server_type.as_str(), "");
    assert_eq!(destroy_plan.image_name.as_str(), "");
    assert_eq!(destroy_plan.ssh_key_name.as_str(), "");

    approve_and_apply_plan(&mut store, &destroy_plan.identifier);

    assert_eq!(names(&mut store), vec!["edge-one".to_owned()]);
    assert_eq!(api.deleted(), vec!["5012".to_owned()]);
}

#[test]
fn digitalocean_hosts_for_servers_maps_each_server_in_order() {
    let servers = vec![
        server("1", "edge-a", "small", "debian-12", "203.0.113.1", HostStatus::Running),
        server("2", "edge-b", "large", "debian-12", "203.0.113.2", HostStatus::Stopped),
    ];
    let hosts = hosts_for_servers(&"primary".to_owned(), servers);
    assert_eq!(hosts.len(), 2);
    assert_eq!(hosts[0], host("1", "edge-a", "small", "debian-12", "203.0.113.1", HostStatus::Running));
    assert_eq!(hosts[1], host("2", "edge-b", "large", "debian-12", "203.0.113.2", HostStatus::Stopped));
}

#[test]
fn digitalocean_create_host_with_unresolved_token_asks_nothing() {
    let api = Arc::new(FixtureDigitalOceanApi::new());
    let client = provider_client(api.clone());
    let spec = ServerSpec {
        name: "edge-two".to_owned(),
        server_type: "small".to_owned(),
        image: "debian-12".to_owned(),
        ssh_keys: vec![],
        location: None,
    };
    let outcome = client.create_host_with_token(Err(Error::CredentialUnavailable("DIGITALOCEAN_ACCESS_TOKEN".to_owned())), &"primary".to_owned(), &spec);
    assert_eq!(outcome, Err(Error::CredentialUnavailable("DIGITALOCEAN_ACCESS_TOKEN".to_owned())));
    assert!(api.created.lock().expect("created").is_empty());
}

#[test]
fn digitalocean_destroy_named_in_listing_without_the_name_deletes_nothing() {
    let api = Arc::new(FixtureDigitalOceanApi::new());
    let client = provider_client(api.clone());
    let token = Token::new("fixture-token".to_owned());
    let listing = Ok(vec![server("4711", "edge-one", "small", "debian-12", "203.0.113.7", HostStatus::Running)]);
    assert_eq!(client.destroy_named_in(&token, listing, &"absent-host".to_owned()), Ok(()));
    assert!(api.deleted().is_empty());
}

#[test]
fn digitalocean_destroy_named_in_deletes_the_first_server_named() {
    let api = Arc::new(FixtureDigitalOceanApi::new());
    let client = provider_client(api.clone());
    let token = Token::new("fixture-token".to_owned());
    let listing = Ok(vec![
        server("10", "edge-one", "small", "debian-12", "203.0.113.7", HostStatus::Running),
        server("11", "edge-one", "small", "debian-12", "203.0.113.8", HostStatus::Running),
    ]);
    assert_eq!(client.destroy_named_in(&token, listing, &"edge-one".to_owned()), Ok(()));
    assert_eq!(api.deleted(), vec!["10".to_owned()]);
}

#[test]
fn digitalocean_destroy_named_in_answers_a_failed_listing_with_its_error() {
    let api = Arc::new(FixtureDigitalOceanApi::new());
    let client = provider_client(api.clone());
    let token = Token::new("fixture-token".to_owned());
    let listing: Result<Vec<ApiServer>, Error> = Err(Error::RequestFailed("listing failed".to_owned()));
    assert_eq!(
        client.destroy_named_in(&token, listing, &"edge-one".to_owned()),
        Err(Error::RequestFailed("listing failed".to_owned()))
    );
    assert!(api.deleted().is_empty());
}

#[test]
fn digitalocean_verify_credential_answers_with_the_source_error() {
    let api = Arc::new(FixtureDigitalOceanApi::new());
    let client = ProviderClient::new(SharedApi(api), MissingCredentialSource);
    assert_eq!(
        client.verify_credential(&"DIGITALOCEAN_ACCESS_TOKEN".to_owned()),
        Err(Error::CredentialUnavailable("DIGITALOCEAN_ACCESS_TOKEN".to_owned()))
    );
    let working = provider_client(Arc::new(FixtureDigitalOceanApi::new()));
    assert_eq!(working.verify_credential(&"DIGITALOCEAN_ACCESS_TOKEN".to_owned()), Ok(()));
}
