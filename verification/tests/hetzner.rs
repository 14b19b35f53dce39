use std::sync::{Arc, Mutex};

use cloud::effects::HetznerEffects;
use cloud::hetzner::{hosts_for_servers, Api, ApiServer, CredentialSource, Error, ProviderClient, ServerSpec, Token};
use cloud::store::Store;
use cloud::vocabulary::{
    CloudHost, DesiredHostState, HostDestruction, HostIntent, HostQuery, HostStatus, MetaOperation, MetaReply,
    Observation, ObservationResult, Operation, Provider, Registration, Reply,
};

struct FixtureCredentialSource;

impl CredentialSource for FixtureCredentialSource {
    fn token(&self, _handle: &String) -> Result<Token, Error> {
        Ok(Token::new("fixture-token".to_owned()))
    }
}

struct MissingCredentialSource;

impl CredentialSource for MissingCredentialSource {
    fn token(&self, handle: &String) -> Result<Token, Error> {
        Err(Error::CredentialUnavailable(handle.clone()))
    }
}

struct FixtureHetznerApi {
    servers: Mutex<Vec<ApiServer>>,
    created: Mutex<Vec<ServerSpec>>,
    deleted: Mutex<Vec<String>>,
}

fn server(identifier: &str, name: &str, server_type: &str, image: &str, ipv4: &str, status: HostStatus) -> ApiServer {
    ApiServer {
        identifier: identifier.to_owned(),
        name: name.to_owned(),
        server_type: server_type.to_owned(),
        image: image.to_owned(),
        ipv4: ipv4.to_owned(),
        status,
    }
}

fn copy_server(server: &ApiServer) -> ApiServer {
    ApiServer {
        identifier: server.identifier.clone(),
        name: server.name.clone(),
        server_type: server.server_type.clone(),
        image: server.image.clone(),
        ipv4: server.ipv4.clone(),
        status: server.status,
    }
}

fn copy_spec(spec: &ServerSpec) -> ServerSpec {
    ServerSpec {
        name: spec.name.clone(),
        server_type: spec.server_type.clone(),
        image: spec.image.clone(),
        ssh_keys: spec.ssh_keys.clone(),
        location: spec.location.clone(),
    }
}

impl FixtureHetznerApi {
    fn new() -> Self {
        Self {
            servers: Mutex::new(vec![server("4711", "edge-one", "cx22", "debian-12", "203.0.113.7", HostStatus::Running)]),
            created: Mutex::new(Vec::new()),
            deleted: Mutex::new(Vec::new()),
        }
    }

    fn deleted(&self) -> Vec<String> {
        self.deleted.lock().expect("deleted").clone()
    }
}

struct SharedApi(Arc<FixtureHetznerApi>);

impl Api for SharedApi {
    fn ensure_ssh_key(&self, _token: &Token, _name: &String, _public_key: &String) -> Result<i64, Error> {
        Ok(99)
    }

    fn create_server(&self, _token: &Token, spec: &ServerSpec) -> Result<ApiServer, Error> {
        self.0.created.lock().expect("created").push(copy_spec(spec));
        let created = server("5012", &spec.name, &spec.server_type, &spec.image, "203.0.113.40", HostStatus::Initializing);
        self.0.servers.lock().expect("servers").push(copy_server(&created));
        Ok(created)
    }

    fn get_server(&self, _token: &Token, identifier: &String) -> Result<ApiServer, Error> {
        self.0
            .servers
            .lock()
            .expect("servers")
            .iter()
            .find(|server| server.identifier == *identifier)
            .map(copy_server)
            .ok_or_else(|| Error::HostNotFound(identifier.clone()))
    }

    fn list_servers(&self, _token: &Token) -> Result<Vec<ApiServer>, Error> {
        Ok(self.0.servers.lock().expect("servers").iter().map(copy_server).collect())
    }

    fn delete_server(&self, _token: &Token, identifier: &String) -> Result<(), Error> {
        self.0.deleted.lock().expect("deleted").push(identifier.clone());
        self.0.servers.lock().expect("servers").retain(|server| server.identifier != *identifier);
        Ok(())
    }
}

fn provider_client(api: Arc<FixtureHetznerApi>) -> ProviderClient<SharedApi, FixtureCredentialSource> {
    ProviderClient::new(SharedApi(api), FixtureCredentialSource)
}

type FixtureStore = Store<HetznerEffects<SharedApi, FixtureCredentialSource>>;

fn host(identifier: &str, name: &str, server_type: &str, image: &str, ipv4: &str, status: HostStatus) -> CloudHost {
    CloudHost {
        provider: Provider::Hetzner,
        account: "primary".to_owned(),
        identifier: identifier.to_owned(),
        name: name.to_owned(),
        server_type: server_type.to_owned(),
        image: image.to_owned(),
        ipv4: ipv4.to_owned(),
        status,
    }
}

#[test]
fn create_host_maps_hetzner_server_to_cloud_host() {
    let api = Arc::new(FixtureHetznerApi::new());
    let client = provider_client(api.clone());
    let credential = "HCLOUD_TOKEN".to_owned();
    let account = "primary".to_owned();
    let spec = ServerSpec {
        name: "edge-two".to_owned(),
        server_type: "cx32".to_owned(),
        image: "debian-12".to_owned(),
        ssh_keys: vec!["99".to_owned()],
        location: Some("fsn1".to_owned()),
    };

    let created = client.create_host(&credential, &account, &spec).expect("create host");

    assert_eq!(created, host("5012", "edge-two", "cx32", "debian-12", "203.0.113.40", HostStatus::Initializing));
    assert_eq!(api.created.lock().expect("created").len(), 1);
}

#[test]
fn observe_hosts_maps_every_server() {
    let api = Arc::new(FixtureHetznerApi::new());
    let client = provider_client(api);
    let credential = "HCLOUD_TOKEN".to_owned();
    let account = "primary".to_owned();

    let hosts = client.observe_hosts(&credential, &account).expect("observe hosts");

    assert_eq!(hosts, vec![host("4711", "edge-one", "cx22", "debian-12", "203.0.113.7", HostStatus::Running)]);
}

#[test]
fn hetzner_destroy_host_forwards_identifier_to_api() {
    let api = Arc::new(FixtureHetznerApi::new());
    let client = provider_client(api.clone());
    let credential = "HCLOUD_TOKEN".to_owned();

    client.destroy_host(&credential, &"4711".to_owned()).expect("destroy host");

    assert_eq!(api.deleted(), vec!["4711".to_owned()]);
    assert!(api.servers.lock().expect("servers").is_empty());
}

#[test]
fn hetzner_create_host_surfaces_missing_credential() {
    let api = Arc::new(FixtureHetznerApi::new());
    let client = ProviderClient::new(SharedApi(api), MissingCredentialSource);
    let credential = "HCLOUD_TOKEN".to_owned();
    let account = "primary".to_owned();
    let spec = ServerSpec {
        name: "edge-two".to_owned(),
        server_type: "cx32".to_owned(),
        image: "debian-12".to_owned(),
        ssh_keys: Vec::new(),
        location: None,
    };

    let error = client.create_host(&credential, &account, &spec).expect_err("missing credential should error");
    assert!(matches!(error, Error::CredentialUnavailable(_)));
}

fn fixture_store(api: Arc<FixtureHetznerApi>) -> FixtureStore {
    Store::new(HetznerEffects { client: ProviderClient::new(SharedApi(api), FixtureCredentialSource) })
}

fn register_account(store: &mut FixtureStore) {
    let registration = MetaOperation::RegisterAccount(Registration {
        provider: Provider::Hetzner,
        account: "primary".to_owned(),
        credential: "HCLOUD_TOKEN".to_owned(),
    });
    assert!(matches!(store.handle_meta_request(vec![registration]).remove(0), MetaReply::AccountRegistered { .. }));
}

fn observe_hosts(store: &mut FixtureStore) -> Vec<CloudHost> {
    let request = Operation::Observe(Observation::Servers(HostQuery { provider: Provider::Hetzner, account: None }));
    match store.handle_ordinary_request(vec![request]).remove(0) {
        Reply::Observed(ObservationResult::Servers(listing)) => listing,
        other => panic!("unexpected observe reply {other:?}"),
    }
}

#[test]
fn store_observes_hetzner_hosts_through_provider() {
    let api = Arc::new(FixtureHetznerApi::new());
    let mut store = fixture_store(api);
    register_account(&mut store);

    assert_eq!(
        observe_hosts(&mut store),
        vec![host("4711", "edge-one", "cx22", "debian-12", "203.0.113.7", HostStatus::Running)]
    );
}

fn approve_and_apply_plan(store: &mut FixtureStore, plan: &String) {
    assert!(matches!(store.handle_meta_request(vec![MetaOperation::ApprovePlan(plan.clone())]).remove(0), MetaReply::PlanApproved(_)));
    match store.handle_meta_request(vec![MetaOperation::ApplyPlan(plan.clone())]).remove(0) {
        MetaReply::PlanApplied(applied) => assert_eq!(&applied, plan),
        other => panic!("unexpected apply reply {other:?}"),
    }
}

#[test]
fn hetzner_store_prepares_and_applies_a_host_create_plan() {
    let api = Arc::new(FixtureHetznerApi::new());
    let mut store = fixture_store(api.clone());
    register_account(&mut store);

    let preparation = MetaOperation::PrepareHostPlan(DesiredHostState {
        provider: Provider::Hetzner,
        host_name: "edge-three".to_owned(),
        server_type: "cx22".to_owned(),
        image_name: "debian-12".to_owned(),
        ssh_key_name: "operator".to_owned(),
    });
    let plan = match store.handle_meta_request(vec![preparation]).remove(0) {
        MetaReply::HostPlanPrepared(plan) => plan,
        other => panic!("unexpected prepare reply {other:?}"),
    };
    assert_eq!(plan.intent, HostIntent::Create);

    approve_and_apply_plan(&mut store, &plan.identifier);

    assert_eq!(api.created.lock().expect("created").len(), 1);
    assert_eq!(api.created.lock().expect("created")[0].name, "edge-three".to_owned());
}

#[test]
fn hetzner_hosts_for_servers_maps_each_server_in_order() {
    let servers = vec![
        server("1", "edge-a", "small", "debian-12", "203.0.113.1", HostStatus::Running),
        server("2", "edge-b", "large", "debian-12", "203.0.113.2", HostStatus::Stopped),
    ];
    let hosts = hosts_for_servers(&"primary".to_owned(), servers);
    assert_eq!(hosts.len(), 2);
    assert_eq!(hosts[0], host("1", "edge-a", "small", "debian-12", "203.0.113.1", HostStatus::Running));
    assert_eq!(hosts[1], host("2", "edge-b", "large", "debian-12", "203.0.113.2", HostStatus::Stopped));
}

#[test]
fn hetzner_create_host_with_unresolved_token_asks_nothing() {
    let api = Arc::new(FixtureHetznerApi::new());
    let client = provider_client(api.clone());
    let spec = ServerSpec {
        name: "edge-two".to_owned(),
        server_type: "small".to_owned(),
        image: "debian-12".to_owned(),
        ssh_keys: vec![],
        location: None,
    };
    let outcome = client.create_host_with_token(Err(Error::CredentialUnavailable("HCLOUD_TOKEN".to_owned())), &"primary".to_owned(), &spec);
    assert_eq!(outcome, Err(Error::CredentialUnavailable("HCLOUD_TOKEN".to_owned())));
    assert!(api.created.lock().expect("created").is_empty());
}

#[test]
fn hetzner_destroy_named_in_listing_without_the_name_deletes_nothing() {
    let api = Arc::new(FixtureHetznerApi::new());
    let client = provider_client(api.clone());
    let token = Token::new("fixture-token".to_owned());
    let listing = Ok(vec![server("4711", "edge-one", "small", "debian-12", "203.0.113.7", HostStatus::Running)]);
    assert_eq!(client.destroy_named_in(&token, listing, &"absent-host".to_owned()), Ok(()));
    assert!(api.deleted().is_empty());
}

#[test]
fn hetzner_destroy_named_in_deletes_the_first_server_named() {
    let api = Arc::new(FixtureHetznerApi::new());
    let client = provider_client(api.clone());
    let token = Token::new("fixture-token".to_owned());
    let listing = Ok(vec![
        server("10", "edge-one", "small", "debian-12", "203.0.113.7", HostStatus::Running),
        server("11", "edge-one", "small", "debian-12", "203.0.113.8", HostStatus::Running),
    ]);
    assert_eq!(client.destroy_named_in(&token, listing, &"edge-one".to_owned()), Ok(()));
    assert_eq!(api.deleted(), vec!["10".to_owned()]);
}

#[test]
fn hetzner_destroy_named_in_answers_a_failed_listing_with_its_error() {
    let api = Arc::new(FixtureHetznerApi::new());
    let client = provider_client(api.clone());
    let token = Token::new("fixture-token".to_owned());
    let listing: Result<Vec<ApiServer>, Error> = Err(Error::RequestFailed("listing failed".to_owned()));
    assert_eq!(
        client.destroy_named_in(&token, listing, &"edge-one".to_owned()),
        Err(Error::RequestFailed("listing failed".to_owned()))
    );
    assert!(api.deleted().is_empty());
}
