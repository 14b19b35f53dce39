//! The Hetzner Cloud compute client: create, observe and destroy servers
//! through an [`Api`] mechanism, mapping servers onto provider-neutral hosts.
use vstd::prelude::*;

use crate::http::{join_url, TransportFailure};
use crate::text::{owned, text_equals};
use crate::vocabulary::{CloudHost, CloudHostView, HostStatus, Provider};

verus! {

/// Why a Hetzner call failed.
#[derive(Debug, PartialEq, Eq)]
pub enum Error {
    CredentialUnavailable(String),
    RequestFailed(String),
    RequestRejected(String),
    HostNotFound(String),
}

/// The Hetzner Cloud API token. It never leaves the provider edge.
#[derive(Debug, PartialEq, Eq)]
pub struct Token(pub String);

impl Token {
    pub fn new(value: String) -> (token: Self)
        ensures
            token.0@ == value@,
    {
        Token(value)
    }

    pub fn as_str(&self) -> (text: &str)
        ensures
            text@ == self.0@,
    {
        self.0.as_str()
    }
}

/// Resolves a credential handle to a token.
pub trait CredentialSource {
    /// Names what this source answered when a lookup of `handle` gave
    /// `answer`; it promises nothing of the answer, and by default holds of
    /// every answer.
    closed spec fn token_answer(&self, handle: Seq<char>, answer: Result<Token, Error>) -> bool {
        true
    }

    fn token(&self, handle: &String) -> (answer: Result<Token, Error>)
        ensures
            self.token_answer(handle@, answer),
    ;
}

/// The shape of a server before it exists.
#[derive(Debug, PartialEq, Eq)]
pub struct ServerSpec {
    pub name: String,
    pub server_type: String,
    pub image: String,
    /// Names of SSH keys already registered in the project.
    pub ssh_keys: Vec<String>,
    pub location: Option<String>,
}

/// A server as Hetzner reports it.
#[derive(Debug, PartialEq, Eq)]
pub struct ApiServer {
    pub identifier: String,
    pub name: String,
    pub server_type: String,
    pub image: String,
    pub ipv4: String,
    pub status: HostStatus,
}

/// A mechanism that reaches the Hetzner Cloud API.
pub trait Api {
    fn ensure_ssh_key(&self, token: &Token, name: &String, public_key: &String) -> Result<i64, Error>;

    /// Names the answer of a creation of `spec`; it promises nothing of it,
    /// and by default holds of every answer.
    closed spec fn creation(&self, token: Token, spec: ServerSpec, answer: Result<ApiServer, Error>) -> bool {
        true
    }

    /// Names the answer of a listing of the servers; it promises nothing of
    /// it, and by default holds of every answer.
    closed spec fn listing(&self, token: Token, answer: Result<Vec<ApiServer>, Error>) -> bool {
        true
    }

    /// Names the answer of a deletion of `identifier`; it promises nothing of
    /// it, and by default holds of every answer.
    closed spec fn deletion(&self, token: Token, identifier: Seq<char>, answer: Result<(), Error>) -> bool {
        true
    }

    fn create_server(&self, token: &Token, spec: &ServerSpec) -> (answer: Result<ApiServer, Error>)
        ensures
            self.creation(*token, *spec, answer),
    ;

    fn get_server(&self, token: &Token, identifier: &String) -> Result<ApiServer, Error>;

    fn list_servers(&self, token: &Token) -> (answer: Result<Vec<ApiServer>, Error>)
        ensures
            self.listing(*token, answer),
    ;

    fn delete_server(&self, token: &Token, identifier: &String) -> (answer: Result<(), Error>)
        ensures
            self.deletion(*token, identifier@, answer),
    ;
}

/// The host status a Hetzner server status string denotes.
pub open spec fn hetzner_host_status(status: Seq<char>) -> HostStatus {
    if status == "initializing"@ || status == "starting"@ {
        HostStatus::Initializing
    } else if status == "running"@ {
        HostStatus::Running
    } else if status == "stopping"@ || status == "off"@ {
        HostStatus::Stopped
    } else if status == "deleting"@ {
        HostStatus::Deleting
    } else {
        HostStatus::Unknown
    }
}

/// A Hetzner status string maps by its name: `initializing` and `starting`
/// to Initializing, only `running` to Running, `stopping` and `off` to
/// Stopped, `deleting` to Deleting.
pub proof fn hetzner_status_names(status: Seq<char>)
    ensures
        (hetzner_host_status(status) == HostStatus::Initializing) == (status == "initializing"@ || status == "starting"@),
        (hetzner_host_status(status) == HostStatus::Running) == (status == "running"@),
        (hetzner_host_status(status) == HostStatus::Stopped) == (status == "stopping"@ || status == "off"@),
        (hetzner_host_status(status) == HostStatus::Deleting) == (status == "deleting"@),
{
    reveal_strlit("initializing");
    assert("initializing"@.len() == 12 && "initializing"@[0] == 'i' && "initializing"@[1] == 'n' && "initializing"@[2] == 'i');
    reveal_strlit("starting");
    assert("starting"@.len() == 8 && "starting"@[0] == 's' && "starting"@[1] == 't' && "starting"@[2] == 'a');
    reveal_strlit("running");
    assert("running"@.len() == 7 && "running"@[0] == 'r' && "running"@[1] == 'u' && "running"@[2] == 'n');
    reveal_strlit("stopping");
    assert("stopping"@.len() == 8 && "stopping"@[0] == 's' && "stopping"@[1] == 't' && "stopping"@[2] == 'o');
    reveal_strlit("off");
    assert("off"@.len() == 3 && "off"@[0] == 'o' && "off"@[1] == 'f' && "off"@[2] == 'f');
    reveal_strlit("deleting");
    assert("deleting"@.len() == 8 && "deleting"@[0] == 'd' && "deleting"@[1] == 'e' && "deleting"@[2] == 'l');
}

/// A Hetzner server status string.
pub struct HetznerStatus {
    pub status: String,
}

impl HetznerStatus {
    pub fn new(status: String) -> (mapped: Self)
        ensures
            mapped.status@ == status@,
    {
        HetznerStatus { status }
    }

    pub fn into_host_status(self) -> (status: HostStatus)
        ensures
            status == hetzner_host_status(self.status@),
            (status == HostStatus::Initializing) == (self.status@ == "initializing"@ || self.status@ == "starting"@),
            (status == HostStatus::Running) == (self.status@ == "running"@),
            (status == HostStatus::Stopped) == (self.status@ == "stopping"@ || self.status@ == "off"@),
            (status == HostStatus::Deleting) == (self.status@ == "deleting"@),
    {
        proof {
            hetzner_status_names(self.status@);
        }
        let text = self.status.as_str();
        if text_equals(text, "initializing") || text_equals(text, "starting") {
            HostStatus::Initializing
        } else if text_equals(text, "running") {
            HostStatus::Running
        } else if text_equals(text, "stopping") || text_equals(text, "off") {
            HostStatus::Stopped
        } else if text_equals(text, "deleting") {
            HostStatus::Deleting
        } else {
            HostStatus::Unknown
        }
    }
}

/// The create request Hetzner receives for a spec.
#[derive(Debug, PartialEq, Eq)]
pub struct ServerPayload {
    pub name: String,
    pub server_type: String,
    pub image: String,
    pub ssh_keys: Vec<String>,
    pub start_after_create: bool,
    pub location: Option<String>,
}

impl ServerPayload {
    /// The spec as a create request that starts the server at once.
    pub fn from_spec(spec: &ServerSpec) -> (payload: Self)
        ensures
            payload.name@ == spec.name@,
            payload.server_type@ == spec.server_type@,
            payload.image@ == spec.image@,
            payload.ssh_keys.deep_view() == spec.ssh_keys.deep_view(),
            payload.start_after_create,
            payload.location.deep_view() == spec.location.deep_view(),
    {
        ServerPayload {
            name: spec.name.clone(),
            server_type: spec.server_type.clone(),
            image: spec.image.clone(),
            ssh_keys: spec.ssh_keys.clone(),
            start_after_create: true,
            location: match &spec.location {
                Some(location) => Some(location.clone()),
                None => None,
            },
        }
    }
}

/// A server row of Hetzner's server listing, with its numeric identifier in
/// decimal.
#[derive(Debug, PartialEq, Eq)]
pub struct ServerRecord {
    pub identifier: String,
    pub name: String,
    pub status: String,
    pub ipv4: Option<String>,
    pub server_type: String,
    pub image: Option<String>,
}

impl ServerRecord {
    /// The server with a missing public IPv4 or image read as empty.
    pub fn into_api_server(self) -> (server: ApiServer)
        ensures
            server.identifier@ == self.identifier@,
            server.name@ == self.name@,
            server.server_type@ == self.server_type@,
            server.image@ == match self.image {
                Some(image) => image@,
                None => Seq::<char>::empty(),
            },
            server.ipv4@ == match self.ipv4 {
                Some(ipv4) => ipv4@,
                None => Seq::<char>::empty(),
            },
            server.status == hetzner_host_status(self.status@),
    {
        ApiServer {
            identifier: self.identifier,
            name: self.name,
            server_type: self.server_type,
            image: match self.image {
                Some(image) => image,
                None => String::new(),
            },
            ipv4: match self.ipv4 {
                Some(ipv4) => ipv4,
                None => String::new(),
            },
            status: HetznerStatus::new(self.status).into_host_status(),
        }
    }
}

/// An SSH key row of Hetzner's key listing.
#[derive(Debug, PartialEq, Eq)]
pub struct SshKeyRecord {
    pub id: i64,
    pub name: String,
}

/// The identifier of the first listed key with the given name.
pub fn find_ssh_key(keys: &Vec<SshKeyRecord>, name: &String) -> (found: Option<i64>)
    ensures
        match found {
            Some(id) => exists|i: int|
                0 <= i < keys.len() && (#[trigger] keys@[i]).name@ == name@ && keys@[i].id == id && forall|j: int|
                    0 <= j < i ==> keys@[j].name@ != name@,
            None => forall|i: int| 0 <= i < keys.len() ==> (#[trigger] keys@[i]).name@ != name@,
        },
{
    let mut index: usize = 0;
    while index < keys.len()
        invariant
            index <= keys.len(),
            forall|i: int| 0 <= i < index ==> (#[trigger] keys@[i]).name@ != name@,
        decreases keys.len() - index,
    {
        if keys[index].name == *name {
            return Some(keys[index].id);
        }
        index = index + 1;
    }
    None
}

/// The provider-neutral host for a Hetzner server held by `account`.
pub open spec fn hetzner_host(account: Seq<char>, server: ApiServer) -> CloudHostView {
    CloudHostView {
        provider: Provider::Hetzner,
        account,
        identifier: server.identifier@,
        name: server.name@,
        server_type: server.server_type@,
        image: server.image@,
        ipv4: server.ipv4@,
        status: server.status,
    }
}

/// A Hetzner server together with the account that holds it.
pub struct HostMapping {
    pub account: String,
    pub server: ApiServer,
}

impl HostMapping {
    pub fn new(account: String, server: ApiServer) -> (mapping: Self)
        ensures
            mapping.account == account,
            mapping.server == server,
    {
        HostMapping { account, server }
    }

    pub fn into_cloud_host(self) -> (host: CloudHost)
        ensures
            host@ == hetzner_host(self.account@, self.server),
            host.provider == Provider::Hetzner,
            host.account@ == self.account@,
            host.identifier@ == self.server.identifier@,
            host.name@ == self.server.name@,
            host.server_type@ == self.server.server_type@,
            host.image@ == self.server.image@,
            host.ipv4@ == self.server.ipv4@,
            host.status == self.server.status,
    {
        CloudHost {
            provider: Provider::Hetzner,
            account: self.account,
            identifier: self.server.identifier,
            name: self.server.name,
            server_type: self.server.server_type,
            image: self.server.image,
            ipv4: self.server.ipv4,
            status: self.server.status,
        }
    }
}

/// The daemon-owned Hetzner client: an API mechanism plus a credential
/// source.
pub struct ProviderClient<A: Api, S: CredentialSource> {
    pub api: A,
    pub credentials: S,
}

impl<A: Api, S: CredentialSource> ProviderClient<A, S> {
    pub fn new(api: A, credentials: S) -> (client: Self)
        ensures
            client.api == api,
            client.credentials == credentials,
    {
        ProviderClient { api, credentials }
    }

    /// Succeeds when the credential handle resolves to a token, and
    /// otherwise answers with the source's error.
    pub fn verify_credential(&self, credential: &String) -> (outcome: Result<(), Error>)
        ensures
            exists|answer: Result<Token, Error>|
                #[trigger] self.credentials.token_answer(credential@, answer) && match answer {
                    Ok(_) => outcome == Ok::<(), Error>(()),
                    Err(error) => outcome == Err::<(), Error>(error),
                },
    {
        match self.credentials.token(credential) {
            Ok(_) => Ok(()),
            Err(error) => Err(error),
        }
    }

    /// What creating a server answers once the handle lookup answered
    /// `token`: the lookup's error, or the creation's error, or the created
    /// server as a host of `account`.
    pub open spec fn host_creation(
        &self,
        token: Result<Token, Error>,
        account: Seq<char>,
        spec: ServerSpec,
        host: Result<CloudHost, Error>,
    ) -> bool {
        match token {
            Err(error) => host == Err::<CloudHost, Error>(error),
            Ok(token) => exists|answer: Result<ApiServer, Error>|
                #[trigger] self.api.creation(token, spec, answer) && match answer {
                    Ok(server) => host matches Ok(created) && created@ == hetzner_host(account, server),
                    Err(error) => host == Err::<CloudHost, Error>(error),
                },
        }
    }

    /// Creates a server and reports it as a host of `account`.
    pub fn create_host(&self, credential: &String, account: &String, spec: &ServerSpec) -> (host: Result<CloudHost, Error>)
        ensures
            host matches Ok(created) ==> created.provider == Provider::Hetzner && created.account@ == account@,
            exists|answer: Result<Token, Error>|
                #[trigger] self.credentials.token_answer(credential@, answer) && self.host_creation(
                    answer,
                    account@,
                    *spec,
                    host,
                ),
    {
        let answer = self.credentials.token(credential);
        let ghost looked_up = answer;
        let host = self.create_host_with_token(answer, account, spec);
        assert(self.credentials.token_answer(credential@, looked_up));
        host
    }

    /// Creates a server once the credential handle has been looked up: a
    /// handle that did not resolve is answered with its own error, before
    /// Hetzner is asked for anything.
    pub fn create_host_with_token(&self, token: Result<Token, Error>, account: &String, spec: &ServerSpec) -> (host:
        Result<CloudHost, Error>)
        ensures
            token matches Err(error) ==> host == Err::<CloudHost, Error>(error),
            host matches Ok(created) ==> created.provider == Provider::Hetzner && created.account@ == account@,
            self.host_creation(token, account@, *spec, host),
    {
        let token = match token {
            Ok(token) => token,
            Err(error) => {
                return Err(error);
            },
        };
        let answer = self.api.create_server(&token, spec);
        assert(self.api.creation(token, *spec, answer));
        match answer {
            Ok(server) => Ok(HostMapping::new(account.clone(), server).into_cloud_host()),
            Err(error) => Err(error),
        }
    }

    /// What observing the hosts answers once the handle lookup answered
    /// `token`: the first error met, or one host of `account` per listed
    /// server, in listing order.
    pub open spec fn host_observation(
        &self,
        token: Result<Token, Error>,
        account: Seq<char>,
        hosts: Result<Vec<CloudHost>, Error>,
    ) -> bool {
        match token {
            Err(error) => hosts == Err::<Vec<CloudHost>, Error>(error),
            Ok(token) => exists|answer: Result<Vec<ApiServer>, Error>|
                #[trigger] self.api.listing(token, answer) && match answer {
                    Ok(servers) => hosts matches Ok(listed) && listed.len() == servers.len() && forall|i: int|
                        0 <= i < listed.len() ==> (#[trigger] listed@[i])@ == hetzner_host(account, servers@[i]),
                    Err(error) => hosts == Err::<Vec<CloudHost>, Error>(error),
                },
        }
    }

    /// Every server of the account, as hosts of `account`, in listing order.
    pub fn observe_hosts(&self, credential: &String, account: &String) -> (hosts: Result<Vec<CloudHost>, Error>)
        ensures
            hosts matches Ok(listed) ==> forall|i: int|
                0 <= i < listed.len() ==> (#[trigger] listed@[i]).provider == Provider::Hetzner
                    && listed@[i].account@ == account@,
            hosts matches Ok(listed) ==> exists|servers: Seq<ApiServer>|
                servers.len() == listed.len() && forall|i: int|
                    0 <= i < listed.len() ==> (#[trigger] listed@[i])@ == hetzner_host(account@, servers[i]),
            exists|answer: Result<Token, Error>|
                #[trigger] self.credentials.token_answer(credential@, answer) && self.host_observation(
                    answer,
                    account@,
                    hosts,
                ),
    {
        let looked_up = self.credentials.token(credential);
        let ghost token_answer = looked_up;
        assert(self.credentials.token_answer(credential@, token_answer));
        let token = match looked_up {
            Ok(token) => token,
            Err(error) => {
                return Err(error);
            },
        };
        let answer = self.api.list_servers(&token);
        assert(self.api.listing(token, answer));
        let servers = match answer {
            Ok(servers) => servers,
            Err(error) => {
                return Err(error);
            },
        };
        let ghost listed_servers = servers@;
        let hosts = hosts_for_servers(account, servers);
        proof {
            assert forall|i: int| 0 <= i < hosts.len() implies (#[trigger] hosts@[i]).provider == Provider::Hetzner
                && hosts@[i].account@ == account@ by {
                assert(hosts@[i]@ == hetzner_host(account@, listed_servers[i]));
            }
        }
        Ok(hosts)
    }

    /// Deletes the server with the given identifier: the lookup's error, or
    /// what the deletion of that identifier answered.
    pub fn destroy_host(&self, credential: &String, identifier: &String) -> (outcome: Result<(), Error>)
        ensures
            exists|answer: Result<Token, Error>|
                #[trigger] self.credentials.token_answer(credential@, answer) && match answer {
                    Err(error) => outcome == Err::<(), Error>(error),
                    Ok(token) => self.api.deletion(token, identifier@, outcome),
                },
    {
        let looked_up = self.credentials.token(credential);
        let ghost token_answer = looked_up;
        assert(self.credentials.token_answer(credential@, token_answer));
        let token = match looked_up {
            Ok(token) => token,
            Err(error) => {
                return Err(error);
            },
        };
        self.api.delete_server(&token, identifier)
    }

    /// What deleting the first server named `name` answers, given the
    /// account's listing: the listing's error; success with nothing deleted
    /// when no server carries the name; otherwise what the deletion of the
    /// first such server's identifier answered.
    pub open spec fn named_destruction(
        &self,
        token: Token,
        listing: Result<Vec<ApiServer>, Error>,
        name: Seq<char>,
        outcome: Result<(), Error>,
    ) -> bool {
        match listing {
            Err(error) => outcome == Err::<(), Error>(error),
            Ok(servers) => match first_named_from(servers@, name, 0) {
                None => outcome == Ok::<(), Error>(()),
                Some(k) => self.api.deletion(token, servers@[k].identifier@, outcome),
            },
        }
    }

    /// Deletes the first server named `name`, resolving its identifier
    /// first; a name with no live server is already gone, which is success.
    pub fn destroy_host_by_name(&self, credential: &String, name: &String) -> (outcome: Result<(), Error>)
        ensures
            exists|answer: Result<Token, Error>|
                #[trigger] self.credentials.token_answer(credential@, answer) && match answer {
                    Err(error) => outcome == Err::<(), Error>(error),
                    Ok(token) => exists|listing: Result<Vec<ApiServer>, Error>|
                        #[trigger] self.api.listing(token, listing) && self.named_destruction(
                            token,
                            listing,
                            name@,
                            outcome,
                        ),
                },
    {
        let looked_up = self.credentials.token(credential);
        let ghost token_answer = looked_up;
        assert(self.credentials.token_answer(credential@, token_answer));
        let token = match looked_up {
            Ok(token) => token,
            Err(error) => {
                return Err(error);
            },
        };
        let listing = self.api.list_servers(&token);
        let ghost listed = listing;
        assert(self.api.listing(token, listed));
        self.destroy_named_in(&token, listing, name)
    }

    /// Deletes the first server named `name` from a listing of the
    /// account's servers: a failed listing is answered with its own error, a
    /// name that no server carries is already gone, which is success with
    /// nothing deleted, and otherwise the first such server is deleted by its
    /// identifier.
    pub fn destroy_named_in(&self, token: &Token, listing: Result<Vec<ApiServer>, Error>, name: &String) -> (outcome:
        Result<(), Error>)
        ensures
            listing matches Err(error) ==> outcome == Err::<(), Error>(error),
            listing matches Ok(servers) && (forall|k: int|
                0 <= k < servers.len() ==> (#[trigger] servers@[k]).name@ != name@) ==> outcome == Ok::<(), Error>(()),
            self.named_destruction(*token, listing, name@, outcome),
    {
        let ghost given = listing;
        let servers = match listing {
            Ok(servers) => servers,
            Err(error) => {
                return Err(error);
            },
        };
        match server_id_named(&servers, name) {
            Some(identifier) => {
                let outcome = self.api.delete_server(token, &identifier);
                assert(self.api.deletion(*token, identifier@, outcome));
                outcome
            },
            None => Ok(()),
        }
    }
}

/// The position of the first server at or after `start` named `name`.
pub open spec fn first_named_from(servers: Seq<ApiServer>, name: Seq<char>, start: int) -> Option<int>
    decreases servers.len() - start,
{
    if start < 0 || start >= servers.len() {
        None
    } else if servers[start].name@ == name {
        Some(start)
    } else {
        first_named_from(servers, name, start + 1)
    }
}

/// The identifier of the first server named `name`, if any: what a
/// destroy-by-name deletes.
pub fn server_id_named(servers: &Vec<ApiServer>, name: &String) -> (identifier: Option<String>)
    ensures
        match identifier {
            Some(found) => exists|k: int|
                0 <= k < servers.len() && (#[trigger] servers@[k]).name@ == name@ && servers@[k].identifier@ == found@
                    && forall|j: int| 0 <= j < k ==> servers@[j].name@ != name@,
            None => forall|k: int| 0 <= k < servers.len() ==> (#[trigger] servers@[k]).name@ != name@,
        },
        match first_named_from(servers@, name@, 0) {
            Some(k) => identifier matches Some(found) && found@ == servers@[k].identifier@,
            None => identifier is None,
        },
{
    let mut index: usize = 0;
    while index < servers.len()
        invariant
            index <= servers.len(),
            forall|j: int| 0 <= j < index ==> (#[trigger] servers@[j]).name@ != name@,
            first_named_from(servers@, name@, 0) == first_named_from(servers@, name@, index as int),
        decreases servers.len() - index,
    {
        if servers[index].name == *name {
            return Some(servers[index].identifier.clone());
        }
        index = index + 1;
    }
    None
}

/// The hosts of `account` for the listed servers: one per server, in
/// listing order.
pub fn hosts_for_servers(account: &String, servers: Vec<ApiServer>) -> (hosts: Vec<CloudHost>)
    ensures
        hosts.len() == servers.len(),
        forall|i: int| 0 <= i < hosts.len() ==> (#[trigger] hosts@[i])@ == hetzner_host(account@, servers@[i]),
{
    let ghost source = servers@;
    let mut hosts: Vec<CloudHost> = Vec::new();
    let mut remaining = servers;
    let ghost mut taken: int = 0;
    while remaining.len() > 0
        invariant
            0 <= taken <= source.len(),
            taken + remaining.len() == source.len(),
            hosts.len() == taken,
            forall|i: int| 0 <= i < remaining.len() ==> #[trigger] remaining@[i] == source[taken + i],
            forall|i: int| 0 <= i < hosts.len() ==> (#[trigger] hosts@[i])@ == hetzner_host(account@, source[i]),
        decreases remaining.len(),
    {
        let server = remaining.remove(0);
        proof {
            assert(server == source[taken]);
        }
        hosts.push(HostMapping::new(account.clone(), server).into_cloud_host());
        proof {
            taken = taken + 1;
        }
    }
    hosts
}

// --------------------------------------------------------------- HTTP API

/// The Hetzner Cloud API root the daemon speaks to unless told otherwise.
pub open spec fn default_api_root() -> Seq<char> {
    "https://api.hetzner.cloud"@
}

/// Where the Hetzner Cloud HTTP API lives, and the paths of its resources.
#[derive(Debug, PartialEq, Eq)]
pub struct HttpApi {
    base_url: String,
}

impl Default for HttpApi {
    fn default() -> (api: Self)
        ensures
            api.base() == default_api_root(),
    {
        HttpApi::new()
    }
}

impl HttpApi {
    pub closed spec fn base(&self) -> Seq<char> {
        self.base_url@
    }

    pub fn new() -> (api: Self)
        ensures
            api.base() == default_api_root(),
    {
        HttpApi { base_url: owned("https://api.hetzner.cloud") }
    }

    pub fn with_base_url(base_url: String) -> (api: Self)
        ensures
            api.base() == base_url@,
    {
        HttpApi { base_url }
    }

    /// The URL of a path under the API root.
    pub fn url(&self, path: &str) -> (url: String)
        ensures
            url@ == self.base() + path@,
    {
        join_url(&self.base_url, path)
    }

    /// The path of the server collection.
    pub fn servers_path() -> (path: &'static str)
        ensures
            path@ == "/v1/servers"@,
    {
        "/v1/servers"
    }

    /// The path of one server.
    pub fn server_path(identifier: &String) -> (path: String)
        ensures
            path@ == "/v1/servers/"@ + identifier@,
    {
        let mut path = owned("/v1/servers/");
        path.append(identifier.as_str());
        path
    }

    /// The path of the SSH key collection.
    pub fn ssh_keys_path() -> (path: &'static str)
        ensures
            path@ == "/v1/ssh_keys"@,
    {
        "/v1/ssh_keys"
    }

    /// The path of one SSH key.
    pub fn ssh_key_path(key: &String) -> (path: String)
        ensures
            path@ == "/v1/ssh_keys/"@ + key@,
    {
        let mut path = owned("/v1/ssh_keys/");
        path.append(key.as_str());
        path
    }
}

/// The error a failed request is reported as: an answer of 404 means the
/// resource is not there, any other answer is a rejection, and no answer at
/// all is a failed request.
pub open spec fn transport_error(failure: TransportFailure) -> Error {
    match failure.status {
        Some(status) => if status == 404 {
            Error::HostNotFound(failure.message)
        } else {
            Error::RequestRejected(failure.message)
        },
        None => Error::RequestFailed(failure.message),
    }
}

pub fn error_from_transport(failure: TransportFailure) -> (error: Error)
    ensures
        error == transport_error(failure),
{
    match failure.status {
        Some(status) => if status == 404 {
            Error::HostNotFound(failure.message)
        } else {
            Error::RequestRejected(failure.message)
        },
        None => Error::RequestFailed(failure.message),
    }
}

} // verus!
