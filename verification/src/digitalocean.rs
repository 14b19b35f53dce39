//! The DigitalOcean compute client: create, observe and destroy droplets
//! through an [`Api`] mechanism, mapping droplets onto provider-neutral hosts.
use vstd::prelude::*;

use crate::http::{join_url, TransportFailure};
use crate::text::{owned, text_equals};
use crate::vocabulary::{CloudHost, CloudHostView, HostStatus, Provider};

verus! {

/// Why a DigitalOcean call failed.
#[derive(Debug, PartialEq, Eq)]
pub enum Error {
    CredentialUnavailable(String),
    RequestFailed(String),
    RequestRejected(String),
    HostNotFound(String),
}

/// The DigitalOcean API token. It never leaves the provider edge.
#[derive(Debug, PartialEq, Eq)]
pub struct Token(pub String);

impl Token {
    pub fn new(value: String) -> (token: Self)
        ensures
            token.0@ == value@,
    {
        Token(value)
    }

    pub fn as_str(&self) -> (text: &str)
        ensures
            text@ == self.0@,
    {
        self.0.as_str()
    }
}

/// Resolves a credential handle to a token.
pub trait CredentialSource {
    /// Names what this source answered when a lookup of `handle` gave
    /// `answer`; it promises nothing of the answer, and by default holds of
    /// every answer.
    closed spec fn token_answer(&self, handle: Seq<char>, answer: Result<Token, Error>) -> bool {
        true
    }

    fn token(&self, handle: &String) -> (answer: Result<Token, Error>)
        ensures
            self.token_answer(handle@, answer),
    ;
}

/// The shape of a droplet before it exists.
#[derive(Debug, PartialEq, Eq)]
pub struct ServerSpec {
    pub name: String,
    pub server_type: String,
    pub image: String,
    /// Names of SSH keys registered in the account; creation resolves them
    /// to fingerprints.
    pub ssh_keys: Vec<String>,
    pub location: Option<String>,
}

/// A droplet as DigitalOcean reports it.
#[derive(Debug, PartialEq, Eq)]
pub struct ApiServer {
    pub identifier: String,
    pub name: String,
    pub server_type: String,
    pub image: String,
    pub ipv4: String,
    pub status: HostStatus,
}

/// A mechanism that reaches the DigitalOcean API.
pub trait Api {
    fn ensure_ssh_key(&self, token: &Token, name: &String, public_key: &String) -> Result<String, Error>;

    fn delete_ssh_key(&self, token: &Token, fingerprint: &String) -> Result<(), Error>;

    /// Names the answer of a creation of `spec`; it promises nothing of it,
    /// and by default holds of every answer.
    closed spec fn creation(&self, token: Token, spec: ServerSpec, answer: Result<ApiServer, Error>) -> bool {
        true
    }

    /// Names the answer of a listing of the servers; it promises nothing of
    /// it, and by default holds of every answer.
    closed spec fn listing(&self, token: Token, answer: Result<Vec<ApiServer>, Error>) -> bool {
        true
    }

    /// Names the answer of a deletion of `identifier`; it promises nothing of
    /// it, and by default holds of every answer.
    closed spec fn deletion(&self, token: Token, identifier: Seq<char>, answer: Result<(), Error>) -> bool {
        true
    }

    fn create_server(&self, token: &Token, spec: &ServerSpec) -> (answer: Result<ApiServer, Error>)
        ensures
            self.creation(*token, *spec, answer),
    ;

    fn get_server(&self, token: &Token, identifier: &String) -> Result<ApiServer, Error>;

    fn list_servers(&self, token: &Token) -> (answer: Result<Vec<ApiServer>, Error>)
        ensures
            self.listing(*token, answer),
    ;

    fn delete_server(&self, token: &Token, identifier: &String) -> (answer: Result<(), Error>)
        ensures
            self.deletion(*token, identifier@, answer),
    ;
}

/// The host status a DigitalOcean droplet status string denotes.
pub open spec fn droplet_host_status(status: Seq<char>) -> HostStatus {
    if status == "new"@ {
        HostStatus::Initializing
    } else if status == "active"@ {
        HostStatus::Running
    } else if status == "off"@ || status == "archive"@ {
        HostStatus::Stopped
    } else {
        HostStatus::Unknown
    }
}

/// A droplet status string maps by its name: `new` to Initializing, only
/// `active` to Running, `off` and `archive` to Stopped.
pub proof fn droplet_status_names(status: Seq<char>)
    ensures
        (droplet_host_status(status) == HostStatus::Initializing) == (status == "new"@),
        (droplet_host_status(status) == HostStatus::Running) == (status == "active"@),
        (droplet_host_status(status) == HostStatus::Stopped) == (status == "off"@ || status == "archive"@),
{
    reveal_strlit("new");
    assert("new"@.len() == 3 && "new"@[0] == 'n' && "new"@[1] == 'e' && "new"@[2] == 'w');
    reveal_strlit("active");
    assert("active"@.len() == 6 && "active"@[0] == 'a' && "active"@[1] == 'c' && "active"@[2] == 't');
    reveal_strlit("off");
    assert("off"@.len() == 3 && "off"@[0] == 'o' && "off"@[1] == 'f' && "off"@[2] == 'f');
    reveal_strlit("archive");
    assert("archive"@.len() == 7 && "archive"@[0] == 'a' && "archive"@[1] == 'r' && "archive"@[2] == 'c');
}

/// A DigitalOcean droplet status string.
pub struct DigitalOceanStatus {
    pub status: String,
}

impl DigitalOceanStatus {
    pub fn new(status: String) -> (mapped: Self)
        ensures
            mapped.status@ == status@,
    {
        DigitalOceanStatus { status }
    }

    pub fn into_host_status(self) -> (status: HostStatus)
        ensures
            status == droplet_host_status(self.status@),
            (status == HostStatus::Initializing) == (self.status@ == "new"@),
            (status == HostStatus::Running) == (self.status@ == "active"@),
            (status == HostStatus::Stopped) == (self.status@ == "off"@ || self.status@ == "archive"@),
    {
        proof {
            droplet_status_names(self.status@);
        }
        let text = self.status.as_str();
        if text_equals(text, "new") {
            HostStatus::Initializing
        } else if text_equals(text, "active") {
            HostStatus::Running
        } else if text_equals(text, "off") || text_equals(text, "archive") {
            HostStatus::Stopped
        } else {
            HostStatus::Unknown
        }
    }
}

/// The cheapest usable droplet size.
pub open spec fn default_size() -> Seq<char> {
    "s-1vcpu-512mb-10gb"@
}

pub fn default_size_slug() -> (slug: &'static str)
    ensures
        slug@ == default_size(),
{
    "s-1vcpu-512mb-10gb"
}

/// The region used when a spec names none.
pub open spec fn default_region() -> Seq<char> {
    "nyc1"@
}

pub fn default_region_slug() -> (slug: &'static str)
    ensures
        slug@ == default_region(),
{
    "nyc1"
}

/// The image used when a spec names none.
pub open spec fn default_image() -> Seq<char> {
    "ubuntu-24-04-x64"@
}

pub fn default_image_slug() -> (slug: &'static str)
    ensures
        slug@ == default_image(),
{
    "ubuntu-24-04-x64"
}

/// The create request DigitalOcean receives for a spec, with the SSH keys
/// already resolved to fingerprints.
#[derive(Debug, PartialEq, Eq)]
pub struct DropletPayload {
    pub name: String,
    pub size: String,
    pub image: String,
    pub ssh_keys: Vec<String>,
    pub region: Option<String>,
    pub ipv6: bool,
    pub monitoring: bool,
}

impl DropletPayload {
    /// The spec as a droplet create request: the server type is the size,
    /// the location the region; IPv6 and the monitoring agent stay off, since
    /// DigitalOcean refuses both for custom images.
    pub fn from_spec(spec: &ServerSpec, ssh_keys: Vec<String>) -> (payload: Self)
        ensures
            payload.name@ == spec.name@,
            payload.size@ == spec.server_type@,
            payload.image@ == spec.image@,
            payload.ssh_keys == ssh_keys,
            payload.region.deep_view() == spec.location.deep_view(),
            !payload.ipv6,
            !payload.monitoring,
    {
        DropletPayload {
            name: spec.name.clone(),
            size: spec.server_type.clone(),
            image: spec.image.clone(),
            ssh_keys,
            region: match &spec.location {
                Some(location) => Some(location.clone()),
                None => None,
            },
            ipv6: false,
            monitoring: false,
        }
    }
}

/// One IPv4 network of a droplet.
#[derive(Debug, PartialEq, Eq)]
pub struct NetworkV4 {
    pub ip_address: String,
    pub kind: String,
}

/// A droplet's image: its slug, when it has one, and its name.
#[derive(Debug, PartialEq, Eq)]
pub struct DropletImage {
    pub slug: Option<String>,
    pub name: String,
}

/// A droplet row of DigitalOcean's droplet listing, with its numeric
/// identifier in decimal.
#[derive(Debug, PartialEq, Eq)]
pub struct DropletRecord {
    pub identifier: String,
    pub name: String,
    pub status: String,
    pub size_slug: String,
    pub networks: Vec<NetworkV4>,
    pub image: Option<DropletImage>,
}

/// The address of the first public IPv4 network, if any.
pub open spec fn public_ipv4(networks: Seq<NetworkV4>) -> Seq<char>
    decreases networks.len(),
{
    if networks.len() == 0 {
        Seq::empty()
    } else if networks[0].kind@ == "public"@ {
        networks[0].ip_address@
    } else {
        public_ipv4(networks.drop_first())
    }
}

/// The image label: the slug when present, else the image name; empty when
/// the droplet reports no image.
pub open spec fn image_label(image: Option<DropletImage>) -> Seq<char> {
    match image {
        Some(image) => match image.slug {
            Some(slug) => slug@,
            None => image.name@,
        },
        None => Seq::empty(),
    }
}

impl DropletRecord {
    pub fn into_api_server(self) -> (server: ApiServer)
        ensures
            server.identifier@ == self.identifier@,
            server.name@ == self.name@,
            server.server_type@ == self.size_slug@,
            server.image@ == image_label(self.image),
            server.ipv4@ == public_ipv4(self.networks@),
            server.status == droplet_host_status(self.status@),
    {
        let ghost image = self.image;
        let ipv4 = first_public_address(self.networks);
        let image = match self.image {
            Some(image) => match image.slug {
                Some(slug) => slug,
                None => image.name,
            },
            None => String::new(),
        };
        ApiServer {
            identifier: self.identifier,
            name: self.name,
            server_type: self.size_slug,
            image,
            ipv4,
            status: DigitalOceanStatus::new(self.status).into_host_status(),
        }
    }
}

/// The address of the first public network, or empty.
pub fn first_public_address(networks: Vec<NetworkV4>) -> (address: String)
    ensures
        address@ == public_ipv4(networks@),
{
    let ghost source = networks@;
    let mut remaining = networks;
    let ghost mut skipped: int = 0;
    while remaining.len() > 0
        invariant
            source == networks@,
            0 <= skipped <= source.len(),
            remaining@ == source.skip(skipped),
            public_ipv4(source) == public_ipv4(source.skip(skipped)),
        decreases remaining.len(),
    {
        let ghost before = remaining@;
        let network = remaining.remove(0);
        proof {
            assert(network == before[0]);
            assert(before[0] == source.skip(skipped)[0]);
            assert(source.skip(skipped).drop_first() =~= source.skip(skipped + 1));
        }
        if text_equals(network.kind.as_str(), "public") {
            proof {
                let rest = source.skip(skipped);
                assert(rest.len() > 0);
                assert(rest[0].kind@ == "public"@);
                assert(public_ipv4(rest) == rest[0].ip_address@);
            }
            return network.ip_address;
        }
        proof {
            skipped = skipped + 1;
        }
        assert(remaining@ =~= source.skip(skipped));
    }
    String::new()
}

/// An SSH key row of DigitalOcean's account key listing.
#[derive(Debug, PartialEq, Eq)]
pub struct SshKeyRecord {
    pub name: String,
    pub fingerprint: String,
    pub public_key: String,
}

/// A listed key matches when it has the name, or the same non-empty public
/// key.
pub open spec fn key_matches(key: SshKeyRecord, name: Seq<char>, public_key: Seq<char>) -> bool {
    key.name@ == name || (public_key.len() > 0 && key.public_key@ == public_key)
}

/// The fingerprint of the first listed key that matches by name or by public
/// key.
pub fn find_ssh_key(keys: &Vec<SshKeyRecord>, name: &String, public_key: &String) -> (found: Option<String>)
    ensures
        match found {
            Some(fingerprint) => exists|i: int|
                0 <= i < keys.len() && key_matches(#[trigger] keys@[i], name@, public_key@)
                    && keys@[i].fingerprint@ == fingerprint@ && forall|j: int|
                    0 <= j < i ==> !key_matches(keys@[j], name@, public_key@),
            None => forall|i: int| 0 <= i < keys.len() ==> !key_matches(#[trigger] keys@[i], name@, public_key@),
        },
{
    let mut index: usize = 0;
    let check_public_key = public_key.as_str().unicode_len() > 0;
    while index < keys.len()
        invariant
            index <= keys.len(),
            check_public_key == (public_key@.len() > 0),
            forall|i: int| 0 <= i < index ==> !key_matches(#[trigger] keys@[i], name@, public_key@),
        decreases keys.len() - index,
    {
        if keys[index].name == *name || (check_public_key && keys[index].public_key == *public_key) {
            assert(key_matches(keys@[index as int], name@, public_key@));
            return Some(keys[index].fingerprint.clone());
        }
        index = index + 1;
    }
    None
}

/// The fingerprints of the keys named, in the order of the names; a name
/// with no listed key is dropped.
pub open spec fn fingerprints_for(keys: Seq<SshKeyRecord>, names: Seq<Seq<char>>) -> Seq<Seq<char>>
    decreases names.len(),
{
    if names.len() == 0 {
        Seq::empty()
    } else {
        let earlier = fingerprints_for(keys, names.drop_last());
        if exists|i: int| 0 <= i < keys.len() && (#[trigger] keys[i]).name@ == names.last() {
            let i = choose|i: int|
                0 <= i < keys.len() && (#[trigger] keys[i]).name@ == names.last() && forall|j: int|
                    0 <= j < i ==> keys[j].name@ != names.last();
            earlier.push(keys[i].fingerprint@)
        } else {
            earlier
        }
    }
}

/// The index of the first listed key with the given name.
pub fn find_key_named(keys: &Vec<SshKeyRecord>, name: &String) -> (found: Option<usize>)
    ensures
        match found {
            Some(position) => position < keys.len() && keys@[position as int].name@ == name@ && forall|j: int|
                0 <= j < position ==> keys@[j].name@ != name@,
            None => forall|j: int| 0 <= j < keys.len() ==> (#[trigger] keys@[j]).name@ != name@,
        },
{
    let mut k: usize = 0;
    while k < keys.len()
        invariant
            k <= keys.len(),
            forall|j: int| 0 <= j < k ==> keys@[j].name@ != name@,
        decreases keys.len() - k,
    {
        if keys[k].name == *name {
            return Some(k);
        }
        k = k + 1;
    }
    None
}

/// Resolves SSH key names to fingerprints against the account's keys.
pub fn resolve_fingerprints(keys: &Vec<SshKeyRecord>, names: &Vec<String>) -> (fingerprints: Vec<String>)
    ensures
        fingerprints.deep_view() == fingerprints_for(keys@, names.deep_view()),
{
    let ghost name_view = names.deep_view();
    let mut fingerprints: Vec<String> = Vec::new();
    let mut index: usize = 0;
    while index < names.len()
        invariant
            name_view == names.deep_view(),
            index <= names.len(),
            fingerprints.deep_view() == fingerprints_for(keys@, name_view.take(index as int)),
        decreases names.len() - index,
    {
        let name = &names[index];
        let found = find_key_named(keys, name);
        proof {
            let next = name_view.take(index + 1);
            assert(next.drop_last() =~= name_view.take(index as int));
            assert(next.last() == name@);
        }
        match found {
            Some(position) => {
                proof {
                    assert(keys@[position as int].name@ == name@);
                    let i = choose|i: int|
                        0 <= i < keys@.len() && (#[trigger] keys@[i]).name@ == name@ && forall|j: int|
                            0 <= j < i ==> keys@[j].name@ != name@;
                    assert(i == position) by {
                        if i < position {
                        } else if i > position {
                            assert(keys@[position as int].name@ == name@);
                        }
                    }
                }
                fingerprints.push(keys[position].fingerprint.clone());
            },
            None => {},
        }
        proof {
            assert(fingerprints.deep_view() =~= fingerprints_for(keys@, name_view.take(index + 1)));
        }
        index = index + 1;
    }
    assert(name_view.take(names.len() as int) =~= name_view);
    fingerprints
}

/// The provider-neutral host for a droplet held by `account`.
pub open spec fn droplet_host(account: Seq<char>, server: ApiServer) -> CloudHostView {
    CloudHostView {
        provider: Provider::DigitalOcean,
        account,
        identifier: server.identifier@,
        name: server.name@,
        server_type: server.server_type@,
        image: server.image@,
        ipv4: server.ipv4@,
        status: server.status,
    }
}

/// A droplet together with the account that holds it.
pub struct HostMapping {
    pub account: String,
    pub server: ApiServer,
}

impl HostMapping {
    pub fn new(account: String, server: ApiServer) -> (mapping: Self)
        ensures
            mapping.account == account,
            mapping.server == server,
    {
        HostMapping { account, server }
    }

    pub fn into_cloud_host(self) -> (host: CloudHost)
        ensures
            host@ == droplet_host(self.account@, self.server),
            host.provider == Provider::DigitalOcean,
            host.account@ == self.account@,
            host.identifier@ == self.server.identifier@,
            host.name@ == self.server.name@,
            host.server_type@ == self.server.server_type@,
            host.image@ == self.server.image@,
            host.ipv4@ == self.server.ipv4@,
            host.status == self.server.status,
    {
        CloudHost {
            provider: Provider::DigitalOcean,
            account: self.account,
            identifier: self.server.identifier,
            name: self.server.name,
            server_type: self.server.server_type,
            image: self.server.image,
            ipv4: self.server.ipv4,
            status: self.server.status,
        }
    }
}

/// The daemon-owned DigitalOcean client: an API mechanism plus a credential
/// source.
pub struct ProviderClient<A: Api, S: CredentialSource> {
    pub api: A,
    pub credentials: S,
}

impl<A: Api, S: CredentialSource> ProviderClient<A, S> {
    pub fn new(api: A, credentials: S) -> (client: Self)
        ensures
            client.api == api,
            client.credentials == credentials,
    {
        ProviderClient { api, credentials }
    }

    /// Succeeds when the credential handle resolves to a token, and
    /// otherwise answers with the source's error.
    pub fn verify_credential(&self, credential: &String) -> (outcome: Result<(), Error>)
        ensures
            exists|answer: Result<Token, Error>|
                #[trigger] self.credentials.token_answer(credential@, answer) && match answer {
                    Ok(_) => outcome == Ok::<(), Error>(()),
                    Err(error) => outcome == Err::<(), Error>(error),
                },
    {
        match self.credentials.token(credential) {
            Ok(_) => Ok(()),
            Err(error) => Err(error),
        }
    }

    /// What creating a droplet answers once the handle lookup answered
    /// `token`: the lookup's error, or the creation's error, or the created
    /// droplet as a host of `account`.
    pub open spec fn host_creation(
        &self,
        token: Result<Token, Error>,
        account: Seq<char>,
        spec: ServerSpec,
        host: Result<CloudHost, Error>,
    ) -> bool {
        match token {
            Err(error) => host == Err::<CloudHost, Error>(error),
            Ok(token) => exists|answer: Result<ApiServer, Error>|
                #[trigger] self.api.creation(token, spec, answer) && match answer {
                    Ok(server) => host matches Ok(created) && created@ == droplet_host(account, server),
                    Err(error) => host == Err::<CloudHost, Error>(error),
                },
        }
    }

    /// Creates a droplet and reports it as a host of `account`.
    pub fn create_host(&self, credential: &String, account: &String, spec: &ServerSpec) -> (host: Result<CloudHost, Error>)
        ensures
            host matches Ok(created) ==> created.provider == Provider::DigitalOcean && created.account@ == account@,
            exists|answer: Result<Token, Error>|
                #[trigger] self.credentials.token_answer(credential@, answer) && self.host_creation(
                    answer,
                    account@,
                    *spec,
                    host,
                ),
    {
        let answer = self.credentials.token(credential);
        let ghost looked_up = answer;
        let host = self.create_host_with_token(answer, account, spec);
        assert(self.credentials.token_answer(credential@, looked_up));
        host
    }

    /// Creates a droplet once the credential handle has been looked up: a
    /// handle that did not resolve is answered with its own error, before
    /// DigitalOcean is asked for anything.
    pub fn create_host_with_token(&self, token: Result<Token, Error>, account: &String, spec: &ServerSpec) -> (host:
        Result<CloudHost, Error>)
        ensures
            token matches Err(error) ==> host == Err::<CloudHost, Error>(error),
            host matches Ok(created) ==> created.provider == Provider::DigitalOcean && created.account@ == account@,
            self.host_creation(token, account@, *spec, host),
    {
        let token = match token {
            Ok(token) => token,
            Err(error) => {
                return Err(error);
            },
        };
        let answer = self.api.create_server(&token, spec);
        assert(self.api.creation(token, *spec, answer));
        match answer {
            Ok(server) => Ok(HostMapping::new(account.clone(), server).into_cloud_host()),
            Err(error) => Err(error),
        }
    }

    /// What observing the hosts answers once the handle lookup answered
    /// `token`: the first error met, or one host of `account` per listed
    /// droplet, in listing order.
    pub open spec fn host_observation(
        &self,
        token: Result<Token, Error>,
        account: Seq<char>,
        hosts: Result<Vec<CloudHost>, Error>,
    ) -> bool {
        match token {
            Err(error) => hosts == Err::<Vec<CloudHost>, Error>(error),
            Ok(token) => exists|answer: Result<Vec<ApiServer>, Error>|
                #[trigger] self.api.listing(token, answer) && match answer {
                    Ok(servers) => hosts matches Ok(listed) && listed.len() == servers.len() && forall|i: int|
                        0 <= i < listed.len() ==> (#[trigger] listed@[i])@ == droplet_host(account, servers@[i]),
                    Err(error) => hosts == Err::<Vec<CloudHost>, Error>(error),
                },
        }
    }

    /// Every droplet of the account, as hosts of `account`, in listing order.
    pub fn observe_hosts(&self, credential: &String, account: &String) -> (hosts: Result<Vec<CloudHost>, Error>)
        ensures
            hosts matches Ok(listed) ==> forall|i: int|
                0 <= i < listed.len() ==> (#[trigger] listed@[i]).provider == Provider::DigitalOcean
                    && listed@[i].account@ == account@,
            hosts matches Ok(listed) ==> exists|servers: Seq<ApiServer>|
                servers.len() == listed.len() && forall|i: int|
                    0 <= i < listed.len() ==> (#[trigger] listed@[i])@ == droplet_host(account@, servers[i]),
            exists|answer: Result<Token, Error>|
                #[trigger] self.credentials.token_answer(credential@, answer) && self.host_observation(
                    answer,
                    account@,
                    hosts,
                ),
    {
        let looked_up = self.credentials.token(credential);
        let ghost token_answer = looked_up;
        assert(self.credentials.token_answer(credential@, token_answer));
        let token = match looked_up {
            Ok(token) => token,
            Err(error) => {
                return Err(error);
            },
        };
        let answer = self.api.list_servers(&token);
        assert(self.api.listing(token, answer));
        let servers = match answer {
            Ok(servers) => servers,
            Err(error) => {
                return Err(error);
            },
        };
        let ghost listed_servers = servers@;
        let hosts = hosts_for_servers(account, servers);
        proof {
            assert forall|i: int| 0 <= i < hosts.len() implies (#[trigger] hosts@[i]).provider == Provider::DigitalOcean
                && hosts@[i].account@ == account@ by {
                assert(hosts@[i]@ == droplet_host(account@, listed_servers[i]));
            }
        }
        Ok(hosts)
    }

    /// Deletes the droplet with the given identifier: the lookup's error, or
    /// what the deletion of that identifier answered.
    pub fn destroy_host(&self, credential: &String, identifier: &String) -> (outcome: Result<(), Error>)
        ensures
            exists|answer: Result<Token, Error>|
                #[trigger] self.credentials.token_answer(credential@, answer) && match answer {
                    Err(error) => outcome == Err::<(), Error>(error),
                    Ok(token) => self.api.deletion(token, identifier@, outcome),
                },
    {
        let looked_up = self.credentials.token(credential);
        let ghost token_answer = looked_up;
        assert(self.credentials.token_answer(credential@, token_answer));
        let token = match looked_up {
            Ok(token) => token,
            Err(error) => {
                return Err(error);
            },
        };
        self.api.delete_server(&token, identifier)
    }

    /// What deleting the first droplet named `name` answers, given the
    /// account's listing: the listing's error; success with nothing deleted
    /// when no droplet carries the name; otherwise what the deletion of the
    /// first such droplet's identifier answered.
    pub open spec fn named_destruction(
        &self,
        token: Token,
        listing: Result<Vec<ApiServer>, Error>,
        name: Seq<char>,
        outcome: Result<(), Error>,
    ) -> bool {
        match listing {
            Err(error) => outcome == Err::<(), Error>(error),
            Ok(servers) => match first_named_from(servers@, name, 0) {
                None => outcome == Ok::<(), Error>(()),
                Some(k) => self.api.deletion(token, servers@[k].identifier@, outcome),
            },
        }
    }

    /// Deletes the first droplet named `name`, resolving its identifier
    /// first; a name with no live droplet is already gone, which is success.
    pub fn destroy_host_by_name(&self, credential: &String, name: &String) -> (outcome: Result<(), Error>)
        ensures
            exists|answer: Result<Token, Error>|
                #[trigger] self.credentials.token_answer(credential@, answer) && match answer {
                    Err(error) => outcome == Err::<(), Error>(error),
                    Ok(token) => exists|listing: Result<Vec<ApiServer>, Error>|
                        #[trigger] self.api.listing(token, listing) && self.named_destruction(
                            token,
                            listing,
                            name@,
                            outcome,
                        ),
                },
    {
        let looked_up = self.credentials.token(credential);
        let ghost token_answer = looked_up;
        assert(self.credentials.token_answer(credential@, token_answer));
        let token = match looked_up {
            Ok(token) => token,
            Err(error) => {
                return Err(error);
            },
        };
        let listing = self.api.list_servers(&token);
        let ghost listed = listing;
        assert(self.api.listing(token, listed));
        self.destroy_named_in(&token, listing, name)
    }

    /// Deletes the first droplet named `name` from a listing of the
    /// account's droplets: a failed listing is answered with its own error, a
    /// name that no droplet carries is already gone, which is success with
    /// nothing deleted, and otherwise the first such droplet is deleted by its
    /// identifier.
    pub fn destroy_named_in(&self, token: &Token, listing: Result<Vec<ApiServer>, Error>, name: &String) -> (outcome:
        Result<(), Error>)
        ensures
            listing matches Err(error) ==> outcome == Err::<(), Error>(error),
            listing matches Ok(servers) && (forall|k: int|
                0 <= k < servers.len() ==> (#[trigger] servers@[k]).name@ != name@) ==> outcome == Ok::<(), Error>(()),
            self.named_destruction(*token, listing, name@, outcome),
    {
        let ghost given = listing;
        let servers = match listing {
            Ok(servers) => servers,
            Err(error) => {
                return Err(error);
            },
        };
        match server_id_named(&servers, name) {
            Some(identifier) => {
                let outcome = self.api.delete_server(token, &identifier);
                assert(self.api.deletion(*token, identifier@, outcome));
                outcome
            },
            None => Ok(()),
        }
    }
}

/// The position of the first droplet at or after `start` named `name`.
pub open spec fn first_named_from(servers: Seq<ApiServer>, name: Seq<char>, start: int) -> Option<int>
    decreases servers.len() - start,
{
    if start < 0 || start >= servers.len() {
        None
    } else if servers[start].name@ == name {
        Some(start)
    } else {
        first_named_from(servers, name, start + 1)
    }
}

/// The identifier of the first droplet named `name`, if any: what a
/// destroy-by-name deletes.
pub fn server_id_named(servers: &Vec<ApiServer>, name: &String) -> (identifier: Option<String>)
    ensures
        match identifier {
            Some(found) => exists|k: int|
                0 <= k < servers.len() && (#[trigger] servers@[k]).name@ == name@ && servers@[k].identifier@ == found@
                    && forall|j: int| 0 <= j < k ==> servers@[j].name@ != name@,
            None => forall|k: int| 0 <= k < servers.len() ==> (#[trigger] servers@[k]).name@ != name@,
        },
        match first_named_from(servers@, name@, 0) {
            Some(k) => identifier matches Some(found) && found@ == servers@[k].identifier@,
            None => identifier is None,
        },
{
    let mut index: usize = 0;
    while index < servers.len()
        invariant
            index <= servers.len(),
            forall|j: int| 0 <= j < index ==> (#[trigger] servers@[j]).name@ != name@,
            first_named_from(servers@, name@, 0) == first_named_from(servers@, name@, index as int),
        decreases servers.len() - index,
    {
        if servers[index].name == *name {
            return Some(servers[index].identifier.clone());
        }
        index = index + 1;
    }
    None
}

/// The hosts of `account` for the listed servers: one per server, in
/// listing order.
pub fn hosts_for_servers(account: &String, servers: Vec<ApiServer>) -> (hosts: Vec<CloudHost>)
    ensures
        hosts.len() == servers.len(),
        forall|i: int| 0 <= i < hosts.len() ==> (#[trigger] hosts@[i])@ == droplet_host(account@, servers@[i]),
{
    let ghost source = servers@;
    let mut hosts: Vec<CloudHost> = Vec::new();
    let mut remaining = servers;
    let ghost mut taken: int = 0;
    while remaining.len() > 0
        invariant
            0 <= taken <= source.len(),
            taken + remaining.len() == source.len(),
            hosts.len() == taken,
            forall|i: int| 0 <= i < remaining.len() ==> #[trigger] remaining@[i] == source[taken + i],
            forall|i: int| 0 <= i < hosts.len() ==> (#[trigger] hosts@[i])@ == droplet_host(account@, source[i]),
        decreases remaining.len(),
    {
        let server = remaining.remove(0);
        proof {
            assert(server == source[taken]);
        }
        hosts.push(HostMapping::new(account.clone(), server).into_cloud_host());
        proof {
            taken = taken + 1;
        }
    }
    hosts
}

// --------------------------------------------------------------- HTTP API

/// The DigitalOcean API root the daemon speaks to unless told otherwise.
pub open spec fn default_api_root() -> Seq<char> {
    "https://api.digitalocean.com"@
}

/// Where the DigitalOcean HTTP API lives, and the paths of its resources.
#[derive(Debug, PartialEq, Eq)]
pub struct HttpApi {
    base_url: String,
}

impl Default for HttpApi {
    fn default() -> (api: Self)
        ensures
            api.base() == default_api_root(),
    {
        HttpApi::new()
    }
}

impl HttpApi {
    pub closed spec fn base(&self) -> Seq<char> {
        self.base_url@
    }

    pub fn new() -> (api: Self)
        ensures
            api.base() == default_api_root(),
    {
        HttpApi { base_url: owned("https://api.digitalocean.com") }
    }

    pub fn with_base_url(base_url: String) -> (api: Self)
        ensures
            api.base() == base_url@,
    {
        HttpApi { base_url }
    }

    /// The URL of a path under the API root.
    pub fn url(&self, path: &str) -> (url: String)
        ensures
            url@ == self.base() + path@,
    {
        join_url(&self.base_url, path)
    }

    /// The path of the droplet collection.
    pub fn servers_path() -> (path: &'static str)
        ensures
            path@ == "/v2/droplets"@,
    {
        "/v2/droplets"
    }

    /// The path of one droplet.
    pub fn server_path(identifier: &String) -> (path: String)
        ensures
            path@ == "/v2/droplets/"@ + identifier@,
    {
        let mut path = owned("/v2/droplets/");
        path.append(identifier.as_str());
        path
    }

    /// The path of the SSH key collection.
    pub fn ssh_keys_path() -> (path: &'static str)
        ensures
            path@ == "/v2/account/keys"@,
    {
        "/v2/account/keys"
    }

    /// The path of one SSH key.
    pub fn ssh_key_path(key: &String) -> (path: String)
        ensures
            path@ == "/v2/account/keys/"@ + key@,
    {
        let mut path = owned("/v2/account/keys/");
        path.append(key.as_str());
        path
    }
}

/// The error a failed request is reported as: an answer of 404 means the
/// resource is not there, any other answer is a rejection, and no answer at
/// all is a failed request.
pub open spec fn transport_error(failure: TransportFailure) -> Error {
    match failure.status {
        Some(status) => if status == 404 {
            Error::HostNotFound(failure.message)
        } else {
            Error::RequestRejected(failure.message)
        },
        None => Error::RequestFailed(failure.message),
    }
}

pub fn error_from_transport(failure: TransportFailure) -> (error: Error)
    ensures
        error == transport_error(failure),
{
    match failure.status {
        Some(status) => if status == 404 {
            Error::HostNotFound(failure.message)
        } else {
            Error::RequestRejected(failure.message)
        },
        None => Error::RequestFailed(failure.message),
    }
}

/// What deleting a resource came to: success, or an answer of 404, which
/// means the resource is already gone; any other failure is reported.
pub fn deletion_result(failure: Option<TransportFailure>) -> (result: Result<(), Error>)
    ensures
        match failure {
            None => result is Ok,
            Some(failed) => if failed.status == Some(404u16) {
                result is Ok
            } else {
                result == Err::<(), Error>(transport_error(failed))
            },
        },
{
    match failure {
        None => Ok(()),
        Some(failed) => if failed.status == Some(404u16) {
            Ok(())
        } else {
            Err(error_from_transport(failed))
        },
    }
}

} // verus!
