//! The provider clients a store calls: one wiring per compute or DNS
//! provider, and the full set the daemon runs with.
use vstd::prelude::*;

use crate::cloudflare;
use crate::digitalocean;
use crate::hetzner;
use crate::store::{cloudflare_zones_of, hosts_of, plan_listing, HostError, ProviderEffects};
use crate::text::{owned, provider_label, provider_name};
use crate::vocabulary::{CloudHost, DomainNameSystemRecord, HostPlan, HostPlanView, Plan, Provider, Zone};

verus! {

/// The host error a Hetzner failure is reported as.
pub fn host_error_from_hetzner(error: hetzner::Error) -> (host_error: HostError)
    ensures
        host_error == match error {
            hetzner::Error::CredentialUnavailable(message) => HostError::CredentialUnavailable(message),
            hetzner::Error::RequestFailed(message) => HostError::RequestFailed(message),
            hetzner::Error::RequestRejected(message) => HostError::RequestRejected(message),
            hetzner::Error::HostNotFound(message) => HostError::HostNotFound(message),
        },
{
    match error {
        hetzner::Error::CredentialUnavailable(message) => HostError::CredentialUnavailable(message),
        hetzner::Error::RequestFailed(message) => HostError::RequestFailed(message),
        hetzner::Error::RequestRejected(message) => HostError::RequestRejected(message),
        hetzner::Error::HostNotFound(message) => HostError::HostNotFound(message),
    }
}

/// The host error a DigitalOcean failure is reported as.
pub fn host_error_from_digital_ocean(error: digitalocean::Error) -> (host_error: HostError)
    ensures
        host_error == match error {
            digitalocean::Error::CredentialUnavailable(message) => HostError::CredentialUnavailable(message),
            digitalocean::Error::RequestFailed(message) => HostError::RequestFailed(message),
            digitalocean::Error::RequestRejected(message) => HostError::RequestRejected(message),
            digitalocean::Error::HostNotFound(message) => HostError::HostNotFound(message),
        },
{
    match error {
        digitalocean::Error::CredentialUnavailable(message) => HostError::CredentialUnavailable(message),
        digitalocean::Error::RequestFailed(message) => HostError::RequestFailed(message),
        digitalocean::Error::RequestRejected(message) => HostError::RequestRejected(message),
        digitalocean::Error::HostNotFound(message) => HostError::HostNotFound(message),
    }
}

/// The SSH key names a host plan asks for: its one key name, if it has one.
pub open spec fn requested_keys(name: Seq<char>) -> Seq<Seq<char>> {
    if name.len() == 0 {
        Seq::empty()
    } else {
        seq![name]
    }
}

fn key_names(name: &String) -> (names: Vec<String>)
    ensures
        names.deep_view() == requested_keys(name@),
{
    let mut names: Vec<String> = Vec::new();
    if !name.as_str().is_empty() {
        names.push(name.clone());
        assert(names.deep_view() =~= seq![name@]);
    } else {
        assert(names.deep_view() =~= Seq::<Seq<char>>::empty());
    }
    names
}

/// The Hetzner server a host creation plan asks for.
pub fn hetzner_server_spec(plan: &HostPlan) -> (spec: hetzner::ServerSpec)
    ensures
        spec.name@ == plan.host_name@,
        spec.server_type@ == plan.server_type@,
        spec.image@ == plan.image_name@,
        spec.ssh_keys.deep_view() == requested_keys(plan.ssh_key_name@),
        spec.location is None,
{
    hetzner::ServerSpec {
        name: plan.host_name.clone(),
        server_type: plan.server_type.clone(),
        image: plan.image_name.clone(),
        ssh_keys: key_names(&plan.ssh_key_name),
        location: None,
    }
}

/// The DigitalOcean droplet a host creation plan asks for.
pub fn droplet_spec(plan: &HostPlan) -> (spec: digitalocean::ServerSpec)
    ensures
        spec.name@ == plan.host_name@,
        spec.server_type@ == plan.server_type@,
        spec.image@ == plan.image_name@,
        spec.ssh_keys.deep_view() == requested_keys(plan.ssh_key_name@),
        spec.location is None,
{
    digitalocean::ServerSpec {
        name: plan.host_name.clone(),
        server_type: plan.server_type.clone(),
        image: plan.image_name.clone(),
        ssh_keys: key_names(&plan.ssh_key_name),
        location: None,
    }
}

/// The failure reported for a host call to a provider with no client wired.
pub open spec fn is_unwired_host(error: HostError, provider: Provider) -> bool {
    error matches HostError::RequestFailed(message) && message@ == "no client is wired for "@ + provider_label(provider)
}

/// The failure reported for a Cloudflare call when no Cloudflare client is
/// wired.
pub open spec fn is_unwired_cloudflare(error: cloudflare::Error) -> bool {
    error matches cloudflare::Error::RequestFailed(message) && message@ == "no client is wired for Cloudflare"@
}

/// The failure of a call to a provider that has no client wired.
pub fn unwired_host(provider: Provider) -> (error: HostError)
    ensures
        is_unwired_host(error, provider),
{
    let mut message = owned("no client is wired for ");
    message.append(provider_name(provider));
    HostError::RequestFailed(message)
}

/// The failure of a Cloudflare call when no Cloudflare client is wired.
pub fn unwired_cloudflare() -> (error: cloudflare::Error)
    ensures
        is_unwired_cloudflare(error),
{
    cloudflare::Error::RequestFailed(owned("no client is wired for Cloudflare"))
}

/// A store wiring with only a Cloudflare client.
pub struct CloudflareEffects<A: cloudflare::Api, S: cloudflare::CredentialSource> {
    pub client: cloudflare::ProviderClient<A, S>,
}

impl<A: cloudflare::Api, S: cloudflare::CredentialSource> ProviderEffects for CloudflareEffects<A, S> {
    open spec fn host_created(
        &self,
        provider: Provider,
        credential: Seq<char>,
        account: Seq<char>,
        plan: HostPlanView,
        host: CloudHost,
    ) -> bool {
        false
    }

    open spec fn host_destroyed(&self, provider: Provider, credential: Seq<char>, name: Seq<char>) -> bool {
        false
    }

    fn cloudflare_verify_credential(&self, credential: &String) -> Result<(), cloudflare::Error> {
        self.client.verify_credential(credential)
    }

    fn cloudflare_zones(&self, account: &String, credential: &String, names: &Vec<String>) -> Result<
        Vec<Zone>,
        cloudflare::Error,
    > {
        self.client.zones(account, credential, names)
    }

    fn cloudflare_records(&self, credential: &String, zone_identifier: &String) -> Result<
        Vec<DomainNameSystemRecord>,
        cloudflare::Error,
    > {
        self.client.records(credential, zone_identifier)
    }

    fn cloudflare_apply_plan(&self, credential: &String, zone_identifier: &String, plan: &Plan) -> Result<
        Vec<DomainNameSystemRecord>,
        cloudflare::Error,
    > {
        let listing = self.client.apply_plan(credential, zone_identifier, plan);
        proof {
            assert(plan@.records_to_create.len() == plan.records_to_create.len());
            assert(plan@.records_to_update.len() == plan.records_to_update.len());
            if listing is Ok {
                let records = listing->Ok_0;
                let (initial, returned) = choose|initial: Seq<cloudflare::ApiRecordView>, returned: Seq<
                    cloudflare::ApiRecordView,
                >|
                    returned.len() == plan.records_to_create.len() + plan.records_to_update.len()
                        && records.deep_view() == #[trigger] cloudflare::applied_listing(
                        initial,
                        plan.record_names_to_delete.deep_view(),
                        returned,
                    );
                assert(returned.len() == plan@.records_to_create.len() + plan@.records_to_update.len());
                assert(records.deep_view() == cloudflare::applied_listing(
                    initial,
                    plan@.record_names_to_delete,
                    returned,
                ));
                assert(plan_listing(plan@, records.deep_view()));
            }
        }
        listing
    }

    fn observe_hosts(&self, provider: Provider, credential: &String, account: &String) -> (outcome: Result<
        Vec<CloudHost>,
        HostError,
    >)
        ensures
            outcome matches Err(error) && is_unwired_host(error, provider),
     {
        Err(unwired_host(provider))
    }

    fn create_host(&self, provider: Provider, credential: &String, account: &String, plan: &HostPlan) -> (outcome: Result<
        CloudHost,
        HostError,
    >)
        ensures
            outcome matches Err(error) && is_unwired_host(error, provider),
     {
        Err(unwired_host(provider))
    }

    fn destroy_host_by_name(&self, provider: Provider, credential: &String, name: &String) -> (outcome: Result<
        (),
        HostError,
    >)
        ensures
            outcome matches Err(error) && is_unwired_host(error, provider),
     {
        Err(unwired_host(provider))
    }
}

/// A store wiring with only a Hetzner client.
pub struct HetznerEffects<A: hetzner::Api, S: hetzner::CredentialSource> {
    pub client: hetzner::ProviderClient<A, S>,
}

impl<A: hetzner::Api, S: hetzner::CredentialSource> HetznerEffects<A, S> {
    fn observe(&self, credential: &String, account: &String) -> (hosts: Result<Vec<CloudHost>, HostError>)
        ensures
            hosts matches Ok(listed) ==> hosts_of(listed@, Provider::Hetzner, account@),
    {
        match self.client.observe_hosts(credential, account) {
            Ok(hosts) => Ok(hosts),
            Err(error) => Err(host_error_from_hetzner(error)),
        }
    }

    fn create(&self, credential: &String, account: &String, plan: &HostPlan) -> (host: Result<CloudHost, HostError>)
        ensures
            host matches Ok(created) ==> created.provider == Provider::Hetzner && created.account@ == account@,
    {
        match self.client.create_host(credential, account, &hetzner_server_spec(plan)) {
            Ok(host) => Ok(host),
            Err(error) => Err(host_error_from_hetzner(error)),
        }
    }

    fn destroy(&self, credential: &String, name: &String) -> Result<(), HostError> {
        match self.client.destroy_host_by_name(credential, name) {
            Ok(()) => Ok(()),
            Err(error) => Err(host_error_from_hetzner(error)),
        }
    }
}

impl<A: hetzner::Api, S: hetzner::CredentialSource> ProviderEffects for HetznerEffects<A, S> {
    open spec fn host_created(
        &self,
        provider: Provider,
        credential: Seq<char>,
        account: Seq<char>,
        plan: HostPlanView,
        host: CloudHost,
    ) -> bool {
        provider == Provider::Hetzner && host.provider == Provider::Hetzner && host.account@ == account
    }

    open spec fn host_destroyed(&self, provider: Provider, credential: Seq<char>, name: Seq<char>) -> bool {
        provider == Provider::Hetzner
    }

    fn cloudflare_verify_credential(&self, credential: &String) -> (outcome: Result<(), cloudflare::Error>)
        ensures
            outcome matches Err(error) && is_unwired_cloudflare(error),
     {
        Err(unwired_cloudflare())
    }

    fn cloudflare_zones(&self, account: &String, credential: &String, names: &Vec<String>) -> (outcome: Result<
        Vec<Zone>,
        cloudflare::Error,
    >)
        ensures
            outcome matches Err(error) && is_unwired_cloudflare(error),
     {
        Err(unwired_cloudflare())
    }

    fn cloudflare_records(&self, credential: &String, zone_identifier: &String) -> (outcome: Result<
        Vec<DomainNameSystemRecord>,
        cloudflare::Error,
    >)
        ensures
            outcome matches Err(error) && is_unwired_cloudflare(error),
     {
        Err(unwired_cloudflare())
    }

    fn cloudflare_apply_plan(&self, credential: &String, zone_identifier: &String, plan: &Plan) -> (outcome: Result<
        Vec<DomainNameSystemRecord>,
        cloudflare::Error,
    >)
        ensures
            outcome matches Err(error) && is_unwired_cloudflare(error),
     {
        Err(unwired_cloudflare())
    }

    fn observe_hosts(&self, provider: Provider, credential: &String, account: &String) -> (outcome: Result<
        Vec<CloudHost>,
        HostError,
    >)
        ensures
            provider != Provider::Hetzner ==> (outcome matches Err(error) && is_unwired_host(error, provider)),
     {
        if provider == Provider::Hetzner {
            self.observe(credential, account)
        } else {
            Err(unwired_host(provider))
        }
    }

    fn create_host(&self, provider: Provider, credential: &String, account: &String, plan: &HostPlan) -> (outcome: Result<
        CloudHost,
        HostError,
    >)
        ensures
            provider != Provider::Hetzner ==> (outcome matches Err(error) && is_unwired_host(error, provider)),
     {
        if provider == Provider::Hetzner {
            self.create(credential, account, plan)
        } else {
            Err(unwired_host(provider))
        }
    }

    fn destroy_host_by_name(&self, provider: Provider, credential: &String, name: &String) -> (outcome: Result<
        (),
        HostError,
    >)
        ensures
            provider != Provider::Hetzner ==> (outcome matches Err(error) && is_unwired_host(error, provider)),
     {
        if provider == Provider::Hetzner {
            self.destroy(credential, name)
        } else {
            Err(unwired_host(provider))
        }
    }
}

/// A store wiring with only a DigitalOcean client.
pub struct DigitalOceanEffects<A: digitalocean::Api, S: digitalocean::CredentialSource> {
    pub client: digitalocean::ProviderClient<A, S>,
}

impl<A: digitalocean::Api, S: digitalocean::CredentialSource> DigitalOceanEffects<A, S> {
    fn observe(&self, credential: &String, account: &String) -> (hosts: Result<Vec<CloudHost>, HostError>)
        ensures
            hosts matches Ok(listed) ==> hosts_of(listed@, Provider::DigitalOcean, account@),
    {
        match self.client.observe_hosts(credential, account) {
            Ok(hosts) => Ok(hosts),
            Err(error) => Err(host_error_from_digital_ocean(error)),
        }
    }

    fn create(&self, credential: &String, account: &String, plan: &HostPlan) -> (host: Result<CloudHost, HostError>)
        ensures
            host matches Ok(created) ==> created.provider == Provider::DigitalOcean && created.account@ == account@,
    {
        match self.client.create_host(credential, account, &droplet_spec(plan)) {
            Ok(host) => Ok(host),
            Err(error) => Err(host_error_from_digital_ocean(error)),
        }
    }

    fn destroy(&self, credential: &String, name: &String) -> Result<(), HostError> {
        match self.client.destroy_host_by_name(credential, name) {
            Ok(()) => Ok(()),
            Err(error) => Err(host_error_from_digital_ocean(error)),
        }
    }
}

impl<A: digitalocean::Api, S: digitalocean::CredentialSource> ProviderEffects for DigitalOceanEffects<A, S> {
    open spec fn host_created(
        &self,
        provider: Provider,
        credential: Seq<char>,
        account: Seq<char>,
        plan: HostPlanView,
        host: CloudHost,
    ) -> bool {
        provider == Provider::DigitalOcean && host.provider == Provider::DigitalOcean && host.account@ == account
    }

    open spec fn host_destroyed(&self, provider: Provider, credential: Seq<char>, name: Seq<char>) -> bool {
        provider == Provider::DigitalOcean
    }

    fn cloudflare_verify_credential(&self, credential: &String) -> (outcome: Result<(), cloudflare::Error>)
        ensures
            outcome matches Err(error) && is_unwired_cloudflare(error),
     {
        Err(unwired_cloudflare())
    }

    fn cloudflare_zones(&self, account: &String, credential: &String, names: &Vec<String>) -> (outcome: Result<
        Vec<Zone>,
        cloudflare::Error,
    >)
        ensures
            outcome matches Err(error) && is_unwired_cloudflare(error),
     {
        Err(unwired_cloudflare())
    }

    fn cloudflare_records(&self, credential: &String, zone_identifier: &String) -> (outcome: Result<
        Vec<DomainNameSystemRecord>,
        cloudflare::Error,
    >)
        ensures
            outcome matches Err(error) && is_unwired_cloudflare(error),
     {
        Err(unwired_cloudflare())
    }

    fn cloudflare_apply_plan(&self, credential: &String, zone_identifier: &String, plan: &Plan) -> (outcome: Result<
        Vec<DomainNameSystemRecord>,
        cloudflare::Error,
    >)
        ensures
            outcome matches Err(error) && is_unwired_cloudflare(error),
     {
        Err(unwired_cloudflare())
    }

    fn observe_hosts(&self, provider: Provider, credential: &String, account: &String) -> (outcome: Result<
        Vec<CloudHost>,
        HostError,
    >)
        ensures
            provider != Provider::DigitalOcean ==> (outcome matches Err(error) && is_unwired_host(error, provider)),
     {
        if provider == Provider::DigitalOcean {
            self.observe(credential, account)
        } else {
            Err(unwired_host(provider))
        }
    }

    fn create_host(&self, provider: Provider, credential: &String, account: &String, plan: &HostPlan) -> (outcome: Result<
        CloudHost,
        HostError,
    >)
        ensures
            provider != Provider::DigitalOcean ==> (outcome matches Err(error) && is_unwired_host(error, provider)),
     {
        if provider == Provider::DigitalOcean {
            self.create(credential, account, plan)
        } else {
            Err(unwired_host(provider))
        }
    }

    fn destroy_host_by_name(&self, provider: Provider, credential: &String, name: &String) -> (outcome: Result<
        (),
        HostError,
    >)
        ensures
            provider != Provider::DigitalOcean ==> (outcome matches Err(error) && is_unwired_host(error, provider)),
     {
        if provider == Provider::DigitalOcean {
            self.destroy(credential, name)
        } else {
            Err(unwired_host(provider))
        }
    }
}

/// The daemon's full wiring: Cloudflare for DNS, Hetzner and DigitalOcean
/// for hosts.
pub struct ProviderClients<
    CA: cloudflare::Api,
    CS: cloudflare::CredentialSource,
    HA: hetzner::Api,
    HS: hetzner::CredentialSource,
    DA: digitalocean::Api,
    DS: digitalocean::CredentialSource,
> {
    pub cloudflare: CloudflareEffects<CA, CS>,
    pub hetzner: HetznerEffects<HA, HS>,
    pub digital_ocean: DigitalOceanEffects<DA, DS>,
}

impl<
    CA: cloudflare::Api,
    CS: cloudflare::CredentialSource,
    HA: hetzner::Api,
    HS: hetzner::CredentialSource,
    DA: digitalocean::Api,
    DS: digitalocean::CredentialSource,
> ProviderEffects for ProviderClients<CA, CS, HA, HS, DA, DS> {
    open spec fn host_created(
        &self,
        provider: Provider,
        credential: Seq<char>,
        account: Seq<char>,
        plan: HostPlanView,
        host: CloudHost,
    ) -> bool {
        (provider == Provider::Hetzner && host.provider == Provider::Hetzner && host.account@ == account) || (provider == Provider::DigitalOcean && host.provider == Provider::DigitalOcean && host.account@ == account)
    }

    open spec fn host_destroyed(&self, provider: Provider, credential: Seq<char>, name: Seq<char>) -> bool {
        provider == Provider::Hetzner || provider == Provider::DigitalOcean
    }

    fn cloudflare_verify_credential(&self, credential: &String) -> Result<(), cloudflare::Error> {
        self.cloudflare.client.verify_credential(credential)
    }

    fn cloudflare_zones(&self, account: &String, credential: &String, names: &Vec<String>) -> Result<
        Vec<Zone>,
        cloudflare::Error,
    > {
        self.cloudflare.client.zones(account, credential, names)
    }

    fn cloudflare_records(&self, credential: &String, zone_identifier: &String) -> Result<
        Vec<DomainNameSystemRecord>,
        cloudflare::Error,
    > {
        self.cloudflare.client.records(credential, zone_identifier)
    }

    fn cloudflare_apply_plan(&self, credential: &String, zone_identifier: &String, plan: &Plan) -> Result<
        Vec<DomainNameSystemRecord>,
        cloudflare::Error,
    > {
        let listing = self.cloudflare.client.apply_plan(credential, zone_identifier, plan);
        proof {
            assert(plan@.records_to_create.len() == plan.records_to_create.len());
            assert(plan@.records_to_update.len() == plan.records_to_update.len());
            if listing is Ok {
                let records = listing->Ok_0;
                let (initial, returned) = choose|initial: Seq<cloudflare::ApiRecordView>, returned: Seq<
                    cloudflare::ApiRecordView,
                >|
                    returned.len() == plan.records_to_create.len() + plan.records_to_update.len()
                        && records.deep_view() == #[trigger] cloudflare::applied_listing(
                        initial,
                        plan.record_names_to_delete.deep_view(),
                        returned,
                    );
                assert(returned.len() == plan@.records_to_create.len() + plan@.records_to_update.len());
                assert(records.deep_view() == cloudflare::applied_listing(
                    initial,
                    plan@.record_names_to_delete,
                    returned,
                ));
                assert(plan_listing(plan@, records.deep_view()));
            }
        }
        listing
    }

    fn observe_hosts(&self, provider: Provider, credential: &String, account: &String) -> (outcome: Result<
        Vec<CloudHost>,
        HostError,
    >)
        ensures
            provider != Provider::Hetzner && provider != Provider::DigitalOcean ==> (outcome matches Err(error)
                && is_unwired_host(error, provider)),
     {
        match provider {
            Provider::Hetzner => self.hetzner.observe(credential, account),
            Provider::DigitalOcean => self.digital_ocean.observe(credential, account),
            _ => Err(unwired_host(provider)),
        }
    }

    fn create_host(&self, provider: Provider, credential: &String, account: &String, plan: &HostPlan) -> (outcome: Result<
        CloudHost,
        HostError,
    >)
        ensures
            provider != Provider::Hetzner && provider != Provider::DigitalOcean ==> (outcome matches Err(error)
                && is_unwired_host(error, provider)),
     {
        match provider {
            Provider::Hetzner => self.hetzner.create(credential, account, plan),
            Provider::DigitalOcean => self.digital_ocean.create(credential, account, plan),
            _ => Err(unwired_host(provider)),
        }
    }

    fn destroy_host_by_name(&self, provider: Provider, credential: &String, name: &String) -> (outcome: Result<
        (),
        HostError,
    >)
        ensures
            provider != Provider::Hetzner && provider != Provider::DigitalOcean ==> (outcome matches Err(error)
                && is_unwired_host(error, provider)),
     {
        match provider {
            Provider::Hetzner => self.hetzner.destroy(credential, name),
            Provider::DigitalOcean => self.digital_ocean.destroy(credential, name),
            _ => Err(unwired_host(provider)),
        }
    }
}

} // verus!
