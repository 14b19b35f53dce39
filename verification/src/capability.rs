//! The capability matrix: which providers this daemon was built with, which
//! capabilities each provider offers, and how far each is available.
use vstd::prelude::*;

use crate::vocabulary::{Capability, CapabilityObservation, CapabilityQuery, CapabilityState, Provider};

verus! {

/// The providers this daemon carries an adapter for.
#[derive(Clone, Copy, Debug, PartialEq, Eq, Structural)]
pub struct BuildProfile {
    pub cloudflare: bool,
    pub google_cloud: bool,
    pub hetzner: bool,
    pub digital_ocean: bool,
}

impl BuildProfile {
    /// The daemon as shipped: Cloudflare DNS, Hetzner and DigitalOcean
    /// compute; no Google Cloud adapter.
    pub fn standard() -> (profile: Self)
        ensures
            profile.cloudflare,
            !profile.google_cloud,
            profile.hetzner,
            profile.digital_ocean,
    {
        BuildProfile { cloudflare: true, google_cloud: false, hetzner: true, digital_ocean: true }
    }

    pub open spec fn built(self, provider: Provider) -> bool {
        match provider {
            Provider::Cloudflare => self.cloudflare,
            Provider::GoogleCloud => self.google_cloud,
            Provider::Hetzner => self.hetzner,
            Provider::DigitalOcean => self.digital_ocean,
        }
    }

    /// Whether this daemon carries an adapter for `provider`.
    pub fn provider_is_built(&self, provider: Provider) -> (built: bool)
        ensures
            built == self.built(provider),
    {
        match provider {
            Provider::Cloudflare => self.cloudflare,
            Provider::GoogleCloud => self.google_cloud,
            Provider::Hetzner => self.hetzner,
            Provider::DigitalOcean => self.digital_ocean,
        }
    }
}

/// The capabilities each provider offers.
pub open spec fn supports(provider: Provider, capability: Capability) -> bool {
    match (provider, capability) {
        (Provider::Cloudflare, Capability::DomainNameSystemRecords) => true,
        (Provider::GoogleCloud, Capability::DomainNameSystemRecords) => true,
        (Provider::Hetzner, Capability::CloudHosts) => true,
        (Provider::Hetzner, Capability::Networks) => true,
        (Provider::Hetzner, Capability::Firewalls) => true,
        (Provider::Hetzner, Capability::LoadBalancers) => true,
        (Provider::DigitalOcean, Capability::CloudHosts) => true,
        _ => false,
    }
}

/// Whether `provider` offers `capability`.
pub fn provider_supports_capability(provider: Provider, capability: Capability) -> (supported: bool)
    ensures
        supported == supports(provider, capability),
{
    match (provider, capability) {
        (Provider::Cloudflare, Capability::DomainNameSystemRecords) => true,
        (Provider::GoogleCloud, Capability::DomainNameSystemRecords) => true,
        (Provider::Hetzner, Capability::CloudHosts) => true,
        (Provider::Hetzner, Capability::Networks) => true,
        (Provider::Hetzner, Capability::Firewalls) => true,
        (Provider::Hetzner, Capability::LoadBalancers) => true,
        (Provider::DigitalOcean, Capability::CloudHosts) => true,
        _ => false,
    }
}

/// How far a capability is available: not built, unsupported by the
/// provider, compiled in, or configured through a registered account.
pub open spec fn capability_state(built: bool, configured: bool, provider: Provider, capability: Capability) -> CapabilityState {
    if !built {
        CapabilityState::NotBuilt
    } else if !supports(provider, capability) {
        CapabilityState::Unsupported
    } else if configured {
        CapabilityState::Configured
    } else {
        CapabilityState::Compiled
    }
}

/// The (provider, capability) pairs a capability report ranges over, in
/// report order.
pub open spec fn known_capabilities() -> Seq<(Provider, Capability)> {
    seq![
        (Provider::Cloudflare, Capability::DomainNameSystemRecords),
        (Provider::Cloudflare, Capability::RedirectRules),
        (Provider::GoogleCloud, Capability::DomainNameSystemRecords),
        (Provider::Hetzner, Capability::CloudHosts),
        (Provider::Hetzner, Capability::Networks),
        (Provider::Hetzner, Capability::Firewalls),
        (Provider::Hetzner, Capability::LoadBalancers),
        (Provider::DigitalOcean, Capability::CloudHosts),
    ]
}

pub fn known_capability_list() -> (pairs: Vec<(Provider, Capability)>)
    ensures
        pairs@ == known_capabilities(),
{
    let pairs = vec![
        (Provider::Cloudflare, Capability::DomainNameSystemRecords),
        (Provider::Cloudflare, Capability::RedirectRules),
        (Provider::GoogleCloud, Capability::DomainNameSystemRecords),
        (Provider::Hetzner, Capability::CloudHosts),
        (Provider::Hetzner, Capability::Networks),
        (Provider::Hetzner, Capability::Firewalls),
        (Provider::Hetzner, Capability::LoadBalancers),
        (Provider::DigitalOcean, Capability::CloudHosts),
    ];
    assert(pairs@ =~= known_capabilities());
    pairs
}

/// A pair answers the query when it matches every filter the query sets.
pub open spec fn query_matches(query: CapabilityQuery, pair: (Provider, Capability)) -> bool {
    (query.provider is None || query.provider == Some(pair.0)) && (query.capability is None
        || query.capability == Some(pair.1))
}

pub fn query_matches_exec(query: CapabilityQuery, pair: (Provider, Capability)) -> (matches: bool)
    ensures
        matches == query_matches(query, pair),
{
    let provider_matches = match query.provider {
        None => true,
        Some(requested) => requested == pair.0,
    };
    let capability_matches = match query.capability {
        None => true,
        Some(requested) => requested == pair.1,
    };
    provider_matches && capability_matches
}

/// The report for a query: every known pair that matches, in order, with its
/// state under the given build profile and set of configured providers.
pub open spec fn capability_report(
    pairs: Seq<(Provider, Capability)>,
    query: CapabilityQuery,
    profile: BuildProfile,
    configured: Set<Provider>,
) -> Seq<CapabilityObservation>
    decreases pairs.len(),
{
    if pairs.len() == 0 {
        Seq::empty()
    } else {
        let earlier = capability_report(pairs.drop_last(), query, profile, configured);
        let (provider, capability) = pairs.last();
        if query_matches(query, pairs.last()) {
            earlier.push(
                CapabilityObservation {
                    provider,
                    capability,
                    state: capability_state(
                        profile.built(provider),
                        profile.built(provider) && configured.contains(provider),
                        provider,
                        capability,
                    ),
                },
            )
        } else {
            earlier
        }
    }
}

/// A capability's state tells how far it can be used: a built provider that
/// offers it reports it configured exactly when an account of the provider
/// is registered, and compiled exactly when none is; it is reported
/// configured or compiled only when the provider is built and offers it.
pub proof fn capability_states_follow_registration(
    built: bool,
    configured: bool,
    provider: Provider,
    capability: Capability,
)
    ensures
        built && supports(provider, capability) ==> (capability_state(built, configured, provider, capability)
            == CapabilityState::Configured <==> configured),
        built && supports(provider, capability) ==> (capability_state(built, configured, provider, capability)
            == CapabilityState::Compiled <==> !configured),
        capability_state(built, configured, provider, capability) == CapabilityState::Configured ==> built
            && supports(provider, capability) && configured,
        capability_state(built, configured, provider, capability) == CapabilityState::Compiled ==> built && supports(
            provider,
            capability,
        ) && !configured,
        built && !supports(provider, capability) ==> capability_state(built, configured, provider, capability)
            == CapabilityState::Unsupported,
{
}

/// Every observation of a capability report is configured exactly when its
/// provider is built, offers the capability and has a registered account,
/// and compiled exactly when it is built and offers it but has none.
pub proof fn reported_states_follow_registration(
    pairs: Seq<(Provider, Capability)>,
    query: CapabilityQuery,
    profile: BuildProfile,
    configured: Set<Provider>,
    index: int,
)
    requires
        0 <= index < capability_report(pairs, query, profile, configured).len(),
    ensures
        ({
            let observed = capability_report(pairs, query, profile, configured)[index];
            &&& (observed.state == CapabilityState::Configured) == (profile.built(observed.provider) && supports(
                observed.provider,
                observed.capability,
            ) && configured.contains(observed.provider))
            &&& (observed.state == CapabilityState::Compiled) == (profile.built(observed.provider) && supports(
                observed.provider,
                observed.capability,
            ) && !configured.contains(observed.provider))
        }),
    decreases pairs.len(),
{
    let earlier = capability_report(pairs.drop_last(), query, profile, configured);
    if index < earlier.len() {
        reported_states_follow_registration(pairs.drop_last(), query, profile, configured, index);
        assert(capability_report(pairs, query, profile, configured)[index] == earlier[index]);
    }
}

/// A provider that is not built reports every capability as not built, even
/// when an account for it is registered.
pub proof fn not_built_is_never_configured(built: bool, configured: bool, provider: Provider, capability: Capability)
    requires
        !built,
    ensures
        capability_state(built, configured, provider, capability) == CapabilityState::NotBuilt,
{
}

} // verus!
