use cloud::capability::BuildProfile;
use cloud::vocabulary::Provider;

#[test]
fn standard_build_carries_cloudflare_and_compute_providers() {
    let profile = BuildProfile::standard();
    assert!(profile.provider_is_built(Provider::Cloudflare));
    assert!(!profile.provider_is_built(Provider::GoogleCloud));
    assert!(profile.provider_is_built(Provider::Hetzner));
    assert!(profile.provider_is_built(Provider::DigitalOcean));
}
