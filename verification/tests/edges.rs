use cloud::client::{argument_source, ArgumentSource, Client, ClientError, CommandLineInput};
use cloud::cloudflare::{
    Envelope, Error as CloudflareError, HttpApi as CloudflareHttpApi, RecordIdentifier, RecordPayload, RecordRecord,
    ZoneRecord,
};
use cloud::daemon::{configuration_path, ConfigurationArgumentError, Daemon, DaemonConfiguration};
use cloud::digitalocean::{deletion_result, Error as DigitalOceanError, HttpApi as DigitalOceanHttpApi};
use cloud::hetzner::{error_from_transport, Error as HetznerError, HttpApi as HetznerHttpApi};
use cloud::http::{bearer, join_messages, join_url, TransportFailure};
use cloud::schema_store::{SchemaStoreState, StoredPlan};
use cloud::cloudflare_cli::{record_named, zone_name_in, zones_named, FlarectlZone};
use cloud::store::{registration_refusal, AccountBinding};
use cloud::text::{is_decimal_octet, is_ipv4_address};
use cloud::vocabulary::MetaRejectionReason;
use cloud::vocabulary::{
    DomainNameSystemRecord, PathTreatment, Plan, ProjectedPathTreatment, ProjectedRecord, ProjectedRecordKind,
    ProjectedRedirect, ProjectedRedirectStatus, Provider, ProxyMode, RecordKind, RedirectStatus,
};

fn failure(status: Option<u16>, message: &str) -> TransportFailure {
    TransportFailure { status, message: message.to_owned() }
}

#[test]
fn bearer_header_prefixes_the_token() {
    assert_eq!(bearer("secret"), "Bearer secret");
}

#[test]
fn urls_join_root_and_path() {
    assert_eq!(join_url(&"https://api.test".to_owned(), "/v1/servers"), "https://api.test/v1/servers");
    assert_eq!(CloudflareHttpApi::new().url(CloudflareHttpApi::zones_path()), "https://api.cloudflare.com/client/v4/zones");
    assert_eq!(
        CloudflareHttpApi::records_path(&"zone-one".to_owned()),
        "/zones/zone-one/dns_records"
    );
    assert_eq!(
        CloudflareHttpApi::record_path(&"zone-one".to_owned(), &RecordIdentifier("rec-1".to_owned())),
        "/zones/zone-one/dns_records/rec-1"
    );
    assert_eq!(HetznerHttpApi::new().url(HetznerHttpApi::servers_path()), "https://api.hetzner.cloud/v1/servers");
    assert_eq!(HetznerHttpApi::server_path(&"4711".to_owned()), "/v1/servers/4711");
    assert_eq!(HetznerHttpApi::ssh_key_path(&"9".to_owned()), "/v1/ssh_keys/9");
    assert_eq!(
        DigitalOceanHttpApi::with_base_url("http://127.0.0.1:9".to_owned()).url(DigitalOceanHttpApi::servers_path()),
        "http://127.0.0.1:9/v2/droplets"
    );
    assert_eq!(DigitalOceanHttpApi::ssh_key_path(&"77".to_owned()), "/v2/account/keys/77");
}

#[test]
fn messages_are_joined_with_separators_between() {
    assert_eq!(join_messages(&vec![], "; "), "");
    assert_eq!(join_messages(&vec!["one".to_owned()], "; "), "one");
    assert_eq!(join_messages(&vec!["one".to_owned(), "two".to_owned(), "three".to_owned()], "; "), "one; two; three");
}

#[test]
fn transport_failures_map_to_provider_errors() {
    assert_eq!(error_from_transport(failure(Some(404), "gone")), HetznerError::HostNotFound("gone".to_owned()));
    assert_eq!(error_from_transport(failure(Some(403), "denied")), HetznerError::RequestRejected("denied".to_owned()));
    assert_eq!(error_from_transport(failure(None, "refused")), HetznerError::RequestFailed("refused".to_owned()));
    assert_eq!(
        cloud::digitalocean::error_from_transport(failure(Some(500), "broken")),
        DigitalOceanError::RequestRejected("broken".to_owned())
    );
}

#[test]
fn deleting_a_missing_resource_succeeds() {
    assert_eq!(deletion_result(None), Ok(()));
    assert_eq!(deletion_result(Some(failure(Some(404), "gone"))), Ok(()));
    assert_eq!(
        deletion_result(Some(failure(Some(422), "locked"))),
        Err(DigitalOceanError::RequestRejected("locked".to_owned()))
    );
    assert_eq!(deletion_result(Some(failure(None, "refused"))), Err(DigitalOceanError::RequestFailed("refused".to_owned())));
}

#[test]
fn cloudflare_envelope_reports_joined_errors() {
    let ok = Envelope { success: true, result: 7u32, errors: vec!["ignored".to_owned()] };
    assert_eq!(ok.into_result(), Ok(7));
    let failed = Envelope { success: false, result: 0u32, errors: vec!["bad zone".to_owned(), "bad auth".to_owned()] };
    assert_eq!(failed.into_result(), Err(CloudflareError::RequestRejected("bad zone; bad auth".to_owned())));
}

#[test]
fn cloudflare_wire_records_convert_to_api_values() {
    let zone = ZoneRecord { id: "zone-one".to_owned(), name: "example.test".to_owned() }.into_api_zone();
    assert_eq!(zone.identifier, "zone-one");
    assert_eq!(zone.name, "example.test");

    let record = RecordRecord {
        id: "rec-1".to_owned(),
        kind: "CNAME".to_owned(),
        name: "www.example.test".to_owned(),
        content: "example.test".to_owned(),
        proxied: Some(true),
    }
    .into_api_record()
    .expect("CNAME is supported");
    assert_eq!(record.identifier, RecordIdentifier("rec-1".to_owned()));
    assert_eq!(record.kind, RecordKind::CanonicalName);
    assert_eq!(record.proxy_mode, ProxyMode::ProviderProxy);

    let unsupported = RecordRecord {
        id: "rec-2".to_owned(),
        kind: "BOGUS".to_owned(),
        name: "here.example.test".to_owned(),
        content: "0 0 0".to_owned(),
        proxied: None,
    }
    .into_api_record();
    assert_eq!(unsupported, Err(CloudflareError::UnsupportedRecordKind("BOGUS".to_owned())));

    let payload = RecordPayload::from_record(&DomainNameSystemRecord {
        name: "www.example.test".to_owned(),
        kind: RecordKind::AddressV6,
        value: "2001:db8::1".to_owned(),
        proxy_mode: ProxyMode::Direct,
    });
    assert_eq!(payload.kind, "AAAA");
    assert_eq!(payload.ttl, 1);
    assert!(!payload.proxied);
}

#[test]
fn client_argument_source_distinguishes_inline_files_and_flags() {
    assert_eq!(argument_source(vec![]), Err(ClientError::ExpectedSingleArgument));
    assert_eq!(
        argument_source(vec!["(Observe)".to_owned(), "extra".to_owned()]),
        Err(ClientError::ExpectedSingleArgument)
    );
    assert_eq!(argument_source(vec!["--help".to_owned()]), Err(ClientError::FlagArgument("--help".to_owned())));
    assert_eq!(
        argument_source(vec!["  [Observe]".to_owned()]),
        Ok(ArgumentSource::Inline("  [Observe]".to_owned()))
    );
    assert_eq!(argument_source(vec!["request.nota".to_owned()]), Ok(ArgumentSource::File("request.nota".to_owned())));
    assert_eq!(CommandLineInput::from_nota("(Observe)").text(), "(Observe)");
}

#[test]
fn client_socket_paths_default_when_unset() {
    let client = Client::from_environment_values(None, Some("/tmp/meta.sock".to_owned()));
    assert_eq!(client.ordinary_socket_path(), "/run/cloud/cloud.sock");
    assert_eq!(client.meta_socket_path(), "/tmp/meta.sock");
    let explicit = Client::with_sockets("/a".to_owned(), "/b".to_owned());
    assert_eq!(explicit.ordinary_socket_path(), "/a");
    assert_eq!(explicit.meta_socket_path(), "/b");
}

#[test]
fn daemon_keeps_its_configuration() {
    let configuration = DaemonConfiguration {
        ordinary_socket_path: "/run/cloud/cloud.sock".to_owned(),
        ordinary_socket_mode: 0o660,
        meta_socket_path: "/run/cloud/cloud-meta.sock".to_owned(),
        meta_socket_mode: 0o600,
    };
    let daemon = Daemon::new(configuration.clone());
    assert_eq!(daemon.configuration(), &configuration);
}

fn stored_plan(identifier: &str) -> StoredPlan {
    StoredPlan {
        plan: Plan {
            identifier: identifier.to_owned(),
            provider: Provider::Cloudflare,
            zone: "example.test".to_owned(),
            records_to_create: vec![],
            records_to_update: vec![],
            record_names_to_delete: vec![],
            redirects_to_create: vec![],
            redirects_to_update: vec![],
            redirect_sources_to_delete: vec![],
        },
        approved: false,
    }
}

#[test]
fn schema_store_commits_every_write() {
    let mut store = SchemaStoreState::new();
    assert_eq!(store.commit_sequence(), 0);
    let marker = store.put_account(AccountBinding {
        provider: Provider::Hetzner,
        account: "primary".to_owned(),
        credential: "HCLOUD_TOKEN".to_owned(),
    });
    assert_eq!(marker.commit_sequence, 1);
    assert_eq!(store.accounts().len(), 1);
    let rotated = store.rotate_credential(Provider::Hetzner, &"primary".to_owned(), "NEXT".to_owned());
    assert_eq!(rotated.map(|m| m.commit_sequence), Some(2));
    assert_eq!(store.accounts()[0].credential, "NEXT");
    assert!(store.rotate_credential(Provider::Hetzner, &"absent".to_owned(), "X".to_owned()).is_none());
    assert_eq!(store.commit_sequence(), 3);
    assert!(store.retire_account(Provider::Hetzner, &"primary".to_owned()).is_some());
    assert!(store.accounts().is_empty());
}

#[test]
fn schema_store_approves_known_plans_only() {
    let mut store = SchemaStoreState::new();
    store.put_plan(stored_plan("plan-1"));
    assert!(!store.plan(&"plan-1".to_owned()).expect("stored").approved);
    assert!(store.approve_plan(&"plan-1".to_owned()).is_some());
    assert!(store.plan(&"plan-1".to_owned()).expect("stored").approved);
    assert!(store.approve_plan(&"plan-2".to_owned()).is_none());
    assert!(store.plan(&"plan-2".to_owned()).is_none());
    assert_eq!(store.plans().len(), 1);
}

#[test]
fn daemon_configuration_argument_names_a_binary_file() {
    assert_eq!(configuration_path(vec!["/etc/cloud/cloud-daemon.rkyv".to_owned()]), Ok("/etc/cloud/cloud-daemon.rkyv".to_owned()));
    assert_eq!(
        configuration_path(vec!["(DaemonConfiguration)".to_owned()]),
        Err(ConfigurationArgumentError::InlineText("(DaemonConfiguration)".to_owned()))
    );
    assert_eq!(
        configuration_path(vec!["/tmp/cloud-daemon.nota".to_owned()]),
        Err(ConfigurationArgumentError::TextConfiguration("/tmp/cloud-daemon.nota".to_owned()))
    );
    assert_eq!(configuration_path(vec![]), Err(ConfigurationArgumentError::ExpectedSingleArgument));
    assert_eq!(
        configuration_path(vec!["--config".to_owned()]),
        Err(ConfigurationArgumentError::FlagArgument("--config".to_owned()))
    );
}

fn hetzner_server(identifier: &str, name: &str) -> cloud::hetzner::ApiServer {
    cloud::hetzner::ApiServer {
        identifier: identifier.to_owned(),
        name: name.to_owned(),
        server_type: "cx22".to_owned(),
        image: "debian-12".to_owned(),
        ipv4: "203.0.113.7".to_owned(),
        status: cloud::vocabulary::HostStatus::Running,
    }
}

#[test]
fn destroy_by_name_targets_the_first_server_with_the_name() {
    let servers = vec![hetzner_server("1", "edge-zero"), hetzner_server("4711", "edge-one"), hetzner_server("9", "edge-one")];
    assert_eq!(cloud::hetzner::server_id_named(&servers, &"edge-one".to_owned()), Some("4711".to_owned()));
    assert_eq!(cloud::hetzner::server_id_named(&servers, &"absent-host".to_owned()), None);
    let droplets = vec![cloud::digitalocean::ApiServer {
        identifier: "4711".to_owned(),
        name: "edge-one".to_owned(),
        server_type: "s-1vcpu-512mb-10gb".to_owned(),
        image: "ubuntu-24-04-x64".to_owned(),
        ipv4: "203.0.113.7".to_owned(),
        status: cloud::vocabulary::HostStatus::Running,
    }];
    assert_eq!(cloud::digitalocean::server_id_named(&droplets, &"edge-one".to_owned()), Some("4711".to_owned()));
    assert_eq!(cloud::digitalocean::server_id_named(&droplets, &"absent-host".to_owned()), None);
}

#[test]
fn flarectl_zone_rows_are_kept_and_resolved() {
    let rows = || {
        vec![
            FlarectlZone { identifier: "zone-one".to_owned(), name: "goldragon.criome".to_owned() },
            FlarectlZone { identifier: "zone-two".to_owned(), name: "example.test".to_owned() },
        ]
    };
    let all = zones_named(rows(), None);
    assert_eq!(all.len(), 2);
    assert_eq!(all[1].identifier, "zone-two");
    let named = zones_named(rows(), Some(&"example.test".to_owned()));
    assert_eq!(named.len(), 1);
    assert_eq!(named[0].identifier, "zone-two");
    assert_eq!(zone_name_in(&all, &"zone-one".to_owned()), Ok("goldragon.criome".to_owned()));
    assert_eq!(zone_name_in(&all, &"example.test".to_owned()), Ok("example.test".to_owned()));
    assert_eq!(zone_name_in(&all, &"zone-nine".to_owned()), Err(CloudflareError::ZoneNotFound("zone-nine".to_owned())));

    let records = vec![
        RecordRecord {
            id: "record-one".to_owned(),
            kind: "A".to_owned(),
            name: "www.goldragon.criome".to_owned(),
            content: "203.0.113.7".to_owned(),
            proxied: None,
        }
        .into_api_record()
        .expect("A"),
        RecordRecord {
            id: "record-two".to_owned(),
            kind: "CNAME".to_owned(),
            name: "www.goldragon.criome".to_owned(),
            content: "goldragon.criome".to_owned(),
            proxied: Some(true),
        }
        .into_api_record()
        .expect("CNAME"),
    ];
    let wanted = DomainNameSystemRecord {
        name: "www.goldragon.criome".to_owned(),
        kind: RecordKind::CanonicalName,
        value: "goldragon.criome".to_owned(),
        proxy_mode: ProxyMode::ProviderProxy,
    };
    assert_eq!(record_named(&records, &wanted).expect("present").identifier, RecordIdentifier("record-two".to_owned()));
    let missing = DomainNameSystemRecord {
        name: "api.goldragon.criome".to_owned(),
        kind: RecordKind::AddressV4,
        value: "203.0.113.9".to_owned(),
        proxy_mode: ProxyMode::Direct,
    };
    assert_eq!(
        record_named(&records, &missing),
        Err(CloudflareError::RequestFailed(
            "flarectl did not return DNS record api.goldragon.criome AddressV4 after mutation".to_owned()
        ))
    );
}

#[test]
fn registration_is_refused_for_unbuilt_providers_and_failed_credentials() {
    assert_eq!(registration_refusal(Provider::GoogleCloud, false, Ok(())), Some(MetaRejectionReason::ProviderNotConfigured));
    assert_eq!(
        registration_refusal(
            Provider::Cloudflare,
            true,
            Err(CloudflareError::CredentialUnavailable("CLOUDFLARE_DNS_TOKEN".to_owned()))
        ),
        Some(MetaRejectionReason::CredentialHandleUnknown)
    );
    assert_eq!(registration_refusal(Provider::Cloudflare, true, Ok(())), None);
    assert_eq!(registration_refusal(Provider::Hetzner, true, Err(CloudflareError::RequestFailed("x".to_owned()))), None);
}

#[test]
fn api_roots_and_flarectl_binary_have_defaults() {
    assert_eq!(CloudflareHttpApi::default().url(""), "https://api.cloudflare.com/client/v4");
    assert_eq!(HetznerHttpApi::default().url(""), "https://api.hetzner.cloud");
    assert_eq!(DigitalOceanHttpApi::default().url(""), "https://api.digitalocean.com");
    assert_eq!(cloud::cloudflare_cli::FlarectlBinary::default().as_str(), "flarectl");
}

#[test]
fn daemon_configuration_accepts_binary_file_argument() {
    let archive = "/tmp/cloud-daemon-test/cloud-daemon.rkyv".to_owned();
    assert_eq!(configuration_path(vec![archive.clone()]), Ok(archive));
}

#[test]
fn daemon_configuration_rejects_nota_arguments() {
    let inline = configuration_path(vec!["(DaemonConfiguration)".to_owned()]);
    let file = configuration_path(vec!["/tmp/cloud-daemon-test/cloud-daemon.nota".to_owned()]);
    assert!(matches!(inline, Err(ConfigurationArgumentError::InlineText(_))));
    assert!(matches!(file, Err(ConfigurationArgumentError::TextConfiguration(_))));
}

#[test]
fn white_space_agrees_with_std_for_every_char() {
    for code in 0u32..=0x10FFFF {
        if let Some(c) = char::from_u32(code) {
            assert_eq!(cloud::text::char_is_white_space(c), c.is_whitespace(), "code point {code:#x}");
        }
    }
}

#[test]
fn ipv4_check_accepts_dot_decimal_text_only() {
    let accepted = ["1.2.3.4", "203.0.113.7", "0.0.0.0", "255.255.255.255", "10.0.0.1", "1.2.3.255", "100.200.250.199"];
    for sample in accepted {
        assert!(is_ipv4_address(sample), "accepted {sample:?}");
    }
    let refused = [
        "256.1.1.1", "1.2.3", "1.2.3.4.5", "", ".", "...", "1..2.3", ".1.2.3", "1.2.3.", "01.2.3.4", "1.02.3.4",
        "0.0.0.00", "1.2.3.4 ", " 1.2.3.4", "1.2.3.a", "1234.1.1.1", "999.1.1.1", "1.2.3.-4", "1.2.3.+4",
        "\u{0661}.2.3.4", "192.168.001.1", "1.2.3.260", "0x1.2.3.4", "1,2,3,4",
    ];
    for sample in refused {
        assert!(!is_ipv4_address(sample), "refused {sample:?}");
    }
}

#[test]
fn decimal_octet_bounds() {
    assert!(is_decimal_octet(&vec!['0']));
    assert!(is_decimal_octet(&vec!['2', '5', '5']));
    assert!(!is_decimal_octet(&vec!['2', '5', '6']));
    assert!(!is_decimal_octet(&vec!['0', '7']));
    assert!(!is_decimal_octet(&vec![]));
    assert!(!is_decimal_octet(&vec!['1', '0', '0', '0']));
}

#[test]
fn projected_record_new_lowers_to_a_direct_record() {
    let record = ProjectedRecord::new("example.test".to_owned(), ProjectedRecordKind::CanonicalName, "target.test".to_owned())
        .into_record();
    assert_eq!(record.name, "example.test".to_owned());
    assert_eq!(record.kind, RecordKind::CanonicalName);
    assert_eq!(record.value, "target.test".to_owned());
    assert_eq!(record.proxy_mode, ProxyMode::Direct);
}

#[test]
fn projected_redirect_new_lowers_its_status_and_path_treatment() {
    let redirect = ProjectedRedirect::new(
        "example.test/a".to_owned(),
        "https://example.test/b".to_owned(),
        ProjectedRedirectStatus::Temporary,
        ProjectedPathTreatment::Preserve,
    )
    .into_redirect();
    assert_eq!(redirect.source, "example.test/a".to_owned());
    assert_eq!(redirect.target, "https://example.test/b".to_owned());
    assert_eq!(redirect.status, RedirectStatus::Temporary);
    assert_eq!(redirect.path_treatment, PathTreatment::Preserve);
}
