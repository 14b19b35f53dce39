use cloud::record_plan::RecordPlan;
use cloud::validation::{DesiredStateValidation, RecordValueValidation, RedirectValidation};
use cloud::vocabulary::{
    DesiredState, DomainNameSystemRecord, FindingSeverity, PathTreatment, Provider, ProxyMode, RecordKind,
    RedirectRule, RedirectStatus,
};

fn record(name: &str, kind: RecordKind, value: &str) -> DomainNameSystemRecord {
    DomainNameSystemRecord {
        name: name.to_owned(),
        kind,
        value: value.to_owned(),
        proxy_mode: ProxyMode::Direct,
    }
}

fn redirect(source: &str, target: &str) -> RedirectRule {
    RedirectRule {
        source: source.to_owned(),
        target: target.to_owned(),
        status: RedirectStatus::Permanent,
        path_treatment: PathTreatment::Preserve,
    }
}

#[test]
fn record_values_are_checked_by_kind() {
    let good_v4 = record("www.example.test", RecordKind::AddressV4, "203.0.113.7");
    assert!(RecordValueValidation::new(&good_v4).finding().is_none());
    let bad_v4 = record("www.example.test", RecordKind::AddressV4, "not-an-ip");
    let finding = RecordValueValidation::new(&bad_v4).finding().expect("malformed A record");
    assert_eq!(finding.severity, FindingSeverity::Error);
    assert_eq!(finding.message, "www.example.test AddressV4: A record value must be an IPv4 address");
    let bad_v6 = record("v6.example.test", RecordKind::AddressV6, "203.0.113.7");
    assert_eq!(
        RecordValueValidation::new(&bad_v6).finding().expect("malformed AAAA record").message,
        "v6.example.test AddressV6: AAAA record value must be an IPv6 address"
    );
    assert!(RecordValueValidation::new(&record("v6.example.test", RecordKind::AddressV6, "2001:db8::1"))
        .finding()
        .is_none());
    let blank_target = record("mail.example.test", RecordKind::MailExchange, "   ");
    assert_eq!(
        RecordValueValidation::new(&blank_target).finding().expect("blank target").message,
        "mail.example.test MailExchange: record target must not be empty"
    );
    assert!(RecordValueValidation::new(&record("txt.example.test", RecordKind::Text, "")).finding().is_none());
}

#[test]
fn redirect_targets_must_be_web_addresses() {
    assert!(RedirectValidation::new(&redirect("example.test/a", "https://example.test/b")).finding().is_none());
    assert!(RedirectValidation::new(&redirect("example.test/a", "http://example.test/b")).finding().is_none());
    assert_eq!(
        RedirectValidation::new(&redirect("example.test/a", "ftp://example.test/b")).finding().expect("bad target").message,
        "example.test/a redirect target must start with http:// or https://"
    );
}

#[test]
fn desired_state_findings_list_records_then_redirects() {
    let desired = DesiredState {
        provider: Provider::Cloudflare,
        zone: "example.test".to_owned(),
        records: vec![
            record("a.example.test", RecordKind::AddressV4, "203.0.113.7"),
            record("b.example.test", RecordKind::AddressV4, "300.0.0.1"),
        ],
        redirects: vec![redirect("example.test/old", "example.test/new")],
    };
    let findings = DesiredStateValidation::new(desired).findings();
    assert_eq!(findings.len(), 2);
    assert!(findings[0].message.starts_with("b.example.test"));
    assert!(findings[1].message.starts_with("example.test/old"));
}

#[test]
fn well_formed_desired_state_has_no_findings() {
    let desired = DesiredState {
        provider: Provider::Cloudflare,
        zone: "example.test".to_owned(),
        records: vec![record("a.example.test", RecordKind::AddressV4, "203.0.113.7")],
        redirects: vec![redirect("example.test/old", "https://example.test/new")],
    };
    assert!(DesiredStateValidation::new(desired).findings().is_empty());
}

#[test]
fn record_plan_creates_updates_and_deletes_by_identity() {
    let current = vec![
        record("www.example.test", RecordKind::AddressV4, "198.51.100.1"),
        record("old.example.test", RecordKind::AddressV4, "198.51.100.2"),
        record("old.example.test", RecordKind::Text, "legacy"),
        record("same.example.test", RecordKind::CanonicalName, "example.test"),
    ];
    let desired = vec![
        record("www.example.test", RecordKind::AddressV4, "203.0.113.7"),
        record("new.example.test", RecordKind::AddressV4, "203.0.113.8"),
        record("same.example.test", RecordKind::CanonicalName, "example.test"),
    ];
    let parts = RecordPlan::new(current, desired).into_parts();
    assert_eq!(parts.records_to_create, vec![record("new.example.test", RecordKind::AddressV4, "203.0.113.8")]);
    assert_eq!(parts.records_to_update, vec![record("www.example.test", RecordKind::AddressV4, "203.0.113.7")]);
    assert_eq!(parts.record_names_to_delete, vec!["old.example.test".to_owned()]);
}

#[test]
fn record_plan_of_an_empty_zone_creates_everything() {
    let desired = vec![
        record("a.example.test", RecordKind::AddressV4, "203.0.113.7"),
        record("b.example.test", RecordKind::Text, "hello"),
    ];
    let parts = RecordPlan::new(vec![], desired.clone()).into_parts();
    assert_eq!(parts.records_to_create, desired);
    assert!(parts.records_to_update.is_empty());
    assert!(parts.record_names_to_delete.is_empty());
}

#[test]
fn record_plan_of_a_matching_zone_is_empty() {
    let records = vec![record("a.example.test", RecordKind::AddressV4, "203.0.113.7")];
    let parts = RecordPlan::new(records.clone(), records).into_parts();
    assert!(parts.records_to_create.is_empty());
    assert!(parts.records_to_update.is_empty());
    assert!(parts.record_names_to_delete.is_empty());
}
