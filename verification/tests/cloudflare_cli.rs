use std::sync::{Arc, Mutex};

use cloud::cloudflare::{Api, Error, RecordIdentifier, RecordKindName, Token};
use cloud::cloudflare_cli::{
    api_records_of, dns_create_argument_vector, dns_delete_argument_vector, dns_list_argument_vector, dns_update_argument_vector,
    zone_list_argument_vector, CommandRunner, FlarectlApi, FlarectlBinary, FlarectlDecoder, FlarectlRecord,
    FlarectlZone, StringOrBool,
};
use cloud::vocabulary::{DomainNameSystemRecord, ProxyMode, RecordKind};
use serde_json::Value;

struct CapturingRunner {
    outputs: Mutex<Vec<Vec<u8>>>,
    captured: Mutex<Vec<(String, Vec<String>)>>,
}

impl CapturingRunner {
    fn with_outputs(outputs: Vec<Vec<u8>>) -> Arc<Self> {
        Arc::new(Self { outputs: Mutex::new(outputs), captured: Mutex::new(Vec::new()) })
    }

    fn with_output(bytes: Vec<u8>) -> Arc<Self> {
        Self::with_outputs(vec![bytes])
    }

    fn last(&self) -> (String, Vec<String>) {
        self.captured.lock().expect("captured mutex").last().cloned().expect("at least one invocation")
    }
}

struct SharedRunner(Arc<CapturingRunner>);

impl CommandRunner for SharedRunner {
    fn run(&self, binary: &FlarectlBinary, arguments: &Vec<String>, _token: &Token) -> Result<Vec<u8>, Error> {
        self.0.captured.lock().expect("captured mutex").push((binary.as_str().to_owned(), arguments.clone()));
        let mut outputs = self.0.outputs.lock().expect("output mutex");
        if outputs.len() == 1 {
            return Ok(outputs[0].clone());
        }
        Ok(outputs.remove(0))
    }
}

fn field(object: &Value, names: &[&str]) -> Option<Value> {
    names.iter().find_map(|name| object.get(*name).cloned())
}

fn text_field(object: &Value, names: &[&str]) -> Result<String, Error> {
    match field(object, names) {
        Some(Value::String(text)) => Ok(text),
        _ => Err(Error::RequestFailed(format!("flarectl json parse: missing {}", names[0]))),
    }
}

struct JsonDecoder;

impl FlarectlDecoder for JsonDecoder {
    fn zones(&self, output: &Vec<u8>) -> Result<Vec<FlarectlZone>, Error> {
        let rows: Vec<Value> = serde_json::from_slice(output)
            .map_err(|error| Error::RequestFailed(format!("flarectl json parse: {error}")))?;
        rows.iter()
            .map(|row| {
                Ok(FlarectlZone {
                    identifier: text_field(row, &["ID", "id", "identifier"])?,
                    name: text_field(row, &["Name", "name", "Zone"])?,
                })
            })
            .collect()
    }

    fn records(&self, output: &Vec<u8>) -> Result<Vec<FlarectlRecord>, Error> {
        let rows: Vec<Value> = serde_json::from_slice(output)
            .map_err(|error| Error::RequestFailed(format!("flarectl json parse: {error}")))?;
        rows.iter()
            .map(|row| {
                let proxied = match field(row, &["Proxy", "Proxied", "proxied"]) {
                    Some(Value::Bool(flag)) => Some(StringOrBool::Bool(flag)),
                    Some(Value::String(text)) => Some(StringOrBool::String(text)),
                    _ => None,
                };
                Ok(FlarectlRecord {
                    identifier: text_field(row, &["ID", "id", "identifier"])?,
                    name: text_field(row, &["Name", "name"])?,
                    kind: text_field(row, &["Type", "type"])?,
                    content: text_field(row, &["Content", "content"])?,
                    proxied,
                })
            })
            .collect()
    }
}

fn api(runner: &Arc<CapturingRunner>) -> FlarectlApi<SharedRunner, JsonDecoder> {
    FlarectlApi::with_runner(SharedRunner(runner.clone()), JsonDecoder)
}

#[test]
fn zone_list_uses_flarectl_json_zone_list() {
    let runner = CapturingRunner::with_output(b"[]".to_vec());
    let api = api(&runner);
    let zones = api.zones(&Token::new("ignored".to_owned()), None).expect("zones");
    assert_eq!(zones, Vec::new());
    let (binary, arguments) = runner.last();
    assert_eq!(binary, "flarectl");
    assert_eq!(arguments, vec!["--json", "zone", "list"]);
}

#[test]
fn records_resolves_zone_identifier_to_zone_name_then_lists_dns() {
    let runner = CapturingRunner::with_outputs(vec![
        br#"[{"ID":"zone-one","Name":"goldragon.criome"}]"#.to_vec(),
        br#"[{"ID":"record-one","Name":"goldragon.criome","Type":"A","Content":"203.0.113.7","Proxy":"true"}]"#.to_vec(),
    ]);
    let api = api(&runner);
    let records = api.records(&Token::new("ignored".to_owned()), &"zone-one".to_owned()).expect("records");
    let (_, arguments) = runner.last();
    assert_eq!(arguments, vec!["--json", "dns", "list", "--zone", "goldragon.criome"]);
    assert_eq!(records[0].identifier, RecordIdentifier::new("record-one".to_owned()));
    assert_eq!(records[0].proxy_mode, ProxyMode::ProviderProxy);
}

#[test]
fn create_record_uses_flarectl_dns_create() {
    let runner = CapturingRunner::with_outputs(vec![
        br#"[{"ID":"zone-one","Name":"goldragon.criome"}]"#.to_vec(),
        b"[]".to_vec(),
        br#"[{"ID":"zone-one","Name":"goldragon.criome"}]"#.to_vec(),
        br#"[{"ID":"record-two","Name":"www.goldragon.criome","Type":"CNAME","Content":"goldragon.criome","Proxy":"true"}]"#.to_vec(),
    ]);
    let api = api(&runner);
    let record = DomainNameSystemRecord {
        name: "www.goldragon.criome".to_owned(),
        kind: RecordKind::CanonicalName,
        value: "goldragon.criome".to_owned(),
        proxy_mode: ProxyMode::ProviderProxy,
    };
    let created = api
        .create_record(&Token::new("ignored".to_owned()), &"zone-one".to_owned(), &record)
        .expect("created");
    assert_eq!(created.identifier, RecordIdentifier::new("record-two".to_owned()));
    let captured = runner.captured.lock().expect("captured");
    assert!(captured.iter().any(|(_, arguments)| arguments
        == &vec![
            "--json".to_owned(),
            "dns".to_owned(),
            "create".to_owned(),
            "--zone".to_owned(),
            "goldragon.criome".to_owned(),
            "--name".to_owned(),
            "www.goldragon.criome".to_owned(),
            "--type".to_owned(),
            "CNAME".to_owned(),
            "--content".to_owned(),
            "goldragon.criome".to_owned(),
            "--proxy".to_owned(),
        ]));
}

#[test]
fn record_kind_round_trips() {
    let kinds = [
        RecordKind::AddressV4,
        RecordKind::AddressV6,
        RecordKind::CanonicalName,
        RecordKind::Text,
        RecordKind::MailExchange,
    ];
    for kind in kinds {
        let name = RecordKindName::from_record_kind(kind).to_owned();
        assert_eq!(RecordKindName::new(name).into_record_kind().unwrap(), kind);
    }
}

#[test]
fn unknown_record_type_is_unsupported() {
    let error = RecordKindName::new("SPF".to_owned()).into_record_kind().expect_err("SPF is not modelled");
    assert_eq!(error, Error::UnsupportedRecordKind("SPF".to_owned()));
}

#[test]
fn argument_vectors_follow_flarectl_syntax() {
    assert_eq!(zone_list_argument_vector(), vec!["--json", "zone", "list"]);
    assert_eq!(dns_list_argument_vector(&"example.test".to_owned()), vec!["--json", "dns", "list", "--zone", "example.test"]);
    let record = DomainNameSystemRecord {
        name: "www.example.test".to_owned(),
        kind: RecordKind::AddressV4,
        value: "203.0.113.7".to_owned(),
        proxy_mode: ProxyMode::Direct,
    };
    assert_eq!(
        dns_create_argument_vector(&"example.test".to_owned(), &record),
        vec!["--json", "dns", "create", "--zone", "example.test", "--name", "www.example.test", "--type", "A", "--content", "203.0.113.7"]
    );
    let identifier = RecordIdentifier::new("rec-1".to_owned());
    let update = dns_update_argument_vector(&"example.test".to_owned(), &identifier, &record);
    assert_eq!(&update[..3], &["--json", "dns", "update"]);
    assert!(update.contains(&"--id".to_owned()));
    assert!(update.contains(&"rec-1".to_owned()));
    assert_eq!(
        dns_delete_argument_vector(&"example.test".to_owned(), &identifier),
        vec!["--json", "dns", "delete", "--zone", "example.test", "--id", "rec-1"]
    );
}

#[test]
fn proxied_string_is_true_only_for_true() {
    assert!(StringOrBool::String("true".to_owned()).into_bool());
    assert!(!StringOrBool::String("false".to_owned()).into_bool());
    assert!(!StringOrBool::String("yes".to_owned()).into_bool());
    assert!(StringOrBool::Bool(true).into_bool());
}

#[test]
fn unsupported_row_type_fails_the_record() {
    let row = FlarectlRecord {
        identifier: "rec".to_owned(),
        name: "example.test".to_owned(),
        kind: "SPF".to_owned(),
        content: "v=spf1".to_owned(),
        proxied: None,
    };
    assert!(matches!(row.into_api_record(), Err(Error::UnsupportedRecordKind(kind)) if kind == "SPF"));
}

fn row(identifier: &str, name: &str, kind: &str, content: &str) -> FlarectlRecord {
    FlarectlRecord {
        identifier: identifier.to_owned(),
        name: name.to_owned(),
        kind: kind.to_owned(),
        content: content.to_owned(),
        proxied: None,
    }
}

#[test]
fn api_records_of_converts_rows_one_for_one_in_order() {
    let rows = vec![row("r1", "a.example.test", "A", "203.0.113.1"), row("r2", "b.example.test", "TXT", "hello")];
    let records = api_records_of(rows).expect("rows convert");
    assert_eq!(records.len(), 2);
    assert_eq!(records[0].identifier, RecordIdentifier("r1".to_owned()));
    assert_eq!(records[0].name, "a.example.test".to_owned());
    assert_eq!(records[0].kind, RecordKind::AddressV4);
    assert_eq!(records[0].value, "203.0.113.1".to_owned());
    assert_eq!(records[1].identifier, RecordIdentifier("r2".to_owned()));
    assert_eq!(records[1].kind, RecordKind::Text);
    assert_eq!(records[1].value, "hello".to_owned());
}

#[test]
fn api_records_of_fails_on_the_first_unknown_row_kind() {
    let rows = vec![row("r1", "a.example.test", "A", "203.0.113.1"), row("r2", "b", "SPF", "v"), row("r3", "c", "LOC", "x")];
    assert_eq!(api_records_of(rows), Err(Error::UnsupportedRecordKind("SPF".to_owned())));
}
