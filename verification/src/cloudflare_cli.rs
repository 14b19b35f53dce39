//! The `flarectl --json` mechanism for Cloudflare DNS: every call is one
//! `flarectl` invocation whose argument vector is built here, whose output a
//! [`FlarectlDecoder`] reads, and whose rows become API zones and records.
use vstd::prelude::*;

use crate::cloudflare::{
    record_kind_of_name, record_type_name, Api, ApiRecord, ApiRecordView, ApiZone, Error,
    RecordIdentifier, RecordKindName, Token,
};
use crate::text::{owned, record_kind_label, record_kind_name, text_equals};
use crate::vocabulary::{DomainNameSystemRecord, ProxyMode, RecordKind, RecordView};
use vstd::string::*;

verus! {

/// The `flarectl` executable to run.
#[derive(Debug, PartialEq, Eq)]
pub struct FlarectlBinary(pub String);

impl FlarectlBinary {
    pub fn new(value: String) -> (binary: Self)
        ensures
            binary.0@ == value@,
    {
        FlarectlBinary(value)
    }

    /// The binary found on the search path.
    pub fn standard() -> (binary: Self)
        ensures
            binary.0@ == "flarectl"@,
    {
        FlarectlBinary(owned("flarectl"))
    }

    pub fn as_str(&self) -> (text: &str)
        ensures
            text@ == self.0@,
    {
        self.0.as_str()
    }
}

impl Default for FlarectlBinary {
    fn default() -> (binary: Self)
        ensures
            binary.0@ == "flarectl"@,
    {
        FlarectlBinary::standard()
    }
}

/// Runs one `flarectl` invocation with the token in its environment and
/// returns its standard output.
pub trait CommandRunner {
    /// Names what the runner answered when asked to run `binary` with
    /// `arguments` and `token`; it promises nothing of the answer, and by
    /// default holds of every answer.
    closed spec fn run_answer(
        &self,
        binary: FlarectlBinary,
        arguments: Seq<Seq<char>>,
        token: Token,
        answer: Result<Vec<u8>, Error>,
    ) -> bool {
        true
    }

    fn run(&self, binary: &FlarectlBinary, arguments: &Vec<String>, token: &Token) -> (answer: Result<Vec<u8>, Error>)
        ensures
            self.run_answer(*binary, arguments.deep_view(), *token, answer),
    ;
}

/// A zone row of `flarectl --json zone list`.
#[derive(Debug, PartialEq, Eq)]
pub struct FlarectlZone {
    pub identifier: String,
    pub name: String,
}

/// A `proxied` field, which `flarectl` prints as a boolean or as a string.
#[derive(Debug, PartialEq, Eq)]
pub enum StringOrBool {
    Bool(bool),
    String(String),
}

impl StringOrBool {
    /// A boolean as is; a string is true exactly when it is `"true"`.
    pub fn into_bool(self) -> (value: bool)
        ensures
            value == match self {
                StringOrBool::Bool(value) => value,
                StringOrBool::String(text) => text@ == "true"@,
            },
    {
        match self {
            StringOrBool::Bool(value) => value,
            StringOrBool::String(text) => text_equals(text.as_str(), "true"),
        }
    }
}

/// A record row of `flarectl --json dns list`.
#[derive(Debug, PartialEq, Eq)]
pub struct FlarectlRecord {
    pub identifier: String,
    pub name: String,
    pub kind: String,
    pub content: String,
    pub proxied: Option<StringOrBool>,
}

/// Reads `flarectl`'s JSON output into rows.
pub trait FlarectlDecoder {
    fn zones(&self, output: &Vec<u8>) -> Result<Vec<FlarectlZone>, Error>;

    fn records(&self, output: &Vec<u8>) -> Result<Vec<FlarectlRecord>, Error>;
}

impl FlarectlZone {
    pub fn into_api_zone(self) -> (zone: ApiZone)
        ensures
            zone.identifier@ == self.identifier@,
            zone.name@ == self.name@,
    {
        ApiZone { identifier: self.identifier, name: self.name }
    }
}

/// Whether a `proxied` field says the record is proxied.
pub open spec fn proxied_flag(proxied: Option<StringOrBool>) -> bool {
    match proxied {
        Some(StringOrBool::Bool(value)) => value,
        Some(StringOrBool::String(text)) => text@ == "true"@,
        None => false,
    }
}

impl FlarectlRecord {
    /// The API record for the row, or `UnsupportedRecordKind` when the row's
    /// type is not a known record kind.
    pub fn into_api_record(self) -> (record: Result<ApiRecord, Error>)
        ensures
            match record_kind_of_name(self.kind@) {
                Some(kind) => record matches Ok(api) && api@ == (ApiRecordView {
                    identifier: self.identifier@,
                    record: RecordView {
                        name: self.name@,
                        kind,
                        value: self.content@,
                        proxy_mode: if proxied_flag(self.proxied) {
                            ProxyMode::ProviderProxy
                        } else {
                            ProxyMode::Direct
                        },
                    },
                }),
                None => record matches Err(Error::UnsupportedRecordKind(name)) && name@ == self.kind@,
            },
    {
        let kind = RecordKindName::new(self.kind).into_record_kind()?;
        let proxied = match self.proxied {
            Some(flag) => flag.into_bool(),
            None => false,
        };
        Ok(
            ApiRecord {
                identifier: RecordIdentifier::new(self.identifier),
                name: self.name,
                kind,
                value: self.content,
                proxy_mode: if proxied {
                    ProxyMode::ProviderProxy
                } else {
                    ProxyMode::Direct
                },
            },
        )
    }
}

// -------------------------------------------------------- argument vectors

pub open spec fn zone_list_arguments() -> Seq<Seq<char>> {
    seq!["--json"@, "zone"@, "list"@]
}

pub open spec fn dns_list_arguments(zone: Seq<char>) -> Seq<Seq<char>> {
    seq!["--json"@, "dns"@, "list"@, "--zone"@, zone]
}

/// The record-describing arguments shared by create and update.
pub open spec fn record_arguments(zone: Seq<char>, record: RecordView) -> Seq<Seq<char>> {
    seq![
        "--zone"@,
        zone,
        "--name"@,
        record.name,
        "--type"@,
        record_type_name(record.kind),
        "--content"@,
        record.value,
    ] + if record.proxy_mode == ProxyMode::ProviderProxy {
        seq!["--proxy"@]
    } else {
        Seq::empty()
    }
}

pub open spec fn dns_create_arguments(zone: Seq<char>, record: RecordView) -> Seq<Seq<char>> {
    seq!["--json"@, "dns"@, "create"@] + record_arguments(zone, record)
}

pub open spec fn dns_update_arguments(zone: Seq<char>, identifier: Seq<char>, record: RecordView) -> Seq<Seq<char>> {
    seq!["--json"@, "dns"@, "update"@, "--id"@, identifier] + record_arguments(zone, record)
}

pub open spec fn dns_delete_arguments(zone: Seq<char>, identifier: Seq<char>) -> Seq<Seq<char>> {
    seq!["--json"@, "dns"@, "delete"@, "--zone"@, zone, "--id"@, identifier]
}

pub fn zone_list_argument_vector() -> (arguments: Vec<String>)
    ensures
        arguments.deep_view() == zone_list_arguments(),
{
    let arguments = vec![owned("--json"), owned("zone"), owned("list")];
    assert(arguments.deep_view() =~= zone_list_arguments());
    arguments
}

pub fn dns_list_argument_vector(zone: &String) -> (arguments: Vec<String>)
    ensures
        arguments.deep_view() == dns_list_arguments(zone@),
{
    let arguments = vec![owned("--json"), owned("dns"), owned("list"), owned("--zone"), zone.clone()];
    assert(arguments.deep_view() =~= dns_list_arguments(zone@));
    arguments
}

pub fn dns_delete_argument_vector(zone: &String, identifier: &RecordIdentifier) -> (arguments: Vec<String>)
    ensures
        arguments.deep_view() == dns_delete_arguments(zone@, identifier.0@),
{
    let arguments = vec![
        owned("--json"),
        owned("dns"),
        owned("delete"),
        owned("--zone"),
        zone.clone(),
        owned("--id"),
        identifier.0.clone(),
    ];
    assert(arguments.deep_view() =~= dns_delete_arguments(zone@, identifier.0@));
    arguments
}

/// Appends the record-describing arguments to `arguments`.
pub fn append_record_arguments(arguments: &mut Vec<String>, zone: &String, record: &DomainNameSystemRecord)
    ensures
        final(arguments).deep_view() == old(arguments).deep_view() + record_arguments(zone@, record@),
{
    let ghost start = arguments.deep_view();
    arguments.push(owned("--zone"));
    arguments.push(zone.clone());
    arguments.push(owned("--name"));
    arguments.push(record.name.clone());
    arguments.push(owned("--type"));
    arguments.push(owned(RecordKindName::from_record_kind(record.kind)));
    arguments.push(owned("--content"));
    arguments.push(record.value.clone());
    if record.proxy_mode == ProxyMode::ProviderProxy {
        arguments.push(owned("--proxy"));
    }
    assert(arguments.deep_view() =~= start + record_arguments(zone@, record@));
}

pub fn dns_create_argument_vector(zone: &String, record: &DomainNameSystemRecord) -> (arguments: Vec<String>)
    ensures
        arguments.deep_view() == dns_create_arguments(zone@, record@),
{
    let mut arguments = vec![owned("--json"), owned("dns"), owned("create")];
    let ghost head = arguments.deep_view();
    assert(head =~= seq!["--json"@, "dns"@, "create"@]);
    append_record_arguments(&mut arguments, zone, record);
    arguments
}

pub fn dns_update_argument_vector(zone: &String, identifier: &RecordIdentifier, record: &DomainNameSystemRecord) -> (arguments: Vec<String>)
    ensures
        arguments.deep_view() == dns_update_arguments(zone@, identifier.0@, record@),
{
    let mut arguments = vec![owned("--json"), owned("dns"), owned("update"), owned("--id"), identifier.0.clone()];
    let ghost head = arguments.deep_view();
    assert(head =~= seq!["--json"@, "dns"@, "update"@, "--id"@, identifier.0@]);
    append_record_arguments(&mut arguments, zone, record);
    arguments
}

// ---------------------------------------------------------------- the api

/// Cloudflare DNS through `flarectl --json`.
pub struct FlarectlApi<R: CommandRunner, D: FlarectlDecoder> {
    pub binary: FlarectlBinary,
    pub runner: R,
    pub decoder: D,
}

/// The API record a `flarectl` record row reads as, or `None` when the row's
/// type is not a known record kind.
pub open spec fn row_record(row: FlarectlRecord) -> Option<ApiRecordView> {
    match record_kind_of_name(row.kind@) {
        Some(kind) => Some(
            ApiRecordView {
                identifier: row.identifier@,
                record: RecordView {
                    name: row.name@,
                    kind,
                    value: row.content@,
                    proxy_mode: if proxied_flag(row.proxied) {
                        ProxyMode::ProviderProxy
                    } else {
                        ProxyMode::Direct
                    },
                },
            },
        ),
        None => None,
    }
}

/// `records` are the rows read one for one, in order.
pub open spec fn records_of_rows(records: Seq<ApiRecord>, rows: Seq<FlarectlRecord>) -> bool {
    records.len() == rows.len() && forall|i: int| 0 <= i < records.len() ==> Some((#[trigger] records[i])@) == row_record(rows[i])
}

/// The API records of the rows, one for one and in order; the first row of
/// an unknown type fails the whole listing with that type.
pub fn api_records_of(rows: Vec<FlarectlRecord>) -> (records: Result<Vec<ApiRecord>, Error>)
    ensures
        match records {
            Ok(listed) => records_of_rows(listed@, rows@),
            Err(error) => exists|k: int|
                0 <= k < rows.len() && (#[trigger] row_record(rows@[k])) is None && (forall|j: int|
                    0 <= j < k ==> row_record(rows@[j]) is Some) && (error matches Error::UnsupportedRecordKind(kind)
                    && kind@ == rows@[k].kind@),
        },
{
    let ghost source = rows@;
    let mut records: Vec<ApiRecord> = Vec::new();
    let mut remaining = rows;
    let ghost mut taken: int = 0;
    while remaining.len() > 0
        invariant
            source == rows@,
            0 <= taken <= source.len(),
            taken + remaining.len() == source.len(),
            records.len() == taken,
            forall|i: int| 0 <= i < remaining.len() ==> #[trigger] remaining@[i] == source[taken + i],
            forall|i: int| 0 <= i < records.len() ==> Some((#[trigger] records@[i])@) == row_record(source[i]),
        decreases remaining.len(),
    {
        let row = remaining.remove(0);
        proof {
            assert(row == source[taken]);
        }
        match row.into_api_record() {
            Ok(record) => {
                records.push(record);
                proof {
                    taken = taken + 1;
                }
            },
            Err(error) => {
                proof {
                    assert forall|j: int| 0 <= j < taken implies row_record(source[j]) is Some by {
                        assert(Some(records@[j]@) == row_record(source[j]));
                    }
                    assert(row_record(source[taken]) is None);
                    assert(error matches Error::UnsupportedRecordKind(kind) && kind@ == source[taken].kind@);
                    let k = taken;
                    assert(0 <= k < source.len() && row_record(source[k]) is None && (forall|j: int|
                        0 <= j < k ==> row_record(source[j]) is Some) && (error matches Error::UnsupportedRecordKind(
                        kind,
                    ) && kind@ == source[k].kind@));
                }
                return Err(error);
            },
        }
    }
    Ok(records)
}

/// A listed zone answers to `zone` by identifier or by name.
pub open spec fn zone_answers(listed: ApiZone, zone: Seq<char>) -> bool {
    listed.identifier@ == zone || listed.name@ == zone
}

/// The name of the first listed zone that answers to `zone`, or
/// `ZoneNotFound` carrying `zone` when none does.
pub fn zone_name_in(zones: &Vec<ApiZone>, zone: &String) -> (name: Result<String, Error>)
    ensures
        match name {
            Ok(found) => exists|k: int|
                0 <= k < zones.len() && zone_answers(#[trigger] zones@[k], zone@) && zones@[k].name@ == found@
                    && forall|j: int| 0 <= j < k ==> !zone_answers(zones@[j], zone@),
            Err(error) => (error matches Error::ZoneNotFound(missing) && missing@ == zone@) && forall|k: int|
                0 <= k < zones.len() ==> !zone_answers(#[trigger] zones@[k], zone@),
        },
{
    let mut index: usize = 0;
    while index < zones.len()
        invariant
            index <= zones.len(),
            forall|j: int| 0 <= j < index ==> !zone_answers(#[trigger] zones@[j], zone@),
        decreases zones.len() - index,
    {
        if zones[index].identifier == *zone || zones[index].name == *zone {
            return Ok(zones[index].name.clone());
        }
        index = index + 1;
    }
    Err(Error::ZoneNotFound(zone.clone()))
}

/// The zone rows kept for a listing: all of them with no name given, those
/// with the name otherwise, in order.
pub open spec fn kept_zone_rows(rows: Seq<FlarectlZone>, name: Option<Seq<char>>) -> Seq<FlarectlZone>
    decreases rows.len(),
{
    if rows.len() == 0 {
        Seq::empty()
    } else {
        let earlier = kept_zone_rows(rows.drop_last(), name);
        if name is None || name == Some(rows.last().name@) {
            earlier.push(rows.last())
        } else {
            earlier
        }
    }
}

/// The API zones of the kept rows, in order.
pub fn zones_named(rows: Vec<FlarectlZone>, name: Option<&String>) -> (zones: Vec<ApiZone>)
    ensures
        zones.len() == kept_zone_rows(rows@, name.deep_view()).len(),
        forall|i: int|
            0 <= i < zones.len() ==> (#[trigger] zones@[i]).identifier@ == kept_zone_rows(rows@, name.deep_view())[i].identifier@
                && zones@[i].name@ == kept_zone_rows(rows@, name.deep_view())[i].name@,
{
    let ghost source = rows@;
    let ghost wanted = name.deep_view();
    let mut zones: Vec<ApiZone> = Vec::new();
    let mut remaining = rows;
    let ghost mut taken: int = 0;
    while remaining.len() > 0
        invariant
            0 <= taken <= source.len(),
            taken + remaining.len() == source.len(),
            forall|i: int| 0 <= i < remaining.len() ==> #[trigger] remaining@[i] == source[taken + i],
            wanted == name.deep_view(),
            zones.len() == kept_zone_rows(source.take(taken), wanted).len(),
            forall|i: int|
                0 <= i < zones.len() ==> (#[trigger] zones@[i]).identifier@ == kept_zone_rows(source.take(taken), wanted)[i].identifier@
                    && zones@[i].name@ == kept_zone_rows(source.take(taken), wanted)[i].name@,
        decreases remaining.len(),
    {
        let row = remaining.remove(0);
        proof {
            assert(row == source[taken]);
            let next = source.take(taken + 1);
            assert(next.drop_last() =~= source.take(taken));
            assert(next.last() == source[taken]);
        }
        let keep = match name {
            Some(wanted_name) => row.name == *wanted_name,
            None => true,
        };
        let zone = row.into_api_zone();
        let ghost before = zones@;
        if keep {
            zones.push(zone);
        }
        proof {
            let kept_before = kept_zone_rows(source.take(taken), wanted);
            let kept_after = kept_zone_rows(source.take(taken + 1), wanted);
            assert forall|i: int| 0 <= i < zones.len() implies (#[trigger] zones@[i]).identifier@
                == kept_after[i].identifier@ && zones@[i].name@ == kept_after[i].name@ by {
                if i < before.len() {
                    assert(zones@[i] == before[i]);
                    assert(kept_after[i] == kept_before[i]);
                }
            }
            taken = taken + 1;
        }
    }
    assert(source.take(source.len() as int) =~= source);
    zones
}

/// A listed record has the name and kind of `record`.
pub open spec fn same_name_and_kind(listed: ApiRecordView, record: RecordView) -> bool {
    listed.record.name == record.name && listed.record.kind == record.kind
}

/// The first listed record with the name and kind of `record`, or the
/// failure that the mutation left no such record.
pub fn record_named(records: &Vec<ApiRecord>, record: &DomainNameSystemRecord) -> (found: Result<ApiRecord, Error>)
    ensures
        match found {
            Ok(api) => exists|k: int|
                0 <= k < records.len() && same_name_and_kind(#[trigger] records@[k]@, record@) && api@ == records@[k]@
                    && forall|j: int| 0 <= j < k ==> !same_name_and_kind(records@[j]@, record@),
            Err(error) => (error matches Error::RequestFailed(message) && message@ == "flarectl did not return DNS record "@
                + record.name@ + " "@ + record_kind_label(record.kind) + " after mutation"@) && forall|k: int|
                0 <= k < records.len() ==> !same_name_and_kind(#[trigger] records@[k]@, record@),
        },
{
    let mut index: usize = 0;
    while index < records.len()
        invariant
            index <= records.len(),
            forall|j: int| 0 <= j < index ==> !same_name_and_kind(#[trigger] records@[j]@, record@),
        decreases records.len() - index,
    {
        if records[index].name == record.name && records[index].kind == record.kind {
            let copy = records[index].clone();
            return Ok(copy);
        }
        index = index + 1;
    }
    let mut message = owned("flarectl did not return DNS record ");
    message.append(record.name.as_str());
    message.append(" ");
    message.append(record_kind_name(record.kind));
    message.append(" after mutation");
    proof {
        reveal_strlit("flarectl did not return DNS record ");
        reveal_strlit(" ");
        reveal_strlit(" after mutation");
    }
    Err(Error::RequestFailed(message))
}

/// Every kept row carries the wanted name, when one is given.
pub proof fn lemma_kept_rows_carry_name(rows: Seq<FlarectlZone>, name: Option<Seq<char>>)
    ensures
        forall|i: int|
            0 <= i < kept_zone_rows(rows, name).len() ==> (name matches Some(wanted) ==> (#[trigger] kept_zone_rows(
                rows,
                name,
            )[i]).name@ == wanted),
    decreases rows.len(),
{
    if rows.len() > 0 {
        lemma_kept_rows_carry_name(rows.drop_last(), name);
        let earlier = kept_zone_rows(rows.drop_last(), name);
        let kept = kept_zone_rows(rows, name);
        assert forall|i: int| 0 <= i < kept.len() implies (name matches Some(wanted) ==> (#[trigger] kept[i]).name@
            == wanted) by {
            if i < earlier.len() {
                assert(kept[i] == earlier[i]);
            }
        }
    }
}

impl<R: CommandRunner, D: FlarectlDecoder> FlarectlApi<R, D> {
    /// Runs `flarectl` from the search path through `runner`.
    pub fn with_runner(runner: R, decoder: D) -> (api: Self)
        ensures
            api.binary.0@ == "flarectl"@,
            api.runner == runner,
            api.decoder == decoder,
    {
        FlarectlApi { binary: FlarectlBinary::standard(), runner, decoder }
    }

    pub fn with_binary(self, binary: FlarectlBinary) -> (api: Self)
        ensures
            api.binary == binary,
            api.runner == self.runner,
            api.decoder == self.decoder,
    {
        FlarectlApi { binary, runner: self.runner, decoder: self.decoder }
    }

    /// `flarectl` was run, through the runner and with the configured
    /// binary, with `arguments` and `token`.
    pub open spec fn ran(&self, arguments: Seq<Seq<char>>, token: Token) -> bool {
        exists|output: Result<Vec<u8>, Error>| #[trigger] self.runner.run_answer(self.binary, arguments, token, output)
    }

    /// Runs one invocation: the runner is handed the configured binary, the
    /// arguments and the token, and its answer is returned as is.
    pub fn execute(&self, arguments: Vec<String>, token: &Token) -> (output: Result<Vec<u8>, Error>)
        ensures
            self.runner.run_answer(self.binary, arguments.deep_view(), *token, output),
            self.ran(arguments.deep_view(), *token),
    {
        self.runner.run(&self.binary, &arguments, token)
    }

    /// The name of the zone given by identifier (or by name), read from the
    /// zone list.
    pub fn zone_name(&self, token: &Token, zone: &String) -> (name: Result<String, Error>)
        ensures
            self.ran(zone_list_arguments(), *token),
    {
        let zones = self.list_zones(token, None)?;
        zone_name_in(&zones, zone)
    }

    /// The zones `flarectl` lists, keeping only those named `name` when a name
    /// is given.
    pub fn list_zones(&self, token: &Token, name: Option<&String>) -> (zones: Result<Vec<ApiZone>, Error>)
        ensures
            zones matches Ok(listed) ==> forall|i: int|
                0 <= i < listed.len() ==> (name matches Some(wanted) ==> (#[trigger] listed@[i]).name@ == wanted@),
            self.ran(zone_list_arguments(), *token),
    {
        let output = self.execute(zone_list_argument_vector(), token)?;
        let rows = self.decoder.zones(&output)?;
        let ghost decoded = rows@;
        let zones = zones_named(rows, name);
        proof {
            lemma_kept_rows_carry_name(decoded, name.deep_view());
        }
        Ok(zones)
    }

    /// The records of the zone given by identifier: resolves the zone name,
    /// then lists the zone's DNS records.
    pub fn list_records(&self, token: &Token, zone: &String) -> (records: Result<Vec<ApiRecord>, Error>)
        ensures
            records matches Ok(listed) ==> exists|rows: Seq<FlarectlRecord>| records_of_rows(listed@, rows),
            self.ran(zone_list_arguments(), *token),
            records is Ok ==> exists|name: Seq<char>| #[trigger] self.ran(dns_list_arguments(name), *token),
    {
        let zone_name = self.zone_name(token, zone)?;
        let output = self.execute(dns_list_argument_vector(&zone_name), token)?;
        let rows = self.decoder.records(&output)?;
        let ghost decoded = rows@;
        let records = api_records_of(rows);
        proof {
            if records is Ok {
                assert(records_of_rows(records->Ok_0@, decoded));
            }
        }
        records
    }

    /// The record with the given record's name and kind, read back after a
    /// mutation.
    pub fn find_record_after_mutation(&self, token: &Token, zone: &String, record: &DomainNameSystemRecord) -> (found: Result<ApiRecord, Error>)
        ensures
            found matches Ok(api) ==> api@.record.name == record.name@ && api@.record.kind == record.kind,
            self.ran(zone_list_arguments(), *token),
    {
        let records = self.list_records(token, zone)?;
        record_named(&records, record)
    }
}

impl<R: CommandRunner, D: FlarectlDecoder> Api for FlarectlApi<R, D> {
    /// The zone list was run; a listing of one name holds only zones of
    /// that name.
    open spec fn zone_listing(&self, token: Token, name: Option<Seq<char>>, answer: Result<Vec<ApiZone>, Error>) -> bool {
        &&& self.ran(zone_list_arguments(), token)
        &&& answer matches Ok(listed) ==> forall|i: int|
            0 <= i < listed.len() ==> (name matches Some(wanted) ==> (#[trigger] listed@[i]).name@ == wanted)
    }

    /// The zone list was run to name the zone; a listing holds the rows
    /// converted one for one, read from a `dns list` run.
    open spec fn record_listing(&self, token: Token, zone: Seq<char>, answer: Result<Vec<ApiRecord>, Error>) -> bool {
        &&& self.ran(zone_list_arguments(), token)
        &&& answer matches Ok(listed) ==> (exists|rows: Seq<FlarectlRecord>| records_of_rows(listed@, rows))
            && exists|name: Seq<char>| #[trigger] self.ran(dns_list_arguments(name), token)
    }

    /// The zone list was run; a created record was made by a `dns create`
    /// run for it and carries its name and kind.
    open spec fn creation(&self, token: Token, zone: Seq<char>, record: RecordView, answer: Result<ApiRecord, Error>) -> bool {
        &&& self.ran(zone_list_arguments(), token)
        &&& answer matches Ok(api) ==> api@.record.name == record.name && api@.record.kind == record.kind
            && exists|name: Seq<char>| #[trigger] self.ran(dns_create_arguments(name, record), token)
    }

    /// The zone list was run; an updated record was changed by a
    /// `dns update` run with the record's identifier, and carries the
    /// desired name and kind.
    open spec fn update(
        &self,
        token: Token,
        zone: Seq<char>,
        identifier: Seq<char>,
        record: RecordView,
        answer: Result<ApiRecord, Error>,
    ) -> bool {
        &&& self.ran(zone_list_arguments(), token)
        &&& answer matches Ok(api) ==> api@.record.name == record.name && api@.record.kind == record.kind
            && exists|name: Seq<char>| #[trigger] self.ran(dns_update_arguments(name, identifier, record), token)
    }

    /// The zone list was run; a deletion succeeded through a `dns delete`
    /// run with the record's identifier.
    open spec fn deletion(&self, token: Token, zone: Seq<char>, identifier: Seq<char>, answer: Result<(), Error>) -> bool {
        &&& self.ran(zone_list_arguments(), token)
        &&& answer is Ok ==> exists|name: Seq<char>| #[trigger] self.ran(dns_delete_arguments(name, identifier), token)
    }

    fn zones(&self, token: &Token, name: Option<&String>) -> (zones: Result<Vec<ApiZone>, Error>) {
        self.list_zones(token, name)
    }

    fn records(&self, token: &Token, zone: &String) -> (records: Result<Vec<ApiRecord>, Error>) {
        self.list_records(token, zone)
    }

    fn create_record(&self, token: &Token, zone: &String, record: &DomainNameSystemRecord) -> (created: Result<ApiRecord, Error>) {
        let zone_name = self.zone_name(token, zone)?;
        let arguments = dns_create_argument_vector(&zone_name, record);
        self.execute(arguments, token)?;
        assert(self.ran(dns_create_arguments(zone_name@, record@), *token));
        self.find_record_after_mutation(token, zone, record)
    }

    fn update_record(
        &self,
        token: &Token,
        zone: &String,
        identifier: &RecordIdentifier,
        record: &DomainNameSystemRecord,
    ) -> (updated: Result<ApiRecord, Error>) {
        let zone_name = self.zone_name(token, zone)?;
        let arguments = dns_update_argument_vector(&zone_name, identifier, record);
        self.execute(arguments, token)?;
        assert(self.ran(dns_update_arguments(zone_name@, identifier.0@, record@), *token));
        self.find_record_after_mutation(token, zone, record)
    }

    fn delete_record(&self, token: &Token, zone: &String, identifier: &RecordIdentifier) -> (deleted: Result<(), Error>) {
        let zone_name = self.zone_name(token, zone)?;
        let arguments = dns_delete_argument_vector(&zone_name, identifier);
        self.execute(arguments, token)?;
        assert(self.ran(dns_delete_arguments(zone_name@, identifier.0@), *token));
        Ok(())
    }
}

} // verus!
