//! The Cloudflare DNS provider client: zone listing, record listing, and
//! applying a plan by deleting, updating and creating records through an
//! [`Api`] mechanism (the HTTP API or the `flarectl` command line).
use vstd::prelude::*;

use crate::http::{join_messages, join_url, joined};
use crate::record_plan::same_identity_exec;
use crate::text::{owned, text_equals};
use crate::vocabulary::{DomainNameSystemRecord, Plan, PlanView, Provider, ProxyMode, RecordKind, RecordView, Zone, ZoneView};

verus! {

/// Why a Cloudflare call failed.
#[derive(Debug, PartialEq, Eq)]
pub enum Error {
    CredentialUnavailable(String),
    RequestFailed(String),
    RequestRejected(String),
    UnsupportedRecordKind(String),
    ZoneNotFound(String),
}

/// A Cloudflare API token. It never leaves the provider edge.
#[derive(Debug, PartialEq, Eq)]
pub struct Token(pub String);

impl Token {
    pub fn new(value: String) -> (token: Self)
        ensures
            token.0@ == value@,
    {
        Token(value)
    }

    pub fn as_str(&self) -> (text: &str)
        ensures
            text@ == self.0@,
    {
        self.0.as_str()
    }
}

impl Clone for Token {
    fn clone(&self) -> (copy: Self)
        ensures
            copy.0@ == self.0@,
    {
        Token(self.0.clone())
    }
}

/// Resolves a credential handle to a token.
pub trait CredentialSource {
    /// Names what this source answered when a lookup of `handle` gave
    /// `answer`; it promises nothing of the answer, and by default holds of
    /// every answer.
    closed spec fn token_answer(&self, handle: Seq<char>, answer: Result<Token, Error>) -> bool {
        true
    }

    fn token(&self, handle: &String) -> (answer: Result<Token, Error>)
        ensures
            self.token_answer(handle@, answer),
    ;
}

/// A zone as the Cloudflare API reports it.
#[derive(Debug, PartialEq, Eq)]
pub struct ApiZone {
    pub identifier: String,
    pub name: String,
}

/// The identifier Cloudflare gives a DNS record.
#[derive(Debug, PartialEq, Eq)]
pub struct RecordIdentifier(pub String);

impl RecordIdentifier {
    pub fn new(value: String) -> (identifier: Self)
        ensures
            identifier.0@ == value@,
    {
        RecordIdentifier(value)
    }

    pub fn as_str(&self) -> (text: &str)
        ensures
            text@ == self.0@,
    {
        self.0.as_str()
    }
}

impl Clone for RecordIdentifier {
    fn clone(&self) -> (copy: Self)
        ensures
            copy.0@ == self.0@,
    {
        RecordIdentifier(self.0.clone())
    }
}

/// A DNS record as the Cloudflare API reports it.
#[derive(Debug, PartialEq, Eq)]
pub struct ApiRecord {
    pub identifier: RecordIdentifier,
    pub name: String,
    pub kind: RecordKind,
    pub value: String,
    pub proxy_mode: ProxyMode,
}

pub struct ApiRecordView {
    pub identifier: Seq<char>,
    pub record: RecordView,
}

impl View for ApiRecord {
    type V = ApiRecordView;

    open spec fn view(&self) -> ApiRecordView {
        ApiRecordView {
            identifier: self.identifier.0@,
            record: RecordView {
                name: self.name@,
                kind: self.kind,
                value: self.value@,
                proxy_mode: self.proxy_mode,
            },
        }
    }
}

impl DeepView for ApiRecord {
    type V = ApiRecordView;

    open spec fn deep_view(&self) -> ApiRecordView {
        self@
    }
}

impl Clone for ApiRecord {
    fn clone(&self) -> (copy: Self)
        ensures
            copy@ == self@,
    {
        ApiRecord {
            identifier: self.identifier.clone(),
            name: self.name.clone(),
            kind: self.kind,
            value: self.value.clone(),
            proxy_mode: self.proxy_mode,
        }
    }
}

impl ApiRecord {
    /// The provider-neutral record, without the Cloudflare identifier.
    pub fn into_domain_record(self) -> (record: DomainNameSystemRecord)
        ensures
            record@ == self@.record,
    {
        DomainNameSystemRecord {
            name: self.name,
            kind: self.kind,
            value: self.value,
            proxy_mode: self.proxy_mode,
        }
    }
}

/// A mechanism that reaches Cloudflare's DNS API.
pub trait Api {
    /// Names the answer of a zone listing (of one name, when given). Like the
    /// other names below it promises nothing of the answer, and by default
    /// holds of every answer; a mechanism may say more.
    closed spec fn zone_listing(&self, token: Token, name: Option<Seq<char>>, answer: Result<Vec<ApiZone>, Error>) -> bool {
        true
    }

    /// Names the answer of a record listing of `zone`.
    closed spec fn record_listing(&self, token: Token, zone: Seq<char>, answer: Result<Vec<ApiRecord>, Error>) -> bool {
        true
    }

    /// Names the answer of the creation of `record` in `zone`.
    closed spec fn creation(&self, token: Token, zone: Seq<char>, record: RecordView, answer: Result<ApiRecord, Error>) -> bool {
        true
    }

    /// Names the answer of the update of the record `identifier` to `record`.
    closed spec fn update(
        &self,
        token: Token,
        zone: Seq<char>,
        identifier: Seq<char>,
        record: RecordView,
        answer: Result<ApiRecord, Error>,
    ) -> bool {
        true
    }

    /// Names the answer of the deletion of the record `identifier`.
    closed spec fn deletion(&self, token: Token, zone: Seq<char>, identifier: Seq<char>, answer: Result<(), Error>) -> bool {
        true
    }

    fn zones(&self, token: &Token, name: Option<&String>) -> (answer: Result<Vec<ApiZone>, Error>)
        ensures
            self.zone_listing(*token, name.deep_view(), answer),
    ;

    fn records(&self, token: &Token, zone: &String) -> (answer: Result<Vec<ApiRecord>, Error>)
        ensures
            self.record_listing(*token, zone@, answer),
    ;

    fn create_record(&self, token: &Token, zone: &String, record: &DomainNameSystemRecord) -> (answer: Result<
        ApiRecord,
        Error,
    >)
        ensures
            self.creation(*token, zone@, record@, answer),
    ;

    fn update_record(
        &self,
        token: &Token,
        zone: &String,
        identifier: &RecordIdentifier,
        record: &DomainNameSystemRecord,
    ) -> (answer: Result<ApiRecord, Error>)
        ensures
            self.update(*token, zone@, identifier.0@, record@, answer),
    ;

    fn delete_record(&self, token: &Token, zone: &String, identifier: &RecordIdentifier) -> (answer: Result<
        (),
        Error,
    >)
        ensures
            self.deletion(*token, zone@, identifier.0@, answer),
    ;
}

// ------------------------------------------------------- record kind names

/// The wire name Cloudflare uses for a record kind.
pub open spec fn record_type_name(kind: RecordKind) -> Seq<char> {
    match kind {
        RecordKind::AddressV4 => "A"@,
        RecordKind::AddressV6 => "AAAA"@,
        RecordKind::CanonicalName => "CNAME"@,
        RecordKind::Text => "TXT"@,
        RecordKind::MailExchange => "MX"@,
        RecordKind::NameServer => "NS"@,
        RecordKind::Pointer => "PTR"@,
        RecordKind::Service => "SRV"@,
        RecordKind::CertificateAuthorityAuthorization => "CAA"@,
        RecordKind::SecureShellFingerprint => "SSHFP"@,
        RecordKind::TransportLayerSecurityAuthentication => "TLSA"@,
        RecordKind::UniformResourceIdentifier => "URI"@,
        RecordKind::ServiceBinding => "SVCB"@,
        RecordKind::HttpsBinding => "HTTPS"@,
        RecordKind::Location => "LOC"@,
    }
}

/// The record kind a wire name denotes, if any.
pub open spec fn record_kind_of_name(name: Seq<char>) -> Option<RecordKind> {
    if name == "A"@ {
        Some(RecordKind::AddressV4)
    } else if name == "AAAA"@ {
        Some(RecordKind::AddressV6)
    } else if name == "CNAME"@ {
        Some(RecordKind::CanonicalName)
    } else if name == "TXT"@ {
        Some(RecordKind::Text)
    } else if name == "MX"@ {
        Some(RecordKind::MailExchange)
    } else if name == "NS"@ {
        Some(RecordKind::NameServer)
    } else if name == "PTR"@ {
        Some(RecordKind::Pointer)
    } else if name == "SRV"@ {
        Some(RecordKind::Service)
    } else if name == "CAA"@ {
        Some(RecordKind::CertificateAuthorityAuthorization)
    } else if name == "SSHFP"@ {
        Some(RecordKind::SecureShellFingerprint)
    } else if name == "TLSA"@ {
        Some(RecordKind::TransportLayerSecurityAuthentication)
    } else if name == "URI"@ {
        Some(RecordKind::UniformResourceIdentifier)
    } else if name == "SVCB"@ {
        Some(RecordKind::ServiceBinding)
    } else if name == "HTTPS"@ {
        Some(RecordKind::HttpsBinding)
    } else if name == "LOC"@ {
        Some(RecordKind::Location)
    } else {
        None
    }
}

/// A record kind's wire name, as Cloudflare spells it.
#[derive(Debug, PartialEq, Eq)]
pub struct RecordKindName(pub String);

impl RecordKindName {
    pub fn new(value: String) -> (name: Self)
        ensures
            name.0@ == value@,
    {
        RecordKindName(value)
    }

    pub fn from_record_kind(kind: RecordKind) -> (name: &'static str)
        ensures
            name@ == record_type_name(kind),
    {
        match kind {
            RecordKind::AddressV4 => "A",
            RecordKind::AddressV6 => "AAAA",
            RecordKind::CanonicalName => "CNAME",
            RecordKind::Text => "TXT",
            RecordKind::MailExchange => "MX",
            RecordKind::NameServer => "NS",
            RecordKind::Pointer => "PTR",
            RecordKind::Service => "SRV",
            RecordKind::CertificateAuthorityAuthorization => "CAA",
            RecordKind::SecureShellFingerprint => "SSHFP",
            RecordKind::TransportLayerSecurityAuthentication => "TLSA",
            RecordKind::UniformResourceIdentifier => "URI",
            RecordKind::ServiceBinding => "SVCB",
            RecordKind::HttpsBinding => "HTTPS",
            RecordKind::Location => "LOC",
        }
    }

    /// The record kind the name denotes, or `UnsupportedRecordKind` carrying
    /// the name.
    pub fn into_record_kind(self) -> (kind: Result<RecordKind, Error>)
        ensures
            match record_kind_of_name(self.0@) {
                Some(expected) => kind == Ok::<RecordKind, Error>(expected),
                None => kind matches Err(Error::UnsupportedRecordKind(name)) && name@ == self.0@,
            },
    {
        let name = self.0.as_str();
        if text_equals(name, "A") {
            Ok(RecordKind::AddressV4)
        } else if text_equals(name, "AAAA") {
            Ok(RecordKind::AddressV6)
        } else if text_equals(name, "CNAME") {
            Ok(RecordKind::CanonicalName)
        } else if text_equals(name, "TXT") {
            Ok(RecordKind::Text)
        } else if text_equals(name, "MX") {
            Ok(RecordKind::MailExchange)
        } else if text_equals(name, "NS") {
            Ok(RecordKind::NameServer)
        } else if text_equals(name, "PTR") {
            Ok(RecordKind::Pointer)
        } else if text_equals(name, "SRV") {
            Ok(RecordKind::Service)
        } else if text_equals(name, "CAA") {
            Ok(RecordKind::CertificateAuthorityAuthorization)
        } else if text_equals(name, "SSHFP") {
            Ok(RecordKind::SecureShellFingerprint)
        } else if text_equals(name, "TLSA") {
            Ok(RecordKind::TransportLayerSecurityAuthentication)
        } else if text_equals(name, "URI") {
            Ok(RecordKind::UniformResourceIdentifier)
        } else if text_equals(name, "SVCB") {
            Ok(RecordKind::ServiceBinding)
        } else if text_equals(name, "HTTPS") {
            Ok(RecordKind::HttpsBinding)
        } else if text_equals(name, "LOC") {
            Ok(RecordKind::Location)
        } else {
            Err(Error::UnsupportedRecordKind(self.0))
        }
    }
}

/// Every record kind survives the trip through its wire name, and a name
/// denotes a kind only when it is that kind's wire name: any other name is
/// refused.
pub proof fn record_kind_names_round_trip(kind: RecordKind, name: Seq<char>)
    ensures
        record_kind_of_name(record_type_name(kind)) == Some(kind),
        record_kind_of_name(name) matches Some(denoted) ==> record_type_name(denoted) == name,
        (forall|other: RecordKind| #[trigger] record_type_name(other) != name) ==> record_kind_of_name(name) is None,
{
    reveal_strlit("A");
    reveal_strlit("AAAA");
    reveal_strlit("CNAME");
    reveal_strlit("TXT");
    reveal_strlit("MX");
    reveal_strlit("NS");
    reveal_strlit("PTR");
    reveal_strlit("SRV");
    reveal_strlit("CAA");
    reveal_strlit("SSHFP");
    reveal_strlit("TLSA");
    reveal_strlit("URI");
    reveal_strlit("SVCB");
    reveal_strlit("HTTPS");
    reveal_strlit("LOC");
    assert("A"@.len() == 1 && "A"@[0] == 'A');
    assert("AAAA"@.len() == 4 && "AAAA"@[0] == 'A');
    assert("CNAME"@.len() == 5 && "CNAME"@[0] == 'C');
    assert("TXT"@.len() == 3 && "TXT"@[0] == 'T');
    assert("MX"@.len() == 2 && "MX"@[0] == 'M');
    assert("NS"@.len() == 2 && "NS"@[0] == 'N');
    assert("PTR"@.len() == 3 && "PTR"@[0] == 'P');
    assert("SRV"@.len() == 3 && "SRV"@[0] == 'S');
    assert("CAA"@.len() == 3 && "CAA"@[0] == 'C');
    assert("SSHFP"@.len() == 5 && "SSHFP"@[0] == 'S');
    assert("TLSA"@.len() == 4 && "TLSA"@[0] == 'T');
    assert("URI"@.len() == 3 && "URI"@[0] == 'U');
    assert("SVCB"@.len() == 4 && "SVCB"@[0] == 'S');
    assert("HTTPS"@.len() == 5 && "HTTPS"@[0] == 'H');
    assert("LOC"@.len() == 3 && "LOC"@[0] == 'L');
    match kind {
        RecordKind::AddressV4 => assert(record_kind_of_name("A"@) == Some(kind)),
        RecordKind::AddressV6 => assert(record_kind_of_name("AAAA"@) == Some(kind)),
        RecordKind::CanonicalName => assert(record_kind_of_name("CNAME"@) == Some(kind)),
        RecordKind::Text => assert(record_kind_of_name("TXT"@) == Some(kind)),
        RecordKind::MailExchange => assert(record_kind_of_name("MX"@) == Some(kind)),
        RecordKind::NameServer => assert(record_kind_of_name("NS"@) == Some(kind)),
        RecordKind::Pointer => assert(record_kind_of_name("PTR"@) == Some(kind)),
        RecordKind::Service => assert(record_kind_of_name("SRV"@) == Some(kind)),
        RecordKind::CertificateAuthorityAuthorization => assert(record_kind_of_name("CAA"@) == Some(kind)),
        RecordKind::SecureShellFingerprint => assert(record_kind_of_name("SSHFP"@) == Some(kind)),
        RecordKind::TransportLayerSecurityAuthentication => assert(record_kind_of_name("TLSA"@) == Some(kind)),
        RecordKind::UniformResourceIdentifier => assert(record_kind_of_name("URI"@) == Some(kind)),
        RecordKind::ServiceBinding => assert(record_kind_of_name("SVCB"@) == Some(kind)),
        RecordKind::HttpsBinding => assert(record_kind_of_name("HTTPS"@) == Some(kind)),
        RecordKind::Location => assert(record_kind_of_name("LOC"@) == Some(kind)),
    }
}

// ------------------------------------------------------ local record lists

/// The records of `records` whose identifier is not listed in `deleted`, in
/// order.
pub open spec fn without_identifiers(records: Seq<ApiRecordView>, deleted: Seq<Seq<char>>) -> Seq<ApiRecordView>
    decreases records.len(),
{
    if records.len() == 0 {
        Seq::empty()
    } else {
        let earlier = without_identifiers(records.drop_last(), deleted);
        if deleted.contains(records.last().identifier) {
            earlier
        } else {
            earlier.push(records.last())
        }
    }
}

/// The records after putting each returned record in turn, by identifier.
pub open spec fn with_all_applied(records: Seq<ApiRecordView>, returned: Seq<ApiRecordView>) -> Seq<ApiRecordView>
    decreases returned.len(),
{
    if returned.len() == 0 {
        records
    } else {
        with_applied(with_all_applied(records, returned.drop_last()), returned.last())
    }
}

/// The zone listing after a plan: the zone's initial records without those
/// whose name the plan deletes, then each record the provider returned for a
/// create or update put in its place, in plan order.
pub open spec fn applied_listing(
    initial: Seq<ApiRecordView>,
    deleted_names: Seq<Seq<char>>,
    returned: Seq<ApiRecordView>,
) -> Seq<RecordView> {
    with_all_applied(without_identifiers(initial, named_identifiers(initial, deleted_names)), returned).map_values(
        |r: ApiRecordView| r.record,
    )
}

/// The identifiers of the records whose name is listed, in order.
pub open spec fn named_identifiers(records: Seq<ApiRecordView>, names: Seq<Seq<char>>) -> Seq<Seq<char>>
    decreases records.len(),
{
    if records.len() == 0 {
        Seq::empty()
    } else {
        let earlier = named_identifiers(records.drop_last(), names);
        if names.contains(records.last().record.name) {
            earlier.push(records.last().identifier)
        } else {
            earlier
        }
    }
}

/// Some record carries a listed name.
pub open spec fn has_listed_name(records: Seq<ApiRecordView>, names: Seq<Seq<char>>) -> bool {
    exists|i: int| 0 <= i < records.len() && names.contains(#[trigger] records[i].record.name)
}

/// `records` with `applied` in place of the first record sharing its
/// identifier, or appended when none does.
pub open spec fn with_applied(records: Seq<ApiRecordView>, applied: ApiRecordView) -> Seq<ApiRecordView> {
    if exists|i: int| 0 <= i < records.len() && #[trigger] records[i].identifier == applied.identifier {
        let i = choose|i: int|
            0 <= i < records.len() && #[trigger] records[i].identifier == applied.identifier && forall|j: int|
                0 <= j < i ==> records[j].identifier != applied.identifier;
        records.update(i, applied)
    } else {
        records.push(applied)
    }
}

/// Keeps the records whose identifier is not in `deleted`.
pub fn retain_undeleted(records: Vec<ApiRecord>, deleted: &Vec<RecordIdentifier>) -> (kept: Vec<ApiRecord>)
    ensures
        kept.deep_view() == without_identifiers(records.deep_view(), deleted@.map_values(|i: RecordIdentifier| i.0@)),
{
    let ghost source = records.deep_view();
    let ghost deleted_view = deleted@.map_values(|i: RecordIdentifier| i.0@);
    let mut kept: Vec<ApiRecord> = Vec::new();
    let mut remaining = records;
    let ghost mut taken: int = 0;
    while remaining.len() > 0
        invariant
            0 <= taken <= source.len(),
            taken + remaining.len() == source.len(),
            forall|i: int| 0 <= i < remaining.len() ==> #[trigger] remaining@[i]@ == source[taken + i],
            kept.deep_view() == without_identifiers(source.take(taken), deleted_view),
            deleted_view == deleted@.map_values(|i: RecordIdentifier| i.0@),
        decreases remaining.len(),
    {
        let record = remaining.remove(0);
        proof {
            let next = source.take(taken + 1);
            assert(next.drop_last() =~= source.take(taken));
            assert(next.last() == record@);
        }
        if !contains_identifier(deleted, &record.identifier) {
            kept.push(record);
        }
        proof {
            taken = taken + 1;
            assert(kept.deep_view() =~= without_identifiers(source.take(taken), deleted_view));
        }
    }
    assert(source.take(taken) =~= source);
    kept
}

/// Whether `identifiers` holds `identifier`.
pub fn contains_identifier(identifiers: &Vec<RecordIdentifier>, identifier: &RecordIdentifier) -> (found: bool)
    ensures
        found == identifiers@.map_values(|i: RecordIdentifier| i.0@).contains(identifier.0@),
{
    let ghost view = identifiers@.map_values(|i: RecordIdentifier| i.0@);
    let mut index: usize = 0;
    while index < identifiers.len()
        invariant
            view == identifiers@.map_values(|i: RecordIdentifier| i.0@),
            index <= identifiers.len(),
            forall|i: int| 0 <= i < index ==> view[i] != identifier.0@,
        decreases identifiers.len() - index,
    {
        if identifiers[index].0 == identifier.0 {
            assert(view[index as int] == identifier.0@);
            return true;
        }
        index = index + 1;
    }
    false
}

/// Puts `applied` in place of the first record with its identifier, or
/// appends it.
pub fn replace_or_push(records: &mut Vec<ApiRecord>, applied: ApiRecord)
    ensures
        final(records).deep_view() == with_applied(old(records).deep_view(), applied@),
{
    let ghost before = records.deep_view();
    let mut index: usize = 0;
    while index < records.len()
        invariant
            before == records.deep_view(),
            before == old(records).deep_view(),
            index <= records.len(),
            forall|j: int| 0 <= j < index ==> before[j].identifier != applied@.identifier,
        decreases records.len() - index,
    {
        if records[index].identifier.0 == applied.identifier.0 {
            let ghost applied_view = applied@;
            records.set(index, applied);
            proof {
                assert(before[index as int].identifier == applied_view.identifier);
                assert(0 <= index < before.len() && before[index as int].identifier == applied_view.identifier
                    && forall|j: int| 0 <= j < index ==> before[j].identifier != applied_view.identifier);
                let i = choose|i: int|
                    0 <= i < before.len() && #[trigger] before[i].identifier == applied_view.identifier && forall|j: int|
                        0 <= j < i ==> before[j].identifier != applied_view.identifier;
                assert(i == index) by {
                    if i < index {
                        assert(before[i].identifier != applied_view.identifier);
                    } else if i > index {
                        assert(before[index as int].identifier != applied_view.identifier);
                    }
                }
                assert(exists|i: int| 0 <= i < before.len() && #[trigger] before[i].identifier == applied_view.identifier);
                assert(with_applied(before, applied_view) == before.update(index as int, applied_view));
                assert(records.deep_view() =~= before.update(index as int, applied_view));
            }
            return;
        }
        index = index + 1;
    }
    let ghost applied_view = applied@;
    records.push(applied);
    assert(records.deep_view() =~= before.push(applied_view));
}

/// The index of the first record with the identity of `desired`.
/// The position of the first record at or after `start` with the name and
/// kind of `desired`.
pub open spec fn same_identity_from(records: Seq<ApiRecord>, desired: RecordView, start: int) -> Option<int>
    decreases records.len() - start,
{
    if start < 0 || start >= records.len() {
        None
    } else if records[start].name@ == desired.name && records[start].kind == desired.kind {
        Some(start)
    } else {
        same_identity_from(records, desired, start + 1)
    }
}

pub fn find_same_identity(records: &Vec<ApiRecord>, desired: &DomainNameSystemRecord) -> (found: Option<usize>)
    ensures
        match found {
            Some(i) => same_identity_from(records@, desired@, 0) == Some(i as int),
            None => same_identity_from(records@, desired@, 0) is None,
        },
        match found {
            Some(i) => i < records.len() && records@[i as int].name@ == desired.name@
                && records@[i as int].kind == desired.kind && forall|j: int|
                0 <= j < i ==> !(records@[j].name@ == desired.name@ && records@[j].kind == desired.kind),
            None => forall|j: int|
                0 <= j < records.len() ==> !(records@[j].name@ == desired.name@ && #[trigger] records@[j].kind
                    == desired.kind),
        },
{
    let mut index: usize = 0;
    while index < records.len()
        invariant
            index <= records.len(),
            forall|j: int| 0 <= j < index ==> !(records@[j].name@ == desired.name@ && records@[j].kind == desired.kind),
            same_identity_from(records@, desired@, 0) == same_identity_from(records@, desired@, index as int),
        decreases records.len() - index,
    {
        if records[index].name == desired.name && records[index].kind == desired.kind {
            return Some(index);
        }
        index = index + 1;
    }
    None
}

// --------------------------------------------------------- provider client

/// The daemon-owned Cloudflare client: a DNS mechanism plus a credential
/// source.
pub struct ProviderClient<A: Api, S: CredentialSource> {
    pub api: A,
    pub credentials: S,
}

impl<A: Api, S: CredentialSource> ProviderClient<A, S> {
    pub fn new(api: A, credentials: S) -> (client: Self)
        ensures
            client.api == api,
            client.credentials == credentials,
    {
        ProviderClient { api, credentials }
    }

    /// Succeeds when the credential handle resolves to a token.
    pub fn verify_credential(&self, credential: &String) -> (outcome: Result<(), Error>)
        ensures
            exists|answer: Result<Token, Error>|
                #[trigger] self.credentials.token_answer(credential@, answer) && match answer {
                    Ok(_) => outcome == Ok::<(), Error>(()),
                    Err(error) => outcome == Err::<(), Error>(error),
                },
    {
        match self.credentials.token(credential) {
            Ok(_) => Ok(()),
            Err(error) => Err(error),
        }
    }

    /// What gathering the zones answered, given the API's `answers` to the
    /// `requests` in order: every answer but the last succeeded; a failed
    /// last answer is the result as is and nothing more was asked; otherwise
    /// every request was answered and the result is every listing, tagged
    /// with Cloudflare and `account`, in request order.
    pub open spec fn zones_gathered(
        &self,
        token: Token,
        requests: Seq<Option<Seq<char>>>,
        account: Seq<char>,
        answers: Seq<Result<Vec<ApiZone>, Error>>,
        zones: Result<Vec<Zone>, Error>,
    ) -> bool {
        &&& 1 <= answers.len() <= requests.len()
        &&& forall|i: int| 0 <= i < answers.len() ==> #[trigger] self.api.zone_listing(token, requests[i], answers[i])
        &&& forall|i: int| 0 <= i < answers.len() - 1 ==> (#[trigger] answers[i]) is Ok
        &&& match answers.last() {
            Err(error) => zones == Err::<Vec<Zone>, Error>(error),
            Ok(_) => {
                &&& answers.len() == requests.len()
                &&& zones matches Ok(listed) && listed.deep_view() == tagged_zones(answered_listings(answers), account)
            },
        }
    }

    /// The zones the account holds, either all of them (no names given) or
    /// those Cloudflare returns for each given name, tagged with the provider
    /// and the account: one API call for the whole account or one per name
    /// in the order given, the listings concatenated, the first error
    /// returned as is.
    pub fn zones(&self, account: &String, credential: &String, names: &Vec<String>) -> (zones: Result<Vec<Zone>, Error>)
        ensures
            zones matches Ok(listed) ==> forall|i: int|
                0 <= i < listed.len() ==> (#[trigger] listed@[i]).provider == Provider::Cloudflare
                    && listed@[i].account@ == account@,
            exists|answer: Result<Token, Error>|
                #[trigger] self.credentials.token_answer(credential@, answer) && match answer {
                    Err(error) => zones == Err::<Vec<Zone>, Error>(error),
                    Ok(token) => exists|answers: Seq<Result<Vec<ApiZone>, Error>>|
                        #[trigger] self.zones_gathered(
                            token,
                            zone_requests(names.deep_view()),
                            account@,
                            answers,
                            zones,
                        ),
                },
    {
        let looked_up = self.credentials.token(credential);
        let ghost token_answer = looked_up;
        assert(self.credentials.token_answer(credential@, token_answer));
        let token = match looked_up {
            Ok(token) => token,
            Err(error) => {
                return Err(error);
            },
        };
        let ghost requests = zone_requests(names.deep_view());
        let mut zones: Vec<Zone> = Vec::new();
        if names.len() == 0 {
            let answer = self.api.zones(&token, None);
            let ghost answers = seq![answer];
            proof {
                assert(requests == seq![None::<Seq<char>>]);
                assert(self.api.zone_listing(token, requests[0], answers[0]));
            }
            let found = match answer {
                Ok(found) => found,
                Err(error) => {
                    assert(self.zones_gathered(token, requests, account@, answers, Err(error)));
                    return Err(error);
                },
            };
            let ghost part = found@;
            let ghost empty_view = zones.deep_view();
            assert(empty_view =~= Seq::<ZoneView>::empty());
            append_zones(&mut zones, found, account);
            proof {
                assert forall|i: int| 0 <= i < zones.len() implies (#[trigger] zones@[i]).provider == Provider::Cloudflare
                    && zones@[i].account@ == account@ by {
                    assert(zones@[0 + i] == zones@[i]);
                }
                let parts = answered_listings(answers);
                assert(parts =~= seq![part]);
                assert(parts.drop_last() =~= Seq::<Seq<ApiZone>>::empty());
                assert(tagged_zones(parts.drop_last(), account@) == Seq::<ZoneView>::empty());
                assert(zones.deep_view() =~= tagged_zones(parts, account@));
                assert(self.zones_gathered(token, requests, account@, answers, Ok(zones)));
            }
            return Ok(zones);
        }
        let ghost mut answers: Seq<Result<Vec<ApiZone>, Error>> = Seq::empty();
        let mut index: usize = 0;
        while index < names.len()
            invariant
                index <= names.len(),
                requests == zone_requests(names.deep_view()),
                names.len() > 0,
                answers.len() == index,
                self.credentials.token_answer(credential@, token_answer),
                token_answer == Ok::<Token, Error>(token),
                forall|i: int| 0 <= i < index ==> #[trigger] self.api.zone_listing(token, requests[i], answers[i]),
                forall|i: int| 0 <= i < index ==> (#[trigger] answers[i]) is Ok,
                zones.deep_view() == tagged_zones(answered_listings(answers), account@),
                forall|i: int|
                    0 <= i < zones.len() ==> (#[trigger] zones@[i]).provider == Provider::Cloudflare
                        && zones@[i].account@ == account@,
            decreases names.len() - index,
        {
            let answer = self.api.zones(&token, Some(&names[index]));
            let ghost next = answers.push(answer);
            proof {
                assert(requests[index as int] == Some(names.deep_view()[index as int]));
                assert forall|i: int| 0 <= i < index + 1 implies #[trigger] self.api.zone_listing(token, requests[i], next[i]) by {
                    if i < index {
                        assert(next[i] == answers[i]);
                    }
                }
            }
            let found = match answer {
                Ok(found) => found,
                Err(error) => {
                    proof {
                        assert forall|i: int| 0 <= i < next.len() - 1 implies (#[trigger] next[i]) is Ok by {
                            assert(next[i] == answers[i]);
                        }
                        assert(next.last() == Err::<Vec<ApiZone>, Error>(error));
                        assert(1 <= next.len() <= requests.len());
                        assert(forall|i: int| 0 <= i < next.len() ==> #[trigger] self.api.zone_listing(token, requests[i], next[i]));
                        assert(self.zones_gathered(token, requests, account@, next, Err(error)));
                        assert(self.zones_gathered(token, zone_requests(names.deep_view()), account@, next, Err(error)));
                        assert(token_answer matches Ok(t) && t == token);
                    }
                    return Err(error);
                },
            };
            let ghost before = zones@;
            let ghost part = found@;
            append_zones(&mut zones, found, account);
            proof {
                assert forall|i: int| 0 <= i < zones.len() implies (#[trigger] zones@[i]).provider == Provider::Cloudflare
                    && zones@[i].account@ == account@ by {
                    if i < before.len() {
                        assert(zones@[i] == before[i]);
                    } else {
                        assert(zones@[before.len() + (i - before.len())] == zones@[i]);
                    }
                }
                let parts = answered_listings(next);
                assert(parts.drop_last() =~= answered_listings(answers));
                assert(parts.last() == part);
                assert(zones.deep_view() =~= tagged_zones(parts, account@));
                assert forall|i: int| 0 <= i < index + 1 implies (#[trigger] next[i]) is Ok by {
                    if i < index {
                        assert(next[i] == answers[i]);
                    }
                }
                answers = next;
            }
            index = index + 1;
        }
        proof {
            assert(self.zones_gathered(token, requests, account@, answers, Ok(zones)));
        }
        Ok(zones)
    }

    /// The records of a zone, without their Cloudflare identifiers.
    pub fn records(&self, credential: &String, zone: &String) -> (listing: Result<Vec<DomainNameSystemRecord>, Error>)
        ensures
            exists|answer: Result<Token, Error>|
                #[trigger] self.credentials.token_answer(credential@, answer) && match answer {
                    Err(error) => listing == Err::<Vec<DomainNameSystemRecord>, Error>(error),
                    Ok(token) => exists|found: Result<Vec<ApiRecord>, Error>|
                        #[trigger] self.api.record_listing(token, zone@, found) && match found {
                            Err(error) => listing == Err::<Vec<DomainNameSystemRecord>, Error>(error),
                            Ok(records) => listing matches Ok(values) && values.deep_view() == record_values(
                                records.deep_view(),
                            ),
                        },
                },
    {
        let looked_up = self.credentials.token(credential);
        let ghost token_answer = looked_up;
        assert(self.credentials.token_answer(credential@, token_answer));
        let token = match looked_up {
            Ok(token) => token,
            Err(error) => {
                return Err(error);
            },
        };
        let found = self.api.records(&token, zone);
        let ghost answer = found;
        assert(self.api.record_listing(token, zone@, answer));
        match found {
            Ok(records) => Ok(domain_records(records)),
            Err(error) => Err(error),
        }
    }

    /// Applies a plan to a zone: deletes every record whose name the plan
    /// deletes, then creates or updates each planned record (updating the
    /// first existing record with the same name and kind), and returns the
    /// zone's records as the client tracked them.
    pub fn apply_plan(&self, credential: &String, zone: &String, plan: &Plan) -> (listing: Result<Vec<DomainNameSystemRecord>, Error>)
        ensures
            listing matches Ok(records) ==> exists|initial: Seq<ApiRecordView>, returned: Seq<ApiRecordView>|
                returned.len() == plan.records_to_create.len() + plan.records_to_update.len()
                    && records.deep_view() == #[trigger] applied_listing(
                    initial,
                    plan.record_names_to_delete.deep_view(),
                    returned,
                ),
            listing is Ok ==> exists|used: Token, listed: Vec<ApiRecord>, put: Seq<ApiRecordView>|
                self.credentials.token_answer(credential@, Ok(used)) && #[trigger] self.plan_applied_through(
                    used,
                    zone@,
                    plan@,
                    listed,
                    put,
                    listing,
                ),
    {
        let looked_up = self.credentials.token(credential);
        let ghost token_answer = looked_up;
        let token = looked_up?;
        assert(self.credentials.token_answer(credential@, Ok(token)));
        let mut records = self.api.records(&token, zone)?;
        let ghost initial_records = records;
        assert(self.api.record_listing(token, zone@, Ok(initial_records)));
        let ghost initial = records.deep_view();
        self.delete_named_records(&token, zone, &mut records, &plan.record_names_to_delete)?;
        let ghost start = records.deep_view();
        assert(initial == initial_records.deep_view());
        assert(start == without_identifiers(
            initial_records.deep_view(),
            named_identifiers(initial_records.deep_view(), plan@.record_names_to_delete),
        ));
        let ghost desired = planned_puts(plan@);
        let ghost mut returned: Seq<ApiRecordView> = Seq::empty();
        let mut index: usize = 0;
        while index < plan.records_to_create.len()
            invariant
                index <= plan.records_to_create.len(),
                returned.len() == index,
                records.deep_view() == with_all_applied(start, returned),
                desired == planned_puts(plan@),
                forall|k: int| 0 <= k < returned.len() ==> #[trigger] put_routed(self.api, token, zone@, start, desired, returned, k),
            decreases plan.records_to_create.len() - index,
        {
            let ghost before = records.deep_view();
            let ghost before_records = records@;
            self.upsert_record(&token, zone, &mut records, &plan.records_to_create[index])?;
            proof {
                assert(desired[index as int] == plan.records_to_create@[index as int]@);
                let put = self.routed_put(token, zone@, before_records, before, records.deep_view(), desired[index as int]);
                lemma_put_extends_routing(self.api, token, zone@, start, desired, returned, put);
                assert(returned.push(put).drop_last() =~= returned);
                returned = returned.push(put);
            }
            index = index + 1;
        }
        let mut index: usize = 0;
        while index < plan.records_to_update.len()
            invariant
                index <= plan.records_to_update.len(),
                returned.len() == plan.records_to_create.len() + index,
                records.deep_view() == with_all_applied(start, returned),
                desired == planned_puts(plan@),
                forall|k: int| 0 <= k < returned.len() ==> #[trigger] put_routed(self.api, token, zone@, start, desired, returned, k),
            decreases plan.records_to_update.len() - index,
        {
            let ghost before = records.deep_view();
            let ghost before_records = records@;
            self.upsert_record(&token, zone, &mut records, &plan.records_to_update[index])?;
            proof {
                assert(desired[plan.records_to_create.len() + index] == plan.records_to_update@[index as int]@);
                let put = self.routed_put(token, zone@, before_records, before, records.deep_view(), desired[plan.records_to_create.len() + index]);
                lemma_put_extends_routing(self.api, token, zone@, start, desired, returned, put);
                assert(returned.push(put).drop_last() =~= returned);
                returned = returned.push(put);
            }
            index = index + 1;
        }
        let applied = domain_records(records);
        assert(applied.deep_view() == applied_listing(initial, plan.record_names_to_delete.deep_view(), returned));
        proof {
            assert(self.api.record_listing(token, zone@, Ok(initial_records)));
            assert(returned.len() == plan@.records_to_create.len() + plan@.records_to_update.len());
            assert(forall|k: int|
                0 <= k < returned.len() ==> #[trigger] put_routed(self.api, token, zone@, start, planned_puts(plan@), returned, k));
            assert(self.credentials.token_answer(credential@, Ok::<Token, Error>(token)));
        }
        let listing: Result<Vec<DomainNameSystemRecord>, Error> = Ok(applied);
        assert(self.plan_applied_through(token, zone@, plan@, initial_records, returned, listing));
        listing
    }

    /// What applying a plan did through `token`, given the zone's `initial`
    /// records as the API listed them and the records the API `returned` for
    /// the planned puts: every record whose name the plan deletes was
    /// deleted by its identifier; each planned record (creates, then updates) updated
    /// the first record then in place with its name and kind, by that
    /// record's identifier, or was created when there was none; the listing
    /// is the initial records without the deleted names, with every returned
    /// record put in place.
    pub open spec fn plan_applied_through(
        &self,
        token: Token,
        zone: Seq<char>,
        plan: PlanView,
        initial: Vec<ApiRecord>,
        returned: Seq<ApiRecordView>,
        listing: Result<Vec<DomainNameSystemRecord>, Error>,
    ) -> bool {
        let start = without_identifiers(
            initial.deep_view(),
            named_identifiers(initial.deep_view(), plan.record_names_to_delete),
        );
        &&& self.api.record_listing(token, zone, Ok(initial))
        &&& forall|k: int|
            0 <= k < named_identifiers(initial.deep_view(), plan.record_names_to_delete).len()
                ==> #[trigger] deleted_through(self.api, token, zone, named_identifiers(initial.deep_view(), plan.record_names_to_delete)[k])
        &&& returned.len() == plan.records_to_create.len() + plan.records_to_update.len()
        &&& listing matches Ok(records) && records.deep_view() == applied_listing(
            initial.deep_view(),
            plan.record_names_to_delete,
            returned,
        )
        &&& forall|k: int|
            0 <= k < returned.len() ==> #[trigger] put_routed(self.api, token, zone, start, planned_puts(plan), returned, k)
    }

    /// The record an upsert put in place, read off its contract: the answer
    /// of the update or creation it was routed to.
    proof fn routed_put(
        &self,
        token: Token,
        zone: Seq<char>,
        before_records: Seq<ApiRecord>,
        before: Seq<ApiRecordView>,
        after: Seq<ApiRecordView>,
        desired: RecordView,
    ) -> (put: ApiRecordView)
        requires
            before.len() == before_records.len(),
            forall|j: int| 0 <= j < before.len() ==> before[j] == (#[trigger] before_records[j])@,
            match same_identity_from(before_records, desired, 0) {
                Some(i) => exists|answer: Result<ApiRecord, Error>|
                    #[trigger] self.api.update(token, zone, before_records[i].identifier.0@, desired, answer)
                        && upserted(answer, before, after, Ok(())),
                None => exists|answer: Result<ApiRecord, Error>|
                    #[trigger] self.api.creation(token, zone, desired, answer) && upserted(answer, before, after, Ok(())),
            },
        ensures
            after == with_applied(before, put),
            match identity_in(before, desired, 0) {
                Some(i) => exists|r: ApiRecord|
                    r@ == put && #[trigger] self.api.update(token, zone, before[i].identifier, desired, Ok::<ApiRecord, Error>(r)),
                None => exists|r: ApiRecord|
                    r@ == put && #[trigger] self.api.creation(token, zone, desired, Ok::<ApiRecord, Error>(r)),
            },
    {
        lemma_identity_in_views(before_records, before, desired, 0);
        match same_identity_from(before_records, desired, 0) {
            Some(i) => {
                let answer = choose|answer: Result<ApiRecord, Error>|
                    #[trigger] self.api.update(token, zone, before_records[i].identifier.0@, desired, answer)
                        && upserted(answer, before, after, Ok(()));
                assert(answer is Ok);
                let r = answer->Ok_0;
                assert(answer == Ok::<ApiRecord, Error>(r));
                assert(before[i] == before_records[i]@);
                assert(self.api.update(token, zone, before[i].identifier, desired, Ok::<ApiRecord, Error>(r)));
                r@
            },
            None => {
                let answer = choose|answer: Result<ApiRecord, Error>|
                    #[trigger] self.api.creation(token, zone, desired, answer) && upserted(answer, before, after, Ok(()));
                assert(answer is Ok);
                let r = answer->Ok_0;
                assert(answer == Ok::<ApiRecord, Error>(r));
                assert(self.api.creation(token, zone, desired, Ok::<ApiRecord, Error>(r)));
                r@
            },
        }
    }

    /// Deletes, in order, every record whose name is listed, and drops the
    /// deleted records from the local list. On success no remaining record
    /// carries a listed name.
    pub fn delete_named_records(
        &self,
        token: &Token,
        zone: &String,
        records: &mut Vec<ApiRecord>,
        names: &Vec<String>,
    ) -> (deleted: Result<(), Error>)
        ensures
            deleted is Ok ==> forall|i: int|
                0 <= i < final(records).len() ==> !names.deep_view().contains(
                    #[trigger] final(records)@[i].name@,
                ),
            deleted is Ok ==> final(records).deep_view() == without_identifiers(
                old(records).deep_view(),
                named_identifiers(old(records).deep_view(), names.deep_view()),
            ),
            deleted is Err ==> final(records)@ == old(records)@,
            !has_listed_name(old(records).deep_view(), names.deep_view()) ==> deleted is Ok,
            deleted is Ok ==> forall|k: int|
                0 <= k < named_identifiers(old(records).deep_view(), names.deep_view()).len()
                    ==> #[trigger] deleted_through(self.api, *token, zone@, named_identifiers(old(records).deep_view(), names.deep_view())[k]),
    {
        let ghost source = records.deep_view();
        let ghost listed = names.deep_view();
        let ghost any_listed = has_listed_name(source, listed);
        let mut deleted_identifiers: Vec<RecordIdentifier> = Vec::new();
        let mut index: usize = 0;
        while index < records.len()
            invariant
                index <= records.len(),
                *records == *old(records),
                source == records.deep_view(),
                listed == names.deep_view(),
                any_listed == has_listed_name(source, listed),
                deleted_identifiers@.map_values(|i: RecordIdentifier| i.0@) == named_identifiers(
                    source.take(index as int),
                    listed,
                ),
                forall|j: int|
                    0 <= j < index && names.deep_view().contains(#[trigger] records@[j].name@)
                        ==> deleted_identifiers@.map_values(|i: RecordIdentifier| i.0@).contains(
                        records@[j].identifier.0@,
                    ),
                forall|k: int|
                    0 <= k < deleted_identifiers.len() ==> #[trigger] deleted_through(self.api, *token, zone@, deleted_identifiers@[k].0@),
            decreases records.len() - index,
        {
            proof {
                let next = source.take(index + 1);
                assert(next.drop_last() =~= source.take(index as int));
                assert(next.last() == records@[index as int]@);
            }
            if crate::record_plan::contains_name(names, &records[index].name) {
                proof {
                    assert(source[index as int] == records@[index as int]@);
                    assert(listed.contains(source[index as int].record.name));
                    assert(has_listed_name(source, listed));
                }
                let outcome = self.api.delete_record(token, zone, &records[index].identifier);
                let ghost answered = outcome;
                if let Err(error) = outcome {
                    return Err(error);
                }
                assert(answered is Ok);
                let ghost before = deleted_identifiers@;
                deleted_identifiers.push(records[index].identifier.clone());
                proof {
                    assert forall|k: int| 0 <= k < deleted_identifiers.len() implies #[trigger] deleted_through(self.api, *token, zone@, deleted_identifiers@[k].0@) by {
                        if k < before.len() {
                            assert(deleted_identifiers@[k] == before[k]);
                        } else {
                            assert(self.api.deletion(*token, zone@, deleted_identifiers@[k].0@, answered));
                        }
                    }
                    let view = deleted_identifiers@.map_values(|i: RecordIdentifier| i.0@);
                    assert(view == before.map_values(|i: RecordIdentifier| i.0@).push(records@[index as int].identifier.0@));
                    assert forall|j: int|
                        0 <= j < index + 1 && names.deep_view().contains(#[trigger] records@[j].name@) implies view.contains(
                        records@[j].identifier.0@,
                    ) by {
                        if j < index {
                            let earlier_view = before.map_values(|i: RecordIdentifier| i.0@);
                            let k = choose|k: int|
                                0 <= k < earlier_view.len() && #[trigger] earlier_view[k]
                                    == records@[j].identifier.0@;
                            assert(view[k] == records@[j].identifier.0@);
                        } else {
                            assert(view[view.len() - 1] == records@[j].identifier.0@);
                        }
                    }
                }
            }
            index = index + 1;
        }
        let ghost before = records.deep_view();
        let ghost deleted_view = deleted_identifiers@.map_values(|i: RecordIdentifier| i.0@);
        assert(source.take(source.len() as int) =~= source);
        assert forall|k: int| 0 <= k < named_identifiers(source, listed).len() implies #[trigger] deleted_through(self.api, *token, zone@, named_identifiers(source, listed)[k]) by {
            assert(deleted_view[k] == deleted_identifiers@[k].0@);
        }
        let mut current: Vec<ApiRecord> = Vec::new();
        core::mem::swap(&mut current, records);
        assert(current.deep_view() == before);
        let kept = retain_undeleted(current, &deleted_identifiers);
        proof {
            lemma_kept_lack_deleted(before, deleted_view);
            assert forall|i: int| 0 <= i < kept.len() implies !names.deep_view().contains(#[trigger] kept@[i].name@) by {
                assert(kept.deep_view()[i] == kept@[i]@);
                lemma_kept_come_from(before, deleted_view, i);
                let j = choose|j: int| 0 <= j < before.len() && before[j] == without_identifiers(before, deleted_view)[i];
                if names.deep_view().contains(kept@[i].name@) {
                    assert(before[j].record.name == kept@[i].name@);
                }
            }
        }
        *records = kept;
        Ok(())
    }

    /// Updates the first record with the desired record's name and kind, or
    /// creates the record when there is none, and puts what Cloudflare
    /// returned into the local list.
    pub fn upsert_record(
        &self,
        token: &Token,
        zone: &String,
        records: &mut Vec<ApiRecord>,
        desired: &DomainNameSystemRecord,
    ) -> (applied: Result<(), Error>)
        ensures
            applied is Ok ==> exists|returned: ApiRecordView|
                final(records).deep_view() == #[trigger] with_applied(old(records).deep_view(), returned),
            applied is Err ==> final(records)@ == old(records)@,
            match same_identity_from(old(records)@, desired@, 0) {
                Some(i) => exists|answer: Result<ApiRecord, Error>|
                    #[trigger] self.api.update(*token, zone@, old(records)@[i].identifier.0@, desired@, answer)
                        && upserted(answer, old(records).deep_view(), final(records).deep_view(), applied),
                None => exists|answer: Result<ApiRecord, Error>|
                    #[trigger] self.api.creation(*token, zone@, desired@, answer) && upserted(
                        answer,
                        old(records).deep_view(),
                        final(records).deep_view(),
                        applied,
                    ),
            },
    {
        let answer = match find_same_identity(records, desired) {
            Some(index) => {
                let identifier = records[index].identifier.clone();
                let answer = self.api.update_record(token, zone, &identifier, desired);
                assert(self.api.update(*token, zone@, records@[index as int].identifier.0@, desired@, answer));
                answer
            },
            None => {
                let answer = self.api.create_record(token, zone, desired);
                assert(self.api.creation(*token, zone@, desired@, answer));
                answer
            },
        };
        let ghost given = answer;
        let ghost before = records.deep_view();
        assert(match same_identity_from(records@, desired@, 0) {
            Some(i) => self.api.update(*token, zone@, records@[i].identifier.0@, desired@, given),
            None => self.api.creation(*token, zone@, desired@, given),
        });
        let returned = match answer {
            Ok(returned) => returned,
            Err(error) => {
                assert(upserted(given, before, records.deep_view(), Err(error)));
                return Err(error);
            },
        };
        replace_or_push(records, returned);
        assert(upserted(given, before, records.deep_view(), Ok(())));
        Ok(())
    }
}

proof fn lemma_kept_lack_deleted(records: Seq<ApiRecordView>, deleted: Seq<Seq<char>>)
    ensures
        forall|i: int|
            0 <= i < without_identifiers(records, deleted).len() ==> !deleted.contains(
                #[trigger] without_identifiers(records, deleted)[i].identifier,
            ),
    decreases records.len(),
{
    if records.len() > 0 {
        lemma_kept_lack_deleted(records.drop_last(), deleted);
        let earlier = without_identifiers(records.drop_last(), deleted);
        let kept = without_identifiers(records, deleted);
        assert forall|i: int| 0 <= i < kept.len() implies !deleted.contains(#[trigger] kept[i].identifier) by {
            if i < earlier.len() {
                assert(kept[i] == earlier[i]);
            }
        }
    }
}

proof fn lemma_kept_come_from(records: Seq<ApiRecordView>, deleted: Seq<Seq<char>>, i: int)
    requires
        0 <= i < without_identifiers(records, deleted).len(),
    ensures
        exists|j: int|
            0 <= j < records.len() && records[j] == without_identifiers(records, deleted)[i] && !deleted.contains(
                records[j].identifier,
            ),
    decreases records.len(),
{
    let earlier = without_identifiers(records.drop_last(), deleted);
    let kept = without_identifiers(records, deleted);
    if i < earlier.len() {
        lemma_kept_come_from(records.drop_last(), deleted, i);
        let j = choose|j: int|
            0 <= j < records.drop_last().len() && records.drop_last()[j] == earlier[i] && !deleted.contains(
                records.drop_last()[j].identifier,
            );
        assert(records[j] == kept[i]);
    } else {
        assert(records[records.len() - 1] == kept[i]);
    }
}

/// The position of the first record view at or after `start` with the name
/// and kind of `desired`.
pub open spec fn identity_in(records: Seq<ApiRecordView>, desired: RecordView, start: int) -> Option<int>
    decreases records.len() - start,
{
    if start < 0 || start >= records.len() {
        None
    } else if records[start].record.name == desired.name && records[start].record.kind == desired.kind {
        Some(start)
    } else {
        identity_in(records, desired, start + 1)
    }
}

/// The first same-identity record is found alike in records and their views.
proof fn lemma_identity_in_views(records: Seq<ApiRecord>, views: Seq<ApiRecordView>, desired: RecordView, start: int)
    requires
        views.len() == records.len(),
        forall|j: int| 0 <= j < views.len() ==> views[j] == (#[trigger] records[j])@,
    ensures
        identity_in(views, desired, start) == same_identity_from(records, desired, start),
        same_identity_from(records, desired, start) matches Some(i) ==> start <= i < records.len(),
    decreases records.len() - start,
{
    if 0 <= start < records.len() {
        assert(views[start] == records[start]@);
        lemma_identity_in_views(records, views, desired, start + 1);
    }
}

/// The records a plan puts, in order: those it creates, then those it
/// updates.
pub open spec fn planned_puts(plan: PlanView) -> Seq<RecordView> {
    plan.records_to_create + plan.records_to_update
}

/// The `k`th planned put went where it belongs: into the first record then
/// in place with its name and kind, updated by that record's identifier, or
/// created when there was none; what the API returned is `returned[k]`.
pub open spec fn put_routed<A: Api>(
    api: A,
    token: Token,
    zone: Seq<char>,
    start: Seq<ApiRecordView>,
    desired: Seq<RecordView>,
    returned: Seq<ApiRecordView>,
    k: int,
) -> bool {
    let current = with_all_applied(start, returned.take(k));
    match identity_in(current, desired[k], 0) {
        Some(i) => exists|r: ApiRecord|
            r@ == returned[k] && #[trigger] api.update(token, zone, current[i].identifier, desired[k], Ok::<ApiRecord, Error>(r)),
        None => exists|r: ApiRecord|
            r@ == returned[k] && #[trigger] api.creation(token, zone, desired[k], Ok::<ApiRecord, Error>(r)),
    }
}

/// Appending a routed put keeps every earlier put routed.
proof fn lemma_put_extends_routing<A: Api>(
    api: A,
    token: Token,
    zone: Seq<char>,
    start: Seq<ApiRecordView>,
    desired: Seq<RecordView>,
    returned: Seq<ApiRecordView>,
    put: ApiRecordView,
)
    requires
        forall|k: int| 0 <= k < returned.len() ==> #[trigger] put_routed(api, token, zone, start, desired, returned, k),
        match identity_in(with_all_applied(start, returned), desired[returned.len() as int], 0) {
            Some(i) => exists|r: ApiRecord|
                r@ == put && #[trigger] api.update(
                    token,
                    zone,
                    with_all_applied(start, returned)[i].identifier,
                    desired[returned.len() as int],
                    Ok::<ApiRecord, Error>(r),
                ),
            None => exists|r: ApiRecord|
                r@ == put && #[trigger] api.creation(token, zone, desired[returned.len() as int], Ok::<ApiRecord, Error>(r)),
        },
    ensures
        forall|k: int|
            0 <= k < returned.len() + 1 ==> #[trigger] put_routed(api, token, zone, start, desired, returned.push(put), k),
{
    let next = returned.push(put);
    assert forall|k: int| 0 <= k < returned.len() + 1 implies #[trigger] put_routed(api, token, zone, start, desired, next, k) by {
        assert(next.take(k) =~= returned.take(k)) by {
            if k < returned.len() {
            }
        }
        if k < returned.len() {
            assert(put_routed(api, token, zone, start, desired, returned, k));
            assert(next[k] == returned[k]);
        } else {
            assert(returned.take(k) =~= returned);
            assert(next[k] == put);
        }
    }
}

/// The record `identifier` of `zone` was deleted through `api`: a deletion
/// of it was answered with success.
pub open spec fn deleted_through<A: Api>(api: A, token: Token, zone: Seq<char>, identifier: Seq<char>) -> bool {
    exists|answer: Result<(), Error>| answer is Ok && #[trigger] api.deletion(token, zone, identifier, answer)
}

/// The zone listings a gathering asks for: the whole account when no names
/// are given, else one per name in order.
pub open spec fn zone_requests(names: Seq<Seq<char>>) -> Seq<Option<Seq<char>>> {
    if names.len() == 0 {
        seq![None]
    } else {
        names.map_values(|name: Seq<char>| Some(name))
    }
}

/// The listings in successful zone answers, in order.
pub open spec fn answered_listings(answers: Seq<Result<Vec<ApiZone>, Error>>) -> Seq<Seq<ApiZone>> {
    answers.map_values(
        |answer: Result<Vec<ApiZone>, Error>|
            match answer {
                Ok(found) => found@,
                Err(_) => Seq::empty(),
            },
    )
}

/// The provider-neutral records of API records, in order.
pub open spec fn record_values(records: Seq<ApiRecordView>) -> Seq<RecordView> {
    records.map_values(|r: ApiRecordView| r.record)
}

/// What putting an API answer into the local records did: a returned record
/// replaces the entry with its identifier (or is appended) and the
/// operation succeeds; an error is answered as is and nothing changes.
pub open spec fn upserted(
    answer: Result<ApiRecord, Error>,
    before: Seq<ApiRecordView>,
    after: Seq<ApiRecordView>,
    applied: Result<(), Error>,
) -> bool {
    match answer {
        Ok(returned) => applied == Ok::<(), Error>(()) && after == with_applied(before, returned@),
        Err(error) => applied == Err::<(), Error>(error) && after == before,
    }
}

/// An API zone as a zone of `account` on Cloudflare.
pub open spec fn tagged_zone(zone: ApiZone, account: Seq<char>) -> ZoneView {
    ZoneView { provider: Provider::Cloudflare, account, identifier: zone.identifier@, name: zone.name@ }
}

/// The zones of several listings, one listing after another, each tagged
/// with Cloudflare and `account`.
pub open spec fn tagged_zones(parts: Seq<Seq<ApiZone>>, account: Seq<char>) -> Seq<ZoneView>
    decreases parts.len(),
{
    if parts.len() == 0 {
        Seq::empty()
    } else {
        tagged_zones(parts.drop_last(), account) + tagged_listing(parts.last(), account)
    }
}

/// One API listing of zones, each tagged with Cloudflare and `account`.
pub open spec fn tagged_listing(found: Seq<ApiZone>, account: Seq<char>) -> Seq<ZoneView> {
    found.map_values(|zone: ApiZone| tagged_zone(zone, account))
}

/// Tags each API zone with the provider and account and appends it.
pub fn append_zones(zones: &mut Vec<Zone>, found: Vec<ApiZone>, account: &String)
    ensures
        final(zones).len() == old(zones).len() + found.len(),
        forall|i: int| 0 <= i < old(zones).len() ==> final(zones)@[i] == old(zones)@[i],
        forall|i: int|
            0 <= i < found.len() ==> {
                let zone = #[trigger] final(zones)@[old(zones).len() + i];
                &&& zone.provider == Provider::Cloudflare
                &&& zone.account@ == account@
                &&& zone.identifier@ == found@[i].identifier@
                &&& zone.name@ == found@[i].name@
            },
        final(zones).deep_view() == old(zones).deep_view() + tagged_listing(found@, account@),
{
    let ghost start = zones@;
    let ghost start_view = zones.deep_view();
    let ghost found_view = found@;
    let ghost source = found_view;
    let mut remaining = found;
    let ghost mut taken: int = 0;
    while remaining.len() > 0
        invariant
            0 <= taken <= source.len(),
            taken + remaining.len() == source.len(),
            forall|i: int| 0 <= i < remaining.len() ==> #[trigger] remaining@[i] == source[taken + i],
            zones.len() == start.len() + taken,
            forall|i: int| 0 <= i < start.len() ==> zones@[i] == start[i],
            forall|i: int|
                0 <= i < taken ==> {
                    let zone = #[trigger] zones@[start.len() + i];
                    &&& zone.provider == Provider::Cloudflare
                    &&& zone.account@ == account@
                    &&& zone.identifier@ == source[i].identifier@
                    &&& zone.name@ == source[i].name@
                },
        decreases remaining.len(),
    {
        let zone = remaining.remove(0);
        zones.push(
            Zone {
                provider: Provider::Cloudflare,
                account: account.clone(),
                identifier: zone.identifier,
                name: zone.name,
            },
        );
        proof {
            taken = taken + 1;
        }
    }
    proof {
        let tagged = tagged_listing(found_view, account@);
        assert forall|k: int| 0 <= k < zones.len() implies #[trigger] zones.deep_view()[k] == (start_view
            + tagged)[k] by {
            if k < start.len() {
                assert(zones@[k] == start[k]);
            } else {
                assert(zones@[start.len() + (k - start.len())] == zones@[k]);
            }
        }
        assert(zones.deep_view() =~= start_view + tagged);
    }
}

/// The provider-neutral records of a list of API records, in order.
pub fn domain_records(records: Vec<ApiRecord>) -> (listing: Vec<DomainNameSystemRecord>)
    ensures
        listing.deep_view() == record_values(records.deep_view()),
{
    let ghost source = records.deep_view();
    let mut listing: Vec<DomainNameSystemRecord> = Vec::new();
    let mut remaining = records;
    let ghost mut taken: int = 0;
    while remaining.len() > 0
        invariant
            0 <= taken <= source.len(),
            taken + remaining.len() == source.len(),
            forall|i: int| 0 <= i < remaining.len() ==> #[trigger] remaining@[i]@ == source[taken + i],
            listing.deep_view() == source.take(taken).map_values(|r: ApiRecordView| r.record),
        decreases remaining.len(),
    {
        let record = remaining.remove(0);
        listing.push(record.into_domain_record());
        proof {
            assert(source.take(taken + 1).map_values(|r: ApiRecordView| r.record) =~= source.take(taken).map_values(
                |r: ApiRecordView| r.record,
            ).push(source[taken].record));
            taken = taken + 1;
            assert(listing.deep_view() =~= source.take(taken).map_values(|r: ApiRecordView| r.record));
        }
    }
    assert(source.take(taken) =~= source);
    listing
}

// --------------------------------------------------------------- HTTP API

/// The Cloudflare API root the daemon speaks to unless told otherwise.
pub open spec fn default_api_root() -> Seq<char> {
    "https://api.cloudflare.com/client/v4"@
}

/// A client made by `new` or `default` and one made by `with_base_url` with
/// the Cloudflare API root are the same client to every request: `url` sends
/// each endpoint path to the root followed by the path.
pub proof fn default_root_clients_agree(made: HttpApi, rooted: HttpApi, path: Seq<char>)
    requires
        made.base() == default_api_root(),
        rooted.base() == "https://api.cloudflare.com/client/v4"@,
    ensures
        made.base() == rooted.base(),
        made.base() + path == "https://api.cloudflare.com/client/v4"@ + path,
{
}

/// Where the Cloudflare HTTP API lives, and the paths of its DNS resources.
#[derive(Debug, PartialEq, Eq)]
pub struct HttpApi {
    base_url: String,
}

impl Default for HttpApi {
    fn default() -> (api: Self)
        ensures
            api.base() == default_api_root(),
    {
        HttpApi::new()
    }
}

impl HttpApi {
    pub closed spec fn base(&self) -> Seq<char> {
        self.base_url@
    }

    pub fn new() -> (api: Self)
        ensures
            api.base() == default_api_root(),
    {
        HttpApi { base_url: owned("https://api.cloudflare.com/client/v4") }
    }

    pub fn with_base_url(base_url: String) -> (api: Self)
        ensures
            api.base() == base_url@,
    {
        HttpApi { base_url }
    }

    /// The URL of a path under the API root.
    pub fn url(&self, path: &str) -> (url: String)
        ensures
            url@ == self.base() + path@,
    {
        join_url(&self.base_url, path)
    }

    /// The path of the zone listing.
    pub fn zones_path() -> (path: &'static str)
        ensures
            path@ == "/zones"@,
    {
        "/zones"
    }

    /// The path of a zone's DNS records.
    pub fn records_path(zone: &String) -> (path: String)
        ensures
            path@ == "/zones/"@ + zone@ + "/dns_records"@,
    {
        let mut path = owned("/zones/");
        path.append(zone.as_str());
        path.append("/dns_records");
        path
    }

    /// The path of one DNS record of a zone.
    pub fn record_path(zone: &String, identifier: &RecordIdentifier) -> (path: String)
        ensures
            path@ == "/zones/"@ + zone@ + "/dns_records/"@ + identifier.0@,
    {
        let mut path = owned("/zones/");
        path.append(zone.as_str());
        path.append("/dns_records/");
        path.append(identifier.as_str());
        path
    }
}

/// A Cloudflare response: the result when it succeeded, else the messages
/// of its errors.
#[derive(Debug, PartialEq, Eq)]
pub struct Envelope<T> {
    pub success: bool,
    pub result: T,
    pub errors: Vec<String>,
}

impl<T> Envelope<T> {
    /// The result of a successful response; otherwise a rejection carrying
    /// every error message, joined by `; `.
    pub fn into_result(self) -> (result: Result<T, Error>)
        ensures
            self.success ==> result == Ok::<T, Error>(self.result),
            !self.success ==> (result matches Err(Error::RequestRejected(message)) && message@ == joined(
                self.errors.deep_view(),
                "; "@,
            )),
    {
        if self.success {
            Ok(self.result)
        } else {
            Err(Error::RequestRejected(join_messages(&self.errors, "; ")))
        }
    }
}

/// A zone as the zone listing returns it.
#[derive(Debug, PartialEq, Eq)]
pub struct ZoneRecord {
    pub id: String,
    pub name: String,
}

impl ZoneRecord {
    pub fn into_api_zone(self) -> (zone: ApiZone)
        ensures
            zone.identifier@ == self.id@,
            zone.name@ == self.name@,
    {
        ApiZone { identifier: self.id, name: self.name }
    }
}

/// A DNS record as the record endpoints return it.
#[derive(Debug, PartialEq, Eq)]
pub struct RecordRecord {
    pub id: String,
    pub kind: String,
    pub name: String,
    pub content: String,
    pub proxied: Option<bool>,
}

impl RecordRecord {
    /// The API record, or `UnsupportedRecordKind` for a type the daemon does
    /// not model; a record is proxied only when the response says so.
    pub fn into_api_record(self) -> (record: Result<ApiRecord, Error>)
        ensures
            match record_kind_of_name(self.kind@) {
                Some(kind) => record matches Ok(api) && api@ == (ApiRecordView {
                    identifier: self.id@,
                    record: RecordView {
                        name: self.name@,
                        kind,
                        value: self.content@,
                        proxy_mode: if self.proxied == Some(true) {
                            ProxyMode::ProviderProxy
                        } else {
                            ProxyMode::Direct
                        },
                    },
                }),
                None => record matches Err(Error::UnsupportedRecordKind(name)) && name@ == self.kind@,
            },
    {
        let kind = match RecordKindName::new(self.kind).into_record_kind() {
            Ok(kind) => kind,
            Err(error) => return Err(error),
        };
        let proxy_mode = match self.proxied {
            Some(true) => ProxyMode::ProviderProxy,
            _ => ProxyMode::Direct,
        };
        Ok(
            ApiRecord {
                identifier: RecordIdentifier::new(self.id),
                name: self.name,
                kind,
                value: self.content,
                proxy_mode,
            },
        )
    }
}

/// The body a record is created or updated with.
#[derive(Debug, PartialEq, Eq)]
pub struct RecordPayload {
    pub kind: String,
    pub name: String,
    pub content: String,
    pub ttl: u32,
    pub proxied: bool,
}

impl RecordPayload {
    /// The record's wire type, name and content, automatic TTL, and whether
    /// it is proxied.
    pub fn from_record(record: &DomainNameSystemRecord) -> (payload: Self)
        ensures
            payload.kind@ == record_type_name(record.kind),
            payload.name@ == record.name@,
            payload.content@ == record.value@,
            payload.ttl == 1,
            payload.proxied == (record.proxy_mode == ProxyMode::ProviderProxy),
    {
        RecordPayload {
            kind: owned(RecordKindName::from_record_kind(record.kind)),
            name: record.name.clone(),
            content: record.value.clone(),
            ttl: 1,
            proxied: record.proxy_mode == ProxyMode::ProviderProxy,
        }
    }
}

} // verus!
