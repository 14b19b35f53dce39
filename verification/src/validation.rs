//! Desired-state validation: malformed IPv4 / IPv6 values, empty record
//! targets, and redirect targets that are not HTTP(S) URLs.
use vstd::prelude::*;
use vstd::string::*;

use crate::text::{
    blank, has_prefix, ipv4_address_text, ipv6_address_text, is_blank, is_ipv4_address,
    parses_as_ipv6, record_kind_label, record_kind_name, starts_with,
};
use crate::vocabulary::{
    DesiredState, DomainNameSystemRecord, FindingSeverity, FindingView, RecordKind, RecordView,
    RedirectRule, RedirectView, ValidationFinding,
};

verus! {

/// What is wrong with a record's value, if anything.
pub open spec fn record_problem(record: RecordView) -> Option<Seq<char>> {
    match record.kind {
        RecordKind::AddressV4 => if !ipv4_address_text(record.value) {
            Some("A record value must be an IPv4 address"@)
        } else {
            None
        },
        RecordKind::AddressV6 => if !ipv6_address_text(record.value) {
            Some("AAAA record value must be an IPv6 address"@)
        } else {
            None
        },
        RecordKind::CanonicalName | RecordKind::MailExchange | RecordKind::NameServer
        | RecordKind::Pointer => if blank(record.value) {
            Some("record target must not be empty"@)
        } else {
            None
        },
        _ => None,
    }
}

/// The finding reported for one record: its name, its kind and the problem.
pub open spec fn record_finding(record: RecordView) -> Option<FindingView> {
    match record_problem(record) {
        Some(problem) => Some(
            FindingView {
                severity: FindingSeverity::Error,
                message: record.name + " "@ + record_kind_label(record.kind) + ": "@ + problem,
            },
        ),
        None => None,
    }
}

/// The finding reported for one redirect: its target must be an HTTP(S) URL.
pub open spec fn redirect_finding(redirect: RedirectView) -> Option<FindingView> {
    if has_prefix(redirect.target, "http://"@) || has_prefix(redirect.target, "https://"@) {
        None
    } else {
        Some(
            FindingView {
                severity: FindingSeverity::Error,
                message: redirect.source + " redirect target must start with http:// or https://"@,
            },
        )
    }
}

/// The findings of a sequence of records, in order.
pub open spec fn record_findings(records: Seq<RecordView>) -> Seq<FindingView>
    decreases records.len(),
{
    if records.len() == 0 {
        Seq::empty()
    } else {
        let earlier = record_findings(records.drop_last());
        match record_finding(records.last()) {
            Some(finding) => earlier.push(finding),
            None => earlier,
        }
    }
}

/// The findings of a sequence of redirects, in order.
pub open spec fn redirect_findings(redirects: Seq<RedirectView>) -> Seq<FindingView>
    decreases redirects.len(),
{
    if redirects.len() == 0 {
        Seq::empty()
    } else {
        let earlier = redirect_findings(redirects.drop_last());
        match redirect_finding(redirects.last()) {
            Some(finding) => earlier.push(finding),
            None => earlier,
        }
    }
}

/// Every finding of a desired state: record findings first, then redirect
/// findings, each in the order of the desired state.
pub open spec fn desired_state_findings(records: Seq<RecordView>, redirects: Seq<RedirectView>) -> Seq<FindingView> {
    record_findings(records) + redirect_findings(redirects)
}

/// The record kinds whose value names another host: a canonical name, a
/// mail exchange, a name server or a pointer.
pub open spec fn targets_a_name(kind: RecordKind) -> bool {
    kind == RecordKind::CanonicalName || kind == RecordKind::MailExchange || kind == RecordKind::NameServer || kind
        == RecordKind::Pointer
}

/// What validation asks of each record value: a record that names another
/// host is refused exactly when its target is empty or all white space; an
/// A or AAAA record exactly when its value is no IPv4 or IPv6 address; any
/// other record never. Every finding is an error.
pub proof fn record_values_are_checked_by_kind(record: RecordView)
    ensures
        targets_a_name(record.kind) ==> (record_problem(record) is Some <==> blank(record.value)),
        targets_a_name(record.kind) && blank(record.value) ==> (record_finding(record) matches Some(found)
            && found.severity == FindingSeverity::Error && found.message == record.name + " "@ + record_kind_label(
            record.kind,
        ) + ": "@ + "record target must not be empty"@),
        record.kind == RecordKind::AddressV4 ==> (record_problem(record) is Some <==> !ipv4_address_text(record.value)),
        record.kind == RecordKind::AddressV6 ==> (record_problem(record) is Some <==> !ipv6_address_text(record.value)),
        !targets_a_name(record.kind) && record.kind != RecordKind::AddressV4 && record.kind != RecordKind::AddressV6
            ==> record_problem(record) is None,
        record_finding(record) matches Some(found) ==> found.severity == FindingSeverity::Error,
{
}

/// A redirect is refused exactly when its target starts with neither
/// `http://` nor `https://`, and the refusal is an error naming its source.
pub proof fn redirect_targets_must_be_web_addresses(redirect: RedirectView)
    ensures
        redirect_finding(redirect) is None <==> (has_prefix(redirect.target, "http://"@) || has_prefix(
            redirect.target,
            "https://"@,
        )),
        redirect_finding(redirect) matches Some(found) ==> found.severity == FindingSeverity::Error && found.message
            == redirect.source + " redirect target must start with http:// or https://"@,
{
}

/// A record is malformed exactly when it draws a finding.
pub proof fn record_finding_iff_problem(record: RecordView)
    ensures
        record_finding(record) is Some <==> record_problem(record) is Some,
{
}

/// A desired state whose every record and redirect is well formed draws no
/// findings.
pub proof fn well_formed_state_has_no_findings(records: Seq<RecordView>, redirects: Seq<RedirectView>)
    requires
        forall|i: int| 0 <= i < records.len() ==> record_problem(#[trigger] records[i]) is None,
        forall|i: int| 0 <= i < redirects.len() ==> redirect_finding(#[trigger] redirects[i]) is None,
    ensures
        desired_state_findings(records, redirects).len() == 0,
    decreases records.len() + redirects.len(),
{
    lemma_no_record_findings(records);
    lemma_no_redirect_findings(redirects);
}

proof fn lemma_no_record_findings(records: Seq<RecordView>)
    requires
        forall|i: int| 0 <= i < records.len() ==> record_problem(#[trigger] records[i]) is None,
    ensures
        record_findings(records).len() == 0,
    decreases records.len(),
{
    if records.len() > 0 {
        let earlier = records.drop_last();
        assert forall|i: int| 0 <= i < earlier.len() implies record_problem(#[trigger] earlier[i]) is None by {
            assert(earlier[i] == records[i]);
        }
        lemma_no_record_findings(earlier);
        assert(record_problem(records[records.len() - 1]) is None);
    }
}

proof fn lemma_no_redirect_findings(redirects: Seq<RedirectView>)
    requires
        forall|i: int| 0 <= i < redirects.len() ==> redirect_finding(#[trigger] redirects[i]) is None,
    ensures
        redirect_findings(redirects).len() == 0,
    decreases redirects.len(),
{
    if redirects.len() > 0 {
        let earlier = redirects.drop_last();
        assert forall|i: int| 0 <= i < earlier.len() implies redirect_finding(#[trigger] earlier[i]) is None by {
            assert(earlier[i] == redirects[i]);
        }
        lemma_no_redirect_findings(earlier);
        assert(redirect_finding(redirects[redirects.len() - 1]) is None);
    }
}

/// Validates one DNS record's value against its kind.
pub struct RecordValueValidation<'record> {
    pub record: &'record DomainNameSystemRecord,
}

impl<'record> RecordValueValidation<'record> {
    pub fn new(record: &'record DomainNameSystemRecord) -> (validation: Self)
        ensures
            validation.record == record,
    {
        RecordValueValidation { record }
    }

    /// The finding for the record, or `None` when its value fits its kind.
    pub fn finding(&self) -> (finding: Option<ValidationFinding>)
        ensures
            finding.deep_view() == record_finding(self.record@),
            targets_a_name(self.record.kind) ==> (finding is Some <==> blank(self.record.value@)),
            targets_a_name(self.record.kind) && blank(self.record.value@) ==> (finding matches Some(found)
                && found.severity == FindingSeverity::Error && found.message@ == self.record.name@ + " "@
                + record_kind_label(self.record.kind) + ": "@ + "record target must not be empty"@),
            self.record.kind == RecordKind::AddressV4 ==> (finding is Some <==> !ipv4_address_text(self.record.value@)),
            self.record.kind == RecordKind::AddressV6 ==> (finding is Some <==> !ipv6_address_text(self.record.value@)),
            finding matches Some(found) ==> found.severity == FindingSeverity::Error,
            !targets_a_name(self.record.kind) && self.record.kind != RecordKind::AddressV4 && self.record.kind
                != RecordKind::AddressV6 ==> finding is None,
    {
        let record = self.record;
        match record.kind {
            RecordKind::AddressV4 => {
                if !is_ipv4_address(record.value.as_str()) {
                    return Some(self.finding_with_message("A record value must be an IPv4 address"));
                }
                None
            },
            RecordKind::AddressV6 => {
                if !parses_as_ipv6(record.value.as_str()) {
                    return Some(self.finding_with_message("AAAA record value must be an IPv6 address"));
                }
                None
            },
            RecordKind::CanonicalName | RecordKind::MailExchange | RecordKind::NameServer
            | RecordKind::Pointer => {
                if is_blank(record.value.as_str()) {
                    return Some(self.finding_with_message("record target must not be empty"));
                }
                None
            },
            _ => None,
        }
    }

    fn finding_with_message(&self, message: &str) -> (finding: ValidationFinding)
        ensures
            finding@ == (FindingView {
                severity: FindingSeverity::Error,
                message: self.record.name@ + " "@ + record_kind_label(self.record.kind) + ": "@
                    + message@,
            }),
    {
        let mut text = self.record.name.clone();
        text.append(" ");
        text.append(record_kind_name(self.record.kind));
        text.append(": ");
        text.append(message);
        ValidationFinding { severity: FindingSeverity::Error, message: text }
    }
}

/// Validates one redirect's target.
pub struct RedirectValidation<'redirect> {
    pub redirect: &'redirect RedirectRule,
}

impl<'redirect> RedirectValidation<'redirect> {
    pub fn new(redirect: &'redirect RedirectRule) -> (validation: Self)
        ensures
            validation.redirect == redirect,
    {
        RedirectValidation { redirect }
    }

    /// The finding for the redirect, or `None` when its target is an HTTP(S)
    /// URL.
    pub fn finding(&self) -> (finding: Option<ValidationFinding>)
        ensures
            finding.deep_view() == redirect_finding(self.redirect@),
            finding is None <==> (has_prefix(self.redirect.target@, "http://"@) || has_prefix(
                self.redirect.target@,
                "https://"@,
            )),
            finding matches Some(found) ==> found.severity == FindingSeverity::Error && found.message@
                == self.redirect.source@ + " redirect target must start with http:// or https://"@,
    {
        let target = self.redirect.target.as_str();
        if starts_with(target, "http://") || starts_with(target, "https://") {
            None
        } else {
            let mut text = self.redirect.source.clone();
            text.append(" redirect target must start with http:// or https://");
            Some(ValidationFinding { severity: FindingSeverity::Error, message: text })
        }
    }
}

/// Validates a whole desired state.
pub struct DesiredStateValidation {
    pub desired_state: DesiredState,
}

impl DesiredStateValidation {
    pub fn new(desired_state: DesiredState) -> (validation: Self)
        ensures
            validation.desired_state == desired_state,
    {
        DesiredStateValidation { desired_state }
    }

    /// Every finding of the desired state: those of its records in order,
    /// then those of its redirects in order.
    pub fn findings(&self) -> (findings: Vec<ValidationFinding>)
        ensures
            findings.deep_view() == desired_state_findings(
                self.desired_state.records.deep_view(),
                self.desired_state.redirects.deep_view(),
            ),
    {
        let records = &self.desired_state.records;
        let redirects = &self.desired_state.redirects;
        let mut findings: Vec<ValidationFinding> = Vec::new();
        let mut index: usize = 0;
        while index < records.len()
            invariant
                index <= records.len(),
                findings.deep_view() == record_findings(records.deep_view().take(index as int)),
            decreases records.len() - index,
        {
            let finding = RecordValueValidation::new(&records[index]).finding();
            proof {
                let next = records.deep_view().take(index + 1);
                assert(next.drop_last() =~= records.deep_view().take(index as int));
                assert(next.last() == records[index as int]@);
            }
            match finding {
                Some(found) => findings.push(found),
                None => {},
            }
            proof {
                assert(findings.deep_view() =~= record_findings(records.deep_view().take(index + 1)));
            }
            index = index + 1;
        }
        assert(records.deep_view().take(records.len() as int) =~= records.deep_view());
        let record_count = findings.len();
        let mut index: usize = 0;
        while index < redirects.len()
            invariant
                index <= redirects.len(),
                record_count <= findings.len(),
                findings.deep_view() == record_findings(records.deep_view()) + redirect_findings(
                    redirects.deep_view().take(index as int),
                ),
            decreases redirects.len() - index,
        {
            let finding = RedirectValidation::new(&redirects[index]).finding();
            proof {
                let next = redirects.deep_view().take(index + 1);
                assert(next.drop_last() =~= redirects.deep_view().take(index as int));
                assert(next.last() == redirects[index as int]@);
            }
            let ghost before = findings.deep_view();
            match finding {
                Some(found) => findings.push(found),
                None => {},
            }
            proof {
                let earlier = redirect_findings(redirects.deep_view().take(index as int));
                let later = redirect_findings(redirects.deep_view().take(index + 1));
                match redirect_finding(redirects[index as int]@) {
                    Some(f) => {
                        assert(later == earlier.push(f));
                        assert(findings.deep_view() =~= before.push(f));
                        assert(record_findings(records.deep_view()) + earlier.push(f)
                            =~= (record_findings(records.deep_view()) + earlier).push(f));
                    },
                    None => {
                        assert(later == earlier);
                    },
                }
                assert(findings.deep_view() =~= record_findings(records.deep_view()) + later);
            }
            index = index + 1;
        }
        assert(redirects.deep_view().take(redirects.len() as int) =~= redirects.deep_view());
        findings
    }
}

} // verus!
