//! Lowering a provider-neutral domain projection onto one provider's desired
//! state.
use vstd::prelude::*;
use vstd::string::*;

use crate::cloudflare::record_type_name;

use crate::vocabulary::{
    DesiredState, DomainNameSystemRecord, PathTreatment, ProjectedPathTreatment, ProjectedRecord,
    ProjectedRecordKind, ProjectedRedirect, ProjectedRedirectStatus, Projection,
    ProjectionPreparation, Provider, ProxyMode, RecordKind, RecordView, RedirectRule,
    RedirectStatus, RedirectView,
};

verus! {

pub struct ProjectedRecordView {
    pub name: Seq<char>,
    pub kind: ProjectedRecordKind,
    pub value: Seq<char>,
}

impl View for ProjectedRecord {
    type V = ProjectedRecordView;

    open spec fn view(&self) -> ProjectedRecordView {
        ProjectedRecordView { name: self.name@, kind: self.kind, value: self.value@ }
    }
}

impl DeepView for ProjectedRecord {
    type V = ProjectedRecordView;

    open spec fn deep_view(&self) -> ProjectedRecordView {
        self@
    }
}

pub struct ProjectedRedirectView {
    pub source: Seq<char>,
    pub target: Seq<char>,
    pub status: ProjectedRedirectStatus,
    pub path_treatment: ProjectedPathTreatment,
}

impl View for ProjectedRedirect {
    type V = ProjectedRedirectView;

    open spec fn view(&self) -> ProjectedRedirectView {
        ProjectedRedirectView {
            source: self.source@,
            target: self.target@,
            status: self.status,
            path_treatment: self.path_treatment,
        }
    }
}

impl DeepView for ProjectedRedirect {
    type V = ProjectedRedirectView;

    open spec fn deep_view(&self) -> ProjectedRedirectView {
        self@
    }
}

pub open spec fn lowered_kind(kind: ProjectedRecordKind) -> RecordKind {
    match kind {
        ProjectedRecordKind::AddressV4 => RecordKind::AddressV4,
        ProjectedRecordKind::AddressV6 => RecordKind::AddressV6,
        ProjectedRecordKind::CanonicalName => RecordKind::CanonicalName,
        ProjectedRecordKind::Text => RecordKind::Text,
    }
}

pub open spec fn lowered_status(status: ProjectedRedirectStatus) -> RedirectStatus {
    match status {
        ProjectedRedirectStatus::Permanent => RedirectStatus::Permanent,
        ProjectedRedirectStatus::Temporary => RedirectStatus::Temporary,
    }
}

pub open spec fn lowered_treatment(treatment: ProjectedPathTreatment) -> PathTreatment {
    match treatment {
        ProjectedPathTreatment::Preserve => PathTreatment::Preserve,
        ProjectedPathTreatment::Replace => PathTreatment::Replace,
    }
}

/// The DNS type a projected record kind stands for, as Cloudflare spells it.
pub open spec fn projected_type_name(kind: ProjectedRecordKind) -> Seq<char> {
    match kind {
        ProjectedRecordKind::AddressV4 => "A"@,
        ProjectedRecordKind::AddressV6 => "AAAA"@,
        ProjectedRecordKind::CanonicalName => "CNAME"@,
        ProjectedRecordKind::Text => "TXT"@,
    }
}

/// Lowering keeps the DNS type of every record: the provider kind it gives
/// has the projected kind's DNS type name, so distinct projected kinds lower
/// to distinct provider kinds.
pub proof fn lowering_keeps_record_types(kind: ProjectedRecordKind, other: ProjectedRecordKind)
    ensures
        record_type_name(lowered_kind(kind)) == projected_type_name(kind),
        lowered_kind(kind) == lowered_kind(other) ==> kind == other,
        forall|record: ProjectedRecordView|
            #![trigger lowered_record(record)]
            lowered_record(record).name == record.name && lowered_record(record).value == record.value
                && lowered_record(record).proxy_mode == ProxyMode::Direct && record_type_name(
                lowered_record(record).kind,
            ) == projected_type_name(record.kind),
{
    reveal_strlit("A");
    reveal_strlit("AAAA");
    reveal_strlit("CNAME");
    reveal_strlit("TXT");
}

/// Lowering keeps every redirect's status and path treatment: distinct
/// projected statuses and treatments lower to distinct provider ones, and a
/// permanent redirect stays permanent, a preserved path preserved.
pub proof fn lowering_keeps_redirect_semantics(
    status: ProjectedRedirectStatus,
    other_status: ProjectedRedirectStatus,
    treatment: ProjectedPathTreatment,
    other_treatment: ProjectedPathTreatment,
)
    ensures
        lowered_status(status) == lowered_status(other_status) ==> status == other_status,
        (lowered_status(status) == RedirectStatus::Permanent) == (status == ProjectedRedirectStatus::Permanent),
        lowered_treatment(treatment) == lowered_treatment(other_treatment) ==> treatment == other_treatment,
        (lowered_treatment(treatment) == PathTreatment::Preserve) == (treatment == ProjectedPathTreatment::Preserve),
{
}

/// A projected record as a provider record: same name, kind and value,
/// served directly.
pub open spec fn lowered_record(record: ProjectedRecordView) -> RecordView {
    RecordView {
        name: record.name,
        kind: lowered_kind(record.kind),
        value: record.value,
        proxy_mode: ProxyMode::Direct,
    }
}

pub open spec fn lowered_redirect(redirect: ProjectedRedirectView) -> RedirectView {
    RedirectView {
        source: redirect.source,
        target: redirect.target,
        status: lowered_status(redirect.status),
        path_treatment: lowered_treatment(redirect.path_treatment),
    }
}

/// Maps a projected record kind onto the provider record kind.
pub struct RecordKindProjection {
    pub kind: ProjectedRecordKind,
}

impl RecordKindProjection {
    pub fn new(kind: ProjectedRecordKind) -> (projection: Self)
        ensures
            projection.kind == kind,
    {
        RecordKindProjection { kind }
    }

    pub fn into_record_kind(self) -> (kind: RecordKind)
        ensures
            kind == lowered_kind(self.kind),
            (self.kind == ProjectedRecordKind::AddressV4) == (kind == RecordKind::AddressV4),
            (self.kind == ProjectedRecordKind::AddressV6) == (kind == RecordKind::AddressV6),
            (self.kind == ProjectedRecordKind::CanonicalName) == (kind == RecordKind::CanonicalName),
            (self.kind == ProjectedRecordKind::Text) == (kind == RecordKind::Text),
    {
        match self.kind {
            ProjectedRecordKind::AddressV4 => RecordKind::AddressV4,
            ProjectedRecordKind::AddressV6 => RecordKind::AddressV6,
            ProjectedRecordKind::CanonicalName => RecordKind::CanonicalName,
            ProjectedRecordKind::Text => RecordKind::Text,
        }
    }
}

/// Maps a projected redirect status onto the provider redirect status.
pub struct RedirectStatusProjection {
    pub status: ProjectedRedirectStatus,
}

impl RedirectStatusProjection {
    pub fn new(status: ProjectedRedirectStatus) -> (projection: Self)
        ensures
            projection.status == status,
    {
        RedirectStatusProjection { status }
    }

    pub fn into_redirect_status(self) -> (status: RedirectStatus)
        ensures
            status == lowered_status(self.status),
            (self.status == ProjectedRedirectStatus::Permanent) == (status == RedirectStatus::Permanent),
            (self.status == ProjectedRedirectStatus::Temporary) == (status == RedirectStatus::Temporary),
    {
        match self.status {
            ProjectedRedirectStatus::Permanent => RedirectStatus::Permanent,
            ProjectedRedirectStatus::Temporary => RedirectStatus::Temporary,
        }
    }
}

/// Maps a projected path treatment onto the provider path treatment.
pub struct PathTreatmentProjection {
    pub treatment: ProjectedPathTreatment,
}

impl PathTreatmentProjection {
    pub fn new(treatment: ProjectedPathTreatment) -> (projection: Self)
        ensures
            projection.treatment == treatment,
    {
        PathTreatmentProjection { treatment }
    }

    pub fn into_path_treatment(self) -> (treatment: PathTreatment)
        ensures
            treatment == lowered_treatment(self.treatment),
            (self.treatment == ProjectedPathTreatment::Preserve) == (treatment == PathTreatment::Preserve),
            (self.treatment == ProjectedPathTreatment::Replace) == (treatment == PathTreatment::Replace),
    {
        match self.treatment {
            ProjectedPathTreatment::Preserve => PathTreatment::Preserve,
            ProjectedPathTreatment::Replace => PathTreatment::Replace,
        }
    }
}

impl ProjectedRecord {
    /// A projected record from its name, kind and value.
    pub fn new(name: String, kind: ProjectedRecordKind, value: String) -> (record: Self)
        ensures
            record@ == (ProjectedRecordView { name: name@, kind, value: value@ }),
    {
        ProjectedRecord { name, kind, value }
    }

    /// The provider record for this projected record, served directly.
    pub fn into_record(self) -> (record: DomainNameSystemRecord)
        ensures
            record@ == lowered_record(self@),
            record.name@ == self.name@,
            record.value@ == self.value@,
            record.proxy_mode == ProxyMode::Direct,
            record_type_name(record.kind) == projected_type_name(self.kind),
    {
        proof {
            lowering_keeps_record_types(self.kind, self.kind);
        }
        DomainNameSystemRecord {
            name: self.name,
            kind: RecordKindProjection::new(self.kind).into_record_kind(),
            value: self.value,
            proxy_mode: ProxyMode::Direct,
        }
    }
}

impl ProjectedRedirect {
    /// A projected redirect from its source, target, status and path
    /// treatment.
    pub fn new(
        source: String,
        target: String,
        status: ProjectedRedirectStatus,
        path_treatment: ProjectedPathTreatment,
    ) -> (redirect: Self)
        ensures
            redirect@ == (ProjectedRedirectView { source: source@, target: target@, status, path_treatment }),
    {
        ProjectedRedirect { source, target, status, path_treatment }
    }

    /// The provider redirect rule for this projected redirect.
    pub fn into_redirect(self) -> (redirect: RedirectRule)
        ensures
            redirect@ == lowered_redirect(self@),
    {
        RedirectRule {
            source: self.source,
            target: self.target,
            status: RedirectStatusProjection::new(self.status).into_redirect_status(),
            path_treatment: PathTreatmentProjection::new(self.path_treatment).into_path_treatment(),
        }
    }
}

/// A domain projection bound to the provider it is lowered onto.
pub struct DomainProjection {
    pub provider: Provider,
    pub projection: Projection,
}

impl DomainProjection {
    pub fn from_preparation(preparation: ProjectionPreparation) -> (projection: Self)
        ensures
            projection.provider == preparation.provider,
            projection.projection == preparation.projection,
    {
        DomainProjection { provider: preparation.provider, projection: preparation.projection }
    }

    /// The desired state of the projected domain on the bound provider: the
    /// domain is the zone, every projected record and redirect is lowered in
    /// order.
    pub fn into_desired_state(self) -> (desired: DesiredState)
        ensures
            desired.provider == self.provider,
            desired.zone@ == self.projection.domain@,
            desired.records.deep_view() == self.projection.records.deep_view().map_values(
                |record: ProjectedRecordView| lowered_record(record),
            ),
            desired.redirects.deep_view() == self.projection.redirects.deep_view().map_values(
                |redirect: ProjectedRedirectView| lowered_redirect(redirect),
            ),
    {
        let Projection { domain, records: projected_records, redirects: projected_redirects } = self.projection;
        let ghost record_source = projected_records.deep_view();
        let ghost redirect_source = projected_redirects.deep_view();
        let mut records: Vec<DomainNameSystemRecord> = Vec::new();
        let mut remaining = projected_records;
        while remaining.len() > 0
            invariant
                records.len() + remaining.len() == record_source.len(),
                forall|i: int| 0 <= i < remaining.len() ==> #[trigger] remaining@[i]@ == record_source[records.len() + i],
                records.deep_view() == record_source.take(records.len() as int).map_values(
                    |record: ProjectedRecordView| lowered_record(record),
                ),
            decreases remaining.len(),
        {
            let ghost n = records.len();
            let next = remaining.remove(0);
            records.push(next.into_record());
            proof {
                assert(record_source.take(n + 1).map_values(|record: ProjectedRecordView| lowered_record(record))
                    =~= record_source.take(n as int).map_values(|record: ProjectedRecordView| lowered_record(record))
                    .push(lowered_record(record_source[n as int])));
                assert(records.deep_view() =~= record_source.take(n + 1).map_values(
                    |record: ProjectedRecordView| lowered_record(record),
                ));
            }
        }
        assert(record_source.take(record_source.len() as int) =~= record_source);
        let mut redirects: Vec<RedirectRule> = Vec::new();
        let mut remaining = projected_redirects;
        while remaining.len() > 0
            invariant
                redirects.len() + remaining.len() == redirect_source.len(),
                forall|i: int| 0 <= i < remaining.len() ==> #[trigger] remaining@[i]@ == redirect_source[redirects.len() + i],
                redirects.deep_view() == redirect_source.take(redirects.len() as int).map_values(
                    |redirect: ProjectedRedirectView| lowered_redirect(redirect),
                ),
            decreases remaining.len(),
        {
            let ghost n = redirects.len();
            let next = remaining.remove(0);
            redirects.push(next.into_redirect());
            proof {
                assert(redirect_source.take(n + 1).map_values(|redirect: ProjectedRedirectView| lowered_redirect(redirect))
                    =~= redirect_source.take(n as int).map_values(|redirect: ProjectedRedirectView| lowered_redirect(redirect))
                    .push(lowered_redirect(redirect_source[n as int])));
                assert(redirects.deep_view() =~= redirect_source.take(n + 1).map_values(
                    |redirect: ProjectedRedirectView| lowered_redirect(redirect),
                ));
            }
        }
        assert(redirect_source.take(redirect_source.len() as int) =~= redirect_source);
        DesiredState { provider: self.provider, zone: domain, records, redirects }
    }
}

} // verus!
