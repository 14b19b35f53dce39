//! The daemon's store: registered provider accounts, the owner policy,
//! prepared DNS and host plans with their approvals, and the last provider
//! state it read. Ordinary requests observe and validate; meta requests
//! register accounts, set policy, and prepare, approve and apply plans.
//! Every provider call goes through a [`ProviderEffects`] implementation.
use vstd::prelude::*;

use crate::capability::{
    capability_report, capability_state, known_capabilities, known_capability_list,
    provider_supports_capability, query_matches_exec, supports, BuildProfile,
};
use crate::cloudflare;
use crate::projection::{lowered_record, lowered_redirect, DomainProjection, ProjectedRecordView, ProjectedRedirectView};
use crate::record_plan::{
    contains_name, record_names_to_delete, records_to_create, records_to_update, RecordPlan,
};
use crate::text::{owned, provider_label, provider_name};
use crate::validation::{desired_state_findings, DesiredStateValidation};
use crate::vocabulary::{
    clone_records, clone_strings, clone_zones, Capability, CapabilityObservation, CapabilityQuery,
    CapabilityState, CloudHost, DesiredHostState, DesiredState, DomainNameSystemRecord,
    HostDestruction, HostIntent, HostPlan, HostPlanView, HostQuery, MetaOperation, MetaRejectionReason,
    MetaReply, Observation, ObservationResult, Operation, Plan, PlanView, Policy, ProjectionPreparation,
    Provider, RecordQuery, RecordView, RedirectQuery, RedirectRule, RedirectView, Registration, RejectionReason, Reply,
    RequestUnsupported, Retirement, Rotation, UnsupportedReason, Zone, ZonePolicyView, ZoneQuery, ZoneView,
};

verus! {

/// A registered provider account and the handle of its credential.
#[derive(Debug, PartialEq, Eq)]
pub struct AccountBinding {
    pub provider: Provider,
    pub account: String,
    pub credential: String,
}

pub struct BindingView {
    pub provider: Provider,
    pub account: Seq<char>,
    pub credential: Seq<char>,
}

impl View for AccountBinding {
    type V = BindingView;

    open spec fn view(&self) -> BindingView {
        BindingView { provider: self.provider, account: self.account@, credential: self.credential@ }
    }
}

impl DeepView for AccountBinding {
    type V = BindingView;

    open spec fn deep_view(&self) -> BindingView {
        self@
    }
}

impl Clone for AccountBinding {
    fn clone(&self) -> (copy: Self)
        ensures
            copy@ == self@,
    {
        AccountBinding {
            provider: self.provider,
            account: self.account.clone(),
            credential: self.credential.clone(),
        }
    }
}

/// The record listing last read from a provider for one zone.
#[derive(Debug, PartialEq, Eq)]
pub struct CachedRecordListing {
    pub provider: Provider,
    pub zone: String,
    pub listing: Vec<DomainNameSystemRecord>,
}

pub struct CachedView {
    pub provider: Provider,
    pub zone: Seq<char>,
    pub listing: Seq<RecordView>,
}

impl View for CachedRecordListing {
    type V = CachedView;

    open spec fn view(&self) -> CachedView {
        CachedView { provider: self.provider, zone: self.zone@, listing: self.listing.deep_view() }
    }
}

impl DeepView for CachedRecordListing {
    type V = CachedView;

    open spec fn deep_view(&self) -> CachedView {
        self@
    }
}

/// Why a compute-provider call failed.
#[derive(Debug, PartialEq, Eq)]
pub enum HostError {
    CredentialUnavailable(String),
    RequestFailed(String),
    RequestRejected(String),
    HostNotFound(String),
}

/// Hosts reported for an account of a provider carry that provider and that
/// account.
pub open spec fn hosts_of(hosts: Seq<CloudHost>, provider: Provider, account: Seq<char>) -> bool {
    forall|i: int| 0 <= i < hosts.len() ==> (#[trigger] hosts[i]).provider == provider && hosts[i].account@ == account
}

/// Zones reported for a Cloudflare account carry Cloudflare and that account.
pub open spec fn cloudflare_zones_of(zones: Seq<Zone>, account: Seq<char>) -> bool {
    forall|i: int|
        0 <= i < zones.len() ==> (#[trigger] zones[i]).provider == Provider::Cloudflare && zones[i].account@ == account
}

/// Every host carries `provider` and the account of one of `bindings`.
pub open spec fn hosts_of_bindings(hosts: Seq<CloudHost>, provider: Provider, bindings: Seq<BindingView>) -> bool {
    forall|i: int|
        0 <= i < hosts.len() ==> (#[trigger] hosts[i]).provider == provider && exists|j: int|
            0 <= j < bindings.len() && hosts[i].account@ == bindings[j].account
}

/// The listings of several reads, one after another.
pub open spec fn concatenated(parts: Seq<Seq<CloudHost>>) -> Seq<CloudHost>
    decreases parts.len(),
{
    if parts.len() == 0 {
        Seq::empty()
    } else {
        concatenated(parts.drop_last()) + parts.last()
    }
}

/// `hosts` is one listing per binding, in binding order, each of hosts
/// tagged with the provider and that binding's account, joined together.
pub open spec fn listed_per_binding(hosts: Seq<CloudHost>, provider: Provider, bindings: Seq<BindingView>) -> bool {
    exists|parts: Seq<Seq<CloudHost>>|
        parts.len() == bindings.len() && (forall|j: int|
            0 <= j < parts.len() ==> hosts_of(#[trigger] parts[j], provider, bindings[j].account)) && hosts
            == #[trigger] concatenated(parts)
}

/// Every zone carries Cloudflare and the account of one of `bindings`.
pub open spec fn zones_of_bindings(zones: Seq<Zone>, bindings: Seq<BindingView>) -> bool {
    forall|i: int|
        0 <= i < zones.len() ==> (#[trigger] zones[i]).provider == Provider::Cloudflare && exists|j: int|
            0 <= j < bindings.len() && zones[i].account@ == bindings[j].account
}

/// `listing` is what applying `plan` can leave in its zone: the zone's
/// records without those the plan deletes by name, then one record returned
/// by the provider put in place for each planned create and update, in plan
/// order.
pub open spec fn plan_listing(plan: PlanView, listing: Seq<RecordView>) -> bool {
    exists|initial: Seq<cloudflare::ApiRecordView>, returned: Seq<cloudflare::ApiRecordView>|
        returned.len() == plan.records_to_create.len() + plan.records_to_update.len() && listing
            == #[trigger] cloudflare::applied_listing(initial, plan.record_names_to_delete, returned)
}

/// Every provider call the store makes. The store is verified for whatever
/// these calls return; what every implementation of the library guarantees
/// is that reported zones and hosts are tagged with the provider and account
/// they were read for, and that a successful host creation or destruction
/// is recorded in the wiring's own `host_created` / `host_destroyed`, which
/// only those calls can establish for the store.
pub trait ProviderEffects {
    fn cloudflare_verify_credential(&self, credential: &String) -> Result<(), cloudflare::Error>;

    fn cloudflare_zones(&self, account: &String, credential: &String, names: &Vec<String>) -> (zones: Result<
        Vec<Zone>,
        cloudflare::Error,
    >)
        ensures
            zones matches Ok(listed) ==> cloudflare_zones_of(listed@, account@),
    ;

    fn cloudflare_records(&self, credential: &String, zone_identifier: &String) -> Result<
        Vec<DomainNameSystemRecord>,
        cloudflare::Error,
    >;

    fn cloudflare_apply_plan(&self, credential: &String, zone_identifier: &String, plan: &Plan) -> (listing: Result<
        Vec<DomainNameSystemRecord>,
        cloudflare::Error,
    >)
        ensures
            listing matches Ok(records) ==> plan_listing(plan@, records.deep_view()),
    ;

    fn observe_hosts(&self, provider: Provider, credential: &String, account: &String) -> (hosts: Result<
        Vec<CloudHost>,
        HostError,
    >)
        ensures
            hosts matches Ok(listed) ==> hosts_of(listed@, provider, account@),
    ;

    fn create_host(&self, provider: Provider, credential: &String, account: &String, plan: &HostPlan) -> (host: Result<
        CloudHost,
        HostError,
    >)
        ensures
            host matches Ok(created) ==> created.provider == provider && created.account@ == account@
                && self.host_created(provider, credential@, account@, plan@, created),
    ;

    fn destroy_host_by_name(&self, provider: Provider, credential: &String, name: &String) -> (outcome: Result<
        (),
        HostError,
    >)
        ensures
            outcome is Ok ==> self.host_destroyed(provider, credential@, name@),
    ;

    /// What a wiring knows of a host its `create_host` gave back for `plan`
    /// through `account` and `credential`.
    spec fn host_created(
        &self,
        provider: Provider,
        credential: Seq<char>,
        account: Seq<char>,
        plan: HostPlanView,
        host: CloudHost,
    ) -> bool;

    /// What a wiring knows after its `destroy_host_by_name` succeeded for
    /// `name` through `credential`.
    spec fn host_destroyed(&self, provider: Provider, credential: Seq<char>, name: Seq<char>) -> bool;
}

// ------------------------------------------------------------ spec helpers

pub open spec fn same_account(binding: BindingView, provider: Provider, account: Seq<char>) -> bool {
    binding.provider == provider && binding.account == account
}

/// No two bindings share a provider and account.
pub open spec fn unique_bindings(bindings: Seq<BindingView>) -> bool {
    forall|i: int, j: int|
        0 <= i < bindings.len() && 0 <= j < bindings.len() && i != j ==> !same_account(
            #[trigger] bindings[i],
            bindings[j].provider,
            #[trigger] bindings[j].account,
        )
}

pub open spec fn has_provider(bindings: Seq<BindingView>, provider: Provider) -> bool {
    exists|i: int| 0 <= i < bindings.len() && (#[trigger] bindings[i]).provider == provider
}

pub open spec fn has_account(bindings: Seq<BindingView>, provider: Provider, account: Seq<char>) -> bool {
    exists|i: int| 0 <= i < bindings.len() && same_account(#[trigger] bindings[i], provider, account)
}

/// The bindings after registering `binding`: it replaces the binding with its
/// provider and account, or is appended.
pub open spec fn registered(bindings: Seq<BindingView>, binding: BindingView) -> Seq<BindingView> {
    if has_account(bindings, binding.provider, binding.account) {
        bindings.map_values(
            |existing: BindingView|
                if same_account(existing, binding.provider, binding.account) {
                    binding
                } else {
                    existing
                },
        )
    } else {
        bindings.push(binding)
    }
}

/// The bindings after rotating the credential of one account.
pub open spec fn rotated(bindings: Seq<BindingView>, provider: Provider, account: Seq<char>, credential: Seq<char>) -> Seq<BindingView> {
    bindings.map_values(
        |existing: BindingView|
            if same_account(existing, provider, account) {
                BindingView { credential, ..existing }
            } else {
                existing
            },
    )
}

/// The bindings without any binding of `provider` and `account`, in order.
pub open spec fn retired(bindings: Seq<BindingView>, provider: Provider, account: Seq<char>) -> Seq<BindingView>
    decreases bindings.len(),
{
    if bindings.len() == 0 {
        Seq::empty()
    } else {
        let earlier = retired(bindings.drop_last(), provider, account);
        if same_account(bindings.last(), provider, account) {
            earlier
        } else {
            earlier.push(bindings.last())
        }
    }
}

/// The identifier of the plan of a zone on a provider.
pub open spec fn plan_identifier(zone: Seq<char>, provider: Provider) -> Seq<char> {
    zone + "-"@ + provider_label(provider) + "-plan"@
}

/// The identifier of a host creation plan.
pub open spec fn host_create_identifier(host: Seq<char>, provider: Provider) -> Seq<char> {
    host + "-"@ + provider_label(provider) + "-create-plan"@
}

/// The identifier of a host destruction plan.
pub open spec fn host_destroy_identifier(host: Seq<char>, provider: Provider) -> Seq<char> {
    host + "-"@ + provider_label(provider) + "-destroy-plan"@
}

pub open spec fn has_plan(plans: Seq<PlanView>, identifier: Seq<char>) -> bool {
    exists|i: int| 0 <= i < plans.len() && (#[trigger] plans[i]).identifier == identifier
}

pub open spec fn has_host_plan(plans: Seq<HostPlanView>, identifier: Seq<char>) -> bool {
    exists|i: int| 0 <= i < plans.len() && (#[trigger] plans[i]).identifier == identifier
}

/// The first plan with the identifier.
pub open spec fn first_plan(plans: Seq<PlanView>, identifier: Seq<char>) -> PlanView {
    let i = choose|i: int|
        0 <= i < plans.len() && (#[trigger] plans[i]).identifier == identifier && forall|j: int|
            0 <= j < i ==> plans[j].identifier != identifier;
    plans[i]
}

/// The first host plan with the identifier.
pub open spec fn first_host_plan(plans: Seq<HostPlanView>, identifier: Seq<char>) -> HostPlanView {
    let i = choose|i: int|
        0 <= i < plans.len() && (#[trigger] plans[i]).identifier == identifier && forall|j: int|
            0 <= j < i ==> plans[j].identifier != identifier;
    plans[i]
}

/// The unsupported answer for a provider that is not built.
pub open spec fn not_built_reply(provider: Provider, capability: Option<Capability>) -> Reply {
    Reply::RequestUnsupported(
        RequestUnsupported { provider: Some(provider), capability, reason: UnsupportedReason::ProviderNotBuilt },
    )
}

pub open spec fn unsupported(provider: Provider, capability: Option<Capability>, reason: UnsupportedReason) -> Reply {
    Reply::RequestUnsupported(RequestUnsupported { provider: Some(provider), capability, reason })
}

/// The meta rejection a Cloudflare failure maps to.
pub open spec fn cloudflare_rejection(error: cloudflare::Error) -> MetaRejectionReason {
    match error {
        cloudflare::Error::CredentialUnavailable(_) => MetaRejectionReason::CredentialHandleUnknown,
        cloudflare::Error::ZoneNotFound(_) => MetaRejectionReason::ProviderNotConfigured,
        _ => MetaRejectionReason::PlanGenerationFailed,
    }
}

impl<E: ProviderEffects> Store<E> {
    /// Neither the configuration nor the caches changed.
    pub open spec fn unchanged_from(self, earlier: Self) -> bool {
        &&& self.keeps_configuration(earlier)
        &&& self.cached_zones() == earlier.cached_zones()
        &&& self.cached_records() == earlier.cached_records()
    }

    /// What one ordinary operation answers, from `self` to `after`.
    pub open spec fn ordinary_answer(self, after: Self, operation: Operation, reply: Reply) -> bool {
        match operation {
            Operation::Validate(desired_state) => after.unchanged_from(self) && self.validation_outcome(
                desired_state,
                reply,
            ),
            Operation::Observe(observation) => match observation {
                Observation::Capabilities(query) => after.unchanged_from(self) && (reply matches Reply::Observed(
                    ObservationResult::Capabilities(report),
                ) && report@ == capability_report(
                    known_capabilities(),
                    query,
                    self.build(),
                    self.configured_providers(),
                )),
                Observation::Zones(query) => self.zone_observation(after, query, reply),
                Observation::Records(query) => self.record_observation(after, query, reply),
                Observation::Redirects(query) => after.unchanged_from(self) && self.redirect_observation(query, reply),
                Observation::Plan(identifier) => after.unchanged_from(self) && self.plan_observation(
                    identifier@,
                    reply,
                ),
                Observation::Servers(query) => after.unchanged_from(self) && self.server_observation(query, reply),
            },
        }
    }


    /// What one meta operation answers, from `self` to `after`.
    pub open spec fn meta_answer(self, after: Self, operation: MetaOperation, reply: MetaReply) -> bool {
        match operation {
            MetaOperation::RegisterAccount(registration) => self.registration_outcome(after, registration, reply),
            MetaOperation::RotateCredential(rotation) => self.rotation_outcome(after, rotation, reply),
            MetaOperation::SetPolicy(policy) => self.policy_outcome(after, policy, reply),
            MetaOperation::PreparePlan(desired_state) => self.plan_preparation(
                after,
                desired_state.provider,
                desired_state.zone@,
                desired_state.records.deep_view(),
                desired_state.redirects.deep_view(),
                reply,
            ),
            MetaOperation::PrepareHostPlan(desired) => self.host_plan_preparation(
                after,
                desired.provider,
                HostPlanView {
                    identifier: host_create_identifier(desired.host_name@, desired.provider),
                    provider: desired.provider,
                    host_name: desired.host_name@,
                    server_type: desired.server_type@,
                    image_name: desired.image_name@,
                    ssh_key_name: desired.ssh_key_name@,
                    intent: HostIntent::Create,
                },
                reply,
            ),
            MetaOperation::PrepareHostDestruction(destruction) => self.host_plan_preparation(
                after,
                destruction.provider,
                HostPlanView {
                    identifier: host_destroy_identifier(destruction.host_name@, destruction.provider),
                    provider: destruction.provider,
                    host_name: destruction.host_name@,
                    server_type: Seq::empty(),
                    image_name: Seq::empty(),
                    ssh_key_name: Seq::empty(),
                    intent: HostIntent::Destroy,
                },
                reply,
            ),
            MetaOperation::PrepareProjection(preparation) => self.plan_preparation(
                after,
                preparation.provider,
                preparation.projection.domain@,
                preparation.projection.records.deep_view().map_values(
                    |record: ProjectedRecordView| lowered_record(record),
                ),
                preparation.projection.redirects.deep_view().map_values(
                    |redirect: ProjectedRedirectView| lowered_redirect(redirect),
                ),
                reply,
            ),
            MetaOperation::ApprovePlan(identifier) => self.approval_outcome(after, identifier@, reply),
            MetaOperation::ApplyPlan(identifier) => self.plan_application(after, identifier@, reply),
            MetaOperation::RetireAccount(retirement) => self.retirement_outcome(after, retirement, reply),
        }
    }


    /// Answers one ordinary operation.
    pub fn handle_ordinary_operation(&mut self, operation: Operation) -> (reply: Reply)
        requires
            old(self).wf(),
        ensures
            old(self).ordinary_answer(*final(self), operation, reply),
            final(self).keeps_configuration(*old(self)),
    {
        match operation {
            Operation::Validate(desired_state) => self.validate(desired_state),
            Operation::Observe(observation) => self.observe(observation),
        }
    }

    /// Answers one observation. A redirect observation is never a listing,
    /// empty or not: it is answered as unsupported for the asked provider,
    /// because the provider is not built or the capability is not compiled,
    /// and nothing is read from a provider.
    pub fn observe(&mut self, observation: Observation) -> (reply: Reply)
        requires
            old(self).wf(),
        ensures
            old(self).ordinary_answer(*final(self), Operation::Observe(observation), reply),
            final(self).keeps_configuration(*old(self)),
            observation matches Observation::Redirects(query) ==> {
                &&& *final(self) == *old(self)
                &&& reply matches Reply::RequestUnsupported(refusal) && refusal.provider == Some(query.provider)
                    && refusal.capability == Some(Capability::RedirectRules) && (refusal.reason
                    == UnsupportedReason::ProviderNotBuilt || refusal.reason == UnsupportedReason::CapabilityNotCompiled)
            },
    {
        match observation {
            Observation::Capabilities(query) => Reply::Observed(ObservationResult::Capabilities(self.capabilities(query))),
            Observation::Zones(query) => self.observe_zones(&query),
            Observation::Records(query) => self.observe_records(&query),
            Observation::Redirects(query) => {
                let reply = self.observe_redirects(&query);
                proof {
                    redirects_are_never_listed(*self, query, reply);
                }
                reply
            },
            Observation::Plan(identifier) => self.observe_plan(&identifier),
            Observation::Servers(query) => self.observe_servers(&query),
        }
    }

    /// Answers one meta operation.
    pub fn handle_meta_operation(&mut self, operation: MetaOperation) -> (reply: MetaReply)
        requires
            old(self).wf(),
        ensures
            old(self).meta_answer(*final(self), operation, reply),
            final(self).wf(),
            final(self).build() == old(self).build(),
            final(self).effect_client() == old(self).effect_client(),
    {
        match operation {
            MetaOperation::RegisterAccount(registration) => self.register_account(registration),
            MetaOperation::RotateCredential(rotation) => self.rotate_credential(rotation),
            MetaOperation::SetPolicy(policy) => self.set_policy(policy),
            MetaOperation::PreparePlan(desired_state) => self.prepare_plan(desired_state),
            MetaOperation::PrepareHostPlan(desired) => self.prepare_host_plan(desired),
            MetaOperation::PrepareHostDestruction(destruction) => self.prepare_host_destruction(destruction),
            MetaOperation::PrepareProjection(preparation) => self.prepare_projection(preparation),
            MetaOperation::ApprovePlan(identifier) => self.approve_plan(identifier),
            MetaOperation::ApplyPlan(identifier) => self.apply_plan(identifier),
            MetaOperation::RetireAccount(retirement) => self.retire_account(retirement),
        }
    }

    /// Answers the operations of one ordinary request in order; ordinary
    /// requests never change accounts, policy or plans.
    pub fn handle_ordinary_request(&mut self, operations: Vec<Operation>) -> (replies: Vec<Reply>)
        requires
            old(self).wf(),
            operations.len() > 0,
        ensures
            exists|states: Seq<Self>|
                states.len() > 0 && states[0] == *old(self) && states.last() == *final(self) && #[trigger] ordinary_trace(
                    states,
                    operations@,
                    replies@,
                ),
            final(self).keeps_configuration(*old(self)),
    {
        let ghost start = *self;
        let ghost all = operations@;
        let mut remaining = operations;
        let mut replies: Vec<Reply> = Vec::new();
        let ghost mut taken: int = 0;
        let ghost mut states: Seq<Self> = seq![*self];
        assert(all.take(0) =~= Seq::<Operation>::empty());
        assert(replies@ =~= Seq::<Reply>::empty());
        while remaining.len() > 0
            invariant
                self.wf(),
                self.keeps_configuration(start),
                0 <= taken <= all.len(),
                taken + remaining.len() == all.len(),
                replies.len() == taken,
                forall|i: int| 0 <= i < remaining.len() ==> #[trigger] remaining@[i] == all[taken + i],
                states.len() == taken + 1,
                states[0] == start,
                states.last() == *self,
                ordinary_trace(states, all.take(taken), replies@),
            decreases remaining.len(),
        {
            let operation = remaining.remove(0);
            let ghost earlier = replies@;
            let reply = self.handle_ordinary_operation(operation);
            replies.push(reply);
            proof {
                let previous = states;
                states = states.push(*self);
                taken = taken + 1;
                let done = all.take(taken);
                assert(done.drop_last() =~= all.take(taken - 1));
                assert(replies@.drop_last() =~= earlier);
                assert forall|k: int| 0 <= k < done.len() implies states[k].ordinary_answer(
                    states[k + 1],
                    done[k],
                    #[trigger] replies@[k],
                ) by {
                    if k < done.len() - 1 {
                        assert(previous[k].ordinary_answer(previous[k + 1], all.take(taken - 1)[k], earlier[k]));
                    } else {
                        assert(done[k] == operation);
                    }
                }
            }
        }
        assert(all.take(taken) =~= all);
        assert(ordinary_trace(states, all, replies@));
        replies
    }

    /// Answers the operations of one meta request in order, each against the
    /// store as the previous ones left it.
    pub fn handle_meta_request(&mut self, operations: Vec<MetaOperation>) -> (replies: Vec<MetaReply>)
        requires
            old(self).wf(),
            operations.len() > 0,
        ensures
            exists|states: Seq<Self>|
                states.len() > 0 && states[0] == *old(self) && states.last() == *final(self) && #[trigger] meta_trace(
                    states,
                    operations@,
                    replies@,
                ),
            final(self).wf(),
    {
        let ghost start = *self;
        let ghost all = operations@;
        let mut remaining = operations;
        let mut replies: Vec<MetaReply> = Vec::new();
        let ghost mut taken: int = 0;
        let ghost mut states: Seq<Self> = seq![*self];
        assert(all.take(0) =~= Seq::<MetaOperation>::empty());
        assert(replies@ =~= Seq::<MetaReply>::empty());
        while remaining.len() > 0
            invariant
                self.wf(),
                0 <= taken <= all.len(),
                taken + remaining.len() == all.len(),
                replies.len() == taken,
                forall|i: int| 0 <= i < remaining.len() ==> #[trigger] remaining@[i] == all[taken + i],
                states.len() == taken + 1,
                states[0] == start,
                states.last() == *self,
                meta_trace(states, all.take(taken), replies@),
            decreases remaining.len(),
        {
            let operation = remaining.remove(0);
            let ghost earlier = replies@;
            let reply = self.handle_meta_operation(operation);
            replies.push(reply);
            proof {
                let previous = states;
                states = states.push(*self);
                taken = taken + 1;
                let done = all.take(taken);
                assert(done.drop_last() =~= all.take(taken - 1));
                assert(replies@.drop_last() =~= earlier);
                assert forall|k: int| 0 <= k < done.len() implies states[k].meta_answer(
                    states[k + 1],
                    done[k],
                    #[trigger] replies@[k],
                ) by {
                    if k < done.len() - 1 {
                        assert(previous[k].meta_answer(previous[k + 1], all.take(taken - 1)[k], earlier[k]));
                    } else {
                        assert(done[k] == operation);
                    }
                }
            }
        }
        assert(all.take(taken) =~= all);
        assert(meta_trace(states, all, replies@));
        replies
    }
}

/// `states` runs through `operations`, each ordinary operation answering its
/// reply from one state to the next.
pub open spec fn ordinary_trace<E: ProviderEffects>(states: Seq<Store<E>>, operations: Seq<Operation>, replies: Seq<Reply>) -> bool {
    &&& states.len() == operations.len() + 1
    &&& replies.len() == operations.len()
    &&& forall|k: int|
        0 <= k < operations.len() ==> states[k].ordinary_answer(states[k + 1], operations[k], #[trigger] replies[k])
}

/// `states` runs through `operations`, each meta operation answering its
/// reply from one state to the next.
pub open spec fn meta_trace<E: ProviderEffects>(states: Seq<Store<E>>, operations: Seq<MetaOperation>, replies: Seq<MetaReply>) -> bool {
    &&& states.len() == operations.len() + 1
    &&& replies.len() == operations.len()
    &&& forall|k: int|
        0 <= k < operations.len() ==> states[k].meta_answer(states[k + 1], operations[k], #[trigger] replies[k])
}

/// The meta rejection a Cloudflare failure maps to.
pub fn rejection_for_cloudflare_error(error: cloudflare::Error) -> (reason: MetaRejectionReason)
    ensures
        reason == cloudflare_rejection(error),
{
    match error {
        cloudflare::Error::CredentialUnavailable(_) => MetaRejectionReason::CredentialHandleUnknown,
        cloudflare::Error::ZoneNotFound(_) => MetaRejectionReason::ProviderNotConfigured,
        cloudflare::Error::RequestFailed(_) | cloudflare::Error::RequestRejected(_)
        | cloudflare::Error::UnsupportedRecordKind(_) => MetaRejectionReason::PlanGenerationFailed,
    }
}

/// Whether a registration is refused: an unbuilt provider is not
/// configured, and a Cloudflare account whose credential check failed is
/// refused with that failure's reason; otherwise the account is registered.
pub fn registration_refusal(
    provider: Provider,
    built: bool,
    credential_check: Result<(), cloudflare::Error>,
) -> (refusal: Option<MetaRejectionReason>)
    ensures
        refusal == if !built {
            Some(MetaRejectionReason::ProviderNotConfigured)
        } else if provider == Provider::Cloudflare {
            match credential_check {
                Ok(_) => None,
                Err(error) => Some(cloudflare_rejection(error)),
            }
        } else {
            None
        },
{
    if !built {
        return Some(MetaRejectionReason::ProviderNotConfigured);
    }
    if provider == Provider::Cloudflare {
        match credential_check {
            Ok(()) => None,
            Err(error) => Some(rejection_for_cloudflare_error(error)),
        }
    } else {
        None
    }
}

/// The meta rejection a compute-provider failure maps to.
pub open spec fn host_rejection(error: HostError) -> MetaRejectionReason {
    match error {
        HostError::CredentialUnavailable(_) => MetaRejectionReason::CredentialHandleUnknown,
        HostError::HostNotFound(_) => MetaRejectionReason::ProviderNotConfigured,
        _ => MetaRejectionReason::PlanGenerationFailed,
    }
}

/// An entry of the record cache belongs to a provider's zone.
pub open spec fn cache_matches(entry: CachedView, provider: Provider, zone: Seq<char>) -> bool {
    entry.provider == provider && entry.zone == zone
}

/// The index of the first cache entry of a provider's zone.
pub open spec fn cache_index(cached: Seq<CachedView>, provider: Provider, zone: Seq<char>) -> Option<int>
    decreases cached.len(),
{
    if cached.len() == 0 {
        None
    } else {
        match cache_index(cached.drop_last(), provider, zone) {
            Some(index) => Some(index),
            None => if cache_matches(cached.last(), provider, zone) {
                Some(cached.len() - 1)
            } else {
                None
            },
        }
    }
}

/// The listing last read for a provider's zone, if any.
pub open spec fn cached_listing(cached: Seq<CachedView>, provider: Provider, zone: Seq<char>) -> Option<Seq<RecordView>> {
    match cache_index(cached, provider, zone) {
        Some(index) => Some(cached[index].listing),
        None => None,
    }
}

/// The cache after storing `entry`: it replaces the first entry of its zone,
/// or is appended.
pub open spec fn with_cached(cached: Seq<CachedView>, entry: CachedView) -> Seq<CachedView> {
    match cache_index(cached, entry.provider, entry.zone) {
        Some(index) => cached.update(index, entry),
        None => cached.push(entry),
    }
}

/// A zone policy lets an account of `provider` touch `zone`.
pub open spec fn policy_allows(policy: ZonePolicyView, provider: Provider, zone: Seq<char>) -> bool {
    policy.provider == provider && policy.allowed_zones.contains(zone)
}

pub open spec fn has_zone_policy(policies: Seq<ZonePolicyView>, provider: Provider, zone: Seq<char>) -> bool {
    exists|i: int| 0 <= i < policies.len() && policy_allows(#[trigger] policies[i], provider, zone)
}

/// The first zone policy that lets `provider` touch `zone`.
pub open spec fn first_zone_policy(policies: Seq<ZonePolicyView>, provider: Provider, zone: Seq<char>) -> ZonePolicyView {
    let i = choose|i: int|
        0 <= i < policies.len() && policy_allows(#[trigger] policies[i], provider, zone) && forall|j: int|
            0 <= j < i ==> !policy_allows(policies[j], provider, zone);
    policies[i]
}

/// The zones a policy grants, each identified by account and domain.
pub open spec fn policy_zone_entries(policy: ZonePolicyView) -> Seq<ZoneView> {
    policy.allowed_zones.map_values(
        |domain: Seq<char>|
            ZoneView {
                provider: policy.provider,
                account: policy.account,
                identifier: policy.account + ":"@ + domain,
                name: domain,
            },
    )
}

/// The zones the policy grants to registered accounts of built providers,
/// in policy order.
pub open spec fn policy_zones(policies: Seq<ZonePolicyView>, bindings: Seq<BindingView>, profile: BuildProfile) -> Seq<ZoneView>
    decreases policies.len(),
{
    if policies.len() == 0 {
        Seq::empty()
    } else {
        let earlier = policy_zones(policies.drop_last(), bindings, profile);
        let policy = policies.last();
        if profile.built(policy.provider) && has_account(bindings, policy.provider, policy.account) {
            earlier + policy_zone_entries(policy)
        } else {
            earlier
        }
    }
}

/// The bindings of `provider`, restricted to `account` when one is given,
/// in registration order.
pub open spec fn bindings_of(bindings: Seq<BindingView>, provider: Provider, account: Option<Seq<char>>) -> Seq<BindingView>
    decreases bindings.len(),
{
    if bindings.len() == 0 {
        Seq::empty()
    } else {
        let earlier = bindings_of(bindings.drop_last(), provider, account);
        let last = bindings.last();
        if last.provider == provider && (account is None || account == Some(last.account)) {
            earlier.push(last)
        } else {
            earlier
        }
    }
}

/// Every zone the policies allow for a Cloudflare account, in policy order.
pub open spec fn allowed_names(policies: Seq<ZonePolicyView>, account: Seq<char>) -> Seq<Seq<char>>
    decreases policies.len(),
{
    if policies.len() == 0 {
        Seq::empty()
    } else {
        let earlier = allowed_names(policies.drop_last(), account);
        let policy = policies.last();
        if policy.provider == Provider::Cloudflare && policy.account == account {
            earlier + policy.allowed_zones
        } else {
            earlier
        }
    }
}

// ------------------------------------------------------------------- store

/// The daemon's account, policy, plan and last-known-state store.
pub struct Store<E: ProviderEffects> {
    accounts: Vec<AccountBinding>,
    policy: Policy,
    plans: Vec<Plan>,
    host_plans: Vec<HostPlan>,
    approved_plans: Vec<String>,
    last_known_zones: Vec<Zone>,
    last_known_records: Vec<CachedRecordListing>,
    profile: BuildProfile,
    effects: E,
}

impl<E: ProviderEffects> Store<E> {
    pub closed spec fn bindings(&self) -> Seq<BindingView> {
        self.accounts.deep_view()
    }

    pub closed spec fn plan_views(&self) -> Seq<PlanView> {
        self.plans@.map_values(|plan: Plan| plan@)
    }

    pub closed spec fn host_plan_views(&self) -> Seq<HostPlanView> {
        self.host_plans@.map_values(|plan: HostPlan| plan@)
    }

    pub closed spec fn approved(&self) -> Seq<Seq<char>> {
        self.approved_plans.deep_view()
    }

    pub closed spec fn cached_records(&self) -> Seq<CachedView> {
        self.last_known_records.deep_view()
    }

    pub closed spec fn cached_zones(&self) -> Seq<ZoneView> {
        self.last_known_zones.deep_view()
    }

    pub closed spec fn build(&self) -> BuildProfile {
        self.profile
    }

    pub closed spec fn zone_policies(&self) -> Seq<ZonePolicyView> {
        self.policy.zones.deep_view()
    }

    pub closed spec fn zone_policy_count(&self) -> nat {
        self.policy.zones.len() as nat
    }

    pub closed spec fn capability_policy_count(&self) -> nat {
        self.policy.capabilities.len() as nat
    }

    pub closed spec fn effect_client(&self) -> E {
        self.effects
    }

    /// A provider is configured when it is built and an account of it is
    /// registered.
    pub open spec fn configured(&self, provider: Provider) -> bool {
        self.build().built(provider) && has_provider(self.bindings(), provider)
    }

    pub open spec fn configured_providers(&self) -> Set<Provider> {
        Set::new(|provider: Provider| has_provider(self.bindings(), provider))
    }

    /// The store's invariant: one binding per provider and account.
    pub open spec fn wf(&self) -> bool {
        unique_bindings(self.bindings())
    }

    /// An empty store with the standard build profile.
    pub fn new(effects: E) -> (store: Self)
        ensures
            store.wf(),
            store.build() == (BuildProfile { cloudflare: true, google_cloud: false, hetzner: true, digital_ocean: true }),
            store.bindings().len() == 0,
            store.plan_views().len() == 0,
            store.host_plan_views().len() == 0,
            store.approved().len() == 0,
            store.cached_records().len() == 0,
            store.cached_zones().len() == 0,
            store.effect_client() == effects,
    {
        Self::with_parts(effects, BuildProfile::standard())
    }

    /// An empty store with the given build profile.
    pub fn with_parts(effects: E, profile: BuildProfile) -> (store: Self)
        ensures
            store.wf(),
            store.build() == profile,
            store.bindings().len() == 0,
            store.plan_views().len() == 0,
            store.host_plan_views().len() == 0,
            store.approved().len() == 0,
            store.cached_records().len() == 0,
            store.cached_zones().len() == 0,
            store.effect_client() == effects,
    {
        let store = Store {
            accounts: Vec::new(),
            policy: Policy { zones: Vec::new(), capabilities: Vec::new() },
            plans: Vec::new(),
            host_plans: Vec::new(),
            approved_plans: Vec::new(),
            last_known_zones: Vec::new(),
            last_known_records: Vec::new(),
            profile,
            effects,
        };
        assert(store.bindings() =~= Seq::<BindingView>::empty());
        assert(store.plan_views() =~= Seq::<PlanView>::empty());
        assert(store.host_plan_views() =~= Seq::<HostPlanView>::empty());
        store
    }

    /// The provider client the store calls.
    pub fn effects(&self) -> (effects: &E)
        ensures
            *effects == self.effect_client(),
    {
        &self.effects
    }

    // -------------------------------------------------------- small checks

    pub fn provider_is_built(&self, provider: Provider) -> (built: bool)
        ensures
            built == self.build().built(provider),
    {
        self.profile.provider_is_built(provider)
    }

    /// Whether the provider is built and has a registered account.
    pub fn provider_is_configured(&self, provider: Provider) -> (configured: bool)
        ensures
            configured == self.configured(provider),
    {
        if !self.profile.provider_is_built(provider) {
            return false;
        }
        let ghost view = self.bindings();
        let mut index: usize = 0;
        while index < self.accounts.len()
            invariant
                view == self.bindings(),
                self.build().built(provider),
                index <= self.accounts.len(),
                forall|i: int| 0 <= i < index ==> (#[trigger] view[i]).provider != provider,
            decreases self.accounts.len() - index,
        {
            if self.accounts[index].provider == provider {
                assert(view[index as int].provider == provider);
                return true;
            }
            index = index + 1;
        }
        false
    }

    /// How far `capability` of `provider` is available.
    pub fn capability_state(&self, provider: Provider, capability: Capability) -> (state: CapabilityState)
        ensures
            state == capability_state(
                self.build().built(provider),
                self.configured(provider),
                provider,
                capability,
            ),
            self.build().built(provider) && supports(provider, capability) ==> (state == CapabilityState::Configured
                <==> has_provider(self.bindings(), provider)),
            state == CapabilityState::Compiled ==> !has_provider(self.bindings(), provider),
            state == CapabilityState::Configured ==> self.build().built(provider) && supports(provider, capability)
                && has_provider(self.bindings(), provider),
            !self.build().built(provider) ==> state == CapabilityState::NotBuilt,
    {
        if !self.provider_is_built(provider) {
            return CapabilityState::NotBuilt;
        }
        if !provider_supports_capability(provider, capability) {
            return CapabilityState::Unsupported;
        }
        if self.provider_is_configured(provider) {
            CapabilityState::Configured
        } else {
            CapabilityState::Compiled
        }
    }

    /// The capability report for a query, in matrix order.
    pub fn capabilities(&self, query: CapabilityQuery) -> (report: Vec<CapabilityObservation>)
        ensures
            report@ == capability_report(known_capabilities(), query, self.build(), self.configured_providers()),
    {
        let pairs = known_capability_list();
        let mut report: Vec<CapabilityObservation> = Vec::new();
        let mut index: usize = 0;
        while index < pairs.len()
            invariant
                pairs@ == known_capabilities(),
                index <= pairs.len(),
                report@ == capability_report(pairs@.take(index as int), query, self.build(), self.configured_providers()),
            decreases pairs.len() - index,
        {
            let pair = pairs[index];
            proof {
                let next = pairs@.take(index + 1);
                assert(next.drop_last() =~= pairs@.take(index as int));
                assert(next.last() == pair);
            }
            if query_matches_exec(query, pair) {
                let state = self.capability_state(pair.0, pair.1);
                proof {
                    assert(self.configured(pair.0) == (self.build().built(pair.0)
                        && self.configured_providers().contains(pair.0)));
                }
                report.push(CapabilityObservation { provider: pair.0, capability: pair.1, state });
            }
            index = index + 1;
        }
        assert(pairs@.take(pairs@.len() as int) =~= pairs@);
        report
    }

    /// `Some` unsupported answer exactly when the provider is not built.
    pub fn unsupported_provider_reply(&self, provider: Provider, capability: Option<Capability>) -> (reply: Option<Reply>)
        ensures
            reply == if self.build().built(provider) {
                None
            } else {
                Some(not_built_reply(provider, capability))
            },
    {
        if !self.provider_is_built(provider) {
            return Some(
                Reply::RequestUnsupported(
                    RequestUnsupported {
                        provider: Some(provider),
                        capability,
                        reason: UnsupportedReason::ProviderNotBuilt,
                    },
                ),
            );
        }
        None
    }

    // ---------------------------------------------------- ordinary requests

    pub open spec fn redirect_observation(self, query: RedirectQuery, reply: Reply) -> bool {
        &&& reply == if !self.build().built(query.provider) {
                not_built_reply(query.provider, Some(Capability::RedirectRules))
            } else if !self.configured(query.provider) {
                unsupported(query.provider, Some(Capability::RedirectRules), UnsupportedReason::CapabilityNotCompiled)
            } else {
                unsupported(query.provider, Some(Capability::RedirectRules), UnsupportedReason::CapabilityNotCompiled)
            }
    }

    /// Redirect observation is not wired to any provider yet: the answer is
    /// always a typed unsupported reply, never a silent empty listing.
    pub fn observe_redirects(&self, query: &RedirectQuery) -> (reply: Reply)
        ensures
            self.redirect_observation(*query, reply),
    {
        if let Some(reply) = self.unsupported_provider_reply(query.provider, Some(Capability::RedirectRules)) {
            return reply;
        }
        if !provider_supports_capability(query.provider, Capability::RedirectRules) {
            return Reply::RequestUnsupported(
                RequestUnsupported {
                    provider: Some(query.provider),
                    capability: Some(Capability::RedirectRules),
                    reason: UnsupportedReason::CapabilityNotCompiled,
                },
            );
        }
        if !self.provider_is_configured(query.provider) {
            return Reply::RequestUnsupported(
                RequestUnsupported {
                    provider: Some(query.provider),
                    capability: Some(Capability::RedirectRules),
                    reason: UnsupportedReason::ProviderNotConfigured,
                },
            );
        }
        Reply::RequestUnsupported(
            RequestUnsupported {
                provider: Some(query.provider),
                capability: Some(Capability::RedirectRules),
                reason: UnsupportedReason::CapabilityNotCompiled,
            },
        )
    }

    pub open spec fn plan_observation(self, identifier: Seq<char>, reply: Reply) -> bool {
        &&& if has_plan(self.plan_views(), identifier) {
                reply matches Reply::Observed(ObservationResult::Plan(plan)) && plan@ == first_plan(
                    self.plan_views(),
                    identifier,
                )
            } else {
                reply == Reply::RequestRejected(RejectionReason::PlanExpired)
            }
    }

    /// The first prepared plan with the identifier, or `PlanExpired`.
    pub fn observe_plan(&self, identifier: &String) -> (reply: Reply)
        ensures
            self.plan_observation(identifier@, reply),
    {
        match self.plan_index(identifier) {
            Some(index) => Reply::Observed(ObservationResult::Plan(self.plans[index].clone())),
            None => Reply::RequestRejected(RejectionReason::PlanExpired),
        }
    }

    /// The index of the first plan with the identifier.
    pub fn plan_index(&self, identifier: &String) -> (found: Option<usize>)
        ensures
            match found {
                Some(index) => index < self.plan_views().len() && has_plan(self.plan_views(), identifier@)
                    && self.plan_views()[index as int] == first_plan(self.plan_views(), identifier@),
                None => !has_plan(self.plan_views(), identifier@),
            },
    {
        let ghost view = self.plan_views();
        let mut index: usize = 0;
        while index < self.plans.len()
            invariant
                view == self.plan_views(),
                view.len() == self.plans.len(),
                index <= self.plans.len(),
                forall|j: int| 0 <= j < index ==> view[j].identifier != identifier@,
            decreases self.plans.len() - index,
        {
            if self.plans[index].identifier == *identifier {
                proof {
                    assert(view[index as int].identifier == identifier@);
                    let i = choose|i: int|
                        0 <= i < view.len() && (#[trigger] view[i]).identifier == identifier@ && forall|j: int|
                            0 <= j < i ==> view[j].identifier != identifier@;
                    assert(i == index) by {
                        if i > index {
                            assert(view[index as int].identifier == identifier@);
                        }
                    }
                }
                return Some(index);
            }
            index = index + 1;
        }
        None
    }

    /// The index of the first host plan with the identifier.
    pub fn host_plan_index(&self, identifier: &String) -> (found: Option<usize>)
        ensures
            match found {
                Some(index) => index < self.host_plan_views().len() && has_host_plan(self.host_plan_views(), identifier@)
                    && self.host_plan_views()[index as int] == first_host_plan(self.host_plan_views(), identifier@),
                None => !has_host_plan(self.host_plan_views(), identifier@),
            },
    {
        let ghost view = self.host_plan_views();
        let mut index: usize = 0;
        while index < self.host_plans.len()
            invariant
                view == self.host_plan_views(),
                view.len() == self.host_plans.len(),
                index <= self.host_plans.len(),
                forall|j: int| 0 <= j < index ==> view[j].identifier != identifier@,
            decreases self.host_plans.len() - index,
        {
            if self.host_plans[index].identifier == *identifier {
                proof {
                    assert(view[index as int].identifier == identifier@);
                    let i = choose|i: int|
                        0 <= i < view.len() && (#[trigger] view[i]).identifier == identifier@ && forall|j: int|
                            0 <= j < i ==> view[j].identifier != identifier@;
                    assert(i == index) by {
                        if i > index {
                            assert(view[index as int].identifier == identifier@);
                        }
                    }
                }
                return Some(index);
            }
            index = index + 1;
        }
        None
    }

    // ------------------------------------------------------------ accounts

    /// The index of the binding of `provider` and `account`.
    pub fn account_index(&self, provider: Provider, account: &String) -> (found: Option<usize>)
        ensures
            match found {
                Some(index) => index < self.bindings().len() && same_account(self.bindings()[index as int], provider, account@),
                None => !has_account(self.bindings(), provider, account@),
            },
    {
        let ghost view = self.bindings();
        let mut index: usize = 0;
        while index < self.accounts.len()
            invariant
                view == self.bindings(),
                index <= self.accounts.len(),
                forall|i: int| 0 <= i < index ==> !same_account(#[trigger] view[i], provider, account@),
            decreases self.accounts.len() - index,
        {
            if self.accounts[index].provider == provider && self.accounts[index].account == *account {
                return Some(index);
            }
            index = index + 1;
        }
        None
    }

    pub open spec fn registration_outcome(self, after: Self, registration: Registration, reply: MetaReply) -> bool {
        &&& after.wf()
        &&& after.build() == self.build()
        &&& after.plan_views() == self.plan_views()
        &&& after.host_plan_views() == self.host_plan_views()
        &&& after.approved() == self.approved()
        &&& after.cached_records() == self.cached_records()
        &&& after.cached_zones() == self.cached_zones()
        &&& after.effect_client() == self.effect_client()
        &&& !self.build().built(registration.provider) ==> reply == MetaReply::RequestRejected(
                MetaRejectionReason::ProviderNotConfigured
            )
        &&& self.build().built(registration.provider) && registration.provider != Provider::Cloudflare
                ==> (reply matches MetaReply::AccountRegistered { .. })
        &&& match reply {
                MetaReply::AccountRegistered { provider, account } => {
                    &&& provider == registration.provider
                    &&& account@ == registration.account@
                    &&& after.bindings() == registered(
                        self.bindings(),
                        BindingView {
                            provider: registration.provider,
                            account: registration.account@,
                            credential: registration.credential@,
                        },
                    )
                },
                MetaReply::RequestRejected(reason) => {
                    &&& after.bindings() == self.bindings()
                    &&& (reason == MetaRejectionReason::ProviderNotConfigured || reason
                        == MetaRejectionReason::CredentialHandleUnknown || reason
                        == MetaRejectionReason::PlanGenerationFailed)
                },
                _ => false
            }
    }

    /// Registers an account: a provider that is not built is refused, a
    /// Cloudflare credential handle must resolve, and a repeat registration
    /// replaces the binding.
    pub fn register_account(&mut self, registration: Registration) -> (reply: MetaReply)
        requires
            old(self).wf(),
        ensures
            old(self).registration_outcome(*final(self), registration, reply),
    {
        let built = self.provider_is_built(registration.provider);
        let credential_check = if built && registration.provider == Provider::Cloudflare {
            self.effects.cloudflare_verify_credential(&registration.credential)
        } else {
            Ok(())
        };
        if let Some(reason) = registration_refusal(registration.provider, built, credential_check) {
            return MetaReply::RequestRejected(reason);
        }
        let ghost before = self.bindings();
        let ghost new_binding = BindingView {
            provider: registration.provider,
            account: registration.account@,
            credential: registration.credential@,
        };
        let reply = MetaReply::AccountRegistered {
            provider: registration.provider,
            account: registration.account.clone(),
        };
        let binding = AccountBinding {
            provider: registration.provider,
            account: registration.account,
            credential: registration.credential,
        };
        match self.account_index(binding.provider, &binding.account) {
            Some(index) => {
                self.accounts.set(index, binding);
                proof {
                    assert forall|i: int| 0 <= i < before.len() && i != index implies !same_account(
                        #[trigger] before[i],
                        new_binding.provider,
                        new_binding.account,
                    ) by {
                        assert(!same_account(before[i], before[index as int].provider, before[index as int].account));
                    }
                    assert(self.bindings() =~= registered(before, new_binding));
                }
            },
            None => {
                self.accounts.push(binding);
                proof {
                    assert(self.bindings() =~= before.push(new_binding));
                }
            },
        }
        reply
    }

    /// The meta rejection a Cloudflare failure maps to.
    pub fn meta_rejection_for_cloudflare_error(error: cloudflare::Error) -> (reason: MetaRejectionReason)
        ensures
            reason == cloudflare_rejection(error),
    {
        rejection_for_cloudflare_error(error)
    }

    pub open spec fn rotation_outcome(self, after: Self, rotation: Rotation, reply: MetaReply) -> bool {
        &&& after.wf()
        &&& after.build() == self.build()
        &&& after.plan_views() == self.plan_views()
        &&& after.host_plan_views() == self.host_plan_views()
        &&& after.approved() == self.approved()
        &&& after.cached_records() == self.cached_records()
        &&& after.cached_zones() == self.cached_zones()
        &&& after.effect_client() == self.effect_client()
        &&& if has_account(self.bindings(), rotation.provider, rotation.account@) {
                &&& reply matches MetaReply::CredentialRotated { provider, account } && provider == rotation.provider
                    && account@ == rotation.account@
                &&& after.bindings() == rotated(
                    self.bindings(),
                    rotation.provider,
                    rotation.account@,
                    rotation.credential@,
                )
            } else {
                &&& reply == MetaReply::RequestRejected(MetaRejectionReason::AccountUnknown)
                &&& after.bindings() == self.bindings()
            }
    }

    /// Replaces the credential handle of a registered account.
    pub fn rotate_credential(&mut self, rotation: Rotation) -> (reply: MetaReply)
        requires
            old(self).wf(),
        ensures
            old(self).rotation_outcome(*final(self), rotation, reply),
    {
        let ghost before = self.bindings();
        match self.account_index(rotation.provider, &rotation.account) {
            Some(index) => {
                let binding = AccountBinding {
                    provider: rotation.provider,
                    account: rotation.account.clone(),
                    credential: rotation.credential,
                };
                let ghost new_binding = binding@;
                self.accounts.set(index, binding);
                proof {
                    assert forall|i: int| 0 <= i < before.len() && i != index implies !same_account(
                        #[trigger] before[i],
                        rotation.provider,
                        rotation.account@,
                    ) by {
                        assert(!same_account(before[i], before[index as int].provider, before[index as int].account));
                    }
                    assert(self.bindings() =~= rotated(before, rotation.provider, rotation.account@, new_binding.credential));
                }
                MetaReply::CredentialRotated { provider: rotation.provider, account: rotation.account }
            },
            None => MetaReply::RequestRejected(MetaRejectionReason::AccountUnknown),
        }
    }

    pub open spec fn retirement_outcome(self, after: Self, retirement: Retirement, reply: MetaReply) -> bool {
        &&& after.wf()
        &&& after.build() == self.build()
        &&& after.plan_views() == self.plan_views()
        &&& after.host_plan_views() == self.host_plan_views()
        &&& after.approved() == self.approved()
        &&& after.cached_records() == self.cached_records()
        &&& after.cached_zones() == self.cached_zones()
        &&& after.effect_client() == self.effect_client()
        &&& after.bindings() == retired(self.bindings(), retirement.provider, retirement.account@)
        &&& reply matches MetaReply::AccountRetired { provider, account } && provider == retirement.provider
                && account@ == retirement.account@
    }

    /// Removes the binding of an account; retiring an unknown account is
    /// still acknowledged.
    pub fn retire_account(&mut self, retirement: Retirement) -> (reply: MetaReply)
        requires
            old(self).wf(),
        ensures
            old(self).retirement_outcome(*final(self), retirement, reply),
    {
        let ghost before = self.bindings();
        let mut kept: Vec<AccountBinding> = Vec::new();
        let mut remaining: Vec<AccountBinding> = Vec::new();
        core::mem::swap(&mut remaining, &mut self.accounts);
        let ghost mut taken: int = 0;
        while remaining.len() > 0
            invariant
                0 <= taken <= before.len(),
                taken + remaining.len() == before.len(),
                forall|i: int| 0 <= i < remaining.len() ==> #[trigger] remaining@[i]@ == before[taken + i],
                kept.deep_view() == retired(before.take(taken), retirement.provider, retirement.account@),
            decreases remaining.len(),
        {
            let binding = remaining.remove(0);
            proof {
                let next = before.take(taken + 1);
                assert(next.drop_last() =~= before.take(taken));
                assert(next.last() == binding@);
            }
            if !(binding.provider == retirement.provider && binding.account == retirement.account) {
                kept.push(binding);
            }
            proof {
                taken = taken + 1;
                assert(kept.deep_view() =~= retired(before.take(taken), retirement.provider, retirement.account@));
            }
        }
        assert(before.take(taken) =~= before);
        self.accounts = kept;
        proof {
            lemma_retired_is_subsequence(before, retirement.provider, retirement.account@);
        }
        MetaReply::AccountRetired { provider: retirement.provider, account: retirement.account }
    }

    pub open spec fn policy_outcome(self, after: Self, policy: Policy, reply: MetaReply) -> bool {
        &&& after.wf()
        &&& after.build() == self.build()
        &&& after.bindings() == self.bindings()
        &&& after.plan_views() == self.plan_views()
        &&& after.host_plan_views() == self.host_plan_views()
        &&& after.approved() == self.approved()
        &&& after.cached_records() == self.cached_records()
        &&& after.cached_zones() == self.cached_zones()
        &&& after.effect_client() == self.effect_client()
        &&& after.zone_policies() == policy.zones.deep_view()
        &&& after.zone_policy_count() == policy.zones.len()
        &&& after.capability_policy_count() == policy.capabilities.len()
        &&& reply == (MetaReply::PolicySet {
                capability_policy_count: policy.capabilities.len() as u64,
                zone_policy_count: policy.zones.len() as u64
            })
    }

    /// Replaces the owner policy and reports how many zone and capability
    /// policies it holds.
    pub fn set_policy(&mut self, policy: Policy) -> (reply: MetaReply)
        requires
            old(self).wf(),
        ensures
            old(self).policy_outcome(*final(self), policy, reply),
    {
        let capability_policy_count = policy.capabilities.len() as u64;
        let zone_policy_count = policy.zones.len() as u64;
        self.policy = policy;
        MetaReply::PolicySet { capability_policy_count, zone_policy_count }
    }

    pub open spec fn approval_outcome(self, after: Self, identifier: Seq<char>, reply: MetaReply) -> bool {
        &&& after.wf()
        &&& after.build() == self.build()
        &&& after.bindings() == self.bindings()
        &&& after.plan_views() == self.plan_views()
        &&& after.host_plan_views() == self.host_plan_views()
        &&& after.cached_records() == self.cached_records()
        &&& after.cached_zones() == self.cached_zones()
        &&& after.effect_client() == self.effect_client()
        &&& if has_plan(self.plan_views(), identifier) || has_host_plan(self.host_plan_views(), identifier) {
                &&& reply matches MetaReply::PlanApproved(approved) && approved@ == identifier
                &&& after.approved() == self.approved().push(identifier)
            } else {
                &&& reply == MetaReply::RequestRejected(MetaRejectionReason::PlanUnknown)
                &&& after.approved() == self.approved()
            }
    }

    /// Approves a prepared DNS or host plan.
    pub fn approve_plan(&mut self, identifier: String) -> (reply: MetaReply)
        requires
            old(self).wf(),
        ensures
            old(self).approval_outcome(*final(self), identifier@, reply),
    {
        if !self.plan_is_known(&identifier) {
            return MetaReply::RequestRejected(MetaRejectionReason::PlanUnknown);
        }
        let ghost before = self.approved();
        self.approved_plans.push(identifier.clone());
        assert(self.approved() =~= before.push(identifier@));
        MetaReply::PlanApproved(identifier)
    }

    /// Whether a DNS or host plan carries the identifier.
    pub fn plan_is_known(&self, identifier: &String) -> (known: bool)
        ensures
            known == (has_plan(self.plan_views(), identifier@) || has_host_plan(self.host_plan_views(), identifier@)),
    {
        match self.plan_index(identifier) {
            Some(_) => true,
            None => match self.host_plan_index(identifier) {
                Some(_) => true,
                None => false,
            },
        }
    }

    /// Whether the identifier has been approved.
    pub fn plan_is_approved(&self, identifier: &String) -> (approved: bool)
        ensures
            approved == self.approved().contains(identifier@),
    {
        contains_name(&self.approved_plans, identifier)
    }

    /// The unsupported answer a desired state draws before validation, if
    /// any: its provider is not built, does not support records or redirects
    /// it asks for, or has no registered account.
    pub open spec fn validation_gate(&self, provider: Provider, has_records: bool, has_redirects: bool) -> Option<Reply> {
        if !self.build().built(provider) {
            Some(not_built_reply(provider, None))
        } else if has_records && !supports(provider, Capability::DomainNameSystemRecords) {
            Some(unsupported(provider, Some(Capability::DomainNameSystemRecords), UnsupportedReason::CapabilityNotCompiled))
        } else if has_redirects && !supports(provider, Capability::RedirectRules) {
            Some(unsupported(provider, Some(Capability::RedirectRules), UnsupportedReason::CapabilityNotCompiled))
        } else if !self.configured(provider) {
            Some(unsupported(provider, None, UnsupportedReason::ProviderNotConfigured))
        } else {
            None
        }
    }

    pub open spec fn validation_outcome(self, desired_state: DesiredState, reply: Reply) -> bool {
        &&& match self.validation_gate(
                desired_state.provider,
                desired_state.records.len() > 0,
                desired_state.redirects.len() > 0
            ) {
                Some(refusal) => reply == refusal,
                None => reply matches Reply::Validated(findings) && findings.deep_view() == desired_state_findings(
                    desired_state.records.deep_view(),
                    desired_state.redirects.deep_view(),
                )
            }
    }

    /// Validates a desired state once its provider is built, supports what
    /// the state asks for, and is configured.
    pub fn validate(&self, desired_state: DesiredState) -> (reply: Reply)
        ensures
            self.validation_outcome(desired_state, reply),
    {
        let provider = desired_state.provider;
        if let Some(reply) = self.unsupported_provider_reply(provider, None) {
            return reply;
        }
        if desired_state.records.len() > 0 && !provider_supports_capability(
            provider,
            Capability::DomainNameSystemRecords,
        ) {
            return Reply::RequestUnsupported(
                RequestUnsupported {
                    provider: Some(provider),
                    capability: Some(Capability::DomainNameSystemRecords),
                    reason: UnsupportedReason::CapabilityNotCompiled,
                },
            );
        }
        if desired_state.redirects.len() > 0 && !provider_supports_capability(provider, Capability::RedirectRules) {
            return Reply::RequestUnsupported(
                RequestUnsupported {
                    provider: Some(provider),
                    capability: Some(Capability::RedirectRules),
                    reason: UnsupportedReason::CapabilityNotCompiled,
                },
            );
        }
        if !self.provider_is_configured(provider) {
            return Reply::RequestUnsupported(
                RequestUnsupported {
                    provider: Some(provider),
                    capability: None,
                    reason: UnsupportedReason::ProviderNotConfigured,
                },
            );
        }
        Reply::Validated(DesiredStateValidation::new(desired_state).findings())
    }
}

/// The binding of `provider` and `account` (one at most, by the store's
/// invariant).
pub open spec fn account_binding(bindings: Seq<BindingView>, provider: Provider, account: Seq<char>) -> BindingView {
    let i = choose|i: int| 0 <= i < bindings.len() && same_account(#[trigger] bindings[i], provider, account);
    bindings[i]
}

/// The binding that serves a zone: the account of the first zone policy of
/// `provider` that allows the zone, if that account is registered.
pub open spec fn zone_binding(
    policies: Seq<ZonePolicyView>,
    bindings: Seq<BindingView>,
    provider: Provider,
    zone: Seq<char>,
) -> Option<BindingView> {
    if has_zone_policy(policies, provider, zone) && has_account(
        bindings,
        provider,
        first_zone_policy(policies, provider, zone).account,
    ) {
        Some(account_binding(bindings, provider, first_zone_policy(policies, provider, zone).account))
    } else {
        None
    }
}

impl<E: ProviderEffects> Store<E> {
    /// The zones the policy grants to registered accounts of built
    /// providers, each identified as `account:domain`.
    pub fn zones(&self) -> (zones: Vec<Zone>)
        ensures
            zones.deep_view() == policy_zones(self.zone_policies(), self.bindings(), self.build()),
    {
        let ghost policies = self.zone_policies();
        let mut zones: Vec<Zone> = Vec::new();
        let mut index: usize = 0;
        while index < self.policy.zones.len()
            invariant
                policies == self.zone_policies(),
                policies.len() == self.policy.zones.len(),
                index <= self.policy.zones.len(),
                zones.deep_view() == policy_zones(policies.take(index as int), self.bindings(), self.build()),
            decreases self.policy.zones.len() - index,
        {
            let zone_policy = &self.policy.zones[index];
            proof {
                let next = policies.take(index + 1);
                assert(next.drop_last() =~= policies.take(index as int));
                assert(next.last() == zone_policy@);
            }
            if self.profile.provider_is_built(zone_policy.provider) {
                match self.account_index(zone_policy.provider, &zone_policy.account) {
                    Some(_) => {
                        let ghost start = zones.deep_view();
                        let ghost entries = policy_zone_entries(zone_policy@);
                        let mut position: usize = 0;
                        while position < zone_policy.allowed_zones.len()
                            invariant
                                position <= zone_policy.allowed_zones.len(),
                                entries == policy_zone_entries(zone_policy@),
                                entries.len() == zone_policy.allowed_zones.len(),
                                zones.deep_view() == start + entries.take(position as int),
                            decreases zone_policy.allowed_zones.len() - position,
                        {
                            let domain = &zone_policy.allowed_zones[position];
                            let mut identifier = zone_policy.account.clone();
                            identifier.append(":");
                            identifier.append(domain.as_str());
                            let zone = Zone {
                                provider: zone_policy.provider,
                                account: zone_policy.account.clone(),
                                identifier,
                                name: domain.clone(),
                            };
                            let ghost before = zones.deep_view();
                            assert(zone@ == entries[position as int]);
                            zones.push(zone);
                            assert(zones.deep_view() =~= before.push(entries[position as int]));
                            assert(entries.take(position + 1) =~= entries.take(position as int).push(
                                entries[position as int],
                            ));
                            position = position + 1;
                        }
                        assert(entries.take(entries.len() as int) =~= entries);
                    },
                    None => {},
                }
            }
            index = index + 1;
        }
        assert(policies.take(policies.len() as int) =~= policies);
        zones
    }

    /// The zones last read from a provider.
    pub fn last_known_zones(&self) -> (zones: Vec<Zone>)
        ensures
            zones.deep_view() == self.cached_zones(),
    {
        clone_zones(&self.last_known_zones)
    }

    /// The records last read for a provider's zone, if any were read.
    pub fn last_known_records(&self, provider: Provider, zone: &String) -> (listing: Option<Vec<DomainNameSystemRecord>>)
        ensures
            match listing {
                Some(records) => cached_listing(self.cached_records(), provider, zone@) == Some(records.deep_view()),
                None => cached_listing(self.cached_records(), provider, zone@) is None,
            },
    {
        match self.cache_position(provider, zone) {
            Some(index) => Some(clone_records(&self.last_known_records[index].listing)),
            None => None,
        }
    }

    /// The position of a provider's zone in the record cache.
    fn cache_position(&self, provider: Provider, zone: &String) -> (found: Option<usize>)
        ensures
            match found {
                Some(index) => cache_index(self.cached_records(), provider, zone@) == Some(index as int)
                    && index < self.cached_records().len(),
                None => cache_index(self.cached_records(), provider, zone@) is None,
            },
    {
        let ghost cached = self.cached_records();
        let mut index: usize = 0;
        while index < self.last_known_records.len()
            invariant
                cached == self.cached_records(),
                cached.len() == self.last_known_records.len(),
                index <= self.last_known_records.len(),
                forall|j: int| 0 <= j < index ==> !cache_matches(#[trigger] cached[j], provider, zone@),
            decreases self.last_known_records.len() - index,
        {
            let entry = &self.last_known_records[index];
            assert(entry@ == cached[index as int]);
            if entry.provider == provider && entry.zone == *zone {
                proof {
                    lemma_cache_index_is(cached, provider, zone@, index as int);
                }
                return Some(index);
            }
            index = index + 1;
        }
        proof {
            lemma_cache_index(cached, provider, zone@);
            if cache_index(cached, provider, zone@) is Some {
                let found = cache_index(cached, provider, zone@)->0;
                assert(!cache_matches(cached[found], provider, zone@));
            }
        }
        None
    }

    /// Replaces the zones last read from a provider.
    fn replace_last_known_zones(&mut self, zones: Vec<Zone>)
        ensures
            final(self).cached_zones() == zones.deep_view(),
            final(self).cached_records() == old(self).cached_records(),
            final(self).bindings() == old(self).bindings(),
            final(self).zone_policies() == old(self).zone_policies(),
            final(self).zone_policy_count() == old(self).zone_policy_count(),
            final(self).capability_policy_count() == old(self).capability_policy_count(),
            final(self).plan_views() == old(self).plan_views(),
            final(self).host_plan_views() == old(self).host_plan_views(),
            final(self).approved() == old(self).approved(),
            final(self).build() == old(self).build(),
            final(self).effect_client() == old(self).effect_client(),
    {
        self.last_known_zones = zones;
    }

    /// Stores the records last read for a provider's zone, replacing what was
    /// stored for that zone before.
    fn replace_last_known_records(&mut self, provider: Provider, zone: String, listing: Vec<DomainNameSystemRecord>)
        ensures
            final(self).cached_records() == with_cached(
                old(self).cached_records(),
                CachedView { provider, zone: zone@, listing: listing.deep_view() },
            ),
            final(self).cached_zones() == old(self).cached_zones(),
            final(self).bindings() == old(self).bindings(),
            final(self).zone_policies() == old(self).zone_policies(),
            final(self).zone_policy_count() == old(self).zone_policy_count(),
            final(self).capability_policy_count() == old(self).capability_policy_count(),
            final(self).plan_views() == old(self).plan_views(),
            final(self).host_plan_views() == old(self).host_plan_views(),
            final(self).approved() == old(self).approved(),
            final(self).build() == old(self).build(),
            final(self).effect_client() == old(self).effect_client(),
    {
        let ghost before = self.cached_records();
        let entry = CachedRecordListing { provider, zone, listing };
        let ghost entry_view = entry@;
        match self.cache_position(provider, &entry.zone) {
            Some(index) => {
                self.last_known_records.set(index, entry);
                assert(self.cached_records() =~= before.update(index as int, entry_view));
            },
            None => {
                self.last_known_records.push(entry);
                assert(self.cached_records() =~= before.push(entry_view));
            },
        }
    }

    /// The bindings of `provider`, restricted to `account` when one is given.
    pub fn account_bindings(&self, provider: Provider, account: &Option<String>) -> (bindings: Vec<AccountBinding>)
        ensures
            bindings.deep_view() == bindings_of(self.bindings(), provider, account.deep_view()),
    {
        let ghost view = self.bindings();
        let mut bindings: Vec<AccountBinding> = Vec::new();
        let mut index: usize = 0;
        while index < self.accounts.len()
            invariant
                view == self.bindings(),
                view.len() == self.accounts.len(),
                index <= self.accounts.len(),
                bindings.deep_view() == bindings_of(view.take(index as int), provider, account.deep_view()),
            decreases self.accounts.len() - index,
        {
            let binding = &self.accounts[index];
            proof {
                let next = view.take(index + 1);
                assert(next.drop_last() =~= view.take(index as int));
                assert(next.last() == binding@);
            }
            let wanted = match account {
                Some(requested) => binding.account == *requested,
                None => true,
            };
            if binding.provider == provider && wanted {
                let ghost before = bindings.deep_view();
                let copy = binding.clone();
                bindings.push(copy);
                assert(bindings.deep_view() =~= before.push(binding@));
            }
            index = index + 1;
        }
        assert(view.take(view.len() as int) =~= view);
        bindings
    }

    /// Every zone the policies allow for a Cloudflare account.
    pub fn allowed_zone_names(&self, account: &String) -> (names: Vec<String>)
        ensures
            names.deep_view() == allowed_names(self.zone_policies(), account@),
    {
        let ghost policies = self.zone_policies();
        let mut names: Vec<String> = Vec::new();
        let mut index: usize = 0;
        while index < self.policy.zones.len()
            invariant
                policies == self.zone_policies(),
                policies.len() == self.policy.zones.len(),
                index <= self.policy.zones.len(),
                names.deep_view() == allowed_names(policies.take(index as int), account@),
            decreases self.policy.zones.len() - index,
        {
            let zone_policy = &self.policy.zones[index];
            proof {
                let next = policies.take(index + 1);
                assert(next.drop_last() =~= policies.take(index as int));
                assert(next.last() == zone_policy@);
            }
            if zone_policy.provider == Provider::Cloudflare && zone_policy.account == *account {
                let ghost start = names.deep_view();
                let ghost allowed = zone_policy.allowed_zones.deep_view();
                let mut position: usize = 0;
                while position < zone_policy.allowed_zones.len()
                    invariant
                        position <= zone_policy.allowed_zones.len(),
                        allowed == zone_policy.allowed_zones.deep_view(),
                        names.deep_view() == start + allowed.take(position as int),
                    decreases zone_policy.allowed_zones.len() - position,
                {
                    let ghost before = names.deep_view();
                    let name = zone_policy.allowed_zones[position].clone();
                    names.push(name);
                    assert(names.deep_view() =~= before.push(allowed[position as int]));
                    assert(allowed.take(position + 1) =~= allowed.take(position as int).push(allowed[position as int]));
                    position = position + 1;
                }
                assert(allowed.take(allowed.len() as int) =~= allowed);
            }
            index = index + 1;
        }
        assert(policies.take(policies.len() as int) =~= policies);
        names
    }

    /// The binding that serves a zone of `provider`.
    pub fn account_binding_for_zone(&self, provider: Provider, zone: &String) -> (found: Option<AccountBinding>)
        requires
            self.wf(),
        ensures
            match found {
                Some(binding) => zone_binding(self.zone_policies(), self.bindings(), provider, zone@) == Some(binding@),
                None => zone_binding(self.zone_policies(), self.bindings(), provider, zone@) is None,
            },
    {
        let ghost policies = self.zone_policies();
        let mut index: usize = 0;
        while index < self.policy.zones.len()
            invariant
                self.wf(),
                policies == self.zone_policies(),
                policies.len() == self.policy.zones.len(),
                index <= self.policy.zones.len(),
                forall|j: int| 0 <= j < index ==> !policy_allows(#[trigger] policies[j], provider, zone@),
            decreases self.policy.zones.len() - index,
        {
            let zone_policy = &self.policy.zones[index];
            assert(zone_policy@ == policies[index as int]);
            if zone_policy.provider == provider && contains_name(&zone_policy.allowed_zones, zone) {
                proof {
                    assert(policy_allows(policies[index as int], provider, zone@));
                    let i = choose|i: int|
                        0 <= i < policies.len() && policy_allows(#[trigger] policies[i], provider, zone@) && forall|j: int|
                            0 <= j < i ==> !policy_allows(policies[j], provider, zone@);
                    assert(i == index) by {
                        if i > index {
                            assert(policy_allows(policies[index as int], provider, zone@));
                        }
                    }
                }
                return match self.account_index(provider, &zone_policy.account) {
                    Some(position) => {
                        proof {
                            lemma_account_binding_is(self.bindings(), provider, zone_policy.account@, position as int);
                        }
                        Some(self.accounts[position].clone())
                    },
                    None => None,
                };
            }
            index = index + 1;
        }
        None
    }
}

/// Whether a listing holds a zone of that name.
pub open spec fn has_zone_named(zones: Seq<ZoneView>, name: Seq<char>) -> bool {
    exists|i: int| 0 <= i < zones.len() && (#[trigger] zones[i]).name == name
}

/// The first zone of that name.
pub open spec fn first_zone_named(zones: Seq<ZoneView>, name: Seq<char>) -> ZoneView {
    let i = choose|i: int|
        0 <= i < zones.len() && (#[trigger] zones[i]).name == name && forall|j: int|
            0 <= j < i ==> zones[j].name != name;
    zones[i]
}

/// The identifier of the first zone of that name in a listing, or
/// `ZoneNotFound`.
pub fn zone_identifier_in(zones: &Vec<Zone>, zone: &String) -> (identifier: Result<String, cloudflare::Error>)
    ensures
        match identifier {
            Ok(found) => has_zone_named(zones.deep_view(), zone@) && found@ == first_zone_named(
                zones.deep_view(),
                zone@,
            ).identifier,
            Err(error) => !has_zone_named(zones.deep_view(), zone@) && (error matches cloudflare::Error::ZoneNotFound(
                name,
            ) && name@ == zone@),
        },
{
    let ghost view = zones.deep_view();
    let mut index: usize = 0;
    while index < zones.len()
        invariant
            view == zones.deep_view(),
            view.len() == zones.len(),
            index <= zones.len(),
            forall|j: int| 0 <= j < index ==> (#[trigger] view[j]).name != zone@,
        decreases zones.len() - index,
    {
        assert(zones[index as int]@ == view[index as int]);
        if zones[index].name == *zone {
            proof {
                assert(view[index as int].name == zone@);
                let i = choose|i: int|
                    0 <= i < view.len() && (#[trigger] view[i]).name == zone@ && forall|j: int|
                        0 <= j < i ==> view[j].name != zone@;
                assert(i == index) by {
                    if i > index {
                        assert(view[index as int].name == zone@);
                    }
                }
            }
            return Ok(zones[index].identifier.clone());
        }
        index = index + 1;
    }
    Err(cloudflare::Error::ZoneNotFound(zone.clone()))
}

/// The answer to a Cloudflare read that failed: a credential that does not
/// resolve means the provider is not configured; anything else means the
/// provider is unavailable.
pub open spec fn cloudflare_failure_reply(error: cloudflare::Error) -> Reply {
    match error {
        cloudflare::Error::CredentialUnavailable(_) => unsupported(
            Provider::Cloudflare,
            Some(Capability::DomainNameSystemRecords),
            UnsupportedReason::ProviderNotConfigured,
        ),
        _ => Reply::RequestRejected(RejectionReason::ProviderUnavailable),
    }
}

/// The answer to a compute-provider read that failed.
pub open spec fn host_failure_reply(provider: Provider, error: HostError) -> Reply {
    match error {
        HostError::CredentialUnavailable(_) => unsupported(
            provider,
            Some(Capability::CloudHosts),
            UnsupportedReason::ProviderNotConfigured,
        ),
        _ => Reply::RequestRejected(RejectionReason::ProviderUnavailable),
    }
}

/// The answer to a Cloudflare zone read.
pub fn zone_listing_reply(listing: Result<Vec<Zone>, cloudflare::Error>) -> (reply: Reply)
    ensures
        reply == match listing {
            Ok(zones) => Reply::Observed(ObservationResult::Zones(zones)),
            Err(error) => cloudflare_failure_reply(error),
        },
{
    match listing {
        Ok(zones) => Reply::Observed(ObservationResult::Zones(zones)),
        Err(error) => cloudflare_failure(error),
    }
}

/// The answer to a Cloudflare record read.
pub fn record_listing_reply(listing: Result<Vec<DomainNameSystemRecord>, cloudflare::Error>) -> (reply: Reply)
    ensures
        reply == match listing {
            Ok(records) => Reply::Observed(ObservationResult::Records(records)),
            Err(error) => cloudflare_failure_reply(error),
        },
{
    match listing {
        Ok(records) => Reply::Observed(ObservationResult::Records(records)),
        Err(error) => cloudflare_failure(error),
    }
}

/// The answer to a compute-provider host read.
pub fn host_listing_reply(provider: Provider, listing: Result<Vec<CloudHost>, HostError>) -> (reply: Reply)
    ensures
        reply == match listing {
            Ok(hosts) => Reply::Observed(ObservationResult::Servers(hosts)),
            Err(error) => host_failure_reply(provider, error),
        },
{
    match listing {
        Ok(hosts) => Reply::Observed(ObservationResult::Servers(hosts)),
        Err(HostError::CredentialUnavailable(_)) => Reply::RequestUnsupported(
            RequestUnsupported {
                provider: Some(provider),
                capability: Some(Capability::CloudHosts),
                reason: UnsupportedReason::ProviderNotConfigured,
            },
        ),
        Err(_) => Reply::RequestRejected(RejectionReason::ProviderUnavailable),
    }
}

fn cloudflare_failure(error: cloudflare::Error) -> (reply: Reply)
    ensures
        reply == cloudflare_failure_reply(error),
{
    match error {
        cloudflare::Error::CredentialUnavailable(_) => Reply::RequestUnsupported(
            RequestUnsupported {
                provider: Some(Provider::Cloudflare),
                capability: Some(Capability::DomainNameSystemRecords),
                reason: UnsupportedReason::ProviderNotConfigured,
            },
        ),
        _ => Reply::RequestRejected(RejectionReason::ProviderUnavailable),
    }
}

impl<E: ProviderEffects> Store<E> {
    /// Everything but the caches of provider reads is as in `earlier`.
    pub open spec fn keeps_configuration(self, earlier: Self) -> bool {
        &&& self.bindings() == earlier.bindings()
        &&& self.zone_policies() == earlier.zone_policies()
        &&& self.zone_policy_count() == earlier.zone_policy_count()
        &&& self.capability_policy_count() == earlier.capability_policy_count()
        &&& self.plan_views() == earlier.plan_views()
        &&& self.host_plan_views() == earlier.host_plan_views()
        &&& self.approved() == earlier.approved()
        &&& self.build() == earlier.build()
        &&& self.effect_client() == earlier.effect_client()
    }

    /// The Cloudflare identifier of a zone, as the zone listing of the
    /// binding's account reports it.
    fn cloudflare_zone_identifier(&self, binding: &AccountBinding, zone: &String) -> (identifier: Result<
        String,
        cloudflare::Error,
    >) {
        let mut names: Vec<String> = Vec::new();
        names.push(zone.clone());
        match self.effects.cloudflare_zones(&binding.account, &binding.credential, &names) {
            Ok(zones) => zone_identifier_in(&zones, zone),
            Err(error) => Err(error),
        }
    }

    /// Reads the zones of every Cloudflare account (or of the one asked
    /// for), restricted to the zones the policy allows it, and remembers the
    /// result as the last known zones.
    pub fn cloudflare_zone_listing(&mut self, account: &Option<String>) -> (listing: Result<Vec<Zone>, cloudflare::Error>)
        ensures
            final(self).keeps_configuration(*old(self)),
            final(self).cached_records() == old(self).cached_records(),
            match listing {
                Ok(zones) => final(self).cached_zones() == zones.deep_view(),
                Err(_) => final(self).cached_zones() == old(self).cached_zones(),
            },
            listing matches Ok(zones) ==> zones_of_bindings(
                zones@,
                bindings_of(old(self).bindings(), Provider::Cloudflare, account.deep_view()),
            ),
            bindings_of(old(self).bindings(), Provider::Cloudflare, account.deep_view()).len() == 0 ==> (
            listing matches Ok(zones) && zones.len() == 0),
    {
        let bindings = self.account_bindings(Provider::Cloudflare, account);
        let ghost allowed = bindings.deep_view();
        let mut zones: Vec<Zone> = Vec::new();
        let mut index: usize = 0;
        while index < bindings.len()
            invariant
                index <= bindings.len(),
                allowed == bindings.deep_view(),
                allowed.len() == bindings.len(),
                allowed == bindings_of(old(self).bindings(), Provider::Cloudflare, account.deep_view()),
                zones_of_bindings(zones@, allowed),
                index == 0 ==> zones.len() == 0,
            decreases bindings.len() - index,
        {
            let binding = &bindings[index];
            let names = self.allowed_zone_names(&binding.account);
            match self.effects.cloudflare_zones(&binding.account, &binding.credential, &names) {
                Ok(found) => {
                    let mut found = found;
                    let ghost before = zones@;
                    let ghost added = found@;
                    zones.append(&mut found);
                    proof {
                        assert(allowed[index as int] == binding@);
                        assert forall|i: int| 0 <= i < zones@.len() implies (#[trigger] zones@[i]).provider
                            == Provider::Cloudflare && exists|j: int|
                            0 <= j < allowed.len() && zones@[i].account@ == allowed[j].account by {
                            if i < before.len() {
                                assert(zones@[i] == before[i]);
                            } else {
                                assert(zones@[i] == added[i - before.len()]);
                                assert(added[i - before.len()].account@ == allowed[index as int].account);
                            }
                        }
                    }
                },
                Err(error) => {
                    return Err(error);
                },
            }
            index = index + 1;
        }
        self.replace_last_known_zones(clone_zones(&zones));
        Ok(zones)
    }

    /// Reads the records of a Cloudflare zone through the account the policy
    /// assigns it, and remembers them as the zone's last known records.
    pub fn cloudflare_record_listing(&mut self, zone: &String) -> (listing: Result<Vec<DomainNameSystemRecord>, cloudflare::Error>)
        requires
            old(self).wf(),
        ensures
            final(self).keeps_configuration(*old(self)),
            final(self).cached_zones() == old(self).cached_zones(),
            zone_binding(old(self).zone_policies(), old(self).bindings(), Provider::Cloudflare, zone@) is None
                ==> (listing matches Err(cloudflare::Error::ZoneNotFound(name)) && name@ == zone@),
            match listing {
                Ok(records) => {
                    &&& final(self).cached_records() == with_cached(
                        old(self).cached_records(),
                        CachedView { provider: Provider::Cloudflare, zone: zone@, listing: records.deep_view() },
                    )
                    &&& cached_listing(final(self).cached_records(), Provider::Cloudflare, zone@) == Some(
                        records.deep_view(),
                    )
                },
                Err(_) => final(self).cached_records() == old(self).cached_records(),
            },
    {
        let binding = match self.account_binding_for_zone(Provider::Cloudflare, zone) {
            Some(binding) => binding,
            None => {
                return Err(cloudflare::Error::ZoneNotFound(zone.clone()));
            },
        };
        let zone_identifier = match self.cloudflare_zone_identifier(&binding, zone) {
            Ok(identifier) => identifier,
            Err(error) => {
                return Err(error);
            },
        };
        let listing = match self.effects.cloudflare_records(&binding.credential, &zone_identifier) {
            Ok(listing) => listing,
            Err(error) => {
                return Err(error);
            },
        };
        let ghost entry = CachedView { provider: Provider::Cloudflare, zone: zone@, listing: listing.deep_view() };
        self.replace_last_known_records(Provider::Cloudflare, zone.clone(), clone_records(&listing));
        proof {
            cached_after_store(old(self).cached_records(), entry);
        }
        Ok(listing)
    }

    pub open spec fn zone_observation(self, after: Self, query: ZoneQuery, reply: Reply) -> bool {
        &&& after.keeps_configuration(self)
        &&& after.cached_records() == self.cached_records()
        &&& match query.provider {
                Some(provider) => if !self.build().built(provider) {
                    reply == not_built_reply(provider, Some(Capability::DomainNameSystemRecords))
                } else if !self.configured(provider) {
                    reply == unsupported(
                        provider,
                        Some(Capability::DomainNameSystemRecords),
                        UnsupportedReason::ProviderNotConfigured,
                    )
                } else if provider == Provider::Cloudflare {
                    match reply {
                        Reply::Observed(ObservationResult::Zones(zones)) => after.cached_zones()
                            == zones.deep_view(),
                        _ => reply == unsupported(
                            Provider::Cloudflare,
                            Some(Capability::DomainNameSystemRecords),
                            UnsupportedReason::ProviderNotConfigured,
                        ) || reply == Reply::RequestRejected(RejectionReason::ProviderUnavailable),
                    }
                } else {
                    reply matches Reply::Observed(ObservationResult::Zones(zones)) && zones.deep_view()
                        == policy_zones(self.zone_policies(), self.bindings(), self.build())
                },
                None => reply matches Reply::Observed(ObservationResult::Zones(zones)) && zones.deep_view()
                    == policy_zones(self.zone_policies(), self.bindings(), self.build()),
            }
        &&& !(query.provider == Some(Provider::Cloudflare) && self.configured(Provider::Cloudflare))
                ==> after.cached_zones() == self.cached_zones()
    }

    /// Observes zones: those Cloudflare reports for a configured Cloudflare
    /// query, otherwise those the policy grants.
    pub fn observe_zones(&mut self, query: &ZoneQuery) -> (reply: Reply)
        requires
            old(self).wf(),
        ensures
            old(self).zone_observation(*final(self), *query, reply),
    {
        if let Some(provider) = query.provider {
            if let Some(reply) = self.unsupported_provider_reply(provider, Some(Capability::DomainNameSystemRecords)) {
                return reply;
            }
            if !self.provider_is_configured(provider) {
                return Reply::RequestUnsupported(
                    RequestUnsupported {
                        provider: Some(provider),
                        capability: Some(Capability::DomainNameSystemRecords),
                        reason: UnsupportedReason::ProviderNotConfigured,
                    },
                );
            }
            if provider == Provider::Cloudflare {
                let listing = self.cloudflare_zone_listing(&query.account);
                return zone_listing_reply(listing);
            }
        }
        Reply::Observed(ObservationResult::Zones(self.zones()))
    }

    pub open spec fn record_observation(self, after: Self, query: RecordQuery, reply: Reply) -> bool {
        &&& after.keeps_configuration(self)
        &&& after.cached_zones() == self.cached_zones()
        &&& if !self.build().built(query.provider) {
                reply == not_built_reply(query.provider, Some(Capability::DomainNameSystemRecords))
            } else if !supports(query.provider, Capability::DomainNameSystemRecords) {
                reply == unsupported(
                    query.provider,
                    Some(Capability::DomainNameSystemRecords),
                    UnsupportedReason::CapabilityNotCompiled,
                )
            } else if !self.configured(query.provider) {
                reply == unsupported(
                    query.provider,
                    Some(Capability::DomainNameSystemRecords),
                    UnsupportedReason::ProviderNotConfigured,
                )
            } else if query.provider == Provider::Cloudflare {
                match reply {
                    Reply::Observed(ObservationResult::Records(records)) => cached_listing(
                        after.cached_records(),
                        Provider::Cloudflare,
                        query.zone@,
                    ) == Some(records.deep_view()),
                    _ => reply == unsupported(
                        Provider::Cloudflare,
                        Some(Capability::DomainNameSystemRecords),
                        UnsupportedReason::ProviderNotConfigured,
                    ) || reply == Reply::RequestRejected(RejectionReason::ProviderUnavailable),
                }
            } else {
                reply matches Reply::Observed(ObservationResult::Records(records)) && records.len() == 0
            }
        &&& !(reply is Observed) ==> after.cached_records() == self.cached_records()
    }

    /// Observes the records of a zone: Cloudflare zones are read through
    /// the provider; another configured DNS provider has none to report.
    pub fn observe_records(&mut self, query: &RecordQuery) -> (reply: Reply)
        requires
            old(self).wf(),
        ensures
            old(self).record_observation(*final(self), *query, reply),
    {
        if let Some(reply) = self.unsupported_provider_reply(query.provider, Some(Capability::DomainNameSystemRecords)) {
            return reply;
        }
        if !provider_supports_capability(query.provider, Capability::DomainNameSystemRecords) {
            return Reply::RequestUnsupported(
                RequestUnsupported {
                    provider: Some(query.provider),
                    capability: Some(Capability::DomainNameSystemRecords),
                    reason: UnsupportedReason::CapabilityNotCompiled,
                },
            );
        }
        if !self.provider_is_configured(query.provider) {
            return Reply::RequestUnsupported(
                RequestUnsupported {
                    provider: Some(query.provider),
                    capability: Some(Capability::DomainNameSystemRecords),
                    reason: UnsupportedReason::ProviderNotConfigured,
                },
            );
        }
        if query.provider == Provider::Cloudflare {
            let listing = self.cloudflare_record_listing(&query.zone);
            return record_listing_reply(listing);
        }
        Reply::Observed(ObservationResult::Records(Vec::new()))
    }

    /// Reads the hosts of every account of a compute provider (or of the one
    /// asked for), in registration order.
    fn collect_hosts(&self, provider: Provider, account: &Option<String>) -> (hosts: Result<Vec<CloudHost>, HostError>)
        ensures
            hosts matches Ok(listed) ==> hosts_of_bindings(
                listed@,
                provider,
                bindings_of(self.bindings(), provider, account.deep_view()),
            ),
            hosts matches Ok(listed) ==> listed_per_binding(
                listed@,
                provider,
                bindings_of(self.bindings(), provider, account.deep_view()),
            ),
            bindings_of(self.bindings(), provider, account.deep_view()).len() == 0 ==> (hosts matches Ok(listed)
                && listed.len() == 0),
    {
        let bindings = self.account_bindings(provider, account);
        let ghost allowed = bindings.deep_view();
        let ghost mut parts: Seq<Seq<CloudHost>> = Seq::empty();
        let mut hosts: Vec<CloudHost> = Vec::new();
        let mut index: usize = 0;
        while index < bindings.len()
            invariant
                index <= bindings.len(),
                allowed == bindings.deep_view(),
                allowed.len() == bindings.len(),
                allowed == bindings_of(self.bindings(), provider, account.deep_view()),
                hosts_of_bindings(hosts@, provider, allowed),
                index == 0 ==> hosts.len() == 0,
                parts.len() == index,
                forall|j: int| 0 <= j < parts.len() ==> hosts_of(#[trigger] parts[j], provider, allowed[j].account),
                hosts@ == concatenated(parts),
            decreases bindings.len() - index,
        {
            let binding = &bindings[index];
            match self.effects.observe_hosts(provider, &binding.credential, &binding.account) {
                Ok(found) => {
                    let mut found = found;
                    let ghost before = hosts@;
                    let ghost added = found@;
                    hosts.append(&mut found);
                    proof {
                        assert(allowed[index as int] == binding@);
                        assert forall|i: int| 0 <= i < hosts@.len() implies (#[trigger] hosts@[i]).provider == provider
                            && exists|j: int| 0 <= j < allowed.len() && hosts@[i].account@ == allowed[j].account by {
                            if i < before.len() {
                                assert(hosts@[i] == before[i]);
                            } else {
                                assert(hosts@[i] == added[i - before.len()]);
                                assert(added[i - before.len()].account@ == allowed[index as int].account);
                            }
                        }
                        let next = parts.push(added);
                        assert(next.drop_last() =~= parts);
                        assert(hosts@ =~= concatenated(next));
                        parts = next;
                    }
                },
                Err(error) => {
                    return Err(error);
                },
            }
            index = index + 1;
        }
        assert(listed_per_binding(hosts@, provider, allowed));
        Ok(hosts)
    }

    pub open spec fn server_observation(self, query: HostQuery, reply: Reply) -> bool {
        &&& if !self.build().built(query.provider) {
                reply == not_built_reply(query.provider, Some(Capability::CloudHosts))
            } else if !supports(query.provider, Capability::CloudHosts) {
                reply == unsupported(query.provider, Some(Capability::CloudHosts), UnsupportedReason::CapabilityNotCompiled)
            } else if !self.configured(query.provider) {
                reply == unsupported(query.provider, Some(Capability::CloudHosts), UnsupportedReason::ProviderNotConfigured)
            } else {
                match reply {
                    Reply::Observed(result) => result matches ObservationResult::Servers(hosts) && hosts_of_bindings(
                        hosts@,
                        query.provider,
                        bindings_of(self.bindings(), query.provider, query.account.deep_view()),
                    ) && listed_per_binding(
                        hosts@,
                        query.provider,
                        bindings_of(self.bindings(), query.provider, query.account.deep_view()),
                    ),
                    _ => reply == unsupported(
                        query.provider,
                        Some(Capability::CloudHosts),
                        UnsupportedReason::ProviderNotConfigured,
                    ) || reply == Reply::RequestRejected(RejectionReason::ProviderUnavailable),
                }
            }
    }

    /// Observes the hosts of a configured compute provider.
    pub fn observe_servers(&self, query: &HostQuery) -> (reply: Reply)
        ensures
            self.server_observation(*query, reply),
    {
        if let Some(reply) = self.unsupported_provider_reply(query.provider, Some(Capability::CloudHosts)) {
            return reply;
        }
        if !provider_supports_capability(query.provider, Capability::CloudHosts) {
            return Reply::RequestUnsupported(
                RequestUnsupported {
                    provider: Some(query.provider),
                    capability: Some(Capability::CloudHosts),
                    reason: UnsupportedReason::CapabilityNotCompiled,
                },
            );
        }
        if !self.provider_is_configured(query.provider) {
            return Reply::RequestUnsupported(
                RequestUnsupported {
                    provider: Some(query.provider),
                    capability: Some(Capability::CloudHosts),
                    reason: UnsupportedReason::ProviderNotConfigured,
                },
            );
        }
        host_listing_reply(query.provider, self.collect_hosts(query.provider, &query.account))
    }
}

/// The plan prepared for a desired state, given the zone's current records.
pub open spec fn prepared_plan(
    provider: Provider,
    zone: Seq<char>,
    current: Seq<RecordView>,
    records: Seq<RecordView>,
    redirects: Seq<RedirectView>,
) -> PlanView {
    PlanView {
        identifier: plan_identifier(zone, provider),
        provider,
        zone,
        records_to_create: records_to_create(current, records),
        records_to_update: records_to_update(current, records),
        record_names_to_delete: record_names_to_delete(current, records),
        redirects_to_create: redirects,
        redirects_to_update: Seq::empty(),
        redirect_sources_to_delete: Seq::empty(),
    }
}

/// The first binding of a provider.
pub open spec fn first_binding_of(bindings: Seq<BindingView>, provider: Provider) -> BindingView {
    let i = choose|i: int|
        0 <= i < bindings.len() && (#[trigger] bindings[i]).provider == provider && forall|j: int|
            0 <= j < i ==> bindings[j].provider != provider;
    bindings[i]
}

/// The identifier of the plan of a zone on a provider.
pub fn plan_identifier_for(zone: &String, provider: Provider) -> (identifier: String)
    ensures
        identifier@ == plan_identifier(zone@, provider),
{
    let mut identifier = zone.clone();
    identifier.append("-");
    identifier.append(provider_name(provider));
    identifier.append("-plan");
    identifier
}

/// The identifier of a host plan.
pub fn host_plan_identifier_for(host: &String, provider: Provider, intent: HostIntent) -> (identifier: String)
    ensures
        identifier@ == match intent {
            HostIntent::Create => host_create_identifier(host@, provider),
            HostIntent::Destroy => host_destroy_identifier(host@, provider),
        },
{
    let mut identifier = host.clone();
    identifier.append("-");
    identifier.append(provider_name(provider));
    match intent {
        HostIntent::Create => identifier.append("-create-plan"),
        HostIntent::Destroy => identifier.append("-destroy-plan"),
    }
    identifier
}

/// The plan for a desired state against a zone's current records: the
/// record diff, every desired redirect to create, nothing else.
pub fn plan_for(
    provider: Provider,
    zone: String,
    current: Vec<DomainNameSystemRecord>,
    records: Vec<DomainNameSystemRecord>,
    redirects: Vec<RedirectRule>,
) -> (plan: Plan)
    ensures
        plan@ == prepared_plan(provider, zone@, current.deep_view(), records.deep_view(), redirects.deep_view()),
{
    let parts = RecordPlan::new(current, records).into_parts();
    let plan = Plan {
        identifier: plan_identifier_for(&zone, provider),
        provider,
        zone,
        records_to_create: parts.records_to_create,
        records_to_update: parts.records_to_update,
        record_names_to_delete: parts.record_names_to_delete,
        redirects_to_create: redirects,
        redirects_to_update: Vec::new(),
        redirect_sources_to_delete: Vec::new(),
    };
    assert(plan.redirects_to_update.deep_view() =~= Seq::<RedirectView>::empty());
    assert(plan.redirect_sources_to_delete.deep_view() =~= Seq::<Seq<char>>::empty());
    plan
}

/// Whether a plan changes any redirect.
pub fn plan_includes_redirect_changes(plan: &Plan) -> (changes: bool)
    ensures
        changes == plan@.changes_redirects(),
{
    plan.redirects_to_create.len() > 0 || plan.redirects_to_update.len() > 0
        || plan.redirect_sources_to_delete.len() > 0
}

impl<E: ProviderEffects> Store<E> {
    /// Everything but the DNS plans and the record cache is as in `earlier`.
    pub open spec fn keeps_all_but_plans(self, earlier: Self) -> bool {
        &&& self.bindings() == earlier.bindings()
        &&& self.zone_policies() == earlier.zone_policies()
        &&& self.zone_policy_count() == earlier.zone_policy_count()
        &&& self.capability_policy_count() == earlier.capability_policy_count()
        &&& self.host_plan_views() == earlier.host_plan_views()
        &&& self.approved() == earlier.approved()
        &&& self.build() == earlier.build()
        &&& self.effect_client() == earlier.effect_client()
        &&& self.cached_zones() == earlier.cached_zones()
    }

    /// What preparing a DNS plan for a desired state does, from `self` to
    /// `after`, answering `reply`.
    pub open spec fn plan_preparation(
        self,
        after: Self,
        provider: Provider,
        zone: Seq<char>,
        records: Seq<RecordView>,
        redirects: Seq<RedirectView>,
        reply: MetaReply,
    ) -> bool {
        &&& after.keeps_all_but_plans(self)
        &&& if !self.build().built(provider) || !self.configured(provider) {
            &&& reply == MetaReply::RequestRejected(MetaRejectionReason::ProviderNotConfigured)
            &&& after.plan_views() == self.plan_views()
            &&& after.cached_records() == self.cached_records()
        } else if redirects.len() > 0 && !supports(provider, Capability::RedirectRules) {
            &&& reply == MetaReply::RequestRejected(MetaRejectionReason::CapabilityUnauthorized)
            &&& after.plan_views() == self.plan_views()
            &&& after.cached_records() == self.cached_records()
        } else if provider != Provider::Cloudflare {
            &&& reply matches MetaReply::PlanPrepared(plan) && plan@ == prepared_plan(
                provider,
                zone,
                Seq::empty(),
                records,
                redirects,
            )
            &&& after.plan_views() == self.plan_views().push(prepared_plan(provider, zone, Seq::empty(), records, redirects))
            &&& after.cached_records() == self.cached_records()
        } else {
            &&& zone_binding(self.zone_policies(), self.bindings(), Provider::Cloudflare, zone) is None ==> reply
                == MetaReply::RequestRejected(MetaRejectionReason::ProviderNotConfigured)
            &&& match reply {
                MetaReply::PlanPrepared(plan) => {
                    &&& cached_listing(after.cached_records(), Provider::Cloudflare, zone) is Some
                    &&& plan@ == prepared_plan(
                        provider,
                        zone,
                        cached_listing(after.cached_records(), Provider::Cloudflare, zone)->0,
                        records,
                        redirects,
                    )
                    &&& after.plan_views() == self.plan_views().push(plan@)
                },
                MetaReply::RequestRejected(reason) => {
                    &&& after.plan_views() == self.plan_views()
                    &&& after.cached_records() == self.cached_records()
                    &&& (reason == MetaRejectionReason::CredentialHandleUnknown || reason
                        == MetaRejectionReason::ProviderNotConfigured || reason
                        == MetaRejectionReason::PlanGenerationFailed)
                },
                _ => false,
            }
        }
    }

    /// Prepares a DNS plan: the provider must be built and configured and
    /// support what the desired state asks for; Cloudflare plans diff against
    /// the zone's records as read now, other providers against none.
    pub fn prepare_plan(&mut self, desired_state: DesiredState) -> (reply: MetaReply)
        requires
            old(self).wf(),
        ensures
            old(self).plan_preparation(
                *final(self),
                desired_state.provider,
                desired_state.zone@,
                desired_state.records.deep_view(),
                desired_state.redirects.deep_view(),
                reply,
            ),
    {
        let DesiredState { provider, zone, records, redirects } = desired_state;
        if !self.provider_is_built(provider) || !self.provider_is_configured(provider) {
            return MetaReply::RequestRejected(MetaRejectionReason::ProviderNotConfigured);
        }
        if redirects.len() > 0 && !provider_supports_capability(provider, Capability::RedirectRules) {
            return MetaReply::RequestRejected(MetaRejectionReason::CapabilityUnauthorized);
        }
        if provider != Provider::Cloudflare {
            let current: Vec<DomainNameSystemRecord> = Vec::new();
            assert(current.deep_view() =~= Seq::<RecordView>::empty());
            return self.store_plan(plan_for(provider, zone, current, records, redirects));
        }
        let ghost before = *self;
        match self.cloudflare_record_listing(&zone) {
            Ok(current) => {
                let ghost read = *self;
                let reply = self.store_plan(plan_for(provider, zone, current, records, redirects));
                assert(self.cached_records() == read.cached_records());
                reply
            },
            Err(error) => MetaReply::RequestRejected(Self::meta_rejection_for_cloudflare_error(error)),
        }
    }

    fn store_plan(&mut self, plan: Plan) -> (reply: MetaReply)
        ensures
            final(self).keeps_all_but_plans(*old(self)),
            final(self).cached_records() == old(self).cached_records(),
            final(self).plan_views() == old(self).plan_views().push(plan@),
            reply matches MetaReply::PlanPrepared(prepared) && prepared@ == plan@,
    {
        let ghost before = self.plan_views();
        let ghost planned = plan@;
        self.plans.push(plan.clone());
        assert(self.plan_views() =~= before.push(planned));
        MetaReply::PlanPrepared(plan)
    }

    /// Prepares the DNS plan of a provider-neutral domain projection lowered
    /// onto its provider.
    pub fn prepare_projection(&mut self, preparation: ProjectionPreparation) -> (reply: MetaReply)
        requires
            old(self).wf(),
        ensures
            old(self).plan_preparation(
                *final(self),
                preparation.provider,
                preparation.projection.domain@,
                preparation.projection.records.deep_view().map_values(
                    |record: ProjectedRecordView| lowered_record(record),
                ),
                preparation.projection.redirects.deep_view().map_values(
                    |redirect: ProjectedRedirectView| lowered_redirect(redirect),
                ),
                reply,
            ),
    {
        self.prepare_plan(DomainProjection::from_preparation(preparation).into_desired_state())
    }

    /// What preparing a host plan does, from `self` to `after`.
    pub open spec fn host_plan_preparation(self, after: Self, provider: Provider, planned: HostPlanView, reply: MetaReply) -> bool {
        &&& after.keeps_configuration_of_hosts(self)
        &&& if !self.build().built(provider) || !self.configured(provider) {
            &&& reply == MetaReply::RequestRejected(MetaRejectionReason::ProviderNotConfigured)
            &&& after.host_plan_views() == self.host_plan_views()
        } else if !supports(provider, Capability::CloudHosts) {
            &&& reply == MetaReply::RequestRejected(MetaRejectionReason::CapabilityUnauthorized)
            &&& after.host_plan_views() == self.host_plan_views()
        } else {
            &&& reply matches MetaReply::HostPlanPrepared(plan) && plan@ == planned
            &&& after.host_plan_views() == self.host_plan_views().push(planned)
        }
    }

    /// Everything but the host plans is as in `earlier`.
    pub open spec fn keeps_configuration_of_hosts(self, earlier: Self) -> bool {
        &&& self.bindings() == earlier.bindings()
        &&& self.zone_policies() == earlier.zone_policies()
        &&& self.zone_policy_count() == earlier.zone_policy_count()
        &&& self.capability_policy_count() == earlier.capability_policy_count()
        &&& self.plan_views() == earlier.plan_views()
        &&& self.approved() == earlier.approved()
        &&& self.build() == earlier.build()
        &&& self.effect_client() == earlier.effect_client()
        &&& self.cached_zones() == earlier.cached_zones()
        &&& self.cached_records() == earlier.cached_records()
    }

    fn push_host_plan(&mut self, plan: HostPlan) -> (reply: MetaReply)
        ensures
            final(self).keeps_configuration_of_hosts(*old(self)),
            final(self).host_plan_views() == old(self).host_plan_views().push(plan@),
            reply matches MetaReply::HostPlanPrepared(prepared) && prepared@ == plan@,
    {
        let ghost before = self.host_plan_views();
        let ghost planned = plan@;
        self.host_plans.push(plan.clone());
        assert(self.host_plan_views() =~= before.push(planned));
        MetaReply::HostPlanPrepared(plan)
    }

    /// Prepares a plan that creates a host.
    pub fn prepare_host_plan(&mut self, desired: DesiredHostState) -> (reply: MetaReply)
        ensures
            old(self).host_plan_preparation(
                *final(self),
                desired.provider,
                HostPlanView {
                    identifier: host_create_identifier(desired.host_name@, desired.provider),
                    provider: desired.provider,
                    host_name: desired.host_name@,
                    server_type: desired.server_type@,
                    image_name: desired.image_name@,
                    ssh_key_name: desired.ssh_key_name@,
                    intent: HostIntent::Create,
                },
                reply,
            ),
    {
        if !self.provider_is_built(desired.provider) || !self.provider_is_configured(desired.provider) {
            return MetaReply::RequestRejected(MetaRejectionReason::ProviderNotConfigured);
        }
        if !provider_supports_capability(desired.provider, Capability::CloudHosts) {
            return MetaReply::RequestRejected(MetaRejectionReason::CapabilityUnauthorized);
        }
        let identifier = host_plan_identifier_for(&desired.host_name, desired.provider, HostIntent::Create);
        let plan = HostPlan {
            identifier,
            provider: desired.provider,
            host_name: desired.host_name,
            server_type: desired.server_type,
            image_name: desired.image_name,
            ssh_key_name: desired.ssh_key_name,
            intent: HostIntent::Create,
        };
        self.push_host_plan(plan)
    }

    /// Prepares a plan that destroys a host by name; its creation fields are
    /// empty.
    pub fn prepare_host_destruction(&mut self, destruction: HostDestruction) -> (reply: MetaReply)
        ensures
            old(self).host_plan_preparation(
                *final(self),
                destruction.provider,
                HostPlanView {
                    identifier: host_destroy_identifier(destruction.host_name@, destruction.provider),
                    provider: destruction.provider,
                    host_name: destruction.host_name@,
                    server_type: Seq::empty(),
                    image_name: Seq::empty(),
                    ssh_key_name: Seq::empty(),
                    intent: HostIntent::Destroy,
                },
                reply,
            ),
    {
        if !self.provider_is_built(destruction.provider) || !self.provider_is_configured(destruction.provider) {
            return MetaReply::RequestRejected(MetaRejectionReason::ProviderNotConfigured);
        }
        if !provider_supports_capability(destruction.provider, Capability::CloudHosts) {
            return MetaReply::RequestRejected(MetaRejectionReason::CapabilityUnauthorized);
        }
        let identifier = host_plan_identifier_for(&destruction.host_name, destruction.provider, HostIntent::Destroy);
        let plan = HostPlan {
            identifier,
            provider: destruction.provider,
            host_name: destruction.host_name,
            server_type: String::new(),
            image_name: String::new(),
            ssh_key_name: String::new(),
            intent: HostIntent::Destroy,
        };
        self.push_host_plan(plan)
    }

    /// The first binding of a provider.
    pub fn provider_binding(&self, provider: Provider) -> (found: Option<AccountBinding>)
        ensures
            match found {
                Some(binding) => has_provider(self.bindings(), provider) && binding@ == first_binding_of(
                    self.bindings(),
                    provider,
                ),
                None => !has_provider(self.bindings(), provider),
            },
    {
        let ghost view = self.bindings();
        let mut index: usize = 0;
        while index < self.accounts.len()
            invariant
                view == self.bindings(),
                view.len() == self.accounts.len(),
                index <= self.accounts.len(),
                forall|j: int| 0 <= j < index ==> (#[trigger] view[j]).provider != provider,
            decreases self.accounts.len() - index,
        {
            assert(self.accounts[index as int]@ == view[index as int]);
            if self.accounts[index].provider == provider {
                proof {
                    assert(view[index as int].provider == provider);
                    let i = choose|i: int|
                        0 <= i < view.len() && (#[trigger] view[i]).provider == provider && forall|j: int|
                            0 <= j < i ==> view[j].provider != provider;
                    assert(i == index) by {
                        if i > index {
                            assert(view[index as int].provider == provider);
                        }
                    }
                }
                return Some(self.accounts[index].clone());
            }
            index = index + 1;
        }
        None
    }

    /// What applying the plan `identifier` answers, from `self` to `after`.
    /// Nothing is applied that the owner has not approved.
    pub open spec fn plan_application(self, after: Self, identifier: Seq<char>, reply: MetaReply) -> bool {
        &&& after.keeps_configuration(self)
        &&& (reply is PlanApplied && has_plan(self.plan_views(), identifier)) || after == self
        &&& (reply is PlanApplied ==> self.approved().contains(identifier))
        &&& (!(reply is PlanApplied) ==> after.cached_records() == self.cached_records())
        &&& if !has_plan(self.plan_views(), identifier) && !has_host_plan(self.host_plan_views(), identifier) {
            reply == MetaReply::RequestRejected(MetaRejectionReason::PlanUnknown)
        } else if !self.approved().contains(identifier) {
            reply == MetaReply::RequestRejected(MetaRejectionReason::PlanNotApproved)
        } else if has_plan(self.plan_views(), identifier) {
            let plan = first_plan(self.plan_views(), identifier);
            if plan.changes_redirects() {
                reply == MetaReply::RequestRejected(MetaRejectionReason::CapabilityUnauthorized)
            } else if plan.provider != Provider::Cloudflare || !self.build().built(Provider::Cloudflare)
                || zone_binding(self.zone_policies(), self.bindings(), Provider::Cloudflare, plan.zone) is None {
                reply == MetaReply::RequestRejected(MetaRejectionReason::ProviderNotConfigured)
            } else {
                match reply {
                    MetaReply::PlanApplied(applied) => applied@ == identifier && exists|listing: Seq<RecordView>|
                        plan_listing(plan, listing) && after.cached_records() == #[trigger] with_cached(
                            self.cached_records(),
                            CachedView { provider: Provider::Cloudflare, zone: plan.zone, listing },
                        ),
                    MetaReply::RequestRejected(reason) => reason == MetaRejectionReason::CredentialHandleUnknown
                        || reason == MetaRejectionReason::ProviderNotConfigured || reason
                        == MetaRejectionReason::PlanGenerationFailed,
                    _ => false,
                }
            }
        } else {
            let plan = first_host_plan(self.host_plan_views(), identifier);
            if !self.build().built(plan.provider) || !has_provider(self.bindings(), plan.provider) {
                reply == MetaReply::RequestRejected(MetaRejectionReason::ProviderNotConfigured)
            } else {
                match reply {
                    MetaReply::PlanApplied(applied) => applied@ == identifier && host_plan_applied(
                        self.effect_client(),
                        plan,
                        first_binding_of(self.bindings(), plan.provider),
                    ),
                    MetaReply::RequestRejected(reason) => reason == MetaRejectionReason::CredentialHandleUnknown
                        || reason == MetaRejectionReason::ProviderNotConfigured || reason
                        == MetaRejectionReason::PlanGenerationFailed,
                    _ => false,
                }
            }
        }
    }

    /// Applies an approved plan: a DNS plan through the Cloudflare account
    /// that serves its zone, a host plan through the first account of its
    /// provider.
    pub fn apply_plan(&mut self, identifier: String) -> (reply: MetaReply)
        requires
            old(self).wf(),
        ensures
            old(self).plan_application(*final(self), identifier@, reply),
    {
        match self.plan_index(&identifier) {
            Some(index) => {
                if !self.plan_is_approved(&identifier) {
                    return MetaReply::RequestRejected(MetaRejectionReason::PlanNotApproved);
                }
                let plan = self.plans[index].clone();
                if plan_includes_redirect_changes(&plan) {
                    return MetaReply::RequestRejected(MetaRejectionReason::CapabilityUnauthorized);
                }
                if plan.provider != Provider::Cloudflare || !self.provider_is_built(Provider::Cloudflare) {
                    return MetaReply::RequestRejected(MetaRejectionReason::ProviderNotConfigured);
                }
                self.apply_cloudflare_plan(plan, identifier)
            },
            None => match self.host_plan_index(&identifier) {
                Some(index) => {
                    if !self.plan_is_approved(&identifier) {
                        return MetaReply::RequestRejected(MetaRejectionReason::PlanNotApproved);
                    }
                    let plan = self.host_plans[index].clone();
                    self.apply_host_plan(&plan, identifier)
                },
                None => MetaReply::RequestRejected(MetaRejectionReason::PlanUnknown),
            },
        }
    }

    fn apply_cloudflare_plan(&mut self, plan: Plan, identifier: String) -> (reply: MetaReply)
        requires
            old(self).wf(),
        ensures
            final(self).keeps_configuration(*old(self)),
            !(reply is PlanApplied) ==> *final(self) == *old(self),
            reply is PlanApplied ==> exists|listing: Seq<RecordView>|
                plan_listing(plan@, listing) && final(self).cached_records() == #[trigger] with_cached(
                    old(self).cached_records(),
                    CachedView { provider: Provider::Cloudflare, zone: plan.zone@, listing },
                ),
            zone_binding(old(self).zone_policies(), old(self).bindings(), Provider::Cloudflare, plan.zone@) is None
                ==> reply == MetaReply::RequestRejected(MetaRejectionReason::ProviderNotConfigured),
            match reply {
                MetaReply::PlanApplied(applied) => applied@ == identifier@,
                MetaReply::RequestRejected(reason) => reason == MetaRejectionReason::CredentialHandleUnknown || reason
                    == MetaRejectionReason::ProviderNotConfigured || reason == MetaRejectionReason::PlanGenerationFailed,
                _ => false,
            },
    {
        let binding = match self.account_binding_for_zone(Provider::Cloudflare, &plan.zone) {
            Some(binding) => binding,
            None => {
                return MetaReply::RequestRejected(MetaRejectionReason::ProviderNotConfigured);
            },
        };
        let zone_identifier = match self.cloudflare_zone_identifier(&binding, &plan.zone) {
            Ok(zone_identifier) => zone_identifier,
            Err(error) => {
                return MetaReply::RequestRejected(Self::meta_rejection_for_cloudflare_error(error));
            },
        };
        let listing = match self.effects.cloudflare_apply_plan(&binding.credential, &zone_identifier, &plan) {
            Ok(listing) => listing,
            Err(error) => {
                return MetaReply::RequestRejected(Self::meta_rejection_for_cloudflare_error(error));
            },
        };
        self.replace_last_known_records(Provider::Cloudflare, plan.zone, listing);
        MetaReply::PlanApplied(identifier)
    }

    fn apply_host_plan(&self, plan: &HostPlan, identifier: String) -> (reply: MetaReply)
        ensures
            !self.build().built(plan.provider) || !has_provider(self.bindings(), plan.provider) ==> reply
                == MetaReply::RequestRejected(MetaRejectionReason::ProviderNotConfigured),
            match reply {
                MetaReply::PlanApplied(applied) => applied@ == identifier@ && host_plan_applied(
                    self.effect_client(),
                    plan@,
                    first_binding_of(self.bindings(), plan.provider),
                ),
                MetaReply::RequestRejected(reason) => reason == MetaRejectionReason::CredentialHandleUnknown || reason
                    == MetaRejectionReason::ProviderNotConfigured || reason == MetaRejectionReason::PlanGenerationFailed,
                _ => false,
            },
    {
        if !self.provider_is_built(plan.provider) {
            return MetaReply::RequestRejected(MetaRejectionReason::ProviderNotConfigured);
        }
        let binding = match self.provider_binding(plan.provider) {
            Some(binding) => binding,
            None => {
                return MetaReply::RequestRejected(MetaRejectionReason::ProviderNotConfigured);
            },
        };
        let outcome = match plan.intent {
            HostIntent::Create => match self.effects.create_host(plan.provider, &binding.credential, &binding.account, plan) {
                Ok(host) => {
                    assert(self.effects.host_created(plan.provider, binding@.credential, binding@.account, plan@, host));
                    Ok(())
                },
                Err(error) => Err(error),
            },
            HostIntent::Destroy => self.effects.destroy_host_by_name(plan.provider, &binding.credential, &plan.host_name),
        };
        match outcome {
            Ok(()) => MetaReply::PlanApplied(identifier),
            Err(error) => MetaReply::RequestRejected(meta_rejection_for_host_error(error)),
        }
    }
}

/// What applying a host plan through `binding` did when it succeeded: a
/// Create plan's host was created, a Destroy plan's host destroyed by name.
pub open spec fn host_plan_applied<E: ProviderEffects>(effects: E, plan: HostPlanView, binding: BindingView) -> bool {
    match plan.intent {
        HostIntent::Create => exists|host: CloudHost|
            #[trigger] effects.host_created(plan.provider, binding.credential, binding.account, plan, host),
        HostIntent::Destroy => effects.host_destroyed(plan.provider, binding.credential, plan.host_name),
    }
}

/// The meta rejection a compute-provider failure maps to.
pub fn meta_rejection_for_host_error(error: HostError) -> (reason: MetaRejectionReason)
    ensures
        reason == host_rejection(error),
{
    match error {
        HostError::CredentialUnavailable(_) => MetaRejectionReason::CredentialHandleUnknown,
        HostError::HostNotFound(_) => MetaRejectionReason::ProviderNotConfigured,
        HostError::RequestFailed(_) | HostError::RequestRejected(_) => MetaRejectionReason::PlanGenerationFailed,
    }
}

/// Under the store's invariant the binding of an account is the one found.
proof fn lemma_account_binding_is(bindings: Seq<BindingView>, provider: Provider, account: Seq<char>, index: int)
    requires
        unique_bindings(bindings),
        0 <= index < bindings.len(),
        same_account(bindings[index], provider, account),
    ensures
        account_binding(bindings, provider, account) == bindings[index],
        has_account(bindings, provider, account),
{
    let i = choose|i: int| 0 <= i < bindings.len() && same_account(#[trigger] bindings[i], provider, account);
    assert(same_account(bindings[index], provider, account));
    if i != index {
        assert(!same_account(bindings[i], bindings[index].provider, bindings[index].account));
    }
}

pub(crate) proof fn lemma_retired_is_subsequence(bindings: Seq<BindingView>, provider: Provider, account: Seq<char>)
    requires
        unique_bindings(bindings),
    ensures
        unique_bindings(retired(bindings, provider, account)),
        forall|i: int|
            0 <= i < retired(bindings, provider, account).len() ==> !same_account(
                #[trigger] retired(bindings, provider, account)[i],
                provider,
                account,
            ),
        forall|i: int|
            0 <= i < retired(bindings, provider, account).len() ==> bindings.contains(
                #[trigger] retired(bindings, provider, account)[i],
            ),
    decreases bindings.len(),
{
    if bindings.len() > 0 {
        let earlier = bindings.drop_last();
        assert forall|i: int, j: int|
            0 <= i < earlier.len() && 0 <= j < earlier.len() && i != j implies !same_account(
            #[trigger] earlier[i],
            earlier[j].provider,
            #[trigger] earlier[j].account,
        ) by {
            assert(earlier[i] == bindings[i] && earlier[j] == bindings[j]);
        }
        lemma_retired_is_subsequence(earlier, provider, account);
        let before = retired(earlier, provider, account);
        let after = retired(bindings, provider, account);
        let last = bindings.last();
        assert forall|i: int| 0 <= i < after.len() implies bindings.contains(#[trigger] after[i]) by {
            if i < before.len() {
                assert(after[i] == before[i]);
                let k = choose|k: int| 0 <= k < earlier.len() && earlier[k] == before[i];
                assert(bindings[k] == before[i]);
            } else {
                assert(after[i] == last);
                assert(bindings[bindings.len() - 1] == last);
            }
        }
        if !same_account(last, provider, account) {
            assert forall|i: int| 0 <= i < before.len() implies !same_account(#[trigger] before[i], last.provider, last.account) by {
                let k = choose|k: int| 0 <= k < earlier.len() && earlier[k] == before[i];
                assert(bindings[k] == before[i]);
                assert(k != bindings.len() - 1);
                assert(!same_account(bindings[k], bindings[bindings.len() - 1].provider, bindings[bindings.len() - 1].account));
            }
            assert forall|i: int, j: int|
                0 <= i < after.len() && 0 <= j < after.len() && i != j implies !same_account(
                #[trigger] after[i],
                after[j].provider,
                #[trigger] after[j].account,
            ) by {
                if i < before.len() && j < before.len() {
                    assert(after[i] == before[i] && after[j] == before[j]);
                } else if i < before.len() {
                    assert(after[j] == last);
                    assert(after[i] == before[i]);
                } else {
                    assert(after[i] == last);
                    assert(after[j] == before[j]);
                    assert(!same_account(before[j], last.provider, last.account));
                }
            }
        }
    }
}


/// Characterises `cache_index`: the first matching entry, or none.
pub proof fn lemma_cache_index(cached: Seq<CachedView>, provider: Provider, zone: Seq<char>)
    ensures
        match cache_index(cached, provider, zone) {
            Some(index) => 0 <= index < cached.len() && cache_matches(cached[index], provider, zone) && forall|j: int|
                0 <= j < index ==> !cache_matches(#[trigger] cached[j], provider, zone),
            None => forall|j: int| 0 <= j < cached.len() ==> !cache_matches(#[trigger] cached[j], provider, zone),
        },
    decreases cached.len(),
{
    if cached.len() > 0 {
        let earlier = cached.drop_last();
        lemma_cache_index(earlier, provider, zone);
        match cache_index(earlier, provider, zone) {
            Some(index) => {
                assert forall|j: int| 0 <= j < index implies !cache_matches(#[trigger] cached[j], provider, zone) by {
                    assert(cached[j] == earlier[j]);
                }
                assert(cached[index] == earlier[index]);
            },
            None => {
                assert forall|j: int| 0 <= j < cached.len() - 1 implies !cache_matches(#[trigger] cached[j], provider, zone) by {
                    assert(cached[j] == earlier[j]);
                }
            },
        }
    }
}

proof fn lemma_cache_index_is(cached: Seq<CachedView>, provider: Provider, zone: Seq<char>, index: int)
    requires
        0 <= index < cached.len(),
        cache_matches(cached[index], provider, zone),
        forall|j: int| 0 <= j < index ==> !cache_matches(#[trigger] cached[j], provider, zone),
    ensures
        cache_index(cached, provider, zone) == Some(index),
{
    lemma_cache_index(cached, provider, zone);
    match cache_index(cached, provider, zone) {
        Some(found) => {
            if found < index {
                assert(!cache_matches(cached[found], provider, zone));
            } else if found > index {
                assert(!cache_matches(cached[index], provider, zone));
            }
        },
        None => {
            assert(!cache_matches(cached[index], provider, zone));
        },
    }
}

/// What is stored for a zone is what a later read of the cache returns.
pub proof fn cached_after_store(cached: Seq<CachedView>, entry: CachedView)
    ensures
        cached_listing(with_cached(cached, entry), entry.provider, entry.zone) == Some(entry.listing),
{
    lemma_cache_index(cached, entry.provider, entry.zone);
    let stored = with_cached(cached, entry);
    match cache_index(cached, entry.provider, entry.zone) {
        Some(index) => {
            assert forall|j: int| 0 <= j < index implies !cache_matches(#[trigger] stored[j], entry.provider, entry.zone) by {
                assert(stored[j] == cached[j]);
            }
            lemma_cache_index_is(stored, entry.provider, entry.zone, index);
        },
        None => {
            assert forall|j: int| 0 <= j < cached.len() implies !cache_matches(#[trigger] stored[j], entry.provider, entry.zone) by {
                assert(stored[j] == cached[j]);
            }
            lemma_cache_index_is(stored, entry.provider, entry.zone, cached.len() as int);
        },
    }
}

/// Storing one zone's listing leaves what is cached for every other zone.
pub proof fn cache_keeps_other_zones(cached: Seq<CachedView>, entry: CachedView, provider: Provider, zone: Seq<char>)
    requires
        !(provider == entry.provider && zone == entry.zone),
    ensures
        cached_listing(with_cached(cached, entry), provider, zone) == cached_listing(cached, provider, zone),
{
    lemma_cache_index(cached, provider, zone);
    lemma_cache_index(cached, entry.provider, entry.zone);
    let stored = with_cached(cached, entry);
    assert(!cache_matches(entry, provider, zone));
    match cache_index(cached, provider, zone) {
        Some(index) => {
            assert forall|j: int| 0 <= j < index implies !cache_matches(#[trigger] stored[j], provider, zone) by {
                if j < cached.len() {
                    if stored[j] != cached[j] {
                        assert(stored[j] == entry);
                    }
                }
            }
            if stored[index] != cached[index] {
                assert(stored[index] == entry);
            }
            lemma_cache_index_is(stored, provider, zone, index);
        },
        None => {
            lemma_cache_index(stored, provider, zone);
            match cache_index(stored, provider, zone) {
                Some(found) => {
                    if found < cached.len() && stored[found] == cached[found] {
                        assert(!cache_matches(cached[found], provider, zone));
                    } else {
                        assert(stored[found] == entry);
                    }
                },
                None => {},
            }
        },
    }
}

/// Registering an account of a built provider, once answered
/// `AccountRegistered`, leaves the provider configured with that account.
pub proof fn registration_configures<E: ProviderEffects>(
    before: Store<E>,
    after: Store<E>,
    registration: Registration,
    reply: MetaReply,
)
    requires
        before.wf(),
        before.registration_outcome(after, registration, reply),
        reply is AccountRegistered,
    ensures
        after.configured(registration.provider),
        has_account(after.bindings(), registration.provider, registration.account@),
{
    let binding = BindingView {
        provider: registration.provider,
        account: registration.account@,
        credential: registration.credential@,
    };
    let bindings = before.bindings();
    if has_account(bindings, binding.provider, binding.account) {
        let i = choose|i: int| 0 <= i < bindings.len() && same_account(#[trigger] bindings[i], binding.provider, binding.account);
        let updated = registered(bindings, binding);
        assert(updated[i] == binding);
        assert(same_account(updated[i], binding.provider, binding.account));
    } else {
        let updated = registered(bindings, binding);
        assert(updated[bindings.len() as int] == binding);
        assert(same_account(updated[bindings.len() as int], binding.provider, binding.account));
    }
}

/// Once an account is retired no binding of it remains.
pub proof fn retirement_removes<E: ProviderEffects>(
    before: Store<E>,
    after: Store<E>,
    retirement: Retirement,
    reply: MetaReply,
)
    requires
        before.wf(),
        before.retirement_outcome(after, retirement, reply),
    ensures
        !has_account(after.bindings(), retirement.provider, retirement.account@),
{
    lemma_retired_is_subsequence(before.bindings(), retirement.provider, retirement.account@);
}

/// A prepared DNS plan can be observed, approved and applied under its
/// identifier.
pub proof fn prepared_plan_is_known<E: ProviderEffects>(
    before: Store<E>,
    after: Store<E>,
    provider: Provider,
    zone: Seq<char>,
    records: Seq<RecordView>,
    redirects: Seq<RedirectView>,
    reply: MetaReply,
)
    requires
        before.plan_preparation(after, provider, zone, records, redirects, reply),
        reply is PlanPrepared,
    ensures
        has_plan(after.plan_views(), plan_identifier(zone, provider)),
        reply->PlanPrepared_0@.identifier == plan_identifier(zone, provider),
{
    let plans = after.plan_views();
    assert(plans[plans.len() - 1].identifier == plan_identifier(zone, provider));
}

/// A redirect observation is always answered as unsupported for the asked
/// provider and the redirect capability, because the provider is not built
/// or the capability is not compiled; it is never a listing, empty or not.
pub proof fn redirects_are_never_listed<E: ProviderEffects>(store: Store<E>, query: RedirectQuery, reply: Reply)
    requires
        store.redirect_observation(query, reply),
    ensures
        reply matches Reply::RequestUnsupported(refusal) && refusal.provider == Some(query.provider)
            && refusal.capability == Some(Capability::RedirectRules) && (refusal.reason
            == UnsupportedReason::ProviderNotBuilt || refusal.reason == UnsupportedReason::CapabilityNotCompiled),
        !(reply is Observed),
{
}

/// An approved identifier stays approved: approval is only ever added.
pub proof fn approval_is_recorded<E: ProviderEffects>(
    before: Store<E>,
    after: Store<E>,
    identifier: Seq<char>,
    reply: MetaReply,
)
    requires
        before.approval_outcome(after, identifier, reply),
        reply is PlanApproved,
    ensures
        after.approved().contains(identifier),
        forall|other: Seq<char>| before.approved().contains(other) ==> after.approved().contains(other),
{
    let approved = after.approved();
    assert(approved[approved.len() - 1] == identifier);
    assert forall|other: Seq<char>| before.approved().contains(other) implies after.approved().contains(other) by {
        let k = choose|k: int| 0 <= k < before.approved().len() && before.approved()[k] == other;
        assert(approved[k] == other);
    }
}

} // verus!
