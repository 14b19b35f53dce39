//! The schema engine: one runtime that routes ordinary observations and
//! validations to its read path and owner registrations, policy and plan
//! ceremonies to its write path over the schema store, then turns each
//! completion into the reply. It holds a static capability matrix and the
//! last policy it was given.
use vstd::prelude::*;

use crate::engine::owner::OwnerOutput;
use crate::engine::Routed;
use crate::engine::store::{DatabaseMarker, RejectionReport, SemaWriteInput, SemaWriteOutput};
use crate::schema_store::{
    first_stored_plan, has_stored_plan, marker_for, SchemaStoreState, SchemaStoreView, StoredPlanView,
};
use crate::store::{has_account, registered, retired, rotated, AccountBinding, BindingView};
use crate::vocabulary::{
    Capability, CapabilityObservation, CapabilityQuery, CapabilityState, DesiredState, DomainNameSystemRecord,
    MetaOperation, MetaRejectionReason, Observation, ObservationResult, Operation, Plan, Policy, Provider,
    RecordQuery, Registration, RejectionReason, Reply, Retirement, Rotation, ValidationFinding, Zone, ZoneQuery,
};

verus! {

/// A request arriving at the runtime.
#[derive(Debug, PartialEq, Eq)]
pub enum RuntimeInput {
    Ordinary(Operation),
    Meta(MetaOperation),
}

/// The reply the runtime sends back.
#[derive(Debug, PartialEq, Eq)]
pub enum RuntimeOutput {
    Ordinary(Reply),
    Meta(OwnerOutput),
}

#[derive(Debug, PartialEq, Eq)]
pub enum RuntimeReadInput {
    Observe(Observation),
    ObservePlan(String),
    Validate(DesiredState),
}

#[derive(Debug, PartialEq, Eq)]
pub enum RuntimeReadOutput {
    Observed(ObservationResult),
    Validated(Vec<ValidationFinding>),
    PlanObserved(Plan),
    Missed(RejectionReport),
}

#[derive(Debug, PartialEq, Eq)]
pub enum RuntimeEffectCommand {
    ObserveZones(ZoneQuery),
    ObserveRecords(RecordQuery),
    ApplyPlan(String),
}

#[derive(Debug, PartialEq, Eq)]
pub enum RuntimeEffectResult {
    ZonesObserved(Vec<Zone>),
    RecordsObserved(Vec<DomainNameSystemRecord>),
    PlanApplied(String),
}

#[derive(Debug, PartialEq, Eq)]
pub enum RuntimeWork {
    SignalArrived(RuntimeInput),
    SemaReadCompleted(RuntimeReadOutput),
    SemaWriteCompleted(SemaWriteOutput),
    EffectCompleted(RuntimeEffectResult),
}

#[derive(Debug, PartialEq, Eq)]
pub enum RuntimeAction {
    ReplyToSignal(RuntimeOutput),
    CommandSemaRead(RuntimeReadInput),
    CommandSemaWrite(SemaWriteInput),
    CommandEffect(RuntimeEffectCommand),
    Continue(Box<RuntimeWork>),
}

// ------------------------------------------------------------- the model

/// A capability observation answers a query.
pub open spec fn observation_matches(query: CapabilityQuery, observation: CapabilityObservation) -> bool {
    &&& (query.provider is None || query.provider == Some(observation.provider))
    &&& (query.capability is None || query.capability == Some(observation.capability))
}

/// The observations that answer a query, in order.
pub open spec fn matching_observations(observations: Seq<CapabilityObservation>, query: CapabilityQuery) -> Seq<
    CapabilityObservation,
>
    decreases observations.len(),
{
    if observations.len() == 0 {
        Seq::empty()
    } else {
        let earlier = matching_observations(observations.drop_last(), query);
        if observation_matches(query, observations.last()) {
            earlier.push(observations.last())
        } else {
            earlier
        }
    }
}

pub open spec fn rejected_with(reason: MetaRejectionReason, commit_sequence: u64) -> OwnerOutput {
    OwnerOutput::RequestRejected(RejectionReport { reason, marker: marker_for(commit_sequence) })
}

/// The owner reply a write's completion is answered with.
pub open spec fn meta_output_of(written: SemaWriteOutput) -> OwnerOutput {
    match written {
        SemaWriteOutput::AccountRegistered { provider, account } => OwnerOutput::AccountRegistered { provider, account },
        SemaWriteOutput::CredentialRotated { provider, account } => OwnerOutput::CredentialRotated { provider, account },
        SemaWriteOutput::PolicySet { capability_policy_count, zone_policy_count } => OwnerOutput::PolicySet {
            capability_policy_count,
            zone_policy_count,
        },
        SemaWriteOutput::PlanPrepared(plan) => OwnerOutput::PlanPrepared(plan),
        SemaWriteOutput::PlanApproved(identifier) => OwnerOutput::PlanApproved(identifier),
        SemaWriteOutput::PlanApplied(identifier) => OwnerOutput::PlanApplied(identifier),
        SemaWriteOutput::AccountRetired { provider, account } => OwnerOutput::AccountRetired { provider, account },
        SemaWriteOutput::Missed(report) => OwnerOutput::RequestRejected(report),
    }
}

/// What registering an account does and answers.
#[verifier::opaque]
pub open spec fn registration_result(
    before: SchemaStoreView,
    after: SchemaStoreView,
    registration: Registration,
    output: OwnerOutput,
) -> bool {
    &&& after.accounts == registered(
        before.accounts,
        BindingView {
            provider: registration.provider,
            account: registration.account@,
            credential: registration.credential@,
        },
    )
    &&& after.plans == before.plans
    &&& after.commit_sequence == before.commit_sequence + 1
    &&& output matches OwnerOutput::AccountRegistered { provider, account } && provider == registration.provider
        && account@ == registration.account@
}

/// What rotating a credential does and answers; the commit advances even
/// for an unknown account.
#[verifier::opaque]
pub open spec fn rotation_result(before: SchemaStoreView, after: SchemaStoreView, rotation: Rotation, output: OwnerOutput) -> bool {
    &&& after.plans == before.plans
    &&& after.commit_sequence == before.commit_sequence + 1
    &&& if has_account(before.accounts, rotation.provider, rotation.account@) {
        &&& after.accounts == rotated(before.accounts, rotation.provider, rotation.account@, rotation.credential@)
        &&& output matches OwnerOutput::CredentialRotated { provider, account } && provider == rotation.provider
            && account@ == rotation.account@
    } else {
        &&& after.accounts == before.accounts
        &&& output == rejected_with(MetaRejectionReason::AccountUnknown, after.commit_sequence)
    }
}

/// What approving a plan does and answers; the commit advances even for an
/// unknown plan.
#[verifier::opaque]
pub open spec fn approval_result(before: SchemaStoreView, after: SchemaStoreView, identifier: Seq<char>, output: OwnerOutput) -> bool {
    &&& after.accounts == before.accounts
    &&& after.commit_sequence == before.commit_sequence + 1
    &&& if has_stored_plan(before.plans, identifier) {
        let index = first_stored_plan(before.plans, identifier);
        &&& after.plans == before.plans.update(index, StoredPlanView { approved: true, ..before.plans[index] })
        &&& output matches OwnerOutput::PlanApproved(approved) && approved@ == identifier
    } else {
        &&& after.plans == before.plans
        &&& output == rejected_with(MetaRejectionReason::PlanUnknown, after.commit_sequence)
    }
}

/// What applying a plan answers; this engine changes nothing.
#[verifier::opaque]
pub open spec fn application_result(before: SchemaStoreView, after: SchemaStoreView, identifier: Seq<char>, output: OwnerOutput) -> bool {
    &&& after == before
    &&& if !has_stored_plan(before.plans, identifier) {
        output == rejected_with(MetaRejectionReason::PlanUnknown, before.commit_sequence)
    } else if !before.plans[first_stored_plan(before.plans, identifier)].approved {
        output == rejected_with(MetaRejectionReason::PlanNotApproved, before.commit_sequence)
    } else {
        output matches OwnerOutput::PlanApplied(applied) && applied@ == identifier
    }
}

/// What retiring an account does and answers; the commit advances even for
/// an unknown account.
#[verifier::opaque]
pub open spec fn retirement_result(before: SchemaStoreView, after: SchemaStoreView, retirement: Retirement, output: OwnerOutput) -> bool {
    &&& after.accounts == retired(before.accounts, retirement.provider, retirement.account@)
    &&& after.plans == before.plans
    &&& after.commit_sequence == before.commit_sequence + 1
    &&& if has_account(before.accounts, retirement.provider, retirement.account@) {
        output matches OwnerOutput::AccountRetired { provider, account } && provider == retirement.provider
            && account@ == retirement.account@
    } else {
        output == rejected_with(MetaRejectionReason::AccountUnknown, after.commit_sequence)
    }
}

/// What a write does to the tables and the policy, and answers.
pub open spec fn write_result(
    before: SchemaStoreView,
    after: SchemaStoreView,
    policy_after: Option<(nat, nat)>,
    policy_before: Option<(nat, nat)>,
    input: SemaWriteInput,
    output: OwnerOutput,
) -> bool {
    match input {
        SemaWriteInput::RegisterAccount(registration) => policy_after == policy_before && registration_result(
            before,
            after,
            registration,
            output,
        ),
        SemaWriteInput::RotateCredential(rotation) => policy_after == policy_before && rotation_result(
            before,
            after,
            rotation,
            output,
        ),
        SemaWriteInput::SetPolicy(policy) => {
            &&& after == SchemaStoreView { commit_sequence: (before.commit_sequence + 1) as u64, ..before }
            &&& policy_after == Some((policy.zones.len() as nat, policy.capabilities.len() as nat))
            &&& output == OwnerOutput::PolicySet {
                capability_policy_count: policy.capabilities.len() as u64,
                zone_policy_count: policy.zones.len() as u64,
            }
        },
        SemaWriteInput::PreparePlan(_) => {
            &&& after == before
            &&& policy_after == policy_before
            &&& output == rejected_with(MetaRejectionReason::PlanGenerationFailed, before.commit_sequence)
        },
        SemaWriteInput::PrepareProjection(_) => {
            &&& after == before
            &&& policy_after == policy_before
            &&& output == rejected_with(MetaRejectionReason::PlanGenerationFailed, before.commit_sequence)
        },
        SemaWriteInput::ApprovePlan(identifier) => policy_after == policy_before && approval_result(
            before,
            after,
            identifier@,
            output,
        ),
        SemaWriteInput::ApplyPlan(identifier) => policy_after == policy_before && application_result(
            before,
            after,
            identifier@,
            output,
        ),
        SemaWriteInput::RetireAccount(retirement) => policy_after == policy_before && retirement_result(
            before,
            after,
            retirement,
            output,
        ),
    }
}

/// What an ordinary request is answered: every observation but
/// capabilities and plans lists nothing on this engine; a plan read misses.
pub open spec fn ordinary_result(capabilities: Seq<CapabilityObservation>, operation: Operation, reply: Reply) -> bool {
    match operation {
        Operation::Validate(_) => reply matches Reply::Validated(findings) && findings.len() == 0,
        Operation::Observe(observation) => match observation {
            Observation::Capabilities(query) => reply matches Reply::Observed(ObservationResult::Capabilities(report))
                && report@ == matching_observations(capabilities, query),
            Observation::Zones(_) => reply matches Reply::Observed(ObservationResult::Zones(zones)) && zones.len() == 0,
            Observation::Records(_) => reply matches Reply::Observed(ObservationResult::Records(records))
                && records.len() == 0,
            Observation::Redirects(_) => reply matches Reply::Observed(ObservationResult::Redirects(redirects))
                && redirects.len() == 0,
            Observation::Servers(_) => reply matches Reply::Observed(ObservationResult::Servers(hosts)) && hosts.len()
                == 0,
            Observation::Plan(_) => reply == Reply::RequestRejected(RejectionReason::PlanExpired),
        },
    }
}

/// The write an owner request becomes, if it becomes one.
pub open spec fn write_of(operation: MetaOperation) -> Option<SemaWriteInput> {
    match operation {
        MetaOperation::RegisterAccount(registration) => Some(SemaWriteInput::RegisterAccount(registration)),
        MetaOperation::RotateCredential(rotation) => Some(SemaWriteInput::RotateCredential(rotation)),
        MetaOperation::SetPolicy(policy) => Some(SemaWriteInput::SetPolicy(policy)),
        MetaOperation::PreparePlan(desired) => Some(SemaWriteInput::PreparePlan(desired)),
        MetaOperation::PrepareProjection(preparation) => Some(SemaWriteInput::PrepareProjection(preparation)),
        MetaOperation::ApprovePlan(identifier) => Some(SemaWriteInput::ApprovePlan(identifier)),
        MetaOperation::ApplyPlan(identifier) => Some(SemaWriteInput::ApplyPlan(identifier)),
        MetaOperation::RetireAccount(retirement) => Some(SemaWriteInput::RetireAccount(retirement)),
        MetaOperation::PrepareHostPlan(_) => None,
        MetaOperation::PrepareHostDestruction(_) => None,
    }
}

/// What a read is answered.
pub open spec fn read_result(capabilities: Seq<CapabilityObservation>, input: RuntimeReadInput, reply: Reply) -> bool {
    match input {
        RuntimeReadInput::Observe(observation) => ordinary_result(capabilities, Operation::Observe(observation), reply),
        RuntimeReadInput::ObservePlan(_) => reply == Reply::RequestRejected(RejectionReason::PlanExpired),
        RuntimeReadInput::Validate(desired) => ordinary_result(capabilities, Operation::Validate(desired), reply),
    }
}

/// The ordinary reply a completed read becomes; a miss is an expired plan.
pub open spec fn read_reply(output: RuntimeReadOutput) -> Reply {
    match output {
        RuntimeReadOutput::Observed(result) => Reply::Observed(result),
        RuntimeReadOutput::Validated(findings) => Reply::Validated(findings),
        RuntimeReadOutput::PlanObserved(plan) => Reply::Observed(ObservationResult::Plan(plan)),
        RuntimeReadOutput::Missed(_) => Reply::RequestRejected(RejectionReason::PlanExpired),
    }
}

/// What an arriving request becomes: ordinary requests are reads, owner
/// requests are writes, and host plans are refused as not configured.
pub open spec fn arrival_action(input: RuntimeInput, commit_sequence: u64) -> RuntimeAction {
    match input {
        RuntimeInput::Ordinary(operation) => match operation {
            Operation::Observe(observation) => RuntimeAction::CommandSemaRead(RuntimeReadInput::Observe(observation)),
            Operation::Validate(desired) => RuntimeAction::CommandSemaRead(RuntimeReadInput::Validate(desired)),
        },
        RuntimeInput::Meta(operation) => match write_of(operation) {
            Some(write) => RuntimeAction::CommandSemaWrite(write),
            None => RuntimeAction::ReplyToSignal(
                RuntimeOutput::Meta(rejected_with(MetaRejectionReason::ProviderNotConfigured, commit_sequence)),
            ),
        },
    }
}

pub open spec fn action_rank(action: RuntimeAction) -> nat {
    match action {
        RuntimeAction::ReplyToSignal(_) => 0,
        RuntimeAction::CommandEffect(_) => 2,
        _ => 1,
    }
}

// ---------------------------------------------------------------- runtime

/// The schema engine over its store.
pub struct SchemaRuntime {
    store: SchemaStoreState,
    capabilities: Vec<CapabilityObservation>,
    policy: Option<Policy>,
}

impl SchemaRuntime {
    pub closed spec fn state(&self) -> SchemaStoreView {
        self.store@
    }

    pub closed spec fn capability_matrix(&self) -> Seq<CapabilityObservation> {
        self.capabilities@
    }

    pub closed spec fn policy_counts(&self) -> Option<(nat, nat)> {
        match self.policy {
            Some(policy) => Some((policy.zones.len() as nat, policy.capabilities.len() as nat)),
            None => None,
        }
    }

    pub closed spec fn store_wf(&self) -> bool {
        self.store.wf()
    }

    /// A well-formed store with room for another commit.
    pub open spec fn ready(&self) -> bool {
        self.store_wf() && self.state().commit_sequence < u64::MAX
    }

    /// The capability matrix this engine reports.
    pub open spec fn default_matrix() -> Seq<CapabilityObservation> {
        seq![
            CapabilityObservation {
                provider: Provider::Cloudflare,
                capability: Capability::DomainNameSystemRecords,
                state: CapabilityState::Compiled,
            },
            CapabilityObservation {
                provider: Provider::Cloudflare,
                capability: Capability::RedirectRules,
                state: CapabilityState::NotBuilt,
            },
            CapabilityObservation {
                provider: Provider::GoogleCloud,
                capability: Capability::DomainNameSystemRecords,
                state: CapabilityState::NotBuilt,
            },
            CapabilityObservation {
                provider: Provider::Hetzner,
                capability: Capability::DomainNameSystemRecords,
                state: CapabilityState::NotBuilt,
            },
        ]
    }

    pub fn new() -> (runtime: Self)
        ensures
            runtime.ready(),
            runtime.capability_matrix() == Self::default_matrix(),
            runtime.policy_counts() is None,
            runtime.state().accounts.len() == 0,
            runtime.state().plans.len() == 0,
            runtime.state().commit_sequence == 0,
    {
        Self::with_store(SchemaStoreState::new())
    }

    pub fn with_store(store: SchemaStoreState) -> (runtime: Self)
        ensures
            runtime.state() == store@,
            runtime.store_wf() == store.wf(),
            runtime.capability_matrix() == Self::default_matrix(),
            runtime.policy_counts() is None,
    {
        SchemaRuntime { store, capabilities: Self::default_capabilities(), policy: None }
    }

    pub fn with_capabilities(capabilities: Vec<CapabilityObservation>) -> (runtime: Self)
        ensures
            runtime.ready(),
            runtime.capability_matrix() == capabilities@,
            runtime.policy_counts() is None,
            runtime.state().accounts.len() == 0,
            runtime.state().plans.len() == 0,
            runtime.state().commit_sequence == 0,
    {
        SchemaRuntime { store: SchemaStoreState::new(), capabilities, policy: None }
    }

    pub fn store(&self) -> (store: &SchemaStoreState)
        ensures
            store@ == self.state(),
            store.wf() == self.store_wf(),
    {
        &self.store
    }

    /// The registered bindings.
    pub fn accounts(&self) -> (accounts: Vec<AccountBinding>)
        ensures
            accounts.deep_view() == self.state().accounts,
    {
        let source = self.store.accounts();
        let mut accounts: Vec<AccountBinding> = Vec::new();
        let mut index: usize = 0;
        while index < source.len()
            invariant
                index <= source.len(),
                source.deep_view() == self.state().accounts,
                accounts.deep_view() == source.deep_view().take(index as int),
            decreases source.len() - index,
        {
            let ghost before = accounts.deep_view();
            let copy = source[index].clone();
            accounts.push(copy);
            assert(accounts.deep_view() =~= before.push(source.deep_view()[index as int]));
            assert(source.deep_view().take(index + 1) =~= source.deep_view().take(index as int).push(
                source.deep_view()[index as int],
            ));
            index = index + 1;
        }
        assert(source.deep_view().take(source.len() as int) =~= source.deep_view());
        accounts
    }

    /// The last policy set, if any.
    pub fn policy(&self) -> (policy: Option<&Policy>)
        ensures
            match policy {
                Some(held) => self.policy_counts() == Some((held.zones.len() as nat, held.capabilities.len() as nat)),
                None => self.policy_counts() is None,
            },
    {
        match &self.policy {
            Some(policy) => Some(policy),
            None => None,
        }
    }

    fn commit_sequence(&self) -> (sequence: u64)
        ensures
            sequence == self.state().commit_sequence,
    {
        self.store.commit_sequence()
    }

    fn default_capabilities() -> (capabilities: Vec<CapabilityObservation>)
        ensures
            capabilities@ == Self::default_matrix(),
    {
        let mut capabilities: Vec<CapabilityObservation> = Vec::new();
        capabilities.push(
            CapabilityObservation {
                provider: Provider::Cloudflare,
                capability: Capability::DomainNameSystemRecords,
                state: CapabilityState::Compiled,
            },
        );
        capabilities.push(
            CapabilityObservation {
                provider: Provider::Cloudflare,
                capability: Capability::RedirectRules,
                state: CapabilityState::NotBuilt,
            },
        );
        capabilities.push(
            CapabilityObservation {
                provider: Provider::GoogleCloud,
                capability: Capability::DomainNameSystemRecords,
                state: CapabilityState::NotBuilt,
            },
        );
        capabilities.push(
            CapabilityObservation {
                provider: Provider::Hetzner,
                capability: Capability::DomainNameSystemRecords,
                state: CapabilityState::NotBuilt,
            },
        );
        assert(capabilities@ =~= Self::default_matrix());
        capabilities
    }
}

impl SchemaRuntime {
    /// Neither the store nor the policy changed.
    pub open spec fn unchanged_from(&self, earlier: &Self) -> bool {
        &&& self.state() == earlier.state()
        &&& self.policy_counts() == earlier.policy_counts()
        &&& self.capability_matrix() == earlier.capability_matrix()
        &&& self.store_wf() == earlier.store_wf()
    }

    /// Answers one request: ordinary requests are reads, owner requests are
    /// writes, and host plans are refused on this engine.
    pub fn reply_to_signal(&mut self, input: RuntimeInput) -> (output: RuntimeOutput)
        requires
            old(self).store_wf(),
            input is Meta ==> old(self).ready(),
        ensures
            final(self).store_wf(),
            final(self).capability_matrix() == old(self).capability_matrix(),
            match input {
                RuntimeInput::Ordinary(operation) => final(self).unchanged_from(&*old(self)) && (output matches RuntimeOutput::Ordinary(
                    reply,
                ) && ordinary_result(old(self).capability_matrix(), operation, reply)),
                RuntimeInput::Meta(operation) => match write_of(operation) {
                    Some(write) => output matches RuntimeOutput::Meta(answer) && write_result(
                        old(self).state(),
                        final(self).state(),
                        final(self).policy_counts(),
                        old(self).policy_counts(),
                        write,
                        answer,
                    ),
                    None => final(self).unchanged_from(&*old(self)) && output == RuntimeOutput::Meta(
                        rejected_with(MetaRejectionReason::ProviderNotConfigured, old(self).state().commit_sequence),
                    ),
                },
            },
    {
        let action = self.decide_signal_arrival(input);
        self.resolve_action(action)
    }

    /// One decision over the runtime's work.
    /// The action carries the route the work came in on.
    pub fn decide(&self, routed: Routed<RuntimeWork>) -> (action: Routed<RuntimeAction>)
        ensures
            action.route == routed.route,
            match routed.payload {
                RuntimeWork::EffectCompleted(result) => action.payload == RuntimeAction::Continue(
                    Box::new(RuntimeWork::EffectCompleted(result)),
                ),
                RuntimeWork::SemaWriteCompleted(written) => action.payload == RuntimeAction::ReplyToSignal(
                    RuntimeOutput::Meta(meta_output_of(written)),
                ),
                RuntimeWork::SemaReadCompleted(read) => action.payload == RuntimeAction::ReplyToSignal(
                    RuntimeOutput::Ordinary(read_reply(read)),
                ),
                RuntimeWork::SignalArrived(input) => action.payload == arrival_action(
                    input,
                    self.state().commit_sequence,
                ),
            },
    {
        let payload = match routed.payload {
            RuntimeWork::SignalArrived(input) => self.decide_signal_arrival(input),
            RuntimeWork::SemaReadCompleted(output) => self.decide_read_completion(output),
            RuntimeWork::SemaWriteCompleted(output) => self.decide_write_completion(output),
            RuntimeWork::EffectCompleted(result) => RuntimeAction::Continue(
                Box::new(RuntimeWork::EffectCompleted(result)),
            ),
        };
        Routed { route: routed.route, payload }
    }

    fn decide_signal_arrival(&self, input: RuntimeInput) -> (action: RuntimeAction)
        ensures
            match input {
                RuntimeInput::Ordinary(operation) => match operation {
                    Operation::Observe(observation) => action == RuntimeAction::CommandSemaRead(
                        RuntimeReadInput::Observe(observation),
                    ),
                    Operation::Validate(desired) => action == RuntimeAction::CommandSemaRead(
                        RuntimeReadInput::Validate(desired),
                    ),
                },
                RuntimeInput::Meta(operation) => match write_of(operation) {
                    Some(write) => action == RuntimeAction::CommandSemaWrite(write),
                    None => action == RuntimeAction::ReplyToSignal(
                        RuntimeOutput::Meta(
                            rejected_with(MetaRejectionReason::ProviderNotConfigured, self.state().commit_sequence),
                        ),
                    ),
                },
            },
    {
        match input {
            RuntimeInput::Ordinary(operation) => self.decide_ordinary_input(operation),
            RuntimeInput::Meta(operation) => self.decide_meta_input(operation),
        }
    }

    fn decide_ordinary_input(&self, operation: Operation) -> (action: RuntimeAction)
        ensures
            match operation {
                Operation::Observe(observation) => action == RuntimeAction::CommandSemaRead(
                    RuntimeReadInput::Observe(observation),
                ),
                Operation::Validate(desired) => action == RuntimeAction::CommandSemaRead(
                    RuntimeReadInput::Validate(desired),
                ),
            },
    {
        match operation {
            Operation::Observe(observation) => RuntimeAction::CommandSemaRead(RuntimeReadInput::Observe(observation)),
            Operation::Validate(desired) => RuntimeAction::CommandSemaRead(RuntimeReadInput::Validate(desired)),
        }
    }

    /// Owner requests become writes; host plans are not carried by this
    /// engine and are refused as not configured.
    fn decide_meta_input(&self, operation: MetaOperation) -> (action: RuntimeAction)
        ensures
            match write_of(operation) {
                Some(write) => action == RuntimeAction::CommandSemaWrite(write),
                None => action == RuntimeAction::ReplyToSignal(
                    RuntimeOutput::Meta(
                        rejected_with(MetaRejectionReason::ProviderNotConfigured, self.state().commit_sequence),
                    ),
                ),
            },
    {
        let command = match operation {
            MetaOperation::RegisterAccount(registration) => SemaWriteInput::RegisterAccount(registration),
            MetaOperation::RotateCredential(rotation) => SemaWriteInput::RotateCredential(rotation),
            MetaOperation::SetPolicy(policy) => SemaWriteInput::SetPolicy(policy),
            MetaOperation::PreparePlan(desired) => SemaWriteInput::PreparePlan(desired),
            MetaOperation::PrepareHostPlan(_) | MetaOperation::PrepareHostDestruction(_) => {
                return RuntimeAction::ReplyToSignal(
                    RuntimeOutput::Meta(
                        OwnerOutput::RequestRejected(self.meta_rejection(MetaRejectionReason::ProviderNotConfigured)),
                    ),
                );
            },
            MetaOperation::PrepareProjection(preparation) => SemaWriteInput::PrepareProjection(preparation),
            MetaOperation::ApprovePlan(identifier) => SemaWriteInput::ApprovePlan(identifier),
            MetaOperation::ApplyPlan(identifier) => SemaWriteInput::ApplyPlan(identifier),
            MetaOperation::RetireAccount(retirement) => SemaWriteInput::RetireAccount(retirement),
        };
        RuntimeAction::CommandSemaWrite(command)
    }

    /// A completed read is answered on the ordinary side; a miss is an
    /// expired plan.
    fn decide_read_completion(&self, output: RuntimeReadOutput) -> (action: RuntimeAction)
        ensures
            action == RuntimeAction::ReplyToSignal(
                RuntimeOutput::Ordinary(
                    match output {
                        RuntimeReadOutput::Observed(result) => Reply::Observed(result),
                        RuntimeReadOutput::Validated(findings) => Reply::Validated(findings),
                        RuntimeReadOutput::PlanObserved(plan) => Reply::Observed(ObservationResult::Plan(plan)),
                        RuntimeReadOutput::Missed(_) => Reply::RequestRejected(RejectionReason::PlanExpired),
                    },
                ),
            ),
    {
        let reply = match output {
            RuntimeReadOutput::Observed(result) => Reply::Observed(result),
            RuntimeReadOutput::Validated(findings) => Reply::Validated(findings),
            RuntimeReadOutput::PlanObserved(plan) => Reply::Observed(ObservationResult::Plan(plan)),
            RuntimeReadOutput::Missed(_) => Reply::RequestRejected(RejectionReason::PlanExpired),
        };
        RuntimeAction::ReplyToSignal(RuntimeOutput::Ordinary(reply))
    }

    /// A completed write is answered on the owner side.
    fn decide_write_completion(&self, output: SemaWriteOutput) -> (action: RuntimeAction)
        ensures
            action == RuntimeAction::ReplyToSignal(RuntimeOutput::Meta(meta_output_of(output))),
    {
        let reply = match output {
            SemaWriteOutput::AccountRegistered { provider, account } => OwnerOutput::AccountRegistered {
                provider,
                account,
            },
            SemaWriteOutput::CredentialRotated { provider, account } => OwnerOutput::CredentialRotated {
                provider,
                account,
            },
            SemaWriteOutput::PolicySet { capability_policy_count, zone_policy_count } => OwnerOutput::PolicySet {
                capability_policy_count,
                zone_policy_count,
            },
            SemaWriteOutput::PlanPrepared(plan) => OwnerOutput::PlanPrepared(plan),
            SemaWriteOutput::PlanApproved(identifier) => OwnerOutput::PlanApproved(identifier),
            SemaWriteOutput::PlanApplied(identifier) => OwnerOutput::PlanApplied(identifier),
            SemaWriteOutput::AccountRetired { provider, account } => OwnerOutput::AccountRetired {
                provider,
                account,
            },
            SemaWriteOutput::Missed(report) => OwnerOutput::RequestRejected(report),
        };
        RuntimeAction::ReplyToSignal(RuntimeOutput::Meta(reply))
    }

    /// Carries an action through to its reply. A loop that continues
    /// instead of replying is answered as an expired plan.
    fn resolve_action(&mut self, action: RuntimeAction) -> (output: RuntimeOutput)
        requires
            old(self).store_wf(),
            action is CommandSemaWrite ==> old(self).ready(),
        ensures
            final(self).store_wf(),
            final(self).capability_matrix() == old(self).capability_matrix(),
            match action {
                RuntimeAction::ReplyToSignal(reply) => output == reply && final(self).unchanged_from(&*old(self)),
                RuntimeAction::CommandSemaRead(command) => final(self).unchanged_from(&*old(self)) && (output matches RuntimeOutput::Ordinary(
                    reply,
                ) && read_result(old(self).capability_matrix(), command, reply)),
                RuntimeAction::CommandSemaWrite(write) => output matches RuntimeOutput::Meta(answer) && write_result(
                    old(self).state(),
                    final(self).state(),
                    final(self).policy_counts(),
                    old(self).policy_counts(),
                    write,
                    answer,
                ),
                _ => final(self).unchanged_from(&*old(self)) && output == RuntimeOutput::Ordinary(
                    Reply::RequestRejected(RejectionReason::PlanExpired),
                ),
            },
        decreases action_rank(action),
    {
        match action {
            RuntimeAction::CommandSemaRead(command) => {
                let output = self.observe(command);
                let next = self.decide_read_completion(output);
                self.resolve_action(next)
            },
            RuntimeAction::CommandSemaWrite(command) => {
                let output = self.apply(command);
                let next = self.decide_write_completion(output);
                self.resolve_reply(next)
            },
            RuntimeAction::CommandEffect(command) => {
                let result = self.run_effect(command);
                self.resolve_action(RuntimeAction::Continue(Box::new(RuntimeWork::EffectCompleted(result))))
            },
            RuntimeAction::ReplyToSignal(output) => output,
            RuntimeAction::Continue(_) => RuntimeOutput::Ordinary(Reply::RequestRejected(RejectionReason::PlanExpired)),
        }
    }

    /// The reply a finished action carries.
    fn resolve_reply(&self, action: RuntimeAction) -> (output: RuntimeOutput)
        requires
            action is ReplyToSignal,
        ensures
            action == RuntimeAction::ReplyToSignal(output),
    {
        match action {
            RuntimeAction::ReplyToSignal(output) => output,
            _ => RuntimeOutput::Ordinary(Reply::RequestRejected(RejectionReason::PlanExpired)),
        }
    }

    /// The read path.
    pub fn observe(&self, input: RuntimeReadInput) -> (output: RuntimeReadOutput)
        ensures
            match input {
                RuntimeReadInput::Observe(observation) => match observation {
                    Observation::Plan(_) => output == RuntimeReadOutput::Missed(
                        RejectionReport {
                            reason: MetaRejectionReason::PlanUnknown,
                            marker: marker_for(self.state().commit_sequence),
                        },
                    ),
                    _ => output matches RuntimeReadOutput::Observed(result) && ordinary_result(
                        self.capability_matrix(),
                        Operation::Observe(observation),
                        Reply::Observed(result),
                    ),
                },
                RuntimeReadInput::ObservePlan(_) => output is Missed,
                RuntimeReadInput::Validate(_) => output matches RuntimeReadOutput::Validated(findings) && findings.len()
                    == 0,
            },
    {
        match input {
            RuntimeReadInput::Observe(observation) => self.observe_ordinary(observation),
            RuntimeReadInput::ObservePlan(identifier) => self.observe_plan(&identifier),
            RuntimeReadInput::Validate(desired) => self.validate_ordinary(desired),
        }
    }

    /// Observations: capabilities from the matrix; zones, records,
    /// redirects and hosts are empty listings on this engine.
    fn observe_ordinary(&self, observation: Observation) -> (output: RuntimeReadOutput)
        ensures
            match observation {
                Observation::Plan(_) => output == RuntimeReadOutput::Missed(
                    RejectionReport {
                        reason: MetaRejectionReason::PlanUnknown,
                        marker: marker_for(self.state().commit_sequence),
                    },
                ),
                _ => output matches RuntimeReadOutput::Observed(result) && ordinary_result(
                    self.capability_matrix(),
                    Operation::Observe(observation),
                    Reply::Observed(result),
                ),
            },
    {
        let result = match observation {
            Observation::Capabilities(query) => ObservationResult::Capabilities(self.capability_report(query)),
            Observation::Zones(_) => ObservationResult::Zones(Vec::new()),
            Observation::Records(_) => ObservationResult::Records(Vec::new()),
            Observation::Redirects(_) => ObservationResult::Redirects(Vec::new()),
            Observation::Servers(_) => ObservationResult::Servers(Vec::new()),
            Observation::Plan(identifier) => {
                return self.observe_plan(&identifier);
            },
        };
        RuntimeReadOutput::Observed(result)
    }

    /// Plan generation is not on this engine, so its plan table holds no
    /// plan to read: every plan read misses.
    fn observe_plan(&self, identifier: &String) -> (output: RuntimeReadOutput)
        ensures
            output == RuntimeReadOutput::Missed(
                RejectionReport {
                    reason: MetaRejectionReason::PlanUnknown,
                    marker: marker_for(self.state().commit_sequence),
                },
            ),
    {
        RuntimeReadOutput::Missed(self.meta_rejection(MetaRejectionReason::PlanUnknown))
    }

    fn validate_ordinary(&self, desired: DesiredState) -> (output: RuntimeReadOutput)
        ensures
            output matches RuntimeReadOutput::Validated(findings) && findings.len() == 0,
    {
        RuntimeReadOutput::Validated(Vec::new())
    }

    /// The rejection report at the current commit.
    fn meta_rejection(&self, reason: MetaRejectionReason) -> (report: RejectionReport)
        ensures
            report == (RejectionReport { reason, marker: marker_for(self.state().commit_sequence) }),
    {
        let commit_sequence = self.commit_sequence();
        RejectionReport { reason, marker: DatabaseMarker { commit_sequence, state_digest: commit_sequence } }
    }

    /// The matrix entries that answer a query, in matrix order.
    fn capability_report(&self, query: CapabilityQuery) -> (report: Vec<CapabilityObservation>)
        ensures
            report@ == matching_observations(self.capability_matrix(), query),
    {
        let mut report: Vec<CapabilityObservation> = Vec::new();
        let mut index: usize = 0;
        while index < self.capabilities.len()
            invariant
                index <= self.capabilities.len(),
                report@ == matching_observations(self.capabilities@.take(index as int), query),
            decreases self.capabilities.len() - index,
        {
            let observation = self.capabilities[index];
            proof {
                let next = self.capabilities@.take(index + 1);
                assert(next.drop_last() =~= self.capabilities@.take(index as int));
                assert(next.last() == observation);
            }
            let provider_matches = match query.provider {
                Some(provider) => provider == observation.provider,
                None => true,
            };
            let capability_matches = match query.capability {
                Some(capability) => capability == observation.capability,
                None => true,
            };
            if provider_matches && capability_matches {
                report.push(observation);
            }
            index = index + 1;
        }
        assert(self.capabilities@.take(self.capabilities@.len() as int) =~= self.capabilities@);
        report
    }

    /// The write path over the tables.
    pub fn apply(&mut self, input: SemaWriteInput) -> (output: SemaWriteOutput)
        requires
            old(self).ready(),
        ensures
            final(self).store_wf(),
            final(self).capability_matrix() == old(self).capability_matrix(),
            write_result(
                old(self).state(),
                final(self).state(),
                final(self).policy_counts(),
                old(self).policy_counts(),
                input,
                meta_output_of(output),
            ),
    {
        match input {
            SemaWriteInput::RegisterAccount(registration) => self.register_account(registration),
            SemaWriteInput::RotateCredential(rotation) => self.rotate_credential(rotation),
            SemaWriteInput::SetPolicy(policy) => self.set_policy(policy),
            SemaWriteInput::PreparePlan(_) => SemaWriteOutput::Missed(
                self.meta_rejection(MetaRejectionReason::PlanGenerationFailed),
            ),
            SemaWriteInput::PrepareProjection(_) => SemaWriteOutput::Missed(
                self.meta_rejection(MetaRejectionReason::PlanGenerationFailed),
            ),
            SemaWriteInput::ApprovePlan(identifier) => self.approve_plan(identifier),
            SemaWriteInput::ApplyPlan(identifier) => self.apply_plan(identifier),
            SemaWriteInput::RetireAccount(retirement) => self.retire_account(retirement),
        }
    }

    fn register_account(&mut self, registration: Registration) -> (output: SemaWriteOutput)
        requires
            old(self).ready(),
        ensures
            final(self).store_wf(),
            final(self).capability_matrix() == old(self).capability_matrix(),
            write_result(
                old(self).state(),
                final(self).state(),
                final(self).policy_counts(),
                old(self).policy_counts(),
                SemaWriteInput::RegisterAccount(registration),
                meta_output_of(output),
            ),
    {
        proof {
            reveal(registration_result);
        }
        let binding = AccountBinding {
            provider: registration.provider,
            account: registration.account.clone(),
            credential: registration.credential.clone(),
        };
        self.store.put_account(binding);
        SemaWriteOutput::AccountRegistered { provider: registration.provider, account: registration.account }
    }

    fn rotate_credential(&mut self, rotation: Rotation) -> (output: SemaWriteOutput)
        requires
            old(self).ready(),
        ensures
            final(self).store_wf(),
            final(self).capability_matrix() == old(self).capability_matrix(),
            write_result(
                old(self).state(),
                final(self).state(),
                final(self).policy_counts(),
                old(self).policy_counts(),
                SemaWriteInput::RotateCredential(rotation),
                meta_output_of(output),
            ),
    {
        proof {
            reveal(rotation_result);
        }
        match self.store.rotate_credential(rotation.provider, &rotation.account, rotation.credential.clone()) {
            Some(_) => SemaWriteOutput::CredentialRotated { provider: rotation.provider, account: rotation.account },
            None => SemaWriteOutput::Missed(self.meta_rejection(MetaRejectionReason::AccountUnknown)),
        }
    }

    fn set_policy(&mut self, policy: Policy) -> (output: SemaWriteOutput)
        requires
            old(self).ready(),
        ensures
            final(self).store_wf(),
            final(self).capability_matrix() == old(self).capability_matrix(),
            write_result(
                old(self).state(),
                final(self).state(),
                final(self).policy_counts(),
                old(self).policy_counts(),
                SemaWriteInput::SetPolicy(policy),
                meta_output_of(output),
            ),
    {
        let capability_policy_count = policy.capabilities.len() as u64;
        let zone_policy_count = policy.zones.len() as u64;
        self.store.next_commit_sequence();
        self.policy = Some(policy);
        SemaWriteOutput::PolicySet { capability_policy_count, zone_policy_count }
    }

    fn approve_plan(&mut self, identifier: String) -> (output: SemaWriteOutput)
        requires
            old(self).ready(),
        ensures
            final(self).store_wf(),
            final(self).capability_matrix() == old(self).capability_matrix(),
            write_result(
                old(self).state(),
                final(self).state(),
                final(self).policy_counts(),
                old(self).policy_counts(),
                SemaWriteInput::ApprovePlan(identifier),
                meta_output_of(output),
            ),
    {
        proof {
            reveal(approval_result);
        }
        match self.store.approve_plan(&identifier) {
            Some(_) => SemaWriteOutput::PlanApproved(identifier),
            None => SemaWriteOutput::Missed(self.meta_rejection(MetaRejectionReason::PlanUnknown)),
        }
    }

    fn apply_plan(&mut self, identifier: String) -> (output: SemaWriteOutput)
        requires
            old(self).ready(),
        ensures
            final(self).store_wf(),
            final(self).capability_matrix() == old(self).capability_matrix(),
            write_result(
                old(self).state(),
                final(self).state(),
                final(self).policy_counts(),
                old(self).policy_counts(),
                SemaWriteInput::ApplyPlan(identifier),
                meta_output_of(output),
            ),
    {
        proof {
            reveal(application_result);
        }
        let approved = match self.store.plan(&identifier) {
            Some(stored) => Some(stored.approved),
            None => None,
        };
        match approved {
            Some(true) => SemaWriteOutput::PlanApplied(identifier),
            Some(false) => SemaWriteOutput::Missed(self.meta_rejection(MetaRejectionReason::PlanNotApproved)),
            None => SemaWriteOutput::Missed(self.meta_rejection(MetaRejectionReason::PlanUnknown)),
        }
    }

    fn retire_account(&mut self, retirement: Retirement) -> (output: SemaWriteOutput)
        requires
            old(self).ready(),
        ensures
            final(self).store_wf(),
            final(self).capability_matrix() == old(self).capability_matrix(),
            write_result(
                old(self).state(),
                final(self).state(),
                final(self).policy_counts(),
                old(self).policy_counts(),
                SemaWriteInput::RetireAccount(retirement),
                meta_output_of(output),
            ),
    {
        proof {
            reveal(retirement_result);
        }
        match self.store.retire_account(retirement.provider, &retirement.account) {
            Some(_) => SemaWriteOutput::AccountRetired { provider: retirement.provider, account: retirement.account },
            None => SemaWriteOutput::Missed(self.meta_rejection(MetaRejectionReason::AccountUnknown)),
        }
    }

    /// The provider effects this engine answers without a provider: empty
    /// listings, and an applied plan confirmed by identifier.
    fn run_effect(&self, command: RuntimeEffectCommand) -> (result: RuntimeEffectResult)
        ensures
            match command {
                RuntimeEffectCommand::ObserveZones(_) => result matches RuntimeEffectResult::ZonesObserved(zones)
                    && zones.len() == 0,
                RuntimeEffectCommand::ObserveRecords(_) => result matches RuntimeEffectResult::RecordsObserved(
                    records,
                ) && records.len() == 0,
                RuntimeEffectCommand::ApplyPlan(identifier) => result == RuntimeEffectResult::PlanApplied(identifier),
            },
    {
        match command {
            RuntimeEffectCommand::ObserveZones(_) => RuntimeEffectResult::ZonesObserved(Vec::new()),
            RuntimeEffectCommand::ObserveRecords(_) => RuntimeEffectResult::RecordsObserved(Vec::new()),
            RuntimeEffectCommand::ApplyPlan(identifier) => RuntimeEffectResult::PlanApplied(identifier),
        }
    }
}

} // verus!
