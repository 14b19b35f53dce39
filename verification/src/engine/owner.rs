//! The owner contract's engine: an admission actor that tags each request
//! with an origin route, and the decision loop that sends each owner request
//! through the store and, for an application, through the provider effect,
//! until it has a reply.
use vstd::prelude::*;

use crate::engine::store::{
    has_plan_record, marker_of, plan_index, report_of, write_outcome, DatabaseMarker, RejectionReport,
    SemaReadInput, SemaReadOutput, SemaWriteInput, SemaWriteOutput, Store, StoreView,
};
use crate::engine::{ActorLifecycle, ContinuationBudget, OriginRoute, OriginRouteMinter, Routed, ORIGIN_ROUTE_BASE};
use crate::vocabulary::{
    DesiredState, MetaRejectionReason, Plan, Policy, ProjectionPreparation, Provider, Registration, Retirement,
    Rotation,
};

verus! {

/// One owner request.
#[derive(Debug, PartialEq, Eq)]
pub enum OwnerInput {
    RegisterAccount(Registration),
    RotateCredential(Rotation),
    SetPolicy(Policy),
    PreparePlan(DesiredState),
    PrepareProjection(ProjectionPreparation),
    ApprovePlan(String),
    ApplyPlan(String),
    RetireAccount(Retirement),
}

/// The answer to one owner request.
#[derive(Debug, PartialEq, Eq)]
pub enum OwnerOutput {
    AccountRegistered { provider: Provider, account: String },
    CredentialRotated { provider: Provider, account: String },
    PolicySet { capability_policy_count: u64, zone_policy_count: u64 },
    PlanPrepared(Plan),
    PlanApproved(String),
    PlanApplied(String),
    AccountRetired { provider: Provider, account: String },
    RequestRejected(RejectionReport),
}

/// An approved plan handed to the provider.
#[derive(Debug, PartialEq, Eq)]
pub struct ProviderApplyRequest {
    pub plan: Plan,
    pub marker: DatabaseMarker,
}

/// The provider's confirmation of an applied plan.
#[derive(Debug, PartialEq, Eq)]
pub struct ProviderApplyResult {
    pub plan_identifier: String,
    pub marker: DatabaseMarker,
}

#[derive(Debug, PartialEq, Eq)]
pub enum EffectCommand {
    CloudflareApplyPlan(ProviderApplyRequest),
}

#[derive(Debug, PartialEq, Eq)]
pub enum EffectResult {
    CloudflareApplied(ProviderApplyResult),
}

/// What the decision loop has in hand.
#[derive(Debug, PartialEq, Eq)]
pub enum OwnerWork {
    SignalArrived(OwnerInput),
    SemaWriteCompleted(SemaWriteOutput),
    SemaReadCompleted(SemaReadOutput),
    EffectCompleted(EffectResult),
}

/// What the decision loop does next.
#[derive(Debug, PartialEq, Eq)]
pub enum OwnerAction {
    ReplyToSignal(OwnerOutput),
    CommandSemaWrite(SemaWriteInput),
    CommandSemaRead(SemaReadInput),
    CommandEffect(EffectCommand),
    Continue(Box<OwnerWork>),
}

/// An admitted request and the route its reply goes back on.
#[derive(Debug, PartialEq, Eq)]
pub struct Admitted {
    pub route: OriginRoute,
    pub input: OwnerInput,
}

/// The store write an owner request becomes.
pub open spec fn write_command(input: OwnerInput) -> SemaWriteInput {
    match input {
        OwnerInput::RegisterAccount(registration) => SemaWriteInput::RegisterAccount(registration),
        OwnerInput::RotateCredential(rotation) => SemaWriteInput::RotateCredential(rotation),
        OwnerInput::SetPolicy(policy) => SemaWriteInput::SetPolicy(policy),
        OwnerInput::PreparePlan(desired) => SemaWriteInput::PreparePlan(desired),
        OwnerInput::PrepareProjection(preparation) => SemaWriteInput::PrepareProjection(preparation),
        OwnerInput::ApprovePlan(identifier) => SemaWriteInput::ApprovePlan(identifier),
        OwnerInput::ApplyPlan(identifier) => SemaWriteInput::ApplyPlan(identifier),
        OwnerInput::RetireAccount(retirement) => SemaWriteInput::RetireAccount(retirement),
    }
}

/// `output` is the reply the loop owes for `work` against `store`.
pub open spec fn resolves(store: StoreView, work: OwnerWork, output: OwnerOutput) -> bool {
    match work {
        OwnerWork::SignalArrived(_) => false,
        OwnerWork::SemaWriteCompleted(written) => match written {
            SemaWriteOutput::PlanApplied(identifier) => if has_plan_record(store.plans, identifier@) {
                output matches OwnerOutput::PlanApplied(applied) && applied@ == identifier@
            } else {
                output == OwnerOutput::RequestRejected(report_of(store, MetaRejectionReason::PlanUnknown))
            },
            SemaWriteOutput::AccountRegistered { provider, account } => output matches OwnerOutput::AccountRegistered {
                provider: replied,
                account: name,
            } && replied == provider && name@ == account@,
            SemaWriteOutput::CredentialRotated { provider, account } => output matches OwnerOutput::CredentialRotated {
                provider: replied,
                account: name,
            } && replied == provider && name@ == account@,
            SemaWriteOutput::PolicySet { capability_policy_count, zone_policy_count } => output
                == OwnerOutput::PolicySet { capability_policy_count, zone_policy_count },
            SemaWriteOutput::PlanPrepared(plan) => output matches OwnerOutput::PlanPrepared(prepared) && prepared@
                == plan@,
            SemaWriteOutput::PlanApproved(identifier) => output matches OwnerOutput::PlanApproved(approved)
                && approved@ == identifier@,
            SemaWriteOutput::AccountRetired { provider, account } => output matches OwnerOutput::AccountRetired {
                provider: replied,
                account: name,
            } && replied == provider && name@ == account@,
            SemaWriteOutput::Missed(report) => output == OwnerOutput::RequestRejected(report),
        },
        OwnerWork::SemaReadCompleted(read) => match read {
            SemaReadOutput::PlanObserved { plan, .. } => output matches OwnerOutput::PlanPrepared(observed)
                && observed@ == plan@,
            SemaReadOutput::Missed(report) => output == OwnerOutput::RequestRejected(report),
        },
        OwnerWork::EffectCompleted(EffectResult::CloudflareApplied(result)) => output matches OwnerOutput::PlanApplied(
            applied,
        ) && applied@ == result.plan_identifier@,
    }
}

/// After the first round from `start`, the store and the reply owed are
/// those of the write the request became, or unchanged for other work.
#[verifier::opaque]
pub open spec fn progressed(initial: StoreView, now: StoreView, start: OwnerWork, target: OwnerWork) -> bool {
    match start {
        OwnerWork::SignalArrived(input) => target is SemaWriteCompleted && write_outcome(
            initial,
            now,
            write_command(input),
            target->SemaWriteCompleted_0,
        ),
        _ => now == initial && target == start,
    }
}

/// The most rounds the loop needs from `work` to a reply.
pub open spec fn rounds_to_reply(work: OwnerWork) -> nat {
    match work {
        OwnerWork::SignalArrived(_) => 3,
        OwnerWork::SemaWriteCompleted(_) => 2,
        _ => 1,
    }
}

/// The owner admission actor.
#[derive(Debug)]
pub struct OwnerSignalActor {
    origin_routes: OriginRouteMinter,
    lifecycle: ActorLifecycle,
}

impl OwnerSignalActor {
    pub closed spec fn admitted(&self) -> nat {
        self.origin_routes.minted()
    }

    pub fn new() -> (actor: Self)
        ensures
            actor.admitted() == 0,
    {
        OwnerSignalActor { origin_routes: OriginRouteMinter::new(), lifecycle: ActorLifecycle::new() }
    }

    /// Tags a request with the next origin route.
    pub fn accept(&mut self, input: OwnerInput) -> (admitted: Admitted)
        requires
            old(self).admitted() + 1 + ORIGIN_ROUTE_BASE <= u64::MAX,
        ensures
            final(self).admitted() == old(self).admitted() + 1,
            admitted.route.0 == ORIGIN_ROUTE_BASE + final(self).admitted(),
            admitted.input == input,
    {
        let route = self.origin_routes.mint();
        Admitted { route, input }
    }

    /// The work an admitted request starts the loop with, on the request's
    /// route.
    pub fn triage(&self, admitted: Admitted) -> (work: Routed<OwnerWork>)
        ensures
            work.route == admitted.route,
            work.payload == OwnerWork::SignalArrived(admitted.input),
    {
        Routed { route: admitted.route, payload: OwnerWork::SignalArrived(admitted.input) }
    }

    /// The reply a finished loop carries; any other action is a loop that
    /// never reached a reply.
    pub fn reply(&self, action: Routed<OwnerAction>) -> (output: Routed<OwnerOutput>)
        ensures
            output.route == action.route,
            match action.payload {
                OwnerAction::ReplyToSignal(reply) => output.payload == reply,
                _ => output.payload == OwnerOutput::RequestRejected(
                    RejectionReport {
                        reason: MetaRejectionReason::PlanGenerationFailed,
                        marker: DatabaseMarker { commit_sequence: 0, state_digest: 0 },
                    },
                ),
            },
    {
        let payload = match action.payload {
            OwnerAction::ReplyToSignal(reply) => reply,
            _ => OwnerOutput::RequestRejected(
                RejectionReport {
                    reason: MetaRejectionReason::PlanGenerationFailed,
                    marker: DatabaseMarker { commit_sequence: 0, state_digest: 0 },
                },
            ),
        };
        Routed { route: action.route, payload }
    }
}

/// The owner decision center: it owns the store.
pub struct OwnerNexus {
    store: Store,
    lifecycle: ActorLifecycle,
}

impl OwnerNexus {
    pub closed spec fn state(&self) -> StoreView {
        self.store@
    }

    pub open spec fn wf(&self) -> bool {
        self.store_wf()
    }

    pub closed spec fn store_wf(&self) -> bool {
        self.store.wf()
    }

    pub fn new(store: Store) -> (nexus: Self)
        requires
            store.wf(),
        ensures
            nexus.wf(),
            nexus.state() == store@,
    {
        OwnerNexus { store, lifecycle: ActorLifecycle::new() }
    }

    pub fn store(&self) -> (store: &Store)
        ensures
            store@ == self.state(),
            store.wf() == self.wf(),
    {
        &self.store
    }

    /// Runs the loop from `work` to its reply: a request becomes a store
    /// write; an applied plan is handed to the provider before the reply.
    /// Every request reaches its reply well within the budget, and the reply
    /// carries the route the work came in on.
    pub fn decide(&mut self, routed: Routed<OwnerWork>) -> (action: Routed<OwnerAction>)
        requires
            old(self).wf(),
        ensures
            final(self).wf(),
            action.route == routed.route,
            match action.payload {
                OwnerAction::ReplyToSignal(output) => match routed.payload {
                    OwnerWork::SignalArrived(input) => exists|written: SemaWriteOutput|
                        #[trigger] write_outcome(old(self).state(), final(self).state(), write_command(input), written)
                            && resolves(final(self).state(), OwnerWork::SemaWriteCompleted(written), output),
                    _ => final(self).state() == old(self).state() && resolves(old(self).state(), routed.payload, output),
                },
                _ => false,
            },
    {
        let route = routed.route;
        let work = routed.payload;
        let ghost start = work;
        let ghost initial = self.store@;
        let ghost mut target: OwnerWork = work;
        let mut pending = work;
        let mut budget = ContinuationBudget::default_for_pilot();
        proof {
            reveal(progressed);
        }
        loop
            invariant
                self.wf(),
                start == work,
                initial == old(self).state(),
                budget.count() >= rounds_to_reply(pending),
                route == routed.route,
                work == routed.payload,
                pending is SignalArrived ==> pending == start && self.state() == initial && target == start,
                !(pending is SignalArrived) ==> progressed(initial, self.state(), start, target),
                !(pending is SignalArrived) ==> forall|output: OwnerOutput|
                    #[trigger] resolves(self.state(), pending, output) ==> resolves(self.state(), target, output),
            decreases budget.count(),
        {
            let ghost current = pending;
            match self.advance(pending) {
                Ok(reply) => {
                    proof {
                        reveal(progressed);
                        assert(resolves(self.state(), target, reply));
                        if start is SignalArrived {
                            let written = target->SemaWriteCompleted_0;
                            assert(target == OwnerWork::SemaWriteCompleted(written));
                            assert(write_outcome(initial, self.state(), write_command(start->SignalArrived_0), written));
                            assert(resolves(self.state(), OwnerWork::SemaWriteCompleted(written), reply));
                        } else {
                            assert(self.state() == initial);
                            assert(target == start);
                        }
                    }
                    return Routed { route, payload: OwnerAction::ReplyToSignal(reply) };
                },
                Err(next) => {
                    proof {
                        if current is SignalArrived {
                            target = next;
                            reveal(progressed);
                        }
                    }
                    pending = next;
                },
            }
            match budget.spend_one() {
                Some(remaining) => {
                    budget = remaining;
                },
                None => {
                    return Routed {
                        route,
                        payload: OwnerAction::ReplyToSignal(
                            OwnerOutput::RequestRejected(
                                RejectionReport {
                                    reason: MetaRejectionReason::PlanGenerationFailed,
                                    marker: self.store.database_marker(),
                                },
                            ),
                        ),
                    };
                },
            }
        }
    }

    /// Carries out one decision: `Ok` with the reply, or `Err` with the work
    /// that follows and is closer to a reply.
    fn advance(&mut self, work: OwnerWork) -> (outcome: Result<OwnerOutput, OwnerWork>)
        requires
            old(self).wf(),
        ensures
            final(self).wf(),
            match outcome {
                Ok(reply) => !(work is SignalArrived) && final(self).state() == old(self).state() && resolves(
                    old(self).state(),
                    work,
                    reply,
                ),
                Err(next) => {
                    &&& rounds_to_reply(next) < rounds_to_reply(work)
                    &&& !(next is SignalArrived)
                    &&& match work {
                        OwnerWork::SignalArrived(input) => next is SemaWriteCompleted && write_outcome(
                            old(self).state(),
                            final(self).state(),
                            write_command(input),
                            next->SemaWriteCompleted_0,
                        ),
                        _ => final(self).state() == old(self).state() && forall|output: OwnerOutput|
                            #[trigger] resolves(final(self).state(), next, output) ==> resolves(
                                final(self).state(),
                                work,
                                output,
                            ),
                    }
                },
            },
    {
        let action = self.step_decide(work);
        match action {
            OwnerAction::ReplyToSignal(reply) => Ok(reply),
            OwnerAction::CommandSemaWrite(command) => {
                let output = self.store.apply_write(command);
                Err(OwnerWork::SemaWriteCompleted(output))
            },
            OwnerAction::CommandSemaRead(command) => {
                let output = self.store.observe(command);
                Err(OwnerWork::SemaReadCompleted(output))
            },
            OwnerAction::CommandEffect(command) => {
                let result = self.run_provider_effect(command);
                Err(OwnerWork::EffectCompleted(result))
            },
            OwnerAction::Continue(next) => Err(*next),
        }
    }

    /// One decision: a request becomes its store write; an applied plan
    /// becomes the provider effect; everything else becomes the reply.
    fn step_decide(&self, work: OwnerWork) -> (action: OwnerAction)
        requires
            self.wf(),
        ensures
            match work {
                OwnerWork::SignalArrived(input) => action == OwnerAction::CommandSemaWrite(write_command(input)),
                _ => match action {
                    OwnerAction::ReplyToSignal(output) => resolves(self.state(), work, output),
                    OwnerAction::CommandEffect(EffectCommand::CloudflareApplyPlan(request)) => work matches OwnerWork::SemaWriteCompleted(
                        SemaWriteOutput::PlanApplied(identifier),
                    ) && has_plan_record(self.state().plans, identifier@) && request.plan@.identifier == identifier@,
                    _ => false,
                },
            },
    {
        match work {
            OwnerWork::SignalArrived(input) => self.decide_signal_arrival(input),
            OwnerWork::SemaWriteCompleted(output) => self.decide_sema_write_completion(output),
            OwnerWork::SemaReadCompleted(output) => self.decide_sema_read_completion(output),
            OwnerWork::EffectCompleted(result) => self.decide_effect_completion(result),
        }
    }

    /// Every owner request is a store write.
    fn decide_signal_arrival(&self, input: OwnerInput) -> (action: OwnerAction)
        ensures
            action == OwnerAction::CommandSemaWrite(write_command(input)),
    {
        let write = match input {
            OwnerInput::RegisterAccount(registration) => SemaWriteInput::RegisterAccount(registration),
            OwnerInput::RotateCredential(rotation) => SemaWriteInput::RotateCredential(rotation),
            OwnerInput::SetPolicy(policy) => SemaWriteInput::SetPolicy(policy),
            OwnerInput::PreparePlan(desired) => SemaWriteInput::PreparePlan(desired),
            OwnerInput::PrepareProjection(preparation) => SemaWriteInput::PrepareProjection(preparation),
            OwnerInput::ApprovePlan(identifier) => SemaWriteInput::ApprovePlan(identifier),
            OwnerInput::ApplyPlan(identifier) => SemaWriteInput::ApplyPlan(identifier),
            OwnerInput::RetireAccount(retirement) => SemaWriteInput::RetireAccount(retirement),
        };
        OwnerAction::CommandSemaWrite(write)
    }

    /// A completed write: an applied plan goes on to the provider; every
    /// other write is answered directly.
    fn decide_sema_write_completion(&self, output: SemaWriteOutput) -> (action: OwnerAction)
        requires
            self.wf(),
        ensures
            match action {
                OwnerAction::ReplyToSignal(reply) => resolves(self.state(), OwnerWork::SemaWriteCompleted(output), reply),
                OwnerAction::CommandEffect(EffectCommand::CloudflareApplyPlan(request)) => output matches SemaWriteOutput::PlanApplied(
                    identifier,
                ) && has_plan_record(self.state().plans, identifier@) && request.plan@.identifier == identifier@,
                _ => false,
            },
    {
        match output {
            SemaWriteOutput::PlanApplied(identifier) => match self.store.plan(&identifier) {
                Some(plan) => {
                    proof {
                        let i = plan_index(self.state().plans, identifier@);
                        assert(self.state().plans[i].plan.identifier == identifier@);
                    }
                    OwnerAction::CommandEffect(
                        EffectCommand::CloudflareApplyPlan(
                            ProviderApplyRequest { plan, marker: self.store.database_marker() },
                        ),
                    )
                },
                None => OwnerAction::ReplyToSignal(
                    OwnerOutput::RequestRejected(
                        RejectionReport {
                            reason: MetaRejectionReason::PlanUnknown,
                            marker: self.store.database_marker(),
                        },
                    ),
                ),
            },
            SemaWriteOutput::AccountRegistered { provider, account } => OwnerAction::ReplyToSignal(
                OwnerOutput::AccountRegistered { provider, account },
            ),
            SemaWriteOutput::CredentialRotated { provider, account } => OwnerAction::ReplyToSignal(
                OwnerOutput::CredentialRotated { provider, account },
            ),
            SemaWriteOutput::PolicySet { capability_policy_count, zone_policy_count } => OwnerAction::ReplyToSignal(
                OwnerOutput::PolicySet { capability_policy_count, zone_policy_count },
            ),
            SemaWriteOutput::PlanPrepared(plan) => OwnerAction::ReplyToSignal(OwnerOutput::PlanPrepared(plan)),
            SemaWriteOutput::PlanApproved(identifier) => OwnerAction::ReplyToSignal(
                OwnerOutput::PlanApproved(identifier),
            ),
            SemaWriteOutput::AccountRetired { provider, account } => OwnerAction::ReplyToSignal(
                OwnerOutput::AccountRetired { provider, account },
            ),
            SemaWriteOutput::Missed(report) => self.reject_from_report(report),
        }
    }

    /// A completed read is answered with the observed plan or the refusal.
    fn decide_sema_read_completion(&self, output: SemaReadOutput) -> (action: OwnerAction)
        ensures
            action matches OwnerAction::ReplyToSignal(reply) && resolves(
                self.state(),
                OwnerWork::SemaReadCompleted(output),
                reply,
            ),
    {
        match output {
            SemaReadOutput::PlanObserved { plan, .. } => OwnerAction::ReplyToSignal(OwnerOutput::PlanPrepared(plan)),
            SemaReadOutput::Missed(report) => self.reject_from_report(report),
        }
    }

    /// The provider's confirmation is answered as the applied plan.
    fn decide_effect_completion(&self, result: EffectResult) -> (action: OwnerAction)
        ensures
            action matches OwnerAction::ReplyToSignal(reply) && resolves(
                self.state(),
                OwnerWork::EffectCompleted(result),
                reply,
            ),
    {
        match result {
            EffectResult::CloudflareApplied(applied) => OwnerAction::ReplyToSignal(
                OwnerOutput::PlanApplied(applied.plan_identifier),
            ),
        }
    }

    fn reject_from_report(&self, report: RejectionReport) -> (action: OwnerAction)
        ensures
            action == OwnerAction::ReplyToSignal(OwnerOutput::RequestRejected(report)),
    {
        OwnerAction::ReplyToSignal(OwnerOutput::RequestRejected(report))
    }

    /// Hands an approved plan to the provider and returns its confirmation.
    fn run_provider_effect(&self, command: EffectCommand) -> (result: EffectResult)
        ensures
            match command {
                EffectCommand::CloudflareApplyPlan(request) => result == EffectResult::CloudflareApplied(
                    ProviderApplyResult { plan_identifier: request.plan.identifier, marker: request.marker },
                ),
            },
    {
        match command {
            EffectCommand::CloudflareApplyPlan(request) => {
                let ProviderApplyRequest { plan, marker } = request;
                EffectResult::CloudflareApplied(ProviderApplyResult { plan_identifier: plan.identifier, marker })
            },
        }
    }
}

} // verus!
