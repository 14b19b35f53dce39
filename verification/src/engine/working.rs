//! The working (ordinary) contract's engine: an admission actor and the
//! read-only decision loop. Validation and plan reads go to the store; zone
//! and record reads are provider effects; what has no read path yet is
//! answered with a typed unsupported reply, never a silent empty listing.
use vstd::prelude::*;

use crate::engine::store::{Store, WorkingReadInput, WorkingReadOutput};
use crate::engine::{ActorLifecycle, ContinuationBudget, OriginRoute, OriginRouteMinter, Routed, ORIGIN_ROUTE_BASE};
use crate::vocabulary::{
    Capability, DomainNameSystemRecord, Observation, Operation, Provider, RecordQuery, Reply, RequestUnsupported,
    UnsupportedReason, Zone, ZoneQuery,
};

verus! {

#[derive(Debug, PartialEq, Eq)]
pub enum WorkingEffectCommand {
    CloudflareObserveZones(ZoneQuery),
    CloudflareObserveRecords(RecordQuery),
}

#[derive(Debug, PartialEq, Eq)]
pub enum WorkingEffectResult {
    ZonesObserved(Vec<Zone>),
    RecordsObserved(Vec<DomainNameSystemRecord>),
}

/// What the working loop has in hand.
#[derive(Debug, PartialEq, Eq)]
pub enum WorkingWork {
    SignalArrived(Operation),
    SemaReadCompleted(WorkingReadOutput),
    EffectCompleted(WorkingEffectResult),
}

/// What the working loop does next.
#[derive(Debug, PartialEq, Eq)]
pub enum WorkingAction {
    ReplyToSignal(Reply),
    CommandSemaRead(WorkingReadInput),
    CommandEffect(WorkingEffectCommand),
    Continue(Box<WorkingWork>),
}

/// An admitted ordinary request and the route its reply goes back on.
#[derive(Debug, PartialEq, Eq)]
pub struct AdmittedOperation {
    pub route: OriginRoute,
    pub operation: Operation,
}

pub open spec fn unsupported_reply(
    provider: Option<Provider>,
    capability: Option<Capability>,
    reason: UnsupportedReason,
) -> Reply {
    Reply::RequestUnsupported(RequestUnsupported { provider, capability, reason })
}

/// `reply` is what the working loop answers for `work`.
pub open spec fn working_resolves(work: WorkingWork, reply: Reply) -> bool {
    match work {
        WorkingWork::SignalArrived(operation) => match operation {
            Operation::Validate(_) => reply matches Reply::Validated(findings) && findings.len() == 0,
            Operation::Observe(observation) => match observation {
                Observation::Zones(_) => reply == unsupported_reply(
                    Some(Provider::Cloudflare),
                    None,
                    UnsupportedReason::CapabilityNotConfigured,
                ),
                Observation::Records(_) => reply == unsupported_reply(
                    Some(Provider::Cloudflare),
                    None,
                    UnsupportedReason::CapabilityNotConfigured,
                ),
                Observation::Plan(_) => reply == unsupported_reply(None, None, UnsupportedReason::ProviderNotConfigured),
                Observation::Capabilities(query) => reply == unsupported_reply(
                    query.provider,
                    query.capability,
                    UnsupportedReason::CapabilityNotConfigured,
                ),
                Observation::Redirects(query) => reply == unsupported_reply(
                    Some(query.provider),
                    None,
                    UnsupportedReason::CapabilityNotConfigured,
                ),
                Observation::Servers(query) => reply == unsupported_reply(
                    Some(query.provider),
                    None,
                    UnsupportedReason::CapabilityNotConfigured,
                ),
            },
        },
        WorkingWork::SemaReadCompleted(output) => match output {
            WorkingReadOutput::Validated(findings) => reply == Reply::Validated(findings),
            WorkingReadOutput::Missed(_) => reply == unsupported_reply(None, None, UnsupportedReason::ProviderNotConfigured),
        },
        WorkingWork::EffectCompleted(_) => reply == unsupported_reply(
            Some(Provider::Cloudflare),
            None,
            UnsupportedReason::CapabilityNotConfigured,
        ),
    }
}

pub open spec fn working_rounds(work: WorkingWork) -> nat {
    match work {
        WorkingWork::SignalArrived(_) => 2,
        _ => 1,
    }
}

/// The working admission actor.
#[derive(Debug)]
pub struct WorkingSignalActor {
    origin_routes: OriginRouteMinter,
    lifecycle: ActorLifecycle,
}

impl WorkingSignalActor {
    pub closed spec fn admitted(&self) -> nat {
        self.origin_routes.minted()
    }

    pub fn new() -> (actor: Self)
        ensures
            actor.admitted() == 0,
    {
        WorkingSignalActor { origin_routes: OriginRouteMinter::new(), lifecycle: ActorLifecycle::new() }
    }

    /// Tags a request with the next origin route.
    pub fn accept(&mut self, operation: Operation) -> (admitted: AdmittedOperation)
        requires
            old(self).admitted() + 1 + ORIGIN_ROUTE_BASE <= u64::MAX,
        ensures
            final(self).admitted() == old(self).admitted() + 1,
            admitted.route.0 == ORIGIN_ROUTE_BASE + final(self).admitted(),
            admitted.operation == operation,
    {
        let route = self.origin_routes.mint();
        AdmittedOperation { route, operation }
    }

    /// The work an admitted request starts the loop with, on the request's
    /// route.
    pub fn triage(&self, admitted: AdmittedOperation) -> (work: Routed<WorkingWork>)
        ensures
            work.route == admitted.route,
            work.payload == WorkingWork::SignalArrived(admitted.operation),
    {
        Routed { route: admitted.route, payload: WorkingWork::SignalArrived(admitted.operation) }
    }

    /// The reply a finished loop carries; any other action is a loop that
    /// never reached a reply.
    pub fn reply(&self, action: Routed<WorkingAction>) -> (reply: Routed<Reply>)
        ensures
            reply.route == action.route,
            match action.payload {
                WorkingAction::ReplyToSignal(answer) => reply.payload == answer,
                _ => reply.payload == unsupported_reply(None, None, UnsupportedReason::ProviderNotConfigured),
            },
    {
        let payload = match action.payload {
            WorkingAction::ReplyToSignal(answer) => answer,
            _ => Reply::RequestUnsupported(
                RequestUnsupported { provider: None, capability: None, reason: UnsupportedReason::ProviderNotConfigured },
            ),
        };
        Routed { route: action.route, payload }
    }
}

/// The read-only working decision center.
pub struct WorkingNexus {
    store: Store,
    lifecycle: ActorLifecycle,
}

impl WorkingNexus {
    pub fn new(store: Store) -> (nexus: Self)
        ensures
            nexus.held() == store,
    {
        WorkingNexus { store, lifecycle: ActorLifecycle::new() }
    }

    pub closed spec fn held(&self) -> Store {
        self.store
    }

    pub fn store(&self) -> (store: &Store)
        ensures
            *store == self.held(),
    {
        &self.store
    }

    /// Runs the loop from `work` to its reply; it never changes the store.
    pub fn decide(&mut self, routed: Routed<WorkingWork>) -> (action: Routed<WorkingAction>)
        ensures
            final(self).held() == old(self).held(),
            action.route == routed.route,
            action.payload matches WorkingAction::ReplyToSignal(reply) && working_resolves(routed.payload, reply),
    {
        let route = routed.route;
        let work = routed.payload;
        let mut pending = work;
        let mut budget = ContinuationBudget::default_for_pilot();
        loop
            invariant
                self.held() == old(self).held(),
                budget.count() >= working_rounds(pending),
                route == routed.route,
                work == routed.payload,
                forall|reply: Reply| #[trigger] working_resolves(pending, reply) ==> working_resolves(work, reply),
            decreases budget.count(),
        {
            let ghost current = pending;
            let action = self.step_decide(pending);
            match action {
                WorkingAction::ReplyToSignal(reply) => {
                    return Routed { route, payload: WorkingAction::ReplyToSignal(reply) };
                },
                WorkingAction::CommandSemaRead(command) => {
                    let output = self.store.observe_read(command);
                    pending = WorkingWork::SemaReadCompleted(output);
                },
                WorkingAction::CommandEffect(command) => {
                    let result = self.run_provider_effect(command);
                    pending = WorkingWork::EffectCompleted(result);
                },
                WorkingAction::Continue(next) => {
                    pending = *next;
                },
            }
            assert forall|reply: Reply| #[trigger] working_resolves(pending, reply) implies working_resolves(
                work,
                reply,
            ) by {
                assert(working_resolves(current, reply));
            }
            match budget.spend_one() {
                Some(remaining) => {
                    budget = remaining;
                },
                None => {
                    return Routed {
                        route,
                        payload: WorkingAction::ReplyToSignal(
                            Reply::RequestUnsupported(
                                RequestUnsupported {
                                    provider: None,
                                    capability: None,
                                    reason: UnsupportedReason::ProviderNotConfigured,
                                },
                            ),
                        ),
                    };
                },
            }
        }
    }

    /// One decision of the working loop.
    fn step_decide(&self, work: WorkingWork) -> (action: WorkingAction)
        ensures
            match action {
                WorkingAction::ReplyToSignal(reply) => working_resolves(work, reply),
                WorkingAction::CommandSemaRead(command) => work matches WorkingWork::SignalArrived(operation) && match operation {
                    Operation::Validate(desired) => command == WorkingReadInput::Validate(desired),
                    Operation::Observe(observation) => observation is Plan && command is ObservePlan,
                },
                WorkingAction::CommandEffect(command) => work matches WorkingWork::SignalArrived(Operation::Observe(
                    observation,
                )) && (observation is Zones || observation is Records),
                WorkingAction::Continue(_) => false,
            },
    {
        match work {
            WorkingWork::SignalArrived(operation) => self.decide_signal_arrival(operation),
            WorkingWork::SemaReadCompleted(output) => self.decide_sema_read_completion(output),
            WorkingWork::EffectCompleted(result) => self.decide_effect_completion(result),
        }
    }

    fn decide_signal_arrival(&self, operation: Operation) -> (action: WorkingAction)
        ensures
            match action {
                WorkingAction::ReplyToSignal(reply) => working_resolves(WorkingWork::SignalArrived(operation), reply),
                WorkingAction::CommandSemaRead(command) => match operation {
                    Operation::Validate(desired) => command == WorkingReadInput::Validate(desired),
                    Operation::Observe(observation) => observation is Plan && command is ObservePlan,
                },
                WorkingAction::CommandEffect(_) => operation matches Operation::Observe(observation) && (
                observation is Zones || observation is Records),
                WorkingAction::Continue(_) => false,
            },
    {
        match operation {
            Operation::Observe(observation) => self.decide_observation(observation),
            Operation::Validate(desired) => WorkingAction::CommandSemaRead(WorkingReadInput::Validate(desired)),
        }
    }

    /// Zones and records are provider reads; plans are store reads; the rest
    /// has no read path and is answered unsupported.
    fn decide_observation(&self, observation: Observation) -> (action: WorkingAction)
        ensures
            match action {
                WorkingAction::ReplyToSignal(reply) => working_resolves(
                    WorkingWork::SignalArrived(Operation::Observe(observation)),
                    reply,
                ),
                WorkingAction::CommandSemaRead(command) => observation is Plan && command is ObservePlan,
                WorkingAction::CommandEffect(_) => observation is Zones || observation is Records,
                WorkingAction::Continue(_) => false,
            },
    {
        match observation {
            Observation::Zones(query) => WorkingAction::CommandEffect(WorkingEffectCommand::CloudflareObserveZones(query)),
            Observation::Records(query) => WorkingAction::CommandEffect(
                WorkingEffectCommand::CloudflareObserveRecords(query),
            ),
            Observation::Plan(identifier) => WorkingAction::CommandSemaRead(WorkingReadInput::ObservePlan(identifier)),
            Observation::Capabilities(query) => WorkingAction::ReplyToSignal(
                Reply::RequestUnsupported(
                    RequestUnsupported {
                        provider: query.provider,
                        capability: query.capability,
                        reason: UnsupportedReason::CapabilityNotConfigured,
                    },
                ),
            ),
            Observation::Redirects(query) => WorkingAction::ReplyToSignal(
                Reply::RequestUnsupported(
                    RequestUnsupported {
                        provider: Some(query.provider),
                        capability: None,
                        reason: UnsupportedReason::CapabilityNotConfigured,
                    },
                ),
            ),
            Observation::Servers(query) => WorkingAction::ReplyToSignal(
                Reply::RequestUnsupported(
                    RequestUnsupported {
                        provider: Some(query.provider),
                        capability: None,
                        reason: UnsupportedReason::CapabilityNotConfigured,
                    },
                ),
            ),
        }
    }

    fn decide_sema_read_completion(&self, output: WorkingReadOutput) -> (action: WorkingAction)
        ensures
            action matches WorkingAction::ReplyToSignal(reply) && working_resolves(
                WorkingWork::SemaReadCompleted(output),
                reply,
            ),
    {
        match output {
            WorkingReadOutput::Validated(findings) => WorkingAction::ReplyToSignal(Reply::Validated(findings)),
            WorkingReadOutput::Missed(_) => WorkingAction::ReplyToSignal(
                Reply::RequestUnsupported(
                    RequestUnsupported {
                        provider: None,
                        capability: None,
                        reason: UnsupportedReason::ProviderNotConfigured,
                    },
                ),
            ),
        }
    }

    /// An observed listing cannot yet ride the working reply, so it is
    /// answered unsupported rather than with a made-up result.
    fn decide_effect_completion(&self, result: WorkingEffectResult) -> (action: WorkingAction)
        ensures
            action matches WorkingAction::ReplyToSignal(reply) && working_resolves(
                WorkingWork::EffectCompleted(result),
                reply,
            ),
    {
        WorkingAction::ReplyToSignal(
            Reply::RequestUnsupported(
                RequestUnsupported {
                    provider: Some(Provider::Cloudflare),
                    capability: None,
                    reason: UnsupportedReason::CapabilityNotConfigured,
                },
            ),
        )
    }

    /// The provider read behind an observation effect.
    fn run_provider_effect(&self, command: WorkingEffectCommand) -> (result: WorkingEffectResult)
        ensures
            match command {
                WorkingEffectCommand::CloudflareObserveZones(_) => result is ZonesObserved,
                WorkingEffectCommand::CloudflareObserveRecords(_) => result is RecordsObserved,
            },
    {
        match command {
            WorkingEffectCommand::CloudflareObserveZones(_) => WorkingEffectResult::ZonesObserved(Vec::new()),
            WorkingEffectCommand::CloudflareObserveRecords(_) => WorkingEffectResult::RecordsObserved(Vec::new()),
        }
    }
}

} // verus!
