use cloud::engine::owner::{OwnerAction, OwnerInput, OwnerNexus, OwnerOutput, OwnerSignalActor, OwnerWork};
use cloud::engine::store::{
    append_decimal, SemaReadInput, SemaReadOutput, SemaWriteInput, SemaWriteOutput, Store, WorkingReadInput,
    WorkingReadOutput,
};
use cloud::engine::working::{WorkingAction, WorkingNexus, WorkingSignalActor, WorkingWork};
use cloud::engine::{ActorLifecycle, ContinuationBudget, OriginRoute, OriginRouteMinter, Routed};
use cloud::vocabulary::{
    DesiredState, DomainNameSystemRecord, MetaRejectionReason, Observation, Operation, Provider, ProxyMode, RecordKind,
    Registration, Reply, RequestUnsupported, Retirement, Rotation, UnsupportedReason,
};

fn desired_state() -> DesiredState {
    DesiredState {
        provider: Provider::Cloudflare,
        zone: "example.test".to_owned(),
        records: vec![DomainNameSystemRecord {
            name: "www.example.test".to_owned(),
            kind: RecordKind::AddressV4,
            value: "203.0.113.7".to_owned(),
            proxy_mode: ProxyMode::Direct,
        }],
        redirects: vec![],
    }
}

fn registration() -> Registration {
    Registration { provider: Provider::Cloudflare, account: "primary".to_owned(), credential: "token".to_owned() }
}

#[test]
fn continuation_budget_counts_down_to_exhaustion() {
    assert_eq!(ContinuationBudget::default_for_pilot().remaining(), 32);
    let one = ContinuationBudget::from_iteration_count(1);
    let zero = one.spend_one().expect("one round left");
    assert_eq!(zero.remaining(), 0);
    assert!(zero.spend_one().is_none());
}

#[test]
fn origin_routes_are_minted_in_sequence() {
    let mut minter = OriginRouteMinter::new();
    let first = minter.mint();
    let second = minter.mint();
    assert_eq!(second.0, first.0 + 1);
    assert_ne!(first, OriginRoute(second.0));
}

#[test]
fn actor_lifecycle_tracks_start_and_stop() {
    let mut lifecycle = ActorLifecycle::new();
    assert!(!lifecycle.is_started());
    lifecycle.mark_started();
    assert!(lifecycle.is_started());
    lifecycle.mark_stopped();
    assert!(!lifecycle.is_started());
}

#[test]
fn decimal_numerals_are_appended() {
    let mut text = "plan-".to_owned();
    append_decimal(&mut text, 0);
    assert_eq!(text, "plan-0");
    let mut text = String::new();
    append_decimal(&mut text, 18446744073709551615);
    assert_eq!(text, "18446744073709551615");
}

#[test]
fn store_writes_advance_the_commit_sequence() {
    let mut store = Store::new();
    assert_eq!(store.database_marker().commit_sequence, 0);
    let output = store.apply_write(SemaWriteInput::RegisterAccount(registration()));
    assert_eq!(
        output,
        SemaWriteOutput::AccountRegistered { provider: Provider::Cloudflare, account: "primary".to_owned() }
    );
    let marker = store.database_marker();
    assert_eq!(marker.commit_sequence, 1);
    assert_eq!(marker.state_digest, 1_000_003);
}

#[test]
fn store_rotation_of_unknown_account_misses_without_commit() {
    let mut store = Store::new();
    let output = store.apply_write(SemaWriteInput::RotateCredential(Rotation {
        provider: Provider::Cloudflare,
        account: "absent".to_owned(),
        credential: "next".to_owned(),
    }));
    match output {
        SemaWriteOutput::Missed(report) => {
            assert_eq!(report.reason, MetaRejectionReason::AccountUnknown);
            assert_eq!(report.marker.commit_sequence, 0);
        }
        other => panic!("unexpected rotation output {other:?}"),
    }
}

#[test]
fn store_mints_plan_identifiers_and_gates_application_on_approval() {
    let mut store = Store::new();
    let prepared = store.apply_write(SemaWriteInput::PreparePlan(desired_state()));
    let identifier = match prepared {
        SemaWriteOutput::PlanPrepared(plan) => {
            assert_eq!(plan.records_to_create.len(), 1);
            assert!(plan.records_to_update.is_empty());
            plan.identifier
        }
        other => panic!("unexpected preparation output {other:?}"),
    };
    assert_eq!(identifier, "plan-1");
    assert!(!store.plan_is_approved(&identifier));
    match store.apply_write(SemaWriteInput::ApplyPlan(identifier.clone())) {
        SemaWriteOutput::Missed(report) => assert_eq!(report.reason, MetaRejectionReason::PlanNotApproved),
        other => panic!("unexpected application output {other:?}"),
    }
    assert_eq!(
        store.apply_write(SemaWriteInput::ApprovePlan(identifier.clone())),
        SemaWriteOutput::PlanApproved(identifier.clone())
    );
    assert!(store.plan_is_approved(&identifier));
    assert_eq!(
        store.apply_write(SemaWriteInput::ApplyPlan(identifier.clone())),
        SemaWriteOutput::PlanApplied(identifier.clone())
    );
    match store.observe(SemaReadInput::ObservePlan(identifier.clone())) {
        SemaReadOutput::PlanObserved { plan, .. } => assert_eq!(plan.identifier, identifier),
        other => panic!("unexpected plan read {other:?}"),
    }
    match store.observe(SemaReadInput::ObservePlan("plan-9".to_owned())) {
        SemaReadOutput::Missed(report) => assert_eq!(report.reason, MetaRejectionReason::PlanUnknown),
        other => panic!("unexpected plan read {other:?}"),
    }
    match store.observe_read(WorkingReadInput::ObservePlan("plan-9".to_owned())) {
        WorkingReadOutput::Missed(message) => assert_eq!(message, "cross-contract plan projection not yet wired"),
        other => panic!("unexpected working read {other:?}"),
    }
}

#[test]
fn store_retirement_is_idempotent() {
    let mut store = Store::new();
    store.apply_write(SemaWriteInput::RegisterAccount(registration()));
    let retirement = || Retirement { provider: Provider::Cloudflare, account: "primary".to_owned() };
    assert_eq!(
        store.apply_write(SemaWriteInput::RetireAccount(retirement())),
        SemaWriteOutput::AccountRetired { provider: Provider::Cloudflare, account: "primary".to_owned() }
    );
    assert_eq!(
        store.apply_write(SemaWriteInput::RetireAccount(retirement())),
        SemaWriteOutput::AccountRetired { provider: Provider::Cloudflare, account: "primary".to_owned() }
    );
    assert_eq!(store.database_marker().state_digest, 0);
}

#[test]
fn owner_nexus_answers_each_request_after_its_write() {
    let mut actor = OwnerSignalActor::new();
    let mut nexus = OwnerNexus::new(Store::new());
    let admitted = actor.accept(OwnerInput::RegisterAccount(registration()));
    let route = admitted.route;
    let work = actor.triage(admitted);
    assert_eq!(work.route, route);
    let action = nexus.decide(work);
    assert_eq!(action.route, route);
    let output = actor.reply(action);
    assert_eq!(output.route, route);
    assert_eq!(
        output.payload,
        OwnerOutput::AccountRegistered { provider: Provider::Cloudflare, account: "primary".to_owned() }
    );

    let on = |payload: OwnerWork| Routed { route: OriginRoute(7), payload };
    let prepared = nexus.decide(on(OwnerWork::SignalArrived(OwnerInput::PreparePlan(desired_state()))));
    assert_eq!(prepared.route, OriginRoute(7));
    let identifier = match prepared.payload {
        OwnerAction::ReplyToSignal(OwnerOutput::PlanPrepared(plan)) => plan.identifier,
        other => panic!("unexpected preparation {other:?}"),
    };
    match nexus.decide(on(OwnerWork::SignalArrived(OwnerInput::ApplyPlan(identifier.clone())))).payload {
        OwnerAction::ReplyToSignal(OwnerOutput::RequestRejected(report)) => {
            assert_eq!(report.reason, MetaRejectionReason::PlanNotApproved)
        }
        other => panic!("unexpected application {other:?}"),
    }
    assert_eq!(
        nexus.decide(on(OwnerWork::SignalArrived(OwnerInput::ApprovePlan(identifier.clone())))).payload,
        OwnerAction::ReplyToSignal(OwnerOutput::PlanApproved(identifier.clone()))
    );
    assert_eq!(
        nexus.decide(on(OwnerWork::SignalArrived(OwnerInput::ApplyPlan(identifier.clone())))),
        Routed { route: OriginRoute(7), payload: OwnerAction::ReplyToSignal(OwnerOutput::PlanApplied(identifier.clone())) }
    );
    assert!(nexus.store().plan_is_approved(&identifier));
}

#[test]
fn working_nexus_leaves_plan_reads_to_the_owner() {
    let mut store = Store::new();
    let identifier = match store.apply_write(SemaWriteInput::PreparePlan(desired_state())) {
        SemaWriteOutput::PlanPrepared(plan) => plan.identifier,
        other => panic!("unexpected preparation output {other:?}"),
    };
    let mut actor = WorkingSignalActor::new();
    let mut nexus = WorkingNexus::new(store);
    let admitted = actor.accept(Operation::Observe(Observation::Plan(identifier)));
    let route = admitted.route;
    let work = actor.triage(admitted);
    assert!(matches!(work.payload, WorkingWork::SignalArrived(_)));
    let action = nexus.decide(work);
    assert_eq!(
        actor.reply(action),
        Routed {
            route,
            payload: Reply::RequestUnsupported(RequestUnsupported {
                provider: None,
                capability: None,
                reason: UnsupportedReason::ProviderNotConfigured,
            }),
        }
    );
}

#[test]
fn working_nexus_validates_through_the_store() {
    let mut nexus = WorkingNexus::new(Store::new());
    let action = nexus.decide(Routed {
        route: OriginRoute(8),
        payload: WorkingWork::SignalArrived(Operation::Validate(desired_state())),
    });
    assert_eq!(action, Routed { route: OriginRoute(8), payload: WorkingAction::ReplyToSignal(Reply::Validated(vec![])) });
}

#[test]
fn continuation_budget_spends_exactly_its_count() {
    let mut budget = ContinuationBudget::from_iteration_count(3);
    let mut spent = 0;
    while let Some(next) = budget.spend_one() {
        budget = next;
        spent += 1;
    }
    assert_eq!(spent, 3);
    assert_eq!(ContinuationBudget::from_iteration_count(2), ContinuationBudget::from_iteration_count(2));
    assert_ne!(ContinuationBudget::from_iteration_count(2), ContinuationBudget::from_iteration_count(3));
}

#[test]
fn later_routes_are_greater_than_earlier_ones() {
    let mut minter = OriginRouteMinter::new();
    let routes: Vec<u64> = (0..5).map(|_| minter.mint().0).collect();
    assert!(routes.windows(2).all(|pair| pair[0] < pair[1]));
    assert!(routes[0] > 1_000_000);
}
