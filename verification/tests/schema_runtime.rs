use cloud::engine::owner::OwnerOutput;
use cloud::engine::store::SemaWriteOutput;
use cloud::engine::{OriginRoute, Routed};
use cloud::schema_runtime::{
    RuntimeAction, RuntimeInput, RuntimeOutput, RuntimeReadInput, RuntimeReadOutput, RuntimeWork, SchemaRuntime,
};
use cloud::vocabulary::{
    Capability, CapabilityQuery, CapabilityState, MetaOperation, Observation, ObservationResult, Operation, Provider,
    Registration, Reply,
};

#[test]
fn ordinary_capability_observation_flows_through_generated_nexus_and_sema() {
    let runtime = SchemaRuntime::new();
    let input = Operation::Observe(Observation::Capabilities(CapabilityQuery {
        provider: Some(Provider::Cloudflare),
        capability: Some(Capability::DomainNameSystemRecords),
    }));

    let nexus_action = runtime.decide(Routed {
        route: OriginRoute(7),
        payload: RuntimeWork::SignalArrived(RuntimeInput::Ordinary(input)),
    });
    assert_eq!(nexus_action.route, OriginRoute(7));
    let sema_input = match nexus_action.payload {
        RuntimeAction::CommandSemaRead(command) => command,
        other => panic!("expected SEMA read command, got {other:?}"),
    };
    assert!(matches!(sema_input, RuntimeReadInput::Observe(_)));

    let sema_output = runtime.observe(sema_input);
    let report = match &sema_output {
        RuntimeReadOutput::Observed(ObservationResult::Capabilities(report)) => report.clone(),
        other => panic!("expected capability report, got {other:?}"),
    };
    assert_eq!(report.len(), 1);
    assert_eq!(report[0].state, CapabilityState::Compiled);

    let reply = runtime.decide(Routed { route: OriginRoute(8), payload: RuntimeWork::SemaReadCompleted(sema_output) });
    assert_eq!(reply.route, OriginRoute(8));
    match reply.payload {
        RuntimeAction::ReplyToSignal(RuntimeOutput::Ordinary(Reply::Observed(ObservationResult::Capabilities(
            report,
        )))) => {
            assert_eq!(report.len(), 1);
        }
        other => panic!("expected ordinary signal reply, got {other:?}"),
    }
}

#[test]
fn meta_registration_flows_through_generated_nexus_and_sema() {
    let mut runtime = SchemaRuntime::new();
    let registration = Registration {
        provider: Provider::Cloudflare,
        account: "primary".to_owned(),
        credential: "cloudflare/api-token".to_owned(),
    };

    let nexus_action = runtime.decide(Routed {
        route: OriginRoute(11),
        payload: RuntimeWork::SignalArrived(RuntimeInput::Meta(MetaOperation::RegisterAccount(registration))),
    });
    assert_eq!(nexus_action.route, OriginRoute(11));
    let sema_input = match nexus_action.payload {
        RuntimeAction::CommandSemaWrite(command) => command,
        other => panic!("expected SEMA write command, got {other:?}"),
    };

    let sema_output = runtime.apply(sema_input);
    let reply = runtime.decide(Routed { route: OriginRoute(12), payload: RuntimeWork::SemaWriteCompleted(sema_output) });

    assert_eq!(runtime.accounts().len(), 1);
    assert_eq!(reply.route, OriginRoute(12));

    match reply.payload {
        RuntimeAction::ReplyToSignal(RuntimeOutput::Meta(OwnerOutput::AccountRegistered { provider, account })) => {
            assert_eq!(provider, Provider::Cloudflare);
            assert_eq!(account, "primary");
        }
        other => panic!("expected meta signal reply, got {other:?}"),
    }
}

#[test]
fn runtime_reply_to_signal_registers_then_retires() {
    let mut runtime = SchemaRuntime::new();
    let registered = runtime.reply_to_signal(RuntimeInput::Meta(MetaOperation::RegisterAccount(Registration {
        provider: Provider::Hetzner,
        account: "primary".to_owned(),
        credential: "HCLOUD_TOKEN".to_owned(),
    })));
    assert_eq!(
        registered,
        RuntimeOutput::Meta(OwnerOutput::AccountRegistered { provider: Provider::Hetzner, account: "primary".to_owned() })
    );
    assert_eq!(runtime.accounts().len(), 1);
    let retired = runtime.reply_to_signal(RuntimeInput::Meta(MetaOperation::RetireAccount(
        cloud::vocabulary::Retirement { provider: Provider::Hetzner, account: "primary".to_owned() },
    )));
    assert_eq!(
        retired,
        RuntimeOutput::Meta(OwnerOutput::AccountRetired { provider: Provider::Hetzner, account: "primary".to_owned() })
    );
    assert!(runtime.accounts().is_empty());
}

#[test]
fn runtime_write_completion_replies_with_the_write() {
    let runtime = SchemaRuntime::new();
    let reply = runtime.decide(Routed {
        route: OriginRoute(3),
        payload: RuntimeWork::SemaWriteCompleted(SemaWriteOutput::PlanApproved("plan-1".to_owned())),
    });
    assert_eq!(
        reply,
        Routed {
            route: OriginRoute(3),
            payload: RuntimeAction::ReplyToSignal(RuntimeOutput::Meta(OwnerOutput::PlanApproved("plan-1".to_owned()))),
        }
    );
}
