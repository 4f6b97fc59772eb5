use muxe_broker::broker::attach::{AttachNext, AttachStage, AttachUi};
use muxe_broker::broker::drain::{DrainNext, DrainStage};
use muxe_broker::broker::invoke::{
    DispatchAccepted, InvokeNext, InvokeStage, ResolvedAction, ResolvedBinding,
};
use muxe_broker::broker::lifecycle::{
    AdapterHealthEvent, DispatchCompletion, HealthAction, StopAction,
};
use muxe_broker::broker::Broker;
use muxe_broker::command::{CommandAction, PortableAction, ScalarValue};
use muxe_broker::execution::{
    Completion, ExecutionMode, ExecutionPolicy, MenuControlAction, TimeoutAction,
};
use muxe_broker::gate::GateError;
use muxe_broker::ids::{CoreExecutionId, HostPaneId, ModalScopeId, UiSessionId};
use muxe_broker::menu::MenuId;
use muxe_broker::protocol::{
    AdapterError, AdapterErrorKind, BrokerError, CaptureReleaseReason, ExecutionOutcome,
};
use muxe_broker::time::Instant;

const LIMIT: usize = 4096;

fn at(millis: u64) -> Instant {
    Instant::from_nanos(u128::from(millis) * 1_000_000)
}

fn request(pane: &str) -> AttachUi {
    AttachUi {
        root: MenuId::new("main"),
        pane: HostPaneId::new(pane),
        pending_launch: None,
        origin: None,
        caller_identity: None,
    }
}

fn failure(text: &str) -> AdapterError {
    AdapterError {
        kind: AdapterErrorKind::Unavailable,
        message: text.to_owned(),
    }
}

fn let_in(broker: &mut Broker, request: &AttachUi, scope: &str) -> UiSessionId {
    let stage = AttachStage::ScopeFound {
        scope: ModalScopeId::new(scope),
        menu_known: true,
    };
    match broker.attach(request, stage, at(0), LIMIT) {
        AttachNext::CaptureOrigin { session } => session,
        other => panic!("the UI is let in, got {other:?}"),
    }
}

fn publish(
    broker: &mut Broker,
    request: &AttachUi,
    session: &UiSessionId,
    scope: &str,
) -> AttachNext {
    let stage = AttachStage::OriginCaptured {
        session: session.clone(),
        scope: ModalScopeId::new(scope),
    };
    broker.attach(request, stage, at(0), LIMIT)
}

fn standing(broker: &mut Broker, scope: &str) -> UiSessionId {
    let request = request("ui-pane");
    let session = let_in(broker, &request, scope);
    assert!(matches!(
        publish(broker, &request, &session, scope),
        AttachNext::AskCaptures { .. }
    ));
    session
}

fn policy(mode: ExecutionMode, on_menu_control: MenuControlAction) -> ExecutionPolicy {
    ExecutionPolicy {
        mode,
        timeout: None,
        on_timeout: TimeoutAction::Detach,
        on_menu_control,
    }
}

fn invoke(
    broker: &mut Broker,
    session: &UiSessionId,
    action: PortableAction,
    policy: ExecutionPolicy,
) -> InvokeNext {
    let stage = InvokeStage::Requested {
        session: session.clone(),
        binding: Some(ResolvedBinding {
            action: ResolvedAction::Portable(Ok(action)),
            policy,
        }),
    };
    broker.invoke(stage, at(1))
}

fn dispatch(broker: &mut Broker, session: &UiSessionId, policy: ExecutionPolicy) -> CoreExecutionId {
    let mode = policy.mode;
    let next = invoke(broker, session, PortableAction::Other, policy);
    let InvokeNext::Dispatch { core, execution } = next else {
        panic!("the host is to take the work, got {next:?}");
    };
    let next = broker.invoke(
        InvokeStage::Dispatched {
            core,
            execution,
            mode,
            outcome: Ok(accepted(core)),
        },
        at(2),
    );
    assert!(matches!(next, InvokeNext::Accept(_)));
    core
}

fn accepted(core: CoreExecutionId) -> DispatchAccepted {
    DispatchAccepted {
        execution: core,
        cancellable: true,
        awaitable: true,
    }
}

fn create_tab() -> PortableAction {
    PortableAction::CreateTab {
        focus: Some(ScalarValue::Boolean(true)),
    }
}

/// Spawns a command and lets it run.
fn run_command(
    broker: &mut Broker,
    session: &UiSessionId,
    policy: ExecutionPolicy,
) -> CoreExecutionId {
    let mode = policy.mode;
    let command = PortableAction::Command(CommandAction {
        program: ScalarValue::Text("sleep".to_owned()),
        args: vec![ScalarValue::Text("30".to_owned())],
        cwd: None,
        env: Vec::new(),
    });
    let next = invoke(broker, session, command, policy);
    let InvokeNext::Spawn { core, execution } = next else {
        panic!("the command is spawned, got {next:?}");
    };
    let next = broker.invoke(
        InvokeStage::CommandSpawned {
            core,
            execution,
            mode,
        },
        at(2),
    );
    assert!(matches!(next, InvokeNext::Accept(_)));
    core
}

#[test]
fn a_drain_waits_for_cancelled_host_work_to_end() {
    let mut broker = Broker::new();
    let session = standing(&mut broker, "s");
    let core = dispatch(
        &mut broker,
        &session,
        policy(ExecutionMode::Detach, MenuControlAction::Detach),
    );
    let next = broker.drain_for_activation(DrainStage::Begin, at(3));
    assert!(matches!(next, DrainNext::Stop(plan) if plan.adapter == vec![core]));
    assert_eq!(broker.request_execution_stop(core), StopAction::CancelHost);
    assert!(!broker.is_terminal(core));
    let done = DispatchCompletion::Succeeded { execution: core };
    assert_eq!(
        broker.dispatch_completed(&done, LIMIT),
        Some(Completion::Silent)
    );
    assert!(broker.is_terminal(core));
}

#[test]
fn a_cancellation_that_failed_can_be_tried_again() {
    let mut broker = Broker::new();
    let session = standing(&mut broker, "s");
    let core = dispatch(
        &mut broker,
        &session,
        policy(ExecutionMode::Detach, MenuControlAction::Detach),
    );
    broker.drain_for_activation(DrainStage::Begin, at(3));
    assert_eq!(broker.request_execution_stop(core), StopAction::CancelHost);
    broker.execution_stop_failed(core);
    let failed = DrainStage::Failed(BrokerError::Adapter(failure("refused")));
    assert_eq!(
        broker.drain_for_activation(failed, at(4)),
        DrainNext::Refuse(BrokerError::Adapter(failure("refused")))
    );
    let next = broker.drain_for_activation(DrainStage::Begin, at(5));
    assert!(matches!(next, DrainNext::Stop(plan) if plan.adapter == vec![core]));
    assert_eq!(broker.request_execution_stop(core), StopAction::CancelHost);
}

#[test]
fn deferred_work_stays_owned_through_a_drain() {
    let mut broker = Broker::new();
    let session = standing(&mut broker, "s");
    let next = invoke(
        &mut broker,
        &session,
        create_tab(),
        policy(ExecutionMode::Detach, MenuControlAction::Detach),
    );
    assert!(matches!(next, InvokeNext::Accept(_)));
    let core = CoreExecutionId(1);
    let next = broker.drain_for_activation(DrainStage::Begin, at(3));
    assert!(matches!(next, DrainNext::Stop(plan) if plan.deferred == vec![core]));
    let next = broker.drain_for_activation(DrainStage::HostSettled, at(4));
    let DrainNext::Detached { detached, .. } = next else {
        panic!("the session is detached, got {next:?}");
    };
    assert_eq!(detached[0].exit.deferred, vec![core]);
    let deferred = broker.schedule_post_dismissal(core).unwrap();
    assert_eq!(deferred.ui_pane, HostPaneId::new("ui-pane"));
    assert_eq!(broker.post_dismissed(core, &Ok(accepted(core))), None);
    assert!(!broker.is_terminal(core));
    assert_eq!(broker.request_execution_stop(core), StopAction::CancelHost);
    broker.dispatch_completed(&DispatchCompletion::Succeeded { execution: core }, LIMIT);
    assert!(broker.is_terminal(core));
    assert_eq!(
        broker.drain_for_activation(DrainStage::Settled, at(5)),
        DrainNext::Done
    );
}

#[test]
fn deferred_work_under_a_foreign_name_can_still_be_stopped() {
    let mut broker = Broker::new();
    let session = standing(&mut broker, "s");
    invoke(
        &mut broker,
        &session,
        create_tab(),
        policy(ExecutionMode::Detach, MenuControlAction::Detach),
    );
    let core = CoreExecutionId(1);
    broker.detach(&session, CaptureReleaseReason::UiDismissed, at(2));
    broker.schedule_post_dismissal(core).unwrap();
    broker.post_dismissed(core, &Ok(accepted(CoreExecutionId(99))));
    let next = broker.drain_for_activation(DrainStage::Begin, at(3));
    assert!(matches!(next, DrainNext::Stop(plan) if plan.adapter == vec![core]));
    assert_eq!(broker.request_execution_stop(core), StopAction::CancelHost);
}

#[test]
fn deferred_work_that_the_host_refuses_is_over() {
    let mut broker = Broker::new();
    let session = standing(&mut broker, "s");
    invoke(
        &mut broker,
        &session,
        create_tab(),
        policy(ExecutionMode::Detach, MenuControlAction::Detach),
    );
    let core = CoreExecutionId(1);
    assert!(!broker.is_terminal(core));
    broker.detach(&session, CaptureReleaseReason::UiDismissed, at(2));
    broker.schedule_post_dismissal(core).unwrap();
    broker.post_dismissed(core, &Err(failure("refused")));
    assert!(broker.is_terminal(core));
}

#[test]
fn a_command_outlives_its_menu_unless_its_policy_says_otherwise() {
    for (on_menu_control, cancels) in [
        (MenuControlAction::Detach, false),
        (MenuControlAction::Cancel, true),
    ] {
        let mut broker = Broker::new();
        let session = standing(&mut broker, "s");
        let core = run_command(
            &mut broker,
            &session,
            policy(ExecutionMode::Await, on_menu_control),
        );
        let DrainNext::Stop(plan) = broker.drain_for_activation(DrainStage::Begin, at(3)) else {
            panic!("nothing is in the way");
        };
        assert!(plan.adapter.is_empty());
        let next = broker.drain_for_activation(DrainStage::HostSettled, at(4));
        let DrainNext::Detached { detached, .. } = next else {
            panic!("the session is detached");
        };
        assert_eq!(detached[0].exit.cancel.contains(&core), cancels);
        assert!(broker.has_supervised_children());
        broker.finish_generic(core, ExecutionOutcome::Succeeded, None);
        assert!(!broker.has_supervised_children());
    }
}

#[test]
fn an_old_completion_does_not_end_new_work() {
    let mut broker = Broker::new();
    let session = standing(&mut broker, "s");
    let first = dispatch(
        &mut broker,
        &session,
        policy(ExecutionMode::Await, MenuControlAction::Detach),
    );
    broker.deadline_elapsed(first, TimeoutAction::Detach, LIMIT).unwrap();
    let second = dispatch(
        &mut broker,
        &session,
        policy(ExecutionMode::Await, MenuControlAction::Detach),
    );
    let late = DispatchCompletion::Succeeded { execution: first };
    assert_eq!(
        broker.dispatch_completed(&late, LIMIT),
        Some(Completion::Silent)
    );
    assert!(!broker.is_terminal(second));
    let done = DispatchCompletion::Succeeded { execution: second };
    assert!(matches!(
        broker.dispatch_completed(&done, LIMIT),
        Some(Completion::Tell {
            outcome: ExecutionOutcome::Succeeded,
            ..
        })
    ));
}

#[test]
fn the_loss_of_the_whole_host_keeps_every_session() {
    let mut broker = Broker::new();
    let session = standing(&mut broker, "s");
    let action = broker.handle_health_event(AdapterHealthEvent::Unhealthy {
        modal_scope: None,
        error: failure("gone"),
    });
    assert!(matches!(
        action,
        HealthAction::Broadcast { healthy: false, .. }
    ));
    assert_eq!(broker.attached_root(&session), Ok(MenuId::new("main")));
}

#[test]
fn a_ui_whose_scope_was_taken_meanwhile_does_not_stand() {
    let mut broker = Broker::new();
    let request = request("ui-pane");
    let session = let_in(&mut broker, &request, "s");
    broker.scope_unhealthy(&ModalScopeId::new("s"), at(1));
    broker.detach(&session, CaptureReleaseReason::UiDismissed, at(1));
    let next = publish(&mut broker, &request, &session, "s");
    assert!(matches!(
        next,
        AttachNext::Refuse {
            error: BrokerError::Gate(GateError::ScopeMismatch),
            ..
        }
    ));
    assert_eq!(
        broker.attached_root(&session),
        Err(BrokerError::UnknownSession(session))
    );
}

#[test]
fn a_refused_spawn_frees_the_session() {
    let mut broker = Broker::new();
    let session = standing(&mut broker, "s");
    let command = PortableAction::Command(CommandAction {
        program: ScalarValue::Text("missing".to_owned()),
        args: Vec::new(),
        cwd: None,
        env: Vec::new(),
    });
    let awaited = policy(ExecutionMode::Await, MenuControlAction::Detach);
    let next = invoke(&mut broker, &session, command, awaited);
    let InvokeNext::Spawn { core, .. } = next else {
        panic!("the command is spawned");
    };
    let error = BrokerError::GenericProcess("no such file".to_owned());
    let next = broker.invoke(InvokeStage::CommandFailed { core, error }, at(2));
    assert_eq!(
        next,
        InvokeNext::Refuse {
            error: BrokerError::GenericProcess("no such file".to_owned()),
            deadline: None
        }
    );
    assert!(broker.is_terminal(core));
    run_command(&mut broker, &session, awaited);
}
