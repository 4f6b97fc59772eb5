use muxe_broker::broker::attach::{
    origin_hints, AttachNext, AttachStage, AttachUi, CallerIdentity, LaunchOrigin,
    OriginHintSource,
};
use muxe_broker::broker::drain::{DrainNext, DrainStage};
use muxe_broker::broker::invoke::{
    core_of, new_execution_id, DispatchAccepted, InvokeNext, InvokeStage, ResolutionError, ResolvedAction, ResolvedBinding,
};
use muxe_broker::broker::lifecycle::{
    attachment_answer, authorize, detached_readiness, health_diagnostic, monitor_step,
    note_send_outcome, AdapterHealthEvent, AttachmentAnswer, CaptureLossReason, ControlNext,
    DispatchCompletion, HealthAction, MonitorStep, RequestKind, SendOutcome, SessionReadiness,
    StopAction,
};
use muxe_broker::broker::stand::{CommitNext, CommitStage, StandNext, StandStage};
use muxe_broker::broker::{Broker, RegisterStep};
use muxe_broker::cleanup::{
    CaptureTaskAction, CleanupEffect, CleanupTaskKey, PaneTaskAction, TaskEvent,
};
use muxe_broker::command::{PortableAction, ScalarValue};
use muxe_broker::execution::{
    Completion, ExecutionMode, ExecutionPolicy, MenuControlAction, TimeoutAction,
};
use muxe_broker::gate::{GateError, OsTokenSource, TokenSource};
use muxe_broker::host::{CaptureLease, PendingPaneLease, PendingPaneRegistration};
use muxe_broker::ids::{
    CaptureLeaseId, CoreExecutionId, HostPaneId, HostTabId, ModalScopeId, PendingLaunchToken,
    PendingPaneLeaseId, UiSessionId,
};
use muxe_broker::menu::MenuId;
use muxe_broker::protocol::{
    AdapterError, AdapterErrorKind, BrokerError, CaptureReleaseReason, DiagnosticCode,
    ExecutionOutcome, InvocationDisposition, MenuControl, PeerRole,
};
use muxe_broker::time::{Duration, Instant};

const LIMIT: usize = 4096;

fn at(millis: u64) -> Instant {
    Instant::from_nanos(u128::from(millis) * 1_000_000)
}

fn token(n: u8) -> PendingLaunchToken {
    PendingLaunchToken([n; 16])
}

fn scope(name: &str) -> ModalScopeId {
    ModalScopeId::new(name)
}

fn pane(name: &str) -> HostPaneId {
    HostPaneId::new(name)
}

fn ui(name: &str) -> UiSessionId {
    UiSessionId::new(name)
}

fn failure(text: &str) -> AdapterError {
    AdapterError {
        kind: AdapterErrorKind::Unavailable,
        message: text.to_owned(),
    }
}

fn request(pane_name: &str, pending_launch: Option<PendingLaunchToken>) -> AttachUi {
    AttachUi {
        root: MenuId::new("main"),
        pane: pane(pane_name),
        pending_launch,
        origin: None,
        caller_identity: None,
    }
}

/// Prepares a launch in a scope.
fn launch(broker: &mut Broker, n: u8, scope_name: &str) {
    let prepared = broker
        .prepare_drawn(
            true,
            Ok(token(n)),
            scope(scope_name),
            MenuId::new("main"),
            60_000,
            at(0),
        )
        .unwrap();
    assert_eq!(prepared.token, token(n));
    assert_eq!(prepared.lease_millis, 60_000);
}

/// Registers the pane of a launch, and lets the host watch it under a lease.
fn register(broker: &mut Broker, n: u8, pane_name: &str, lease: &str) {
    let step = broker.register(token(n), pane(pane_name), None).unwrap();
    let RegisterStep::Ask(registration) = step else {
        panic!("the host is asked to watch the pane");
    };
    let lease = PendingPaneLease {
        id: PendingPaneLeaseId::new(lease),
        ui_session: registration.ui_session.clone(),
    };
    assert_eq!(
        broker.register_leased(token(n), registration, lease, at(0)),
        (Ok(()), CleanupEffect::Nothing)
    );
}

/// Lets a UI in, up to the point where the host is asked where the menu was called up.
fn let_in(broker: &mut Broker, request: &AttachUi, scope_name: &str) -> UiSessionId {
    let next = broker.attach(
        request,
        AttachStage::ScopeFound {
            scope: scope(scope_name),
            menu_known: true,
        },
        at(1),
        LIMIT,
    );
    match next {
        AttachNext::CaptureOrigin { session } => session,
        other => panic!("the UI is let in, got {other:?}"),
    }
}

fn publish(broker: &mut Broker, request: &AttachUi, session: &UiSessionId, name: &str) -> AttachNext {
    broker.attach(
        request,
        AttachStage::OriginCaptured {
            session: session.clone(),
            scope: scope(name),
        },
        at(2),
        LIMIT,
    )
}

fn host_asked(session: &UiSessionId, captures: Result<bool, AdapterError>) -> StandStage {
    StandStage::HostAsked {
        session: session.clone(),
        captures,
        has_view: true,
    }
}

fn capture_begun(
    session: &UiSessionId,
    capture: Result<CaptureLease, AdapterError>,
    has_view: bool,
) -> StandStage {
    StandStage::CaptureBegun {
        session: session.clone(),
        capture,
        has_view,
    }
}

/// A UI without a launch that stands in a scope.
fn standing(broker: &mut Broker, name: &str) -> UiSessionId {
    let request = request("ui-pane", None);
    let session = let_in(broker, &request, name);
    assert_eq!(
        publish(broker, &request, &session, name),
        AttachNext::AskCaptures {
            session: session.clone()
        }
    );
    assert_eq!(
        broker.attach(
            &request,
            AttachStage::Standing(host_asked(&session, Ok(false))),
            at(3),
            LIMIT
        ),
        AttachNext::Standing(StandNext::Announce {
            session: session.clone(),
            root: MenuId::new("main")
        })
    );
    session
}

fn policy(mode: ExecutionMode) -> ExecutionPolicy {
    ExecutionPolicy {
        mode,
        timeout: None,
        on_timeout: TimeoutAction::Detach,
        on_menu_control: MenuControlAction::Detach,
    }
}

fn portable(action: PortableAction, policy: ExecutionPolicy) -> Option<ResolvedBinding> {
    Some(ResolvedBinding {
        action: ResolvedAction::Portable(Ok(action)),
        policy,
    })
}

fn requested(session: &UiSessionId, binding: Option<ResolvedBinding>) -> InvokeStage {
    InvokeStage::Requested {
        session: session.clone(),
        binding,
    }
}

/// Hands work to the host, which takes it.
fn dispatched(
    broker: &mut Broker,
    session: &UiSessionId,
    policy: ExecutionPolicy,
    cancellable: bool,
) -> (CoreExecutionId, InvokeNext) {
    let mode = policy.mode;
    let next = broker.invoke(
        requested(session, portable(PortableAction::Other, policy)),
        at(4),
    );
    let InvokeNext::Dispatch { core, execution } = next else {
        panic!("the host is to take the work, got {next:?}");
    };
    let next = broker.invoke(
        InvokeStage::Dispatched {
            core,
            execution,
            mode,
            outcome: Ok(DispatchAccepted {
                execution: core,
                cancellable,
                awaitable: true,
            }),
        },
        at(5),
    );
    (core, next)
}

#[test]
fn a_launch_needs_a_known_menu() {
    let mut broker = Broker::new();
    assert_eq!(
        broker.prepare_drawn(
            false,
            Ok(token(1)),
            scope("s"),
            MenuId::new("missing"),
            10,
            at(0)
        ),
        Err(BrokerError::UnknownMenu(MenuId::new("missing")))
    );
    assert_eq!(
        broker.prepare_drawn(
            true,
            Err(GateError::EntropyUnavailable),
            scope("s"),
            MenuId::new("main"),
            10,
            at(0)
        ),
        Err(BrokerError::Gate(GateError::EntropyUnavailable))
    );
    let drawn = broker
        .prepare(
            true,
            &mut OsTokenSource,
            scope("s"),
            MenuId::new("main"),
            10,
            at(0),
        )
        .unwrap();
    assert!(!drawn.token.is_zero());
}

#[test]
fn a_committed_launch_waits_for_its_ui() {
    let mut broker = Broker::new();
    launch(&mut broker, 1, "s");
    register(&mut broker, 1, "p", "lease");
    assert_eq!(
        broker.register(token(1), pane("p"), None),
        Err(BrokerError::Gate(GateError::PaneMismatch))
    );
    assert_eq!(broker.commit_placement(token(1), &pane("p")), Ok(None));
    let request = request("p", Some(token(1)));
    let session = let_in(&mut broker, &request, "s");
    assert_eq!(session.as_str(), "ui-1");
    assert_eq!(
        publish(&mut broker, &request, &session, "s"),
        AttachNext::AskCaptures {
            session: session.clone()
        }
    );
    let lease = broker.confirm_gated_attachment(token(1), &session).unwrap();
    assert_eq!(lease.id.as_str(), "lease");
    assert_eq!(broker.confirm_gated_attachment(token(1), &session), None);
    assert_eq!(broker.disconnect_gated(token(1), &session, at(3)), None);
    assert_eq!(broker.attached_root(&session), Ok(MenuId::new("main")));
    assert_eq!(broker.capture_scope(&session), Ok(scope("s")));
}

#[test]
fn an_attached_ui_waits_for_the_commit_of_its_exact_pane() {
    let mut broker = Broker::new();
    launch(&mut broker, 1, "s");
    register(&mut broker, 1, "p", "lease");
    let wrong = request("q", Some(token(1)));
    assert_eq!(
        broker.attach_admit(&wrong, &scope("s"), true),
        Err(BrokerError::Gate(GateError::PaneMismatch))
    );
    let elsewhere = request("p", Some(token(1)));
    assert_eq!(
        broker.attach_admit(&elsewhere, &scope("t"), true),
        Err(BrokerError::Gate(GateError::ScopeMismatch))
    );
    let request = request("p", Some(token(1)));
    let session = let_in(&mut broker, &request, "s");
    assert_eq!(
        publish(&mut broker, &request, &session, "s"),
        AttachNext::WaitForCommit {
            token: token(1),
            session: session.clone()
        }
    );
    assert_eq!(broker.commit_placement(token(1), &pane("p")), Ok(Some(session.clone())));
    let gone = broker.disconnect_gated(token(1), &session, at(3)).unwrap();
    assert!(matches!(
        gone.pane,
        CleanupEffect::Spawn {
            key: CleanupTaskKey::PendingPane(_),
            ..
        }
    ));
    assert_eq!(
        broker.attached_root(&session),
        Err(BrokerError::UnknownSession(session))
    );
}

#[test]
fn a_ui_that_goes_before_the_commit_takes_its_launch_along() {
    let mut broker = Broker::new();
    launch(&mut broker, 1, "s");
    register(&mut broker, 1, "p", "lease");
    let request = request("p", Some(token(1)));
    let session = let_in(&mut broker, &request, "s");
    publish(&mut broker, &request, &session, "s");
    assert_eq!(broker.disconnect_gated(token(1), &ui("stranger"), at(3)), None);
    let gone = broker.disconnect_gated(token(1), &session, at(3)).unwrap();
    assert!(matches!(gone.pane, CleanupEffect::Spawn { .. }));
    assert!(gone.detached.record.is_some());
    assert_eq!(
        broker.commit_placement(token(1), &pane("p")),
        Err(BrokerError::Gate(GateError::UnknownToken))
    );
}

#[test]
fn a_launcher_that_goes_spares_a_committed_placement() {
    let mut broker = Broker::new();
    launch(&mut broker, 1, "s");
    register(&mut broker, 1, "p", "lease");
    broker.commit_placement(token(1), &pane("p")).unwrap();
    assert_eq!(
        broker.abort_on_launcher_disconnect(token(1), at(1)),
        Ok(None)
    );
    launch(&mut broker, 2, "t");
    let gone = broker
        .abort_on_launcher_disconnect(token(2), at(1))
        .unwrap()
        .unwrap();
    assert_eq!(gone.pane, CleanupEffect::Nothing);
    assert_eq!(
        broker.abort_on_launcher_disconnect(token(2), at(1)),
        Err(BrokerError::Gate(GateError::UnknownToken))
    );
}

#[test]
fn an_aborted_launch_closes_its_pane_and_frees_its_scope() {
    let mut broker = Broker::new();
    launch(&mut broker, 1, "s");
    register(&mut broker, 1, "p", "lease");
    let gone = broker.abort(token(1), at(1)).unwrap();
    assert!(matches!(gone.pane, CleanupEffect::Spawn { .. }));
    assert_eq!(
        broker.abort(token(1), at(1)),
        Err(BrokerError::Gate(GateError::UnknownToken))
    );
    standing(&mut broker, "s");
}

#[test]
fn an_expired_launch_closes_its_pane() {
    let mut broker = Broker::new();
    launch(&mut broker, 1, "s");
    register(&mut broker, 1, "p", "lease");
    assert_eq!(broker.expire_pending(at(59_999)), vec![]);
    let gone = broker.expire_pending(at(60_000));
    assert_eq!(gone.len(), 1);
    assert!(matches!(gone[0].pane, CleanupEffect::Spawn { .. }));
    assert_eq!(broker.expire_pending(at(60_000)), vec![]);
}

#[test]
fn a_replacement_displaces_the_launch_before_it() {
    let mut broker = Broker::new();
    launch(&mut broker, 1, "s");
    register(&mut broker, 1, "p", "lease");
    let request = request("p", Some(token(1)));
    let session = let_in(&mut broker, &request, "s");
    let prepared = broker
        .prepare_drawn(
            true,
            Ok(token(2)),
            scope("s"),
            MenuId::new("main"),
            10,
            at(1),
        )
        .unwrap();
    let displaced = prepared.displaced_launch.unwrap();
    assert!(displaced.detached.record.is_none());
    assert!(matches!(
        displaced.pane,
        CleanupEffect::Spawn {
            key: CleanupTaskKey::PendingPane(_),
            ..
        }
    ));
    assert_eq!(prepared.displaced_session, None);
    let next = publish(&mut broker, &request, &session, "s");
    assert_eq!(
        next,
        AttachNext::Refuse {
            error: BrokerError::Gate(GateError::UnknownToken),
            cleanup: CleanupEffect::Nothing
        }
    );
    let mut broker = Broker::new();
    let old = standing(&mut broker, "s");
    let prepared = broker
        .prepare_drawn(
            true,
            Ok(token(3)),
            scope("s"),
            MenuId::new("main"),
            10,
            at(1),
        )
        .unwrap();
    let displaced = prepared.displaced_session.unwrap();
    assert_eq!(displaced.record.unwrap().scope, scope("s"));
    assert_eq!(prepared.displaced_launch, None);
    assert_eq!(
        broker.attached_root(&old),
        Err(BrokerError::UnknownSession(old))
    );
    assert!(broker.register(token(3), pane("p"), None).is_ok());
}

/// A source that counts its draws.
struct CountedTokens {
    asked: usize,
    next: Result<PendingLaunchToken, GateError>,
}

impl TokenSource for CountedTokens {
    fn pending_launch_token(&mut self) -> Result<PendingLaunchToken, GateError> {
        self.asked += 1;
        std::mem::replace(&mut self.next, Err(GateError::EntropyUnavailable))
    }
}

#[test]
fn a_source_is_asked_only_for_a_launch_that_may_be() {
    let mut broker = Broker::new();
    let mut source = CountedTokens {
        asked: 0,
        next: Ok(token(9)),
    };
    let main = MenuId::new("main");
    assert_eq!(
        broker.prepare(false, &mut source, scope("s"), main.clone(), 10, at(0)),
        Err(BrokerError::UnknownMenu(main.clone()))
    );
    assert_eq!(
        broker.prepare(true, &mut source, scope("s"), main.clone(), 0, at(0)),
        Err(BrokerError::Gate(GateError::ZeroLease))
    );
    assert_eq!(source.asked, 0);
    let prepared = broker
        .prepare(true, &mut source, scope("s"), main.clone(), 10, at(0))
        .unwrap();
    assert_eq!((prepared.token, source.asked), (token(9), 1));
    broker.drain_for_activation(DrainStage::Begin, at(1));
    assert_eq!(
        broker.prepare(true, &mut source, scope("t"), main, 10, at(1)),
        Err(BrokerError::ActivationInProgress)
    );
    assert_eq!(source.asked, 1);
}

/// A launch whose UI waits for the commit.
fn waiting(broker: &mut Broker) -> UiSessionId {
    launch(broker, 1, "s");
    register(broker, 1, "p", "lease");
    let request = request("p", Some(token(1)));
    let session = let_in(broker, &request, "s");
    publish(broker, &request, &session, "s");
    session
}

fn commit_requested() -> CommitStage {
    CommitStage::Requested {
        token: token(1),
        pane: pane("p"),
    }
}

#[test]
fn a_commit_captures_the_input_and_announces_the_session() {
    let mut broker = Broker::new();
    let session = waiting(&mut broker);
    assert_eq!(
        broker.commit(commit_requested(), at(3), LIMIT),
        CommitNext::AskCaptures {
            session: session.clone()
        }
    );
    assert_eq!(
        broker.commit(CommitStage::Standing(host_asked(&session, Ok(true))), at(4), LIMIT),
        CommitNext::Standing(StandNext::BeginCapture {
            session: session.clone(),
            scope: scope("s")
        })
    );
    let begun = capture_begun(&session, Ok(capture("c", &session)), true);
    assert_eq!(
        broker.commit(CommitStage::Standing(begun), at(5), LIMIT),
        CommitNext::Standing(StandNext::Announce {
            session: session.clone(),
            root: MenuId::new("main")
        })
    );
    assert_eq!(
        broker.session_of_capture(&CaptureLeaseId::new("c")),
        Some(session)
    );
}

#[test]
fn a_commit_before_the_ui_is_acknowledged_and_a_stranger_is_refused() {
    let mut broker = Broker::new();
    assert_eq!(
        broker.commit(commit_requested(), at(0), LIMIT),
        CommitNext::Refuse {
            error: BrokerError::Gate(GateError::UnknownToken)
        }
    );
    launch(&mut broker, 1, "s");
    register(&mut broker, 1, "p", "lease");
    assert_eq!(
        broker.commit(commit_requested(), at(1), LIMIT),
        CommitNext::Acknowledge
    );
}

#[test]
fn a_commit_that_cannot_be_completed_takes_the_session_down() {
    let stages: [fn(&UiSessionId) -> StandStage; 4] = [
        |session| host_asked(session, Err(failure("gone"))),
        |session| capture_begun(session, Err(failure("gone")), true),
        |session| capture_begun(session, Ok(capture("c", session)), false),
        |session| StandStage::HostAsked {
            session: session.clone(),
            captures: Ok(false),
            has_view: false,
        },
    ];
    let refusals = [
        BrokerError::Adapter(failure("gone")),
        BrokerError::Adapter(failure("gone")),
        BrokerError::UnknownMenu(MenuId::new("main")),
        BrokerError::UnknownMenu(MenuId::new("main")),
    ];
    let cleanups = [1, 1, 2, 1];
    for ((stage, refusal), expected) in stages.iter().zip(refusals).zip(cleanups) {
        let mut broker = Broker::new();
        let session = waiting(&mut broker);
        broker.commit(commit_requested(), at(3), LIMIT);
        let next = broker.commit(CommitStage::Standing(stage(&session)), at(4), LIMIT);
        let CommitNext::Standing(StandNext::Refuse {
            error,
            cleanup,
            detached,
        }) = next
        else {
            panic!("the session falls");
        };
        assert_eq!(error, refusal);
        assert_eq!(cleanup, CleanupEffect::Nothing);
        assert!(detached.record.is_some());
        assert_eq!(detached.cleanup.len(), expected);
        assert_eq!(
            broker.attached_root(&session),
            Err(BrokerError::UnknownSession(session))
        );
    }
}

#[test]
fn a_session_that_went_before_its_capture_does_not_stand() {
    let mut broker = Broker::new();
    let session = waiting(&mut broker);
    broker.commit(commit_requested(), at(3), LIMIT);
    broker.detach(&session, CaptureReleaseReason::UiDismissed, at(3));
    for stage in [
        host_asked(&session, Ok(true)),
        host_asked(&session, Ok(false)),
    ] {
        let next = broker.stand(stage, at(4), LIMIT);
        assert!(matches!(
            next,
            StandNext::Refuse {
                error: BrokerError::UnknownSession(_),
                cleanup: CleanupEffect::Nothing,
                ..
            }
        ));
    }
}

#[test]
fn an_identity_names_its_execution() {
    for counter in [0, 1, 255, 256, 0x0102_0304_0506_0708, u64::MAX] {
        assert_eq!(
            core_of(new_execution_id(counter)),
            Some(CoreExecutionId(counter))
        );
    }
    let mut foreign = new_execution_id(7);
    foreign.0[3] = 1;
    assert_eq!(core_of(foreign), None);
}

#[test]
fn errors_quote_what_they_name() {
    assert_eq!(
        BrokerError::UnknownSession(ui("ui-1")).message(),
        "unknown UI session: UiSessionId(\"ui-1\")"
    );
    assert_eq!(
        BrokerError::UnknownMenu(MenuId::new("main")).message(),
        "requested root menu does not exist: Named(\"main\")"
    );
    assert_eq!(
        BrokerError::PortableResolution {
            parameter: "a\"b".to_owned(),
            message: "empty".to_owned()
        }
        .message(),
        "portable action parameter \"a\\\"b\" is invalid after origin resolution: empty"
    );
}

#[test]
fn an_origin_that_the_host_cannot_tell_closes_the_pane() {
    let mut broker = Broker::new();
    launch(&mut broker, 1, "s");
    register(&mut broker, 1, "p", "lease");
    let request = request("p", Some(token(1)));
    let session = let_in(&mut broker, &request, "s");
    let next = broker.attach(
        &request,
        AttachStage::OriginFailed {
            session,
            error: failure("no origin"),
        },
        at(2),
        LIMIT,
    );
    assert!(matches!(
        next,
        AttachNext::Refuse {
            error: BrokerError::Adapter(_),
            cleanup: CleanupEffect::Spawn { .. }
        }
    ));
    assert_eq!(
        broker.commit_placement(token(1), &pane("p")),
        Err(BrokerError::Gate(GateError::UnknownToken))
    );
}

#[test]
fn a_pane_whose_launch_has_gone_is_closed_when_the_host_watches_it() {
    let mut broker = Broker::new();
    launch(&mut broker, 1, "s");
    let step = broker
        .register(token(1), pane("p"), Some(HostTabId::new("tab")))
        .unwrap();
    let RegisterStep::Ask(registration) = step else {
        panic!("the host is asked");
    };
    assert_eq!(
        broker.register(token(1), pane("p"), Some(HostTabId::new("tab"))),
        Err(BrokerError::Gate(GateError::RegistrationInProgress))
    );
    broker.abort(token(1), at(1)).unwrap();
    let lease = PendingPaneLease {
        id: PendingPaneLeaseId::new("late"),
        ui_session: registration.ui_session.clone(),
    };
    let (outcome, effect) = broker.register_leased(token(1), registration, lease, at(2));
    assert_eq!(outcome, Err(BrokerError::Gate(GateError::UnknownToken)));
    assert!(matches!(effect, CleanupEffect::Spawn { .. }));

    launch(&mut broker, 2, "t");
    assert!(matches!(
        broker.register(token(2), pane("q"), None),
        Ok(RegisterStep::Ask(PendingPaneRegistration { .. }))
    ));
    let registration = PendingPaneRegistration {
        ui_session: ui("ui-2"),
        pane: pane("q"),
        temporary_tab: None,
    };
    assert_eq!(
        broker.register_answered(token(2), registration, Err(failure("no")), at(3)),
        (
            Err(BrokerError::Adapter(failure("no"))),
            CleanupEffect::Nothing
        )
    );
    assert!(matches!(
        broker.register(token(2), pane("q"), None),
        Ok(RegisterStep::Ask(_))
    ));
}

fn capture(id: &str, session: &UiSessionId) -> CaptureLease {
    CaptureLease {
        id: CaptureLeaseId::new(id),
        ui_session: session.clone(),
        modal_scope: scope("s"),
    }
}

#[test]
fn a_capture_that_comes_too_late_is_given_back_once() {
    let mut broker = Broker::new();
    let request = request("ui-pane", None);
    let session = let_in(&mut broker, &request, "s");
    publish(&mut broker, &request, &session, "s");
    broker.detach(&session, CaptureReleaseReason::UiDismissed, at(3));
    let next = broker.attach(
        &request,
        AttachStage::Standing(capture_begun(&session, Ok(capture("c", &session)), true)),
        at(4),
        LIMIT,
    );
    let AttachNext::Standing(StandNext::Refuse {
        error,
        cleanup: CleanupEffect::Spawn { key, claim },
        detached,
    }) = next
    else {
        panic!("the capture is given back");
    };
    assert_eq!(error, BrokerError::UnknownSession(session.clone()));
    assert_eq!(key, CleanupTaskKey::Capture(CaptureLeaseId::new("c")));
    assert!(detached.record.is_none());
    let lease = CaptureLeaseId::new("c");
    let action = broker.run_capture_cleanup(&lease, claim, TaskEvent::Resumed, at(4), LIMIT);
    assert_eq!(
        action,
        CaptureTaskAction::End {
            lease: capture("c", &session),
            reason: CaptureReleaseReason::UiDismissed
        }
    );
    assert_eq!(
        broker.run_capture_cleanup(&lease, claim, TaskEvent::Confirmed, at(5), LIMIT),
        CaptureTaskAction::Exit
    );
}

#[test]
fn a_detached_session_gives_its_capture_back() {
    let mut broker = Broker::new();
    let request = request("ui-pane", None);
    let session = let_in(&mut broker, &request, "s");
    publish(&mut broker, &request, &session, "s");
    assert_eq!(
        broker.capture_acquired(&session, capture("c", &session), at(3), LIMIT),
        (Ok(()), CleanupEffect::Nothing)
    );
    assert_eq!(
        broker.session_of_capture(&CaptureLeaseId::new("c")),
        Some(session.clone())
    );
    let first = broker.detach(&session, CaptureReleaseReason::Replaced, at(4));
    assert_eq!(first.cleanup.len(), 1);
    assert!(first.record.is_some());
    let second = broker.detach(&session, CaptureReleaseReason::Replaced, at(5));
    assert!(second.cleanup.is_empty() && second.record.is_none());
    assert!(second.exit.cancel.is_empty() && second.exit.deferred.is_empty());
    assert_eq!(broker.session_of_capture(&CaptureLeaseId::new("c")), None);
}

#[test]
fn a_capture_that_the_host_refuses_takes_the_session_down() {
    let mut broker = Broker::new();
    let request = request("ui-pane", None);
    let session = let_in(&mut broker, &request, "s");
    publish(&mut broker, &request, &session, "s");
    let next = broker.attach(
        &request,
        AttachStage::Standing(capture_begun(&session, Err(failure("no capture")), true)),
        at(3),
        LIMIT,
    );
    let AttachNext::Standing(StandNext::Refuse {
        error, detached, ..
    }) = next
    else {
        panic!("the session falls");
    };
    assert_eq!(error, BrokerError::Adapter(failure("no capture")));
    assert!(detached.record.is_some());
    assert_eq!(
        broker.capture_scope(&session),
        Err(BrokerError::UnknownSession(session))
    );
}

#[test]
fn a_failed_close_is_tried_again_after_a_delay() {
    let mut broker = Broker::new();
    launch(&mut broker, 1, "s");
    register(&mut broker, 1, "p", "lease");
    let gone = broker.abort(token(1), at(1)).unwrap();
    let CleanupEffect::Spawn { claim, key } = gone.pane else {
        panic!("the pane is closed by a task");
    };
    let lease = PendingPaneLeaseId::new("lease");
    let close = broker.run_pending_pane_cleanup(&lease, claim, TaskEvent::Resumed, at(1), LIMIT);
    assert!(matches!(close, PaneTaskAction::Close { .. }));
    assert_eq!(
        broker.run_pending_pane_cleanup(
            &lease,
            claim,
            TaskEvent::Failed(failure("busy")),
            at(1),
            LIMIT
        ),
        PaneTaskAction::Sleep(Duration::from_millis(25))
    );
    assert_eq!(
        broker.run_pending_pane_cleanup(&lease, claim, TaskEvent::Resumed, at(11), LIMIT),
        PaneTaskAction::Sleep(Duration::from_millis(15))
    );
    let close = broker.run_pending_pane_cleanup(&lease, claim, TaskEvent::Resumed, at(26), LIMIT);
    assert!(matches!(close, PaneTaskAction::Close { .. }));
    assert_eq!(
        broker.run_pending_pane_cleanup(&lease, claim, TaskEvent::Confirmed, at(27), LIMIT),
        PaneTaskAction::Exit
    );
    broker.cleanup_task_ended(&key, claim);
}

#[test]
fn a_lost_scope_takes_down_only_what_is_in_it() {
    let mut broker = Broker::new();
    let lost = standing(&mut broker, "s");
    let kept = standing(&mut broker, "t");
    let (core, _) = dispatched(&mut broker, &lost, policy(ExecutionMode::Await), true);
    launch(&mut broker, 1, "u");
    let loss = broker.scope_unhealthy(&scope("s"), at(9));
    assert_eq!(loss.sessions, vec![lost.clone()]);
    assert_eq!(loss.failed.len(), 1);
    assert_eq!(loss.failed[0].core, core);
    assert_eq!(loss.failed[0].session, lost);
    assert!(loss.launches.is_empty());
    assert_eq!(broker.attached_root(&kept), Ok(MenuId::new("main")));
    let loss = broker.scope_unhealthy(&scope("u"), at(9));
    assert_eq!(loss.launches, vec![token(1)]);
    assert_eq!(broker.sessions_in_scope(&scope("t")), vec![kept]);
}

#[test]
fn a_second_awaited_invocation_is_refused() {
    let mut broker = Broker::new();
    let session = standing(&mut broker, "s");
    let next = broker.invoke(
        requested(
            &session,
            portable(PortableAction::Other, policy(ExecutionMode::Await)),
        ),
        at(4),
    );
    let InvokeNext::Dispatch { core, execution } = next else {
        panic!("the host is to take the work");
    };
    assert_eq!(core, CoreExecutionId(1));
    let mut spelled = [0u8; 16];
    spelled[15] = 1;
    assert_eq!(execution.0, spelled);
    assert_eq!(
        broker.invoke(
            requested(
                &session,
                portable(PortableAction::Other, policy(ExecutionMode::Await))
            ),
            at(4)
        ),
        InvokeNext::Refuse {
            error: BrokerError::PendingExecutionInFlight,
            deadline: None
        }
    );
    let next = broker.invoke(
        InvokeStage::Dispatched {
            core,
            execution,
            mode: ExecutionMode::Await,
            outcome: Err(BrokerError::ContextUnavailable),
        },
        at(5),
    );
    assert_eq!(
        next,
        InvokeNext::Refuse {
            error: BrokerError::ContextUnavailable,
            deadline: None
        }
    );
    let (_, next) = dispatched(&mut broker, &session, policy(ExecutionMode::Await), true);
    let InvokeNext::Accept(accepted) = next else {
        panic!("the reservation was released");
    };
    assert_eq!(accepted.disposition, InvocationDisposition::Awaited);
}

#[test]
fn what_a_binding_is_decides_who_carries_it_out() {
    let mut broker = Broker::new();
    let session = standing(&mut broker, "s");
    let mut ask = |binding| broker.invoke(requested(&session, binding), at(4));
    let refused = |error| InvokeNext::Refuse {
        error,
        deadline: None,
    };
    assert_eq!(ask(None), refused(BrokerError::StaleGeneration));
    assert_eq!(
        ask(portable(PortableAction::Menu, policy(ExecutionMode::Detach))),
        refused(BrokerError::LocalMenuAction)
    );
    assert_eq!(
        ask(Some(ResolvedBinding {
            action: ResolvedAction::Portable(Err(ResolutionError::Context)),
            policy: policy(ExecutionMode::Detach)
        })),
        refused(BrokerError::ContextUnavailable)
    );
    assert!(matches!(
        ask(portable(PortableAction::Reload, policy(ExecutionMode::Await))),
        InvokeNext::Reload { awaited: true, .. }
    ));
    let focused = PortableAction::CreateTab {
        focus: Some(ScalarValue::Boolean(true)),
    };
    let next = ask(portable(focused, policy(ExecutionMode::Detach)));
    let InvokeNext::Accept(accepted) = next else {
        panic!("the work waits for the pane to go");
    };
    assert_eq!(accepted.disposition, InvocationDisposition::Dismissed);
    assert_eq!(
        broker.invoke(requested(&ui("nobody"), None), at(4)),
        refused(BrokerError::UnknownSession(ui("nobody")))
    );
    let gone = broker.detach(&session, CaptureReleaseReason::UiDismissed, at(5));
    assert_eq!(gone.exit.deferred.len(), 1);
    let deferred = broker
        .schedule_post_dismissal(gone.exit.deferred[0])
        .unwrap();
    assert_eq!(deferred.ui_pane, pane("ui-pane"));
    assert_eq!(broker.schedule_post_dismissal(gone.exit.deferred[0]), None);
}

#[test]
fn an_awaited_reload_is_told_at_once() {
    let mut broker = Broker::new();
    let session = standing(&mut broker, "s");
    let next = broker.invoke(
        requested(
            &session,
            portable(PortableAction::Reload, policy(ExecutionMode::Await)),
        ),
        at(4),
    );
    let InvokeNext::Reload { execution, awaited } = next else {
        panic!("the configuration is read again");
    };
    let next = broker.invoke(
        InvokeStage::Reloaded {
            execution,
            awaited,
            outcome: Ok(()),
        },
        at(5),
    );
    assert!(matches!(next, InvokeNext::Accept(accepted) if accepted.tell));
    assert_eq!(
        broker.invoke(
            InvokeStage::Reloaded {
                execution,
                awaited,
                outcome: Err("bad".to_owned())
            },
            at(5)
        ),
        InvokeNext::Refuse {
            error: BrokerError::Configuration("bad".to_owned()),
            deadline: None
        }
    );
}

#[test]
fn quitting_detaches_the_session() {
    let mut broker = Broker::new();
    let session = standing(&mut broker, "s");
    let next = broker.invoke(
        requested(
            &session,
            portable(PortableAction::Quit, policy(ExecutionMode::Await)),
        ),
        at(4),
    );
    let InvokeNext::Accept(accepted) = next else {
        panic!("a UI may always leave");
    };
    assert_eq!(accepted.disposition, InvocationDisposition::Detached);
    assert!(accepted.detached.unwrap().record.is_some());
    assert!(broker.attached_root(&session).is_err());
}

#[test]
fn the_end_of_awaited_work_is_told_once() {
    let mut broker = Broker::new();
    let session = standing(&mut broker, "s");
    let (core, _) = dispatched(&mut broker, &session, policy(ExecutionMode::Await), true);
    assert!(!broker.is_terminal(core));
    let done = DispatchCompletion::Failed {
        execution: core,
        error: failure("broken"),
    };
    let told = broker.dispatch_completed(&done, LIMIT).unwrap();
    let Completion::Tell {
        session: who,
        outcome,
        diagnostic,
        ..
    } = told
    else {
        panic!("the waiting UI is told");
    };
    assert_eq!((who, outcome), (session, ExecutionOutcome::Failed));
    let diagnostic = diagnostic.unwrap();
    assert_eq!(diagnostic.code, DiagnosticCode::ActionBlocked);
    assert_eq!(diagnostic.message, "broken");
    assert!(broker.is_terminal(core));
    assert_eq!(broker.dispatch_completed(&done, LIMIT), None);
}

#[test]
fn detached_work_that_fails_reaches_the_log_without_the_hosts_text() {
    let mut broker = Broker::new();
    let session = standing(&mut broker, "s");
    let (core, next) = dispatched(&mut broker, &session, policy(ExecutionMode::Detach), true);
    assert!(matches!(
        next,
        InvokeNext::Accept(accepted) if accepted.disposition == InvocationDisposition::Detached
    ));
    let lost = DispatchCompletion::OutcomeUnknown {
        execution: core,
        error: failure("secret"),
    };
    let told = broker.dispatch_completed(&lost, LIMIT).unwrap();
    let Completion::Log(entry) = told else {
        panic!("the log is told");
    };
    assert_eq!(entry.outcome, ExecutionOutcome::OutcomeUnknown);
    assert_eq!(entry.code, DiagnosticCode::OutcomeUnknown);
    assert!(!format!("{entry:?}").contains("secret"));
}

#[test]
fn a_deadline_detaches_or_cancels_once() {
    for on_timeout in [TimeoutAction::Detach, TimeoutAction::Cancel] {
        let mut broker = Broker::new();
        let session = standing(&mut broker, "s");
        let mut timed = policy(ExecutionMode::Await);
        timed.timeout = Some(Duration::from_millis(30));
        timed.on_timeout = on_timeout;
        let (core, next) = dispatched(&mut broker, &session, timed, true);
        let InvokeNext::Accept(accepted) = next else {
            panic!("the host took the work");
        };
        assert_eq!(
            accepted.deadline,
            Some((Duration::from_millis(30), on_timeout))
        );
        let elapsed = broker.deadline_elapsed(core, on_timeout, LIMIT).unwrap();
        assert_eq!(elapsed.session, Some(session.clone()));
        assert_eq!(
            elapsed.diagnostic.message,
            "execution exceeded its configured timeout"
        );
        let (stop, outcome) = match on_timeout {
            TimeoutAction::Detach => (StopAction::Settled, ExecutionOutcome::Detached),
            TimeoutAction::Cancel => (StopAction::CancelHost, ExecutionOutcome::TimedOut),
        };
        assert_eq!((elapsed.stop, elapsed.outcome), (stop, outcome));
        let (second, _) = dispatched(&mut broker, &session, policy(ExecutionMode::Await), true);
        assert_ne!(second, core);
    }
}

#[test]
fn a_control_leaves_stops_or_is_refused() {
    let mut broker = Broker::new();
    let session = standing(&mut broker, "s");
    assert_eq!(
        broker.control(&session, MenuControl::Quit),
        ControlNext::Acknowledge
    );
    let (_, _) = dispatched(&mut broker, &session, policy(ExecutionMode::Await), true);
    assert!(matches!(
        broker.control(&session, MenuControl::Return),
        ControlNext::Complete {
            control: MenuControl::Return,
            ..
        }
    ));

    let mut broker = Broker::new();
    let session = standing(&mut broker, "s");
    let mut cancels = policy(ExecutionMode::Await);
    cancels.on_menu_control = MenuControlAction::Cancel;
    let (core, _) = dispatched(&mut broker, &session, cancels, true);
    let ControlNext::Stop { core: stopped, execution } = broker.control(&session, MenuControl::Quit)
    else {
        panic!("the work is stopped first");
    };
    assert_eq!(stopped, core);
    assert_eq!(
        broker.control(&session, MenuControl::Quit),
        ControlNext::Refuse(BrokerError::PendingControlInFlight)
    );
    assert_eq!(broker.request_execution_stop(core), StopAction::CancelHost);
    assert_eq!(broker.request_execution_stop(core), StopAction::Settled);
    assert_eq!(broker.execution_stop_answered(core, Ok(())), Ok(()));
    assert_eq!(broker.request_execution_stop(core), StopAction::Settled);
    assert_eq!(
        broker.execution_stop_answered(core, Err(BrokerError::CancelUnsupported)),
        Err(BrokerError::CancelUnsupported)
    );
    assert_eq!(
        broker.control_stopped(
            &session,
            core,
            execution,
            MenuControl::Quit,
            Err(BrokerError::CancelUnsupported)
        ),
        ControlNext::Refuse(BrokerError::CancelUnsupported)
    );

    let mut broker = Broker::new();
    let session = standing(&mut broker, "s");
    dispatched(&mut broker, &session, cancels, false);
    assert_eq!(
        broker.control(&session, MenuControl::Quit),
        ControlNext::Refuse(BrokerError::CancelUnsupported)
    );
}

#[test]
fn a_command_is_supervised_until_it_is_reaped() {
    let mut broker = Broker::new();
    let session = standing(&mut broker, "s");
    let command = PortableAction::Command(muxe_broker::command::CommandAction {
        program: ScalarValue::Text("true".to_owned()),
        args: Vec::new(),
        cwd: None,
        env: Vec::new(),
    });
    let next = broker.invoke(
        requested(&session, portable(command, policy(ExecutionMode::Await))),
        at(4),
    );
    let InvokeNext::Spawn { core, execution } = next else {
        panic!("the command is spawned");
    };
    assert!(!broker.has_supervised_children());
    let next = broker.invoke(
        InvokeStage::CommandSpawned {
            core,
            execution,
            mode: ExecutionMode::Await,
        },
        at(5),
    );
    assert!(matches!(
        next,
        InvokeNext::Accept(accepted)
            if accepted.disposition == InvocationDisposition::Awaited && !accepted.cancel
    ));
    assert!(broker.has_supervised_children());
    assert_eq!(broker.request_execution_stop(core), StopAction::SignalChild);
    let told = broker.finish_generic(core, ExecutionOutcome::Cancelled, None);
    assert!(matches!(
        told,
        Some(Completion::Tell {
            outcome: ExecutionOutcome::Cancelled,
            ..
        })
    ));
    assert!(!broker.has_supervised_children());
}

#[test]
fn a_drain_empties_the_broker_and_waits_for_its_cleanups() {
    let mut broker = Broker::new();
    standing(&mut broker, "s");
    launch(&mut broker, 1, "t");
    register(&mut broker, 1, "p", "lease");
    let next = broker.drain_for_activation(DrainStage::Begin, at(10));
    let DrainNext::Stop(plan) = next else {
        panic!("nothing is in the way, got {next:?}");
    };
    assert!(plan.adapter.is_empty() && plan.deferred.is_empty());
    assert_eq!(
        broker.prepare_drawn(
            true,
            Ok(token(2)),
            scope("u"),
            MenuId::new("main"),
            10,
            at(10)
        ),
        Err(BrokerError::ActivationInProgress)
    );
    assert_eq!(
        broker.register(token(1), pane("p"), None),
        Err(BrokerError::ActivationInProgress)
    );
    assert_eq!(
        broker.attach_admit(&request("ui-pane", None), &scope("v"), true),
        Err(BrokerError::ActivationInProgress)
    );
    let next = broker.drain_for_activation(DrainStage::HostSettled, at(11));
    let DrainNext::Detached {
        panes,
        sessions,
        detached,
    } = next
    else {
        panic!("the sessions are detached");
    };
    assert_eq!((panes.len(), sessions.len(), detached.len()), (1, 1, 1));
    let CleanupEffect::Spawn { claim, .. } = panes[0] else {
        panic!("the pane of the launch is closed");
    };
    let next = broker.drain_for_activation(DrainStage::Settled, at(12));
    let DrainNext::Wait { delay, deadline } = next else {
        panic!("the close is not confirmed yet");
    };
    assert_eq!(delay, Duration::from_millis(10));
    assert_eq!(deadline, at(5012));
    let lease = PendingPaneLeaseId::new("lease");
    broker.run_pending_pane_cleanup(&lease, claim, TaskEvent::Resumed, at(13), LIMIT);
    broker.run_pending_pane_cleanup(&lease, claim, TaskEvent::Confirmed, at(14), LIMIT);
    assert_eq!(
        broker.drain_for_activation(DrainStage::Poll { deadline }, at(15)),
        DrainNext::Done
    );
    broker.reopen_dispatch();
    standing(&mut broker, "s");
}

#[test]
fn a_drain_fails_where_a_cleanup_is_never_confirmed() {
    let mut broker = Broker::new();
    launch(&mut broker, 1, "t");
    register(&mut broker, 1, "p", "lease");
    broker.drain_for_activation(DrainStage::Begin, at(10));
    broker.drain_for_activation(DrainStage::HostSettled, at(10));
    let next = broker.drain_for_activation(DrainStage::Poll { deadline: at(20) }, at(20));
    assert!(matches!(
        next,
        DrainNext::Refuse(BrokerError::ActivationCleanupUnconfirmed(text)) if text.contains("lease")
    ));
    standing(&mut broker, "s");
}

#[test]
fn a_drain_refuses_work_that_cannot_be_stopped() {
    let mut broker = Broker::new();
    let session = standing(&mut broker, "s");
    dispatched(&mut broker, &session, policy(ExecutionMode::Detach), false);
    let next = broker.drain_for_activation(DrainStage::Begin, at(10));
    assert!(matches!(
        next,
        DrainNext::Refuse(BrokerError::ActivationDrainRefused(text))
            if text.contains("detached host execution 1")
    ));
    let (_, next) = dispatched(&mut broker, &session, policy(ExecutionMode::Detach), true);
    assert!(matches!(next, InvokeNext::Accept(_)));
}

#[test]
fn a_drain_waits_for_open_reservations_and_reaps_late_commands() {
    let mut broker = Broker::new();
    let session = standing(&mut broker, "s");
    let command = PortableAction::Command(muxe_broker::command::CommandAction {
        program: ScalarValue::Text("true".to_owned()),
        args: Vec::new(),
        cwd: None,
        env: Vec::new(),
    });
    let next = broker.invoke(
        requested(&session, portable(command, policy(ExecutionMode::Await))),
        at(4),
    );
    let InvokeNext::Spawn { core, execution } = next else {
        panic!("the command is spawned");
    };
    assert_eq!(
        broker.drain_for_activation(DrainStage::Begin, at(10)),
        DrainNext::WaitForTransition
    );
    let next = broker.invoke(
        InvokeStage::CommandSpawned {
            core,
            execution,
            mode: ExecutionMode::Await,
        },
        at(11),
    );
    assert!(matches!(next, InvokeNext::StopChild { .. }));
    assert_eq!(
        broker.invoke(
            InvokeStage::CommandReaped {
                core,
                session: session.clone()
            },
            at(12)
        ),
        InvokeNext::Refuse {
            error: BrokerError::ActivationInProgress,
            deadline: None
        }
    );
    assert!(!broker.has_supervised_children());
    assert!(matches!(
        broker.drain_for_activation(DrainStage::Begin, at(13)),
        DrainNext::Stop(_)
    ));
    assert_eq!(
        broker.drain_for_activation(DrainStage::Failed(BrokerError::CancelUnsupported), at(14)),
        DrainNext::Refuse(BrokerError::CancelUnsupported)
    );
}

#[test]
fn a_ui_that_was_let_in_does_not_stand_once_admission_is_closed() {
    let mut broker = Broker::new();
    let request = request("ui-pane", None);
    let session = let_in(&mut broker, &request, "s");
    broker.drain_for_activation(DrainStage::Begin, at(2));
    assert_eq!(
        publish(&mut broker, &request, &session, "s"),
        AttachNext::Refuse {
            error: BrokerError::ActivationInProgress,
            cleanup: CleanupEffect::Nothing
        }
    );
    assert!(broker.attached_root(&session).is_err());
}

#[test]
fn the_hosts_reports_are_followed() {
    let mut broker = Broker::new();
    let request = request("ui-pane", None);
    let session = let_in(&mut broker, &request, "s");
    publish(&mut broker, &request, &session, "s");
    broker
        .capture_acquired(&session, capture("c", &session), at(3), LIMIT)
        .0
        .unwrap();
    assert_eq!(
        broker.handle_health_event(AdapterHealthEvent::Reconnected),
        HealthAction::Broadcast {
            healthy: true,
            error: None
        }
    );
    assert_eq!(
        broker.handle_health_event(AdapterHealthEvent::Unhealthy {
            modal_scope: None,
            error: failure("x")
        }),
        HealthAction::Broadcast {
            healthy: false,
            error: Some(failure("x"))
        }
    );
    assert_eq!(
        broker.handle_health_event(AdapterHealthEvent::Unhealthy {
            modal_scope: Some(scope("s")),
            error: failure("x")
        }),
        HealthAction::LoseScope {
            scope: scope("s"),
            error: failure("x")
        }
    );
    let lost = |id: &str| AdapterHealthEvent::CaptureLost {
        lease: CaptureLeaseId::new(id),
        reason: CaptureLossReason::UserModeChanged,
    };
    assert_eq!(
        broker.handle_health_event(lost("c")),
        HealthAction::Detach {
            session,
            reason: CaptureReleaseReason::UserModeChanged
        }
    );
    assert_eq!(broker.handle_health_event(lost("d")), HealthAction::Nothing);
    assert_eq!(
        monitor_step(Ok(AdapterHealthEvent::Healthy)),
        MonitorStep::Handle(AdapterHealthEvent::Healthy)
    );
    assert_eq!(
        monitor_step(Err(failure("x"))),
        MonitorStep::Report(failure("x"))
    );
    assert_eq!(
        monitor_step(Err(AdapterError {
            kind: AdapterErrorKind::Shutdown,
            message: String::new()
        })),
        MonitorStep::Stop
    );
    let told = health_diagnostic(&Some(failure("gone")), LIMIT).unwrap();
    assert_eq!(told.code, DiagnosticCode::HostUnavailable);
    assert_eq!(told.message, "gone");
    assert_eq!(health_diagnostic(&None, LIMIT), None);
}

#[test]
fn a_waiting_ui_is_answered() {
    assert_eq!(
        attachment_answer(SessionReadiness::Ready, true, LIMIT),
        AttachmentAnswer::Attached
    );
    assert_eq!(
        attachment_answer(SessionReadiness::Pending, false, LIMIT),
        AttachmentAnswer::Wait
    );
    assert!(matches!(
        attachment_answer(SessionReadiness::Pending, true, LIMIT),
        AttachmentAnswer::Failed(told) if told.code == DiagnosticCode::LaunchAborted
            && told.message == "UI launch was cancelled before attachment completed"
    ));
    assert!(matches!(
        attachment_answer(detached_readiness(LIMIT), false, LIMIT),
        AttachmentAnswer::Failed(told) if told.message == "UI session detached"
    ));
    assert!(note_send_outcome(SendOutcome::Full));
    assert!(!note_send_outcome(SendOutcome::Closed));
    assert!(!note_send_outcome(SendOutcome::Sent));
}

#[test]
fn roles_limit_what_a_peer_may_ask() {
    assert_eq!(authorize(PeerRole::Ui, RequestKind::AttachUi), Ok(()));
    assert_eq!(authorize(PeerRole::Launcher, RequestKind::Heartbeat), Ok(()));
    assert_eq!(
        authorize(PeerRole::Ui, RequestKind::CommitUiLaunch),
        Err(BrokerError::Role {
            expected: PeerRole::Launcher,
            actual: PeerRole::Ui
        })
    );
    assert_eq!(
        BrokerError::Role {
            expected: PeerRole::Launcher,
            actual: PeerRole::Ui
        }
        .message(),
        "peer role Ui cannot make this request; expected Launcher"
    );
}

#[test]
fn the_host_is_told_what_the_launcher_said() {
    let mut asked = request("p", None);
    asked.origin = Some(LaunchOrigin {
        workspace: "w".to_owned(),
        tab: HostTabId::new("t"),
        pane: pane("q"),
        cwd: None,
    });
    asked.caller_identity = Some(CallerIdentity {
        workspace: "w".to_owned(),
        tab: HostTabId::new("t"),
        pane: pane("q"),
        cwd: "/here".to_owned(),
    });
    let (hint, caller) = origin_hints(&asked);
    let hint = hint.unwrap();
    assert_eq!(hint.source, OriginHintSource::LauncherBootstrap);
    assert_eq!(hint.pane, pane("q"));
    assert_eq!(caller.unwrap().cwd, Some("/here".to_owned()));
    assert_eq!(origin_hints(&request("p", None)), (None, None));
}

#[test]
fn identities_of_events_count_up() {
    let mut broker = Broker::new();
    let mut bytes = [0u8; 16];
    for n in 1..=3 {
        bytes[15] = n;
        assert_eq!(broker.new_event_id().0, bytes);
    }
}
