use muxe_broker::activation::LiveServerIdentity;
use muxe_broker::broker::attach::AttachUi;
use muxe_broker::broker::lifecycle::RequestKind;
use muxe_broker::connection::{
    activation_in_progress, error_diagnostic, lane_for, ownership_error, serves_identity,
    verify_same_user_peer, BindingId, BrokerResponse, ClientRequest, ConnectionResources, ControlConnection, Lane,
    RequestFinish, RequestResult, RequestStep, ServerError, UiDisconnect,
};
use muxe_broker::ids::{
    HostPaneId, ModalScopeId, PendingLaunchToken, RequestId, UiSessionId,
};
use muxe_broker::menu::MenuId;
use muxe_broker::protocol::{
    BrokerError, DiagnosticCode, HostKind, MenuControl, PeerRole, ProtocolDiagnostic,
};

fn id(n: u8) -> RequestId {
    RequestId([n; 16])
}

fn token(n: u8) -> PendingLaunchToken {
    PendingLaunchToken([n; 16])
}

fn session(name: &str) -> UiSessionId {
    UiSessionId::new(name)
}

fn attach(pending_launch: Option<PendingLaunchToken>) -> ClientRequest {
    ClientRequest::AttachUi(AttachUi {
        root: MenuId::new("main"),
        pane: HostPaneId::new("pane"),
        pending_launch,
        origin: None,
        caller_identity: None,
    })
}

fn prepare() -> ClientRequest {
    ClientRequest::PrepareUiLaunch {
        modal_scope: ModalScopeId::new("scope"),
        root: MenuId::new("main"),
        lease_millis: 1000,
    }
}

fn invoke(name: &str) -> ClientRequest {
    ClientRequest::InvokeBinding {
        session: session(name),
        generation: 1,
        binding: BindingId {
            generation: 1,
            ordinal: 0,
        },
    }
}

fn open(role: PeerRole) -> ConnectionResources {
    let mut connection = ConnectionResources::new(role);
    connection.handshake(true).unwrap();
    connection
}

fn violation(text: &str) -> RequestStep {
    RequestStep::Respond(BrokerResponse::Error(ProtocolDiagnostic {
        code: DiagnosticCode::ProtocolViolation,
        message: text.to_owned(),
    }))
}

#[test]
fn peers_are_served_by_their_role() {
    assert_eq!(lane_for(PeerRole::Ui, false), Ok(Lane::Requests));
    assert_eq!(lane_for(PeerRole::Launcher, true), Ok(Lane::Requests));
    assert_eq!(
        lane_for(PeerRole::ActivationCoordinator, true),
        Ok(Lane::Control)
    );
    assert_eq!(
        lane_for(PeerRole::ActivationCoordinator, false),
        Err(ServerError::UnsupportedRole(PeerRole::ActivationCoordinator))
    );
    assert_eq!(
        lane_for(PeerRole::Broker, true),
        Err(ServerError::UnsupportedRole(PeerRole::Broker))
    );
    assert_eq!(verify_same_user_peer(5, 5), Ok(()));
    assert_eq!(verify_same_user_peer(5, 6), Err(ServerError::PeerCredential));
}

#[test]
fn nothing_is_served_before_the_handshake() {
    let mut connection = ConnectionResources::new(PeerRole::Ui);
    assert_eq!(
        connection.begin_request(id(1), &ClientRequest::Heartbeat, true),
        RequestStep::Close(ServerError::UnexpectedMessage)
    );
    assert_eq!(
        connection.handshake(false),
        Err(ServerError::IdentityMismatch)
    );
    assert_eq!(connection.handshake(true), Ok(()));
    assert_eq!(
        connection.handshake(true),
        Err(ServerError::IdentityMismatch)
    );
    assert_eq!(
        connection.begin_request(id(1), &ClientRequest::Heartbeat, true),
        RequestStep::Dispatch
    );
    assert_eq!(
        connection.begin_request(id(1), &ClientRequest::Heartbeat, true),
        RequestStep::Close(ServerError::DuplicateRequestId)
    );
    assert_eq!(connection.role(), PeerRole::Ui);
}

#[test]
fn a_ui_attaches_once_and_names_only_its_own_session() {
    let mut ui = open(PeerRole::Ui);
    assert_eq!(
        ui.begin_request(id(1), &invoke("ui-1"), true),
        violation("UI connection does not own the invoked session")
    );
    assert_eq!(ui.begin_request(id(2), &attach(None), true), RequestStep::Dispatch);
    let finished = ui.finish_request(
        &attach(None),
        Ok(RequestResult::Immediate(BrokerResponse::UiAttached {
            session: session("ui-1"),
        })),
        100,
    );
    assert_eq!(
        finished,
        RequestFinish::Respond {
            response: BrokerResponse::UiAttached {
                session: session("ui-1")
            },
            confirm: None
        }
    );
    assert_eq!(ui.begin_request(id(3), &invoke("ui-1"), true), RequestStep::Dispatch);
    let control = |name: &str| ClientRequest::MenuControl {
        session: session(name),
        control: MenuControl::Quit,
    };
    let detach = |name: &str| ClientRequest::DetachUi {
        session: session(name),
    };
    assert_eq!(ui.begin_request(id(4), &control("ui-1"), true), RequestStep::Dispatch);
    assert_eq!(ui.begin_request(id(5), &detach("ui-1"), true), RequestStep::Dispatch);
    assert_eq!(
        ui.begin_request(id(6), &control("ui-2"), true),
        violation("UI connection does not own the controlled session")
    );
    assert_eq!(
        ui.begin_request(id(7), &detach("ui-2"), true),
        violation("UI connection does not own the detached session")
    );
    assert_eq!(
        ui.begin_request(id(8), &attach(None), true),
        violation("one UI connection may attach at most one session")
    );
    let plan = ui.disconnect();
    assert_eq!(
        plan.ui,
        UiDisconnect::Detach {
            session: session("ui-1")
        }
    );
    assert_eq!(ui.disconnect(), plan);
}

#[test]
fn no_ui_attaches_while_an_activation_is_in_progress() {
    let mut ui = open(PeerRole::Ui);
    let step = ui.begin_request(id(1), &attach(None), false);
    assert_eq!(step, RequestStep::Respond(activation_in_progress()));
    assert!(matches!(
        activation_in_progress(),
        BrokerResponse::Error(told) if told.code == DiagnosticCode::ActivationInProgress
            && told.message == "activation is in progress; this broker is not accepting UI attachments"
    ));
    assert_eq!(
        ui.begin_request(id(2), &ClientRequest::Heartbeat, false),
        RequestStep::Dispatch
    );
}

#[test]
fn a_launcher_names_only_its_own_launches() {
    let mut launcher = open(PeerRole::Launcher);
    let foreign = "launcher connection does not own the pending launch token";
    let abort = |n| ClientRequest::AbortUiLaunch { token: token(n) };
    let commit = |n| ClientRequest::CommitUiLaunch {
        token: token(n),
        pane: HostPaneId::new("pane"),
    };
    let register = |n| ClientRequest::RegisterPendingPane {
        token: token(n),
        pane: HostPaneId::new("pane"),
        temporary_tab: None,
    };
    assert_eq!(launcher.begin_request(id(1), &abort(1), true), violation(foreign));
    assert_eq!(launcher.begin_request(id(2), &commit(1), true), violation(foreign));
    assert_eq!(launcher.begin_request(id(3), &register(1), true), violation(foreign));
    for n in [1, 2, 3] {
        launcher.record_response(
            &prepare(),
            &BrokerResponse::LaunchPrepared {
                token: token(n),
                lease_millis: 1000,
            },
        );
    }
    assert_eq!(launcher.validate_request(&register(1)), Ok(()));
    launcher.record_response(&abort(2), &BrokerResponse::Acknowledged);
    assert_eq!(launcher.validate_request(&commit(2)), Err(foreign));
    let plan = launcher.disconnect();
    assert_eq!(plan.ui, UiDisconnect::Nothing);
    let mut left = plan.launches;
    left.sort_by_key(|token| token.0);
    assert_eq!(left, vec![token(1), token(3)]);
}

#[test]
fn a_waiting_ui_is_looked_after_with_its_launch() {
    let mut ui = open(PeerRole::Ui);
    let request = attach(Some(token(4)));
    let wait = || {
        Ok(RequestResult::WaitForAttachment {
            session: session("ui-9"),
        })
    };
    assert_eq!(ui.finish_request(&request, wait(), 100), RequestFinish::Wait);
    assert_eq!(
        ui.finish_request(&request, wait(), 100),
        RequestFinish::Close(ServerError::UnexpectedMessage)
    );
    assert_eq!(
        ui.record_pending_attachment(&request, session("ui-9")),
        Err("one UI connection may attach at most one session")
    );
    assert_eq!(
        ui.record_pending_attachment(&prepare(), session("ui-9")),
        Err("only AttachUi may wait for a launch commit")
    );
    assert_eq!(
        ui.disconnect().ui,
        UiDisconnect::Gated {
            token: token(4),
            session: session("ui-9")
        }
    );
    let mut told = open(PeerRole::Ui);
    told.finish_request(&request, wait(), 100);
    told.attachment_told();
    assert_eq!(
        told.disconnect().ui,
        UiDisconnect::Detach {
            session: session("ui-9")
        }
    );
}

#[test]
fn an_attachment_that_is_told_at_once_is_confirmed() {
    let mut ui = open(PeerRole::Ui);
    let response = || BrokerResponse::UiAttached {
        session: session("ui-3"),
    };
    assert_eq!(
        ui.finish_request(
            &attach(Some(token(5))),
            Ok(RequestResult::Immediate(response())),
            100
        ),
        RequestFinish::Respond {
            response: response(),
            confirm: Some((token(5), session("ui-3")))
        }
    );
}

#[test]
fn errors_are_told_under_their_code_and_cut() {
    let told = error_diagnostic(&BrokerError::ActivationInProgress, 1000);
    assert_eq!(told.code, DiagnosticCode::ActivationInProgress);
    assert_eq!(told.message, BrokerError::ActivationInProgress.message());
    let cut = error_diagnostic(&BrokerError::GenericProcess("\u{e9}\u{e9}".to_owned()), 40);
    assert_eq!(cut.code, DiagnosticCode::InvalidRequest);
    assert_eq!(cut.message, "generic command supervision failed: \u{e9}\u{e9}");
    let cut = error_diagnostic(&BrokerError::GenericProcess("\u{e9}\u{e9}".to_owned()), 39);
    assert_eq!(cut.message, "generic command supervision failed: \u{e9}");
    let mut ui = open(PeerRole::Ui);
    let finished = ui.finish_request(&prepare(), Err(BrokerError::StaleGeneration), 7);
    assert_eq!(
        finished,
        RequestFinish::Respond {
            response: BrokerResponse::Error(ProtocolDiagnostic {
                code: DiagnosticCode::InvalidRequest,
                message: "binding".to_owned()
            }),
            confirm: None
        }
    );
    assert!(matches!(ownership_error("no"), BrokerResponse::Error(told) if told.message == "no"));
}

#[test]
fn a_coordinator_sends_requests_each_under_its_own_identity() {
    let mut control = ControlConnection::new();
    assert_eq!(control.begin(None), Err(ServerError::UnexpectedMessage));
    assert_eq!(control.begin(Some(id(1))), Ok(()));
    assert_eq!(control.begin(Some(id(2))), Ok(()));
    assert_eq!(
        control.begin(Some(id(1))),
        Err(ServerError::DuplicateControlRequestId)
    );
}

#[test]
fn requests_are_of_their_kind() {
    assert_eq!(prepare().kind(), RequestKind::PrepareUiLaunch);
    assert_eq!(attach(None).kind(), RequestKind::AttachUi);
    assert_eq!(invoke("x").kind(), RequestKind::InvokeBinding);
    assert_eq!(ClientRequest::Heartbeat.kind(), RequestKind::Heartbeat);
}

#[test]
fn server_errors_read_plainly() {
    assert_eq!(
        ServerError::UnsupportedRole(PeerRole::Broker).message(),
        "client role Broker cannot connect to the broker socket"
    );
    assert_eq!(
        ServerError::Broker(BrokerError::StaleGeneration).message(),
        "broker operation failed: binding belongs to a stale configuration generation"
    );
    assert_eq!(
        ServerError::Activation("x".to_owned()).message(),
        "activation control cannot proceed: x"
    );
    assert_eq!(
        ServerError::WriterClosed.message(),
        "client connection closed while response was queued"
    );
}

#[test]
fn a_broker_serves_one_host() {
    let server = |id: &str| LiveServerIdentity {
        host: HostKind::Herdr,
        discovery_key: "key".to_owned(),
        server_id: id.to_owned(),
    };
    assert!(serves_identity(&server("a"), &server("a")));
    assert!(!serves_identity(&server("a"), &server("b")));
    let mut other = server("a");
    other.host = HostKind::Zellij;
    assert!(!serves_identity(&server("a"), &other));
}
