//! What a peer may do over one connection, and what is left to be done when it goes.
pub mod laws;

use crate::activation::LiveServerIdentity;
use crate::broker::attach::AttachUi;
use crate::broker::lifecycle::RequestKind;
use crate::gate::clone_session;
use crate::ids::{
    ExecutionId, HostPaneId, HostTabId, ModalScopeId, PendingLaunchToken, RequestId, UiSessionId,
};
use crate::menu::MenuId;
use crate::protocol::{
    diagnostic, tells, BrokerError, DiagnosticCode, InvocationDisposition, MenuControl, PeerRole,
    ProtocolDiagnostic,
};
use crate::table::{enumerates, is_some_of, opt_view, views, Key, Table};
use vstd::prelude::*;
use vstd::string::StringExecFns;

verus! {

/// A binding, as the UI names it.
#[derive(Clone, Copy, Debug, PartialEq, Eq, Structural)]
pub struct BindingId {
    pub generation: u64,
    pub ordinal: u32,
}

/// What a peer asks of the broker.
#[derive(Debug, PartialEq, Eq)]
#[allow(inconsistent_fields)]
pub enum ClientRequest {
    PrepareUiLaunch { modal_scope: ModalScopeId, root: MenuId, lease_millis: u32 },
    RegisterPendingPane {
        token: PendingLaunchToken,
        pane: HostPaneId,
        temporary_tab: Option<HostTabId>,
    },
    CommitUiLaunch { token: PendingLaunchToken, pane: HostPaneId },
    AbortUiLaunch { token: PendingLaunchToken },
    AttachUi(AttachUi),
    InvokeBinding { session: UiSessionId, generation: u64, binding: BindingId },
    MenuControl { session: UiSessionId, control: MenuControl },
    DetachUi { session: UiSessionId },
    Heartbeat,
}

impl ClientRequest {
    /// What the request is for.
    pub open spec fn kind_of(self) -> RequestKind {
        match self {
            ClientRequest::PrepareUiLaunch { .. } => RequestKind::PrepareUiLaunch,
            ClientRequest::RegisterPendingPane { .. } => RequestKind::RegisterPendingPane,
            ClientRequest::CommitUiLaunch { .. } => RequestKind::CommitUiLaunch,
            ClientRequest::AbortUiLaunch { .. } => RequestKind::AbortUiLaunch,
            ClientRequest::AttachUi(_) => RequestKind::AttachUi,
            ClientRequest::InvokeBinding { .. } => RequestKind::InvokeBinding,
            ClientRequest::MenuControl { .. } => RequestKind::MenuControl,
            ClientRequest::DetachUi { .. } => RequestKind::DetachUi,
            ClientRequest::Heartbeat => RequestKind::Heartbeat,
        }
    }

    /// What the request is for.
    pub fn kind(&self) -> (r: RequestKind)
        ensures
            r == self.kind_of(),
    {
        match self {
            ClientRequest::PrepareUiLaunch { .. } => RequestKind::PrepareUiLaunch,
            ClientRequest::RegisterPendingPane { .. } => RequestKind::RegisterPendingPane,
            ClientRequest::CommitUiLaunch { .. } => RequestKind::CommitUiLaunch,
            ClientRequest::AbortUiLaunch { .. } => RequestKind::AbortUiLaunch,
            ClientRequest::AttachUi(_) => RequestKind::AttachUi,
            ClientRequest::InvokeBinding { .. } => RequestKind::InvokeBinding,
            ClientRequest::MenuControl { .. } => RequestKind::MenuControl,
            ClientRequest::DetachUi { .. } => RequestKind::DetachUi,
            ClientRequest::Heartbeat => RequestKind::Heartbeat,
        }
    }
}

/// What a peer is answered. The menu that comes with an attachment is added to the answer where it
/// is sent.
#[derive(Debug, PartialEq, Eq)]
#[allow(inconsistent_fields)]
pub enum BrokerResponse {
    LaunchPrepared { token: PendingLaunchToken, lease_millis: u32 },
    PendingPaneRegistered,
    Acknowledged,
    UiAttached { session: UiSessionId },
    InvocationAccepted { execution: ExecutionId, disposition: InvocationDisposition },
    PendingControlCompleted { execution: ExecutionId, control: MenuControl },
    Detached,
    Error(ProtocolDiagnostic),
}

/// What the broker makes of a request.
#[derive(Debug, PartialEq, Eq)]
#[allow(inconsistent_fields)]
pub enum RequestResult {
    Immediate(BrokerResponse),
    /// The UI is answered once its launch is complete.
    WaitForAttachment { session: UiSessionId },
}

/// Why a connection ends.
#[derive(Debug, PartialEq, Eq)]
pub enum ServerError {
    Broker(BrokerError),
    UnsupportedRole(PeerRole),
    IdentityMismatch,
    UnexpectedMessage,
    PeerCredential,
    DuplicateRequestId,
    DuplicateControlRequestId,
    WriterClosed,
    Activation(String),
}

impl ServerError {
    /// The text that a reader of the error sees.
    pub open spec fn text(self) -> Seq<char> {
        match self {
            ServerError::Broker(error) => "broker operation failed: "@ + error.text(),
            ServerError::UnsupportedRole(role) => "client role "@ + role.text()
                + " cannot connect to the broker socket"@,
            ServerError::IdentityMismatch => {
                "client live-host identity does not match the active broker adapter"@
            },
            ServerError::UnexpectedMessage => "client sent a broker-to-peer message"@,
            ServerError::PeerCredential => {
                "broker socket peer credentials do not belong to the current user"@
            },
            ServerError::DuplicateRequestId => "client reused a request ID on one connection"@,
            ServerError::DuplicateControlRequestId => {
                "activation coordinator reused a control request ID on one connection"@
            },
            ServerError::WriterClosed => "client connection closed while response was queued"@,
            ServerError::Activation(text) => "activation control cannot proceed: "@ + text@,
        }
    }

    /// The text that a reader of the error sees.
    pub fn message(&self) -> (r: String)
        ensures
            r@ == self.text(),
    {
        match self {
            ServerError::Broker(error) => {
                let text = error.message();
                "broker operation failed: ".to_owned().concat(text.as_str())
            },
            ServerError::UnsupportedRole(role) => "client role ".to_owned().concat(
                role.name(),
            ).concat(" cannot connect to the broker socket"),
            ServerError::IdentityMismatch => {
                "client live-host identity does not match the active broker adapter".to_owned()
            },
            ServerError::UnexpectedMessage => "client sent a broker-to-peer message".to_owned(),
            ServerError::PeerCredential => {
                "broker socket peer credentials do not belong to the current user".to_owned()
            },
            ServerError::DuplicateRequestId => {
                "client reused a request ID on one connection".to_owned()
            },
            ServerError::DuplicateControlRequestId => {
                "activation coordinator reused a control request ID on one connection".to_owned()
            },
            ServerError::WriterClosed => {
                "client connection closed while response was queued".to_owned()
            },
            ServerError::Activation(text) => {
                "activation control cannot proceed: ".to_owned().concat(text.as_str())
            },
        }
    }
}

/// How a connection is served.
#[derive(Clone, Copy, Debug, PartialEq, Eq, Structural)]
pub enum Lane {
    /// Requests of a launcher or a UI.
    Requests,
    /// Operations of a coordinator.
    Control,
}

/// How a peer is served that connects as `role`. A coordinator is served only by a broker that takes
/// part in activations.
pub fn lane_for(role: PeerRole, activation: bool) -> (r: Result<Lane, ServerError>)
    ensures
        r == (match role {
            PeerRole::Launcher | PeerRole::Ui => Ok::<Lane, ServerError>(Lane::Requests),
            PeerRole::ActivationCoordinator if activation => Ok(Lane::Control),
            _ => Err(ServerError::UnsupportedRole(role)),
        }),
        r is Ok <==> role != PeerRole::Broker && (role == PeerRole::ActivationCoordinator
            ==> activation),
        r matches Ok(lane) ==> (lane == Lane::Control <==> role == PeerRole::ActivationCoordinator),
{
    match role {
        PeerRole::Launcher | PeerRole::Ui => Ok(Lane::Requests),
        PeerRole::ActivationCoordinator => if activation {
            Ok(Lane::Control)
        } else {
            Err(ServerError::UnsupportedRole(role))
        },
        PeerRole::Broker => Err(ServerError::UnsupportedRole(role)),
    }
}

/// Whether the host that the broker serves is the one that a peer names.
pub fn serves_identity(actual: &LiveServerIdentity, claimed: &LiveServerIdentity) -> (r: bool)
    ensures
        r == (actual@ == claimed@),
{
    actual.same(claimed)
}

/// Refuses a peer that is another user.
pub fn verify_same_user_peer(peer: u32, current: u32) -> (r: Result<(), ServerError>)
    ensures
        r == if peer == current {
            Ok::<(), ServerError>(())
        } else {
            Err(ServerError::PeerCredential)
        },
        r is Ok <==> peer == current,
{
    if peer == current {
        Ok(())
    } else {
        Err(ServerError::PeerCredential)
    }
}

/// A response that carries a diagnostic.
pub open spec fn is_error(response: BrokerResponse, code: DiagnosticCode, text: Seq<char>) -> bool {
    response matches BrokerResponse::Error(told) && told.code == code && told.message@ == text
}

/// What a peer is answered that asks for what another one owns.
pub fn ownership_error(message: &str) -> (r: BrokerResponse)
    ensures
        is_error(r, DiagnosticCode::ProtocolViolation, message@),
{
    BrokerResponse::Error(
        ProtocolDiagnostic {
            code: DiagnosticCode::ProtocolViolation,
            message: message.to_owned(),
        },
    )
}

/// What a UI reads that may not attach yet, or no longer.
pub open spec fn activation_text() -> Seq<char> {
    "activation is in progress; this broker is not accepting UI attachments"@
}

/// What a UI is answered that may not attach yet, or no longer.
pub fn activation_in_progress() -> (r: BrokerResponse)
    ensures
        is_error(r, DiagnosticCode::ActivationInProgress, activation_text()),
{
    BrokerResponse::Error(
        ProtocolDiagnostic {
            code: DiagnosticCode::ActivationInProgress,
            message:
                "activation is in progress; this broker is not accepting UI attachments".to_owned(),
        },
    )
}

/// The code under which a peer is told of an error.
pub open spec fn error_code(error: BrokerError) -> DiagnosticCode {
    if error is ActivationInProgress {
        DiagnosticCode::ActivationInProgress
    } else {
        DiagnosticCode::InvalidRequest
    }
}

/// What a peer is told of an error, cut to `limit` bytes.
pub fn error_diagnostic(error: &BrokerError, limit: usize) -> (r: ProtocolDiagnostic)
    ensures
        tells(r, error_code(*error), error.text(), limit as nat),
{
    let text = error.message();
    let code = match error {
        BrokerError::ActivationInProgress => DiagnosticCode::ActivationInProgress,
        _ => DiagnosticCode::InvalidRequest,
    };
    diagnostic(code, text.as_str(), limit)
}

/// What comes of a request before the broker sees it.
#[derive(Debug, PartialEq, Eq)]
pub enum RequestStep {
    /// The connection ends.
    Close(ServerError),
    /// The peer is answered; the broker does not see the request.
    Respond(BrokerResponse),
    /// The broker handles the request.
    Dispatch,
}

/// What comes of a request once the broker has handled it.
#[derive(Debug, PartialEq, Eq)]
#[allow(inconsistent_fields)]
pub enum RequestFinish {
    /// The connection ends.
    Close(ServerError),
    /// The peer is answered. Once it was told that it stands, the named launch is confirmed.
    Respond { response: BrokerResponse, confirm: Option<(PendingLaunchToken, UiSessionId)> },
    /// The peer is answered later.
    Wait,
}

/// What is to be undone when a peer goes.
#[derive(Debug, PartialEq, Eq)]
#[allow(inconsistent_fields)]
pub enum UiDisconnect {
    Nothing,
    /// The UI was not told that it stands: its launch or its session goes, whichever is left.
    Gated { token: PendingLaunchToken, session: UiSessionId },
    /// The session is detached.
    Detach { session: UiSessionId },
}

/// What is left to be done when a peer goes: first for its UI, and then for each of its launches.
#[derive(Debug, PartialEq, Eq)]
pub struct DisconnectPlan {
    pub ui: UiDisconnect,
    pub launches: Vec<PendingLaunchToken>,
}

/// What a connection holds.
#[verifier::ext_equal]
pub struct ConnectionModel {
    pub role: PeerRole,
    pub handshaken: bool,
    pub request_ids: Map<Seq<u8>, ()>,
    pub launcher_tokens: Map<Seq<u8>, ()>,
    pub attached_session: Option<UiSessionId>,
    pub pending_ui_token: Option<PendingLaunchToken>,
}

impl ConnectionModel {
    pub open spec fn new(role: PeerRole) -> Self {
        ConnectionModel {
            role,
            handshaken: false,
            request_ids: Map::empty(),
            launcher_tokens: Map::empty(),
            attached_session: None,
            pending_ui_token: None,
        }
    }

    /// The session is the one that this connection has attached.
    pub open spec fn owns_session(self, session: Seq<char>) -> bool {
        opt_view(self.attached_session) == Some(session)
    }

    /// Why a request is not this connection's to make.
    pub open spec fn objection(self, request: ClientRequest) -> Option<Seq<char>> {
        let launches = "launcher connection does not own the pending launch token"@;
        match request {
            ClientRequest::AttachUi(_) if self.role == PeerRole::Ui
                && self.attached_session is Some => Some(
                "one UI connection may attach at most one session"@,
            ),
            ClientRequest::InvokeBinding { session, .. } if self.role == PeerRole::Ui
                && !self.owns_session(session@) => Some(
                "UI connection does not own the invoked session"@,
            ),
            ClientRequest::MenuControl { session, .. } if self.role == PeerRole::Ui
                && !self.owns_session(session@) => Some(
                "UI connection does not own the controlled session"@,
            ),
            ClientRequest::DetachUi { session } if self.role == PeerRole::Ui
                && !self.owns_session(session@) => Some(
                "UI connection does not own the detached session"@,
            ),
            ClientRequest::RegisterPendingPane { token, .. } if self.role == PeerRole::Launcher
                && !self.launcher_tokens.contains_key(token@) => Some(launches),
            ClientRequest::CommitUiLaunch { token, .. } if self.role == PeerRole::Launcher
                && !self.launcher_tokens.contains_key(token@) => Some(launches),
            ClientRequest::AbortUiLaunch { token } if self.role == PeerRole::Launcher
                && !self.launcher_tokens.contains_key(token@) => Some(launches),
            _ => None,
        }
    }

    /// `after` and `r` are what comes of a request before the broker sees it.
    pub open spec fn begins(
        self,
        request_id: Seq<u8>,
        request: ClientRequest,
        allows_ui: bool,
        after: Self,
        r: RequestStep,
    ) -> bool {
        let noted = ConnectionModel {
            request_ids: self.request_ids.insert(request_id, ()),
            ..self
        };
        if !self.handshaken {
            after == self && r == RequestStep::Close(ServerError::UnexpectedMessage)
        } else if self.request_ids.contains_key(request_id) {
            after == self && r == RequestStep::Close(ServerError::DuplicateRequestId)
        } else if request is AttachUi && !allows_ui {
            &&& after == noted
            &&& r matches RequestStep::Respond(response) && is_error(
                response,
                DiagnosticCode::ActivationInProgress,
                activation_text(),
            )
        } else {
            match self.objection(request) {
                Some(text) => {
                    &&& after == noted
                    &&& r matches RequestStep::Respond(response) && is_error(
                        response,
                        DiagnosticCode::ProtocolViolation,
                        text,
                    )
                },
                None => after == noted && r == RequestStep::Dispatch,
            }
        }
    }

    /// What a response makes the connection own, or no longer own.
    pub open spec fn record_response(self, request: ClientRequest, response: BrokerResponse) -> Self {
        match (request, response) {
            (
                ClientRequest::PrepareUiLaunch { .. },
                BrokerResponse::LaunchPrepared { token, .. },
            ) => ConnectionModel {
                launcher_tokens: self.launcher_tokens.insert(token@, ()),
                ..self
            },
            (ClientRequest::AttachUi(_), BrokerResponse::UiAttached { session }) => {
                ConnectionModel { attached_session: Some(session), ..self }
            },
            (ClientRequest::AbortUiLaunch { token }, BrokerResponse::Acknowledged) => {
                ConnectionModel { launcher_tokens: self.launcher_tokens.remove(token@), ..self }
            },
            _ => self,
        }
    }

    /// A UI waits for its launch.
    pub open spec fn record_pending_attachment(
        self,
        request: ClientRequest,
        session: UiSessionId,
    ) -> Option<Self> {
        match request {
            ClientRequest::AttachUi(request) if self.attached_session is None => Some(
                ConnectionModel {
                    attached_session: Some(session),
                    pending_ui_token: request.pending_launch,
                    ..self
                },
            ),
            _ => None,
        }
    }

    /// `after` and `r` are what comes of a request once the broker has handled it.
    pub open spec fn finishes(
        self,
        request: ClientRequest,
        result: Result<RequestResult, BrokerError>,
        limit: nat,
        after: Self,
        r: RequestFinish,
    ) -> bool {
        match result {
            Ok(RequestResult::Immediate(response)) => {
                &&& after == self.record_response(request, response)
                &&& r == RequestFinish::Respond {
                    response,
                    confirm: match (request, response) {
                        (
                            ClientRequest::AttachUi(request),
                            BrokerResponse::UiAttached { session },
                        ) => match request.pending_launch {
                            Some(token) => Some((token, session)),
                            None => None,
                        },
                        _ => None,
                    },
                }
            },
            Ok(RequestResult::WaitForAttachment { session }) => {
                match self.record_pending_attachment(request, session) {
                    Some(waiting) => after == waiting && r == RequestFinish::Wait,
                    None => after == self && r == RequestFinish::Close(
                        ServerError::UnexpectedMessage,
                    ),
                }
            },
            Err(error) => {
                &&& after == self
                &&& r matches RequestFinish::Respond {
                    response: BrokerResponse::Error(told),
                    confirm: None,
                } && tells(told, error_code(error), error.text(), limit)
            },
        }
    }

    /// What a peer leaves with its UI when it goes.
    pub open spec fn ui_disconnect(self) -> UiDisconnect {
        match (self.pending_ui_token, self.attached_session) {
            (Some(token), Some(session)) => UiDisconnect::Gated { token, session },
            (None, Some(session)) => UiDisconnect::Detach { session },
            (_, None) => UiDisconnect::Nothing,
        }
    }
}

/// What a peer owns over one connection.
pub struct ConnectionResources {
    role: PeerRole,
    handshaken: bool,
    request_ids: Table<RequestId, ()>,
    launcher_tokens: Table<PendingLaunchToken, ()>,
    attached_session: Option<UiSessionId>,
    pending_ui_token: Option<PendingLaunchToken>,
}

impl View for ConnectionResources {
    type V = ConnectionModel;

    closed spec fn view(&self) -> ConnectionModel {
        ConnectionModel {
            role: self.role,
            handshaken: self.handshaken,
            request_ids: self.request_ids@,
            launcher_tokens: self.launcher_tokens@,
            attached_session: self.attached_session,
            pending_ui_token: self.pending_ui_token,
        }
    }
}

impl ConnectionResources {
    pub fn new(role: PeerRole) -> (r: Self)
        ensures
            r@ == ConnectionModel::new(role),
    {
        ConnectionResources {
            role,
            handshaken: false,
            request_ids: Table::new(),
            launcher_tokens: Table::new(),
            attached_session: None,
            pending_ui_token: None,
        }
    }

    /// What the peer connected as.
    pub fn role(&self) -> (r: PeerRole)
        ensures
            r == self@.role,
    {
        self.role
    }

    /// A peer says who it is. It may do so once, and has to name the server that the broker serves.
    pub fn handshake(&mut self, serves_identity: bool) -> (r: Result<(), ServerError>)
        ensures
            if old(self)@.handshaken || !serves_identity {
                &&& final(self)@ == old(self)@
                &&& r == Err::<(), ServerError>(ServerError::IdentityMismatch)
            } else {
                &&& final(self)@ == (ConnectionModel { handshaken: true, ..old(self)@ })
                &&& r == Ok::<(), ServerError>(())
            },
            r is Ok <==> serves_identity && !old(self)@.handshaken,
            final(self)@.handshaken <==> old(self)@.handshaken || serves_identity,
    {
        if self.handshaken || !serves_identity {
            return Err(ServerError::IdentityMismatch);
        }
        self.handshaken = true;
        Ok(())
    }

    fn owns(&self, session: &UiSessionId) -> (r: bool)
        ensures
            r == self@.owns_session(session@),
    {
        is_some_of(&self.attached_session, session)
    }

    /// Refuses a request that is not this connection's to make.
    pub fn validate_request(&self, request: &ClientRequest) -> (r: Result<(), &'static str>)
        ensures
            match r {
                Ok(()) => self@.objection(*request) is None,
                Err(text) => self@.objection(*request) == Some(text@),
            },
    {
        let ui = self.role == PeerRole::Ui;
        let launcher = self.role == PeerRole::Launcher;
        match request {
            ClientRequest::AttachUi(_) => {
                if ui && self.attached_session.is_some() {
                    return Err("one UI connection may attach at most one session");
                }
            },
            ClientRequest::InvokeBinding { session, .. } => {
                if ui && !self.owns(session) {
                    return Err("UI connection does not own the invoked session");
                }
            },
            ClientRequest::MenuControl { session, .. } => {
                if ui && !self.owns(session) {
                    return Err("UI connection does not own the controlled session");
                }
            },
            ClientRequest::DetachUi { session } => {
                if ui && !self.owns(session) {
                    return Err("UI connection does not own the detached session");
                }
            },
            ClientRequest::RegisterPendingPane { token, .. } => {
                if launcher && !self.launcher_tokens.contains_key(token) {
                    return Err("launcher connection does not own the pending launch token");
                }
            },
            ClientRequest::CommitUiLaunch { token, .. } => {
                if launcher && !self.launcher_tokens.contains_key(token) {
                    return Err("launcher connection does not own the pending launch token");
                }
            },
            ClientRequest::AbortUiLaunch { token } => {
                if launcher && !self.launcher_tokens.contains_key(token) {
                    return Err("launcher connection does not own the pending launch token");
                }
            },
            _ => {},
        }
        Ok(())
    }

    /// Takes a request in: after the handshake, each under an identity of its own, and only what is
    /// this connection's to ask for. `allows_ui` says whether UIs may attach.
    pub fn begin_request(
        &mut self,
        request_id: RequestId,
        request: &ClientRequest,
        allows_ui: bool,
    ) -> (r: RequestStep)
        ensures
            old(self)@.begins(request_id@, *request, allows_ui, final(self)@, r),
    {
        if !self.handshaken {
            return RequestStep::Close(ServerError::UnexpectedMessage);
        }
        if self.request_ids.contains_key(&request_id) {
            return RequestStep::Close(ServerError::DuplicateRequestId);
        }
        let _ = self.request_ids.insert(request_id, ());
        match request {
            ClientRequest::AttachUi(_) => {
                if !allows_ui {
                    return RequestStep::Respond(activation_in_progress());
                }
            },
            _ => {},
        }
        match self.validate_request(request) {
            Ok(()) => RequestStep::Dispatch,
            Err(message) => RequestStep::Respond(ownership_error(message)),
        }
    }

    /// Notes what a response makes the connection own, or no longer own.
    pub fn record_response(&mut self, request: &ClientRequest, response: &BrokerResponse)
        ensures
            final(self)@ == old(self)@.record_response(*request, *response),
    {
        match (request, response) {
            (
                ClientRequest::PrepareUiLaunch { .. },
                BrokerResponse::LaunchPrepared { token, .. },
            ) => {
                let _ = self.launcher_tokens.insert(*token, ());
            },
            (ClientRequest::AttachUi(_), BrokerResponse::UiAttached { session }) => {
                self.attached_session = Some(session.clone());
            },
            (ClientRequest::AbortUiLaunch { token }, BrokerResponse::Acknowledged) => {
                let _ = self.launcher_tokens.remove(token);
            },
            _ => {},
        }
    }

    /// Notes that the UI waits for its launch.
    pub fn record_pending_attachment(
        &mut self,
        request: &ClientRequest,
        session: UiSessionId,
    ) -> (r: Result<(), &'static str>)
        ensures
            match old(self)@.record_pending_attachment(*request, session) {
                Some(after) => r is Ok && final(self)@ == after,
                None => {
                    &&& final(self)@ == old(self)@
                    &&& r matches Err(text) && text@ == if *request is AttachUi {
                        "one UI connection may attach at most one session"@
                    } else {
                        "only AttachUi may wait for a launch commit"@
                    }
                },
            },
    {
        match request {
            ClientRequest::AttachUi(request) => {
                if self.attached_session.is_some() {
                    return Err("one UI connection may attach at most one session");
                }
                self.attached_session = Some(session);
                self.pending_ui_token = request.pending_launch;
                Ok(())
            },
            _ => Err("only AttachUi may wait for a launch commit"),
        }
    }

    /// Takes in what the broker made of a request, and answers the peer.
    pub fn finish_request(
        &mut self,
        request: &ClientRequest,
        result: Result<RequestResult, BrokerError>,
        limit: usize,
    ) -> (r: RequestFinish)
        ensures
            old(self)@.finishes(*request, result, limit as nat, final(self)@, r),
    {
        match result {
            Ok(RequestResult::Immediate(response)) => {
                self.record_response(request, &response);
                let confirm = match (request, &response) {
                    (
                        ClientRequest::AttachUi(request),
                        BrokerResponse::UiAttached { session },
                    ) => match request.pending_launch {
                        Some(token) => Some((token, session.clone())),
                        None => None,
                    },
                    _ => None,
                };
                RequestFinish::Respond { response, confirm }
            },
            Ok(RequestResult::WaitForAttachment { session }) => {
                match self.record_pending_attachment(request, session) {
                    Ok(()) => RequestFinish::Wait,
                    Err(_) => RequestFinish::Close(ServerError::UnexpectedMessage),
                }
            },
            Err(error) => RequestFinish::Respond {
                response: BrokerResponse::Error(error_diagnostic(&error, limit)),
                confirm: None,
            },
        }
    }

    /// The waiting UI was told that it stands: its launch is confirmed, and only its session is left to
    /// be looked after.
    pub fn attachment_told(&mut self)
        ensures
            final(self)@ == (ConnectionModel { pending_ui_token: None, ..old(self)@ }),
    {
        self.pending_ui_token = None;
    }

    /// What is left to be done when the peer goes. No launch is left to the connection afterwards; the
    /// session that was attached over it stays known.
    pub fn disconnect(&mut self) -> (r: DisconnectPlan)
        ensures
            r.ui == old(self)@.ui_disconnect(),
            enumerates(views(r.launches@), old(self)@.launcher_tokens.dom()),
            final(self)@ == (ConnectionModel {
                launcher_tokens: Map::empty(),
                pending_ui_token: None,
                ..old(self)@
            }),
    {
        let launches = self.launcher_tokens.keys();
        self.launcher_tokens = Table::new();
        let session = clone_session(&self.attached_session);
        let token = self.pending_ui_token;
        self.pending_ui_token = None;
        let ui = match (token, session) {
            (Some(token), Some(session)) => UiDisconnect::Gated { token, session },
            (None, Some(session)) => UiDisconnect::Detach { session },
            (_, None) => UiDisconnect::Nothing,
        };
        DisconnectPlan { ui, launches }
    }
}

/// What a coordinator has used up over one connection.
pub struct ControlConnection {
    request_ids: Table<RequestId, ()>,
}

impl View for ControlConnection {
    type V = Map<Seq<u8>, ()>;

    closed spec fn view(&self) -> Map<Seq<u8>, ()> {
        self.request_ids@
    }
}

impl ControlConnection {
    pub fn new() -> (r: Self)
        ensures
            r@ == Map::<Seq<u8>, ()>::empty(),
    {
        ControlConnection { request_ids: Table::new() }
    }

    /// Takes in a message of a coordinator. It has to be a request, and each one has an identity of
    /// its own.
    pub fn begin(&mut self, request_id: Option<RequestId>) -> (r: Result<(), ServerError>)
        ensures
            match request_id {
                None => {
                    &&& final(self)@ == old(self)@
                    &&& r == Err::<(), ServerError>(ServerError::UnexpectedMessage)
                },
                Some(id) => {
                    &&& final(self)@ == old(self)@.insert(id@, ())
                    &&& r == if old(self)@.contains_key(id@) {
                        Err::<(), ServerError>(ServerError::DuplicateControlRequestId)
                    } else {
                        Ok(())
                    }
                },
            },
            r is Ok <==> (request_id matches Some(id) && !old(self)@.contains_key(id@)),
            request_id matches Some(id) ==> final(self)@.contains_key(id@),
    {
        match request_id {
            None => Err(ServerError::UnexpectedMessage),
            Some(id) => match self.request_ids.insert(id, ()) {
                Some(_) => Err(ServerError::DuplicateControlRequestId),
                None => Ok(()),
            },
        }
    }
}

/// What reaches the broker is the peer's own to ask for: it comes after the handshake, a UI names its
/// own session, a launcher names a launch of its own, and a UI attaches where it has not yet and while
/// UIs may.
pub proof fn law_only_owned_requests_reach_the_broker(
    connection: ConnectionModel,
    request_id: Seq<u8>,
    request: ClientRequest,
    allows_ui: bool,
    after: ConnectionModel,
)
    requires
        connection.begins(request_id, request, allows_ui, after, RequestStep::Dispatch),
    ensures
        connection.handshaken,
        request is AttachUi ==> allows_ui,
        connection.role == PeerRole::Ui ==> match request {
            ClientRequest::AttachUi(_) => connection.attached_session is None,
            ClientRequest::InvokeBinding { session, .. } => connection.owns_session(session@),
            ClientRequest::MenuControl { session, .. } => connection.owns_session(session@),
            ClientRequest::DetachUi { session } => connection.owns_session(session@),
            _ => true,
        },
        connection.role == PeerRole::Launcher ==> match request {
            ClientRequest::RegisterPendingPane { token, .. } => {
                connection.launcher_tokens.contains_key(token@)
            },
            ClientRequest::CommitUiLaunch { token, .. } => {
                connection.launcher_tokens.contains_key(token@)
            },
            ClientRequest::AbortUiLaunch { token } => {
                connection.launcher_tokens.contains_key(token@)
            },
            _ => true,
        },
{
}

/// A request's identity serves once: used again, it ends the connection, whatever it asks for.
pub proof fn law_a_request_identity_serves_once(
    connection: ConnectionModel,
    request_id: Seq<u8>,
    first: ClientRequest,
    allowed: bool,
    between: ConnectionModel,
    step: RequestStep,
    second: ClientRequest,
    again: bool,
    after: ConnectionModel,
    next: RequestStep,
)
    requires
        connection.begins(request_id, first, allowed, between, step),
        !(step is Close),
        between.begins(request_id, second, again, after, next),
    ensures
        next == RequestStep::Close(ServerError::DuplicateRequestId),
        after == between,
{
}

/// A UI that goes leaves its session to be looked after in exactly one way: with its launch while it
/// was not told that it stands, and by itself afterwards.
pub proof fn law_a_ui_is_looked_after_once(
    connection: ConnectionModel,
    request: ClientRequest,
    session: UiSessionId,
    limit: nat,
    waiting: ConnectionModel,
)
    requires
        connection.attached_session is None,
        connection.pending_ui_token is None,
        request matches ClientRequest::AttachUi(attach) && attach.pending_launch is Some,
        connection.finishes(
            request,
            Ok(RequestResult::WaitForAttachment { session }),
            limit,
            waiting,
            RequestFinish::Wait,
        ),
    ensures
        waiting.ui_disconnect() == (UiDisconnect::Gated {
            token: request->AttachUi_0.pending_launch->Some_0,
            session,
        }),
        (ConnectionModel { pending_ui_token: None, ..waiting }).ui_disconnect() == (
        UiDisconnect::Detach { session }),
{
}

} // verus!
