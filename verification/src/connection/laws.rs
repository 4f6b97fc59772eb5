//! What a peer may count on over its connection: what is its own reaches the broker, what it is given
//! becomes its own, and what it leaves is looked after.
use super::{
    activation_text, BrokerResponse, ClientRequest, ConnectionModel, RequestFinish, RequestResult, RequestStep,
    ServerError, UiDisconnect,
};
use crate::broker::attach::AttachUi;
use crate::broker::lifecycle::role_for;
use crate::ids::{HostPaneId, HostTabId, PendingLaunchToken, UiSessionId};
use crate::protocol::laws::ends_in;
use crate::protocol::{BrokerError, DiagnosticCode, PeerRole};
use crate::text::is_truncation;
use vstd::prelude::*;

verus! {

/// A request names only what its connection owns: a UI its own session, and one attachment at most; a
/// launcher its own launches.
pub open spec fn names_its_own(connection: ConnectionModel, request: ClientRequest) -> bool {
    let ui = connection.role == PeerRole::Ui;
    let launcher = connection.role == PeerRole::Launcher;
    let attached = connection.attached_session;
    match request {
        ClientRequest::AttachUi(_) => ui ==> attached is None,
        ClientRequest::InvokeBinding { session, .. } => ui ==> attached is Some
            && attached->Some_0@ == session@,
        ClientRequest::MenuControl { session, .. } => ui ==> attached is Some && attached->Some_0@
            == session@,
        ClientRequest::DetachUi { session } => ui ==> attached is Some && attached->Some_0@
            == session@,
        ClientRequest::RegisterPendingPane { token, .. } => launcher
            ==> connection.launcher_tokens.contains_key(token@),
        ClientRequest::CommitUiLaunch { token, .. } => launcher
            ==> connection.launcher_tokens.contains_key(token@),
        ClientRequest::AbortUiLaunch { token } => launcher
            ==> connection.launcher_tokens.contains_key(token@),
        ClientRequest::PrepareUiLaunch { .. } => true,
        ClientRequest::Heartbeat => true,
    }
}

/// A request reaches the broker exactly where the peer has said who it is, the request's identity is
/// fresh, UIs may attach where it is an attachment, and it names only what its connection owns. A peer
/// that has not said who it is, or uses an identity twice, is cut off; any other is told why not. The
/// identity is used up either way, and nothing else changes.
pub proof fn law_an_owned_request_reaches_the_broker(
    connection: ConnectionModel,
    request_id: Seq<u8>,
    request: ClientRequest,
    allows_ui: bool,
    after: ConnectionModel,
    r: RequestStep,
)
    requires
        connection.begins(request_id, request, allows_ui, after, r),
    ensures
        ({
            let known = connection.handshaken;
            let fresh = !connection.request_ids.contains_key(request_id);
            let attaches = request is AttachUi;
            &&& r == RequestStep::Dispatch <==> known && fresh && (attaches ==> allows_ui)
                && names_its_own(connection, request)
            &&& !known ==> r == RequestStep::Close(ServerError::UnexpectedMessage) && after
                == connection
            &&& known && !fresh ==> r == RequestStep::Close(ServerError::DuplicateRequestId)
                && after == connection
            &&& known && fresh ==> after.request_ids.contains_key(request_id) && after == (
            ConnectionModel { request_ids: after.request_ids, ..connection }) && (forall|
                other: Seq<u8>,
            | #[trigger]
                after.request_ids.contains_key(other) <==> connection.request_ids.contains_key(
                    other,
                ) || other == request_id)
            &&& known && fresh && attaches && !allows_ui ==> (r matches RequestStep::Respond(
                BrokerResponse::Error(told),
            ) && told.code == DiagnosticCode::ActivationInProgress)
            &&& known && fresh && (attaches ==> allows_ui) && !names_its_own(connection, request)
                ==> (r matches RequestStep::Respond(BrokerResponse::Error(told)) && told.code
                == DiagnosticCode::ProtocolViolation)
        }),
{
}

/// What the broker answers reaches the peer as it is, and an error is told under its code with its
/// text. A launched UI that is answered at once is the one whose launch is confirmed.
pub proof fn law_an_answer_reaches_its_peer(
    connection: ConnectionModel,
    request: ClientRequest,
    response: BrokerResponse,
    error: BrokerError,
    limit: nat,
    after: ConnectionModel,
    r: RequestFinish,
)
    ensures
        connection.finishes(
            request,
            Ok(RequestResult::Immediate(response)),
            limit,
            after,
            r,
        ) ==> {
            &&& r matches RequestFinish::Respond { response: sent, confirm }
            &&& sent == response
            &&& confirm matches Some((token, session)) ==> response == (
            BrokerResponse::UiAttached { session }) && (request matches ClientRequest::AttachUi(
                attach,
            ) && attach.pending_launch == Some(token))
            &&& (response matches BrokerResponse::UiAttached { session } && (request matches
                ClientRequest::AttachUi(attach) && attach.pending_launch is Some))
                ==> confirm is Some
        },
        connection.finishes(request, Err(error), limit, after, r) ==> {
            &&& after == connection
            &&& r matches RequestFinish::Respond { response: sent, confirm }
            &&& confirm is None
            &&& sent matches BrokerResponse::Error(told)
            &&& is_truncation(error.text(), limit, told.message@)
            &&& told.code == if error == BrokerError::ActivationInProgress {
                DiagnosticCode::ActivationInProgress
            } else {
                DiagnosticCode::InvalidRequest
            }
        },
{
}

/// A launch that was prepared over a connection is its launcher's until it is given up: the launcher may
/// register, commit and abort it, and then no more. Nobody else's connection gains anything.
pub proof fn law_a_launcher_owns_what_it_prepared(
    connection: ConnectionModel,
    prepare: ClientRequest,
    token: PendingLaunchToken,
    lease_millis: u32,
    pane: HostPaneId,
    tab: Option<HostTabId>,
    other: PendingLaunchToken,
)
    requires
        connection.role == PeerRole::Launcher,
        prepare is PrepareUiLaunch,
    ensures
        ({
            let owning = connection.record_response(
                prepare,
                BrokerResponse::LaunchPrepared { token, lease_millis },
            );
            let abort = ClientRequest::AbortUiLaunch { token };
            let left = owning.record_response(abort, BrokerResponse::Acknowledged);
            &&& names_its_own(
                owning,
                ClientRequest::RegisterPendingPane { token, pane, temporary_tab: tab },
            )
            &&& names_its_own(owning, ClientRequest::CommitUiLaunch { token, pane })
            &&& names_its_own(owning, abort)
            &&& !names_its_own(left, abort)
            &&& !names_its_own(left, ClientRequest::CommitUiLaunch { token, pane })
            &&& other@ != token@ ==> (owning.launcher_tokens.contains_key(other@)
                <==> connection.launcher_tokens.contains_key(other@)) && (
            left.launcher_tokens.contains_key(other@)
                <==> connection.launcher_tokens.contains_key(other@))
            &&& owning.attached_session == connection.attached_session
        }),
{
}

/// Answers give and take nothing else: a commit leaves the launch with its launcher, an abort that was
/// refused too, and an answer to anything but a preparation, an attachment or an abort changes nothing.
pub proof fn law_other_answers_change_no_ownership(
    connection: ConnectionModel,
    request: ClientRequest,
    response: BrokerResponse,
)
    requires
        !(request is PrepareUiLaunch && response is LaunchPrepared),
        !(request is AttachUi && response is UiAttached),
        !(request is AbortUiLaunch && response is Acknowledged),
    ensures
        connection.record_response(request, response) == connection,
{
}

/// A UI that is attached, at once or while it waits for its launch, owns its session over that
/// connection and no other one, and attaches no second time.
pub proof fn law_an_attached_ui_owns_its_session(
    connection: ConnectionModel,
    attach: AttachUi,
    session: UiSessionId,
    limit: nat,
    after: ConnectionModel,
    r: RequestFinish,
    waiting: bool,
    other: Seq<char>,
)
    requires
        connection.role == PeerRole::Ui,
        connection.attached_session is None,
        connection.finishes(
            ClientRequest::AttachUi(attach),
            if waiting {
                Ok(RequestResult::WaitForAttachment { session })
            } else {
                Ok(RequestResult::Immediate(BrokerResponse::UiAttached { session }))
            },
            limit,
            after,
            r,
        ),
    ensures
        after.attached_session == Some(session),
        after.owns_session(other) <==> other == session@,
        names_its_own(after, ClientRequest::DetachUi { session }),
        !names_its_own(after, ClientRequest::AttachUi(attach)),
        waiting <==> r == RequestFinish::Wait,
        waiting ==> after.pending_ui_token == attach.pending_launch,
        !waiting ==> after.pending_ui_token == connection.pending_ui_token,
        after.launcher_tokens == connection.launcher_tokens,
{
}

/// Only an attachment can wait for its launch, and only one over a connection; anything else that is to
/// wait ends the connection.
pub proof fn law_only_an_attachment_waits(
    connection: ConnectionModel,
    request: ClientRequest,
    session: UiSessionId,
    limit: nat,
    after: ConnectionModel,
    r: RequestFinish,
)
    requires
        connection.finishes(
            request,
            Ok(RequestResult::WaitForAttachment { session }),
            limit,
            after,
            r,
        ),
    ensures
        request is AttachUi && connection.attached_session is None <==> r == RequestFinish::Wait,
        r != RequestFinish::Wait ==> r == RequestFinish::Close(ServerError::UnexpectedMessage)
            && after == connection,
{
}

/// A peer that goes leaves its UI to be looked after: with its launch where it was not told yet, else by
/// its session, and not at all where it attached none.
pub proof fn law_a_peer_that_goes_leaves_its_ui(connection: ConnectionModel)
    ensures
        connection.attached_session is None ==> connection.ui_disconnect() == UiDisconnect::Nothing,
        connection.attached_session matches Some(session) ==> match connection.pending_ui_token {
            Some(token) => connection.ui_disconnect() == (UiDisconnect::Gated { token, session }),
            None => connection.ui_disconnect() == (UiDisconnect::Detach { session }),
        },
{
}

/// What is asked of the broker has one role that may ask for it: what concerns a launch is the
/// launcher's, what concerns a menu is the UI's, and a sign of life is anybody's.
pub proof fn law_each_request_has_its_role(request: ClientRequest)
    ensures
        match request {
            ClientRequest::PrepareUiLaunch { .. }
            | ClientRequest::RegisterPendingPane { .. }
            | ClientRequest::CommitUiLaunch { .. }
            | ClientRequest::AbortUiLaunch { .. } => role_for(request.kind_of()) == Some(
                PeerRole::Launcher,
            ),
            ClientRequest::AttachUi(_)
            | ClientRequest::InvokeBinding { .. }
            | ClientRequest::MenuControl { .. }
            | ClientRequest::DetachUi { .. } => role_for(request.kind_of()) == Some(PeerRole::Ui),
            ClientRequest::Heartbeat => role_for(request.kind_of()) is None,
        },
{
}

/// Requests of different kinds are told apart.
pub proof fn law_request_kinds_differ(left: ClientRequest, right: ClientRequest)
    ensures
        left.kind_of() == right.kind_of() <==> {
            ||| left is PrepareUiLaunch && right is PrepareUiLaunch
            ||| left is RegisterPendingPane && right is RegisterPendingPane
            ||| left is CommitUiLaunch && right is CommitUiLaunch
            ||| left is AbortUiLaunch && right is AbortUiLaunch
            ||| left is AttachUi && right is AttachUi
            ||| left is InvokeBinding && right is InvokeBinding
            ||| left is MenuControl && right is MenuControl
            ||| left is DetachUi && right is DetachUi
            ||| left is Heartbeat && right is Heartbeat
        },
{
}

/// A peer that asks for what is not its own is told what it does not own: the launch token, or the
/// session, by what was to be done with it.
pub proof fn law_an_objection_says_what_is_not_owned(
    connection: ConnectionModel,
    request: ClientRequest,
)
    ensures
        connection.objection(request) matches Some(text) ==> {
            &&& request is InvokeBinding ==> ends_in(text, "invoked session"@)
            &&& request is MenuControl ==> ends_in(text, "controlled session"@)
            &&& request is DetachUi ==> ends_in(text, "detached session"@)
            &&& request is AttachUi ==> ends_in(text, "at most one session"@)
            &&& request is RegisterPendingPane || request is CommitUiLaunch || request is AbortUiLaunch
                ==> ends_in(text, "pending launch token"@)
        },
{
    reveal_strlit("one UI connection may attach at most one session");
    reveal_strlit("UI connection does not own the invoked session");
    reveal_strlit("UI connection does not own the controlled session");
    reveal_strlit("UI connection does not own the detached session");
    reveal_strlit("launcher connection does not own the pending launch token");
    reveal_strlit("invoked session");
    reveal_strlit("controlled session");
    reveal_strlit("detached session");
    reveal_strlit("at most one session");
    reveal_strlit("pending launch token");
    if let Some(text) = connection.objection(request) {
        assert(request is InvokeBinding ==> text.skip(31) =~= "invoked session"@);
        assert(request is MenuControl ==> text.skip(31) =~= "controlled session"@);
        assert(request is DetachUi ==> text.skip(31) =~= "detached session"@);
        assert(request is AttachUi ==> text.skip(29) =~= "at most one session"@);
        assert(request is RegisterPendingPane || request is CommitUiLaunch || request is AbortUiLaunch
            ==> text.skip(37) =~= "pending launch token"@);
    }
}

/// An error that ends a connection tells its cause: the broker's error, or what the activation said, in
/// its own words, and a role that is not served by its name.
pub proof fn law_a_connection_error_tells_its_cause(error: ServerError)
    ensures
        error matches ServerError::Broker(cause) ==> ends_in(error.text(), cause.text()),
        error matches ServerError::Activation(text) ==> ends_in(error.text(), text@),
        error matches ServerError::UnsupportedRole(role) ==> error.text().subrange(
            12,
            12 + role.text().len() as int,
        ) == role.text(),
{
    reveal_strlit("client role ");
    match error {
        ServerError::Broker(cause) => {
            let start = "broker operation failed: "@;
            assert(error.text().skip(start.len() as int) =~= cause.text());
        },
        ServerError::Activation(text) => {
            let start = "activation control cannot proceed: "@;
            assert(error.text().skip(start.len() as int) =~= text@);
        },
        ServerError::UnsupportedRole(role) => {
            assert(error.text().subrange(12, 12 + role.text().len() as int) =~= role.text());
        },
        _ => {},
    }
}

/// A UI that may not attach reads that an activation is in progress and that UI attachments are not
/// accepted, in the words in which a launcher reads it of launches.
pub proof fn law_a_ui_reads_that_an_activation_is_in_progress()
    ensures
        activation_text().take(55) == BrokerError::ActivationInProgress.text().take(55),
        ends_in(activation_text(), "UI attachments"@),
        activation_text() != BrokerError::ActivationInProgress.text(),
{
    reveal_strlit("activation is in progress; this broker is not accepting UI attachments");
    reveal_strlit(
        "activation is in progress; this broker is not accepting new launches or executions",
    );
    reveal_strlit("UI attachments");
    let text = activation_text();
    let other = BrokerError::ActivationInProgress.text();
    assert(text.take(55) =~= other.take(55));
    assert(text.skip(56) =~= "UI attachments"@);
    assert(text.len() != other.len());
}

} // verus!
