//! How one broker hands its host over to another: an old broker is prepared and then committed or
//! aborted, and a target serves no UI until it is committed. What has to be asked of the host, the
//! listener or the journal is said step by step, and the answer is handed back.
pub mod laws;
pub mod progress;
pub mod recovery;

use crate::gate::os_random_bytes;
use crate::ids::{all_zero, HandoffId};
use crate::protocol::{AdapterErrorKind, BrokerError, HostKind};
use crate::table::Key;
use crate::text::{debug_form, debug_text};
use vstd::prelude::*;
use vstd::string::StringExecFns;

verus! {

/// A live server of a host.
#[derive(Debug, PartialEq, Eq)]
pub struct LiveServerIdentity {
    pub host: HostKind,
    pub discovery_key: String,
    pub server_id: String,
}

impl View for LiveServerIdentity {
    type V = (HostKind, Seq<char>, Seq<char>);

    open spec fn view(&self) -> (HostKind, Seq<char>, Seq<char>) {
        (self.host, self.discovery_key@, self.server_id@)
    }
}

impl Clone for LiveServerIdentity {
    fn clone(&self) -> (r: Self)
        ensures
            r == *self,
    {
        LiveServerIdentity {
            host: self.host,
            discovery_key: self.discovery_key.clone(),
            server_id: self.server_id.clone(),
        }
    }
}

impl Key for LiveServerIdentity {
    fn same(&self, other: &Self) -> (r: bool) {
        self.host == other.host && self.discovery_key == other.discovery_key && self.server_id
            == other.server_id
    }

    fn duplicate(&self) -> (r: Self) {
        self.clone()
    }
}

impl HostKind {
    /// The host's name.
    pub open spec fn text(self) -> Seq<char> {
        match self {
            HostKind::Zellij => "Zellij"@,
            HostKind::Herdr => "Herdr"@,
        }
    }

    /// The host's name.
    pub fn name(&self) -> (r: &'static str)
        ensures
            r@ == self.text(),
    {
        match self {
            HostKind::Zellij => "Zellij",
            HostKind::Herdr => "Herdr",
        }
    }
}

impl LiveServerIdentity {
    /// How an identity reads in a diagnostic.
    pub open spec fn text(self) -> Seq<char> {
        "LiveServerIdentity { host: "@ + self.host.text() + ", discovery_key: "@
            + debug_form(self.discovery_key@) + ", server_id: ServerId("@ + debug_form(
            self.server_id@,
        ) + ") }"@
    }

    /// How an identity reads in a diagnostic.
    pub fn message(&self) -> (r: String)
        ensures
            r@ == self.text(),
    {
        let key = debug_text(self.discovery_key.as_str());
        let server = debug_text(self.server_id.as_str());
        "LiveServerIdentity { host: ".to_owned().concat(self.host.name()).concat(
            ", discovery_key: ",
        ).concat(key.as_str()).concat(", server_id: ServerId(").concat(server.as_str()).concat(") }")
    }
}

/// What a broker is built for.
#[derive(Debug, PartialEq, Eq)]
pub struct CompatibilityRecord {
    pub muxe_version: String,
    pub target_triple: String,
    pub application_schema_fingerprint: String,
    pub zellij: Option<String>,
    pub herdr: Option<String>,
}

impl Clone for CompatibilityRecord {
    fn clone(&self) -> (r: Self)
        ensures
            r == *self,
    {
        CompatibilityRecord {
            muxe_version: self.muxe_version.clone(),
            target_triple: self.target_triple.clone(),
            application_schema_fingerprint: self.application_schema_fingerprint.clone(),
            zellij: crate::protocol::clone_text(&self.zellij),
            herdr: crate::protocol::clone_text(&self.herdr),
        }
    }
}

/// What a broker starts as. A target knows its handoff and the server that it was made for.
#[derive(Debug, PartialEq, Eq)]
#[allow(inconsistent_fields)]
pub enum ActivationBootstrap {
    Running { current: CompatibilityRecord },
    Target { current: CompatibilityRecord, handoff: HandoffId, live_server: LiveServerIdentity },
}

/// Where a broker stands in an activation.
#[derive(Debug, PartialEq, Eq)]
#[allow(inconsistent_fields)]
pub enum ActivationState {
    Running,
    /// The broker makes way. `host_suspended` says whether its host has to be resumed before the
    /// broker can run again.
    Draining { target: CompatibilityRecord, handoff: HandoffId, host_suspended: bool },
    /// The broker has made way and waits for its children.
    SupervisorOnly { handoff: HandoffId },
    /// A target that is not committed: it serves no UI.
    TargetGated { handoff: HandoffId },
    TargetCommitted { handoff: HandoffId },
    Retired,
}

/// The life of a broker, as a coordinator sees it.
#[derive(Clone, Copy, Debug, PartialEq, Eq, Structural)]
pub enum LifecycleState {
    Running,
    Draining,
    SupervisorOnly,
    Retired,
}

/// What the host says of the clients that it has moved over.
#[derive(Debug, PartialEq, Eq)]
pub struct ActivationReadiness {
    pub registered_clients: Vec<String>,
    pub member_clients: Vec<String>,
}

/// What a coordinator is told of those clients.
#[derive(Debug, PartialEq, Eq)]
pub struct TargetReadiness {
    pub registered_clients: Vec<String>,
    pub member_clients: u64,
    pub member_ids: Option<Vec<String>>,
}

/// What a coordinator is told of the clients: the host's evidence as it is. There is none where the
/// host has none or could not be asked.
pub fn target_readiness(evidence: Result<Option<ActivationReadiness>, BrokerError>) -> (r: Option<
    TargetReadiness,
>)
    ensures
        r == (match evidence {
            Ok(Some(evidence)) => Some(
                TargetReadiness {
                    registered_clients: evidence.registered_clients,
                    member_clients: evidence.member_clients@.len() as u64,
                    member_ids: Some(evidence.member_clients),
                },
            ),
            _ => None,
        }),
        r is Some <==> evidence is Ok && evidence->Ok_0 is Some,
        r matches Some(told) ==> {
            let found = evidence->Ok_0->Some_0;
            &&& told.registered_clients == found.registered_clients
            &&& told.member_ids == Some(found.member_clients)
            &&& found.member_clients@.len() <= u64::MAX ==> told.member_clients
                == found.member_clients@.len()
        },
{
    match evidence {
        Ok(Some(evidence)) => {
            let members: usize = evidence.member_clients.len();
            Some(
                TargetReadiness {
                    registered_clients: evidence.registered_clients,
                    member_clients: members as u64,
                    member_ids: Some(evidence.member_clients),
                },
            )
        },
        _ => None,
    }
}

/// What a coordinator is told of a broker.
#[derive(Debug, PartialEq, Eq)]
pub struct ActivationStatus {
    pub lifecycle: LifecycleState,
    pub live_server: LiveServerIdentity,
    pub current: CompatibilityRecord,
    pub target: Option<CompatibilityRecord>,
    pub handoff_id: Option<HandoffId>,
    pub ready: Option<TargetReadiness>,
}

/// What a coordinator asks for.
#[derive(Debug, PartialEq, Eq)]
#[allow(inconsistent_fields)]
pub enum ControlOperation {
    Status,
    Prepare { target: CompatibilityRecord },
    Commit { handoff_id: HandoffId },
    Abort { handoff_id: HandoffId },
    Retire,
}

/// What a status is the answer to.
#[derive(Clone, Copy, Debug, PartialEq, Eq, Structural)]
pub enum ReportKind {
    Status,
    Prepared,
    Committed,
    Aborted,
    Retired,
}

/// What a coordinator is answered.
#[derive(Debug, PartialEq, Eq)]
pub enum ControlResult {
    Status(ActivationStatus),
    Prepared(ActivationStatus),
    Committed(ActivationStatus),
    Aborted(ActivationStatus),
    Retired(ActivationStatus),
    Error { diagnostic: String },
}

/// What an operation of the coordinator has come to.
#[derive(Debug, PartialEq, Eq)]
#[allow(inconsistent_fields)]
pub enum ControlStage {
    /// It is asked for. `fresh` is the handoff that was drawn for it.
    Requested { operation: ControlOperation, fresh: Option<HandoffId> },
    /// The broker was drained to make way, or could not be.
    Drained(Result<(), BrokerError>),
    /// The host was suspended, or could not be.
    HostSuspended(Result<(), BrokerError>),
    /// The host that could not be suspended was resumed, or could not be.
    HostRestored { suspend: BrokerError, restore: Result<(), BrokerError> },
    /// The listener was given up, or could not be.
    ListenerDrained(Result<(), String>),
    /// The host was resumed because the listener could not be given up, or could not be.
    ListenerRestored { listener: String, restore: Result<(), BrokerError> },
    /// The host was resumed to run again, or could not be.
    HostResumed(Result<(), BrokerError>),
    /// The listener was bound again, or could not be.
    ListenerRebound(Result<(), String>),
    /// The broker was drained to end, or could not be.
    RetireDrained(Result<(), BrokerError>),
}

/// What an operation of the coordinator needs next.
#[derive(Debug, PartialEq, Eq)]
#[allow(inconsistent_fields)]
pub enum ControlNext {
    /// The broker is drained to make way.
    Drain,
    /// The host is suspended.
    SuspendHost,
    /// The host that could not be suspended is resumed.
    RestoreHost { suspend: BrokerError },
    /// The listener is given up.
    DrainListener,
    /// The host is resumed because the listener could not be given up.
    RestoreAfterListener { listener: String },
    /// The host is resumed to run again.
    ResumeHost,
    /// The listener is bound again.
    RebindListener,
    /// The broker is drained to end.
    DrainToRetire,
    /// The coordinator is told the status. Where `reopen` is set the broker admits again before;
    /// where `stop` is set the service ends after.
    Report { kind: ReportKind, reopen: bool, stop: bool },
    /// The coordinator is told why not. Where `reopen` is set the broker admits again before.
    Refuse { diagnostic: String, reopen: bool },
}

/// A refusal with a text.
pub open spec fn refuses(next: ControlNext, text: Seq<char>, reopen: bool) -> bool {
    next matches ControlNext::Refuse { diagnostic, reopen: again } && diagnostic@ == text && again
        == reopen
}

/// What is said where the host could not be resumed either.
pub open spec fn also_failed(text: Seq<char>, restore: BrokerError) -> Seq<char> {
    text + "; host restore also failed, adapter remains unhealthy: "@ + restore.text()
}

/// Whether a failure says that the host cannot do the thing at all.
pub open spec fn is_unsupported(error: BrokerError) -> bool {
    error matches BrokerError::Adapter(adapter) && adapter.kind == AdapterErrorKind::Unsupported
}

/// Whether a failure says that the host cannot do the thing at all.
fn says_unsupported(error: &BrokerError) -> (r: bool)
    ensures
        r == is_unsupported(*error),
{
    match error {
        BrokerError::Adapter(adapter) => adapter.kind == AdapterErrorKind::Unsupported,
        _ => false,
    }
}

fn refuse(text: &str) -> (r: ControlNext)
    ensures
        refuses(r, text@, false),
{
    ControlNext::Refuse { diagnostic: text.to_owned(), reopen: false }
}

/// A broker's part in an activation.
#[derive(Debug, PartialEq, Eq)]
pub struct ActivationController {
    pub current: CompatibilityRecord,
    pub expected_live_server: LiveServerIdentity,
    pub state: ActivationState,
    /// How many coordinators are connected.
    pub connections: usize,
}

/// The handoff made of drawn bytes; zero names nothing.
pub fn handoff_of_draw(draw: Option<[u8; 16]>) -> (r: Option<HandoffId>)
    ensures
        r == (match draw {
            Some(bytes) if !all_zero(bytes@) => Some(HandoffId(bytes)),
            _ => None,
        }),
        r matches Some(handoff) ==> draw == Some(handoff.0),
        r is None <==> draw is None || forall|i: int| 0 <= i < 16 ==> draw->Some_0@[i] == 0,
{
    match draw {
        Some(bytes) => {
            let handoff = HandoffId(bytes);
            if handoff.is_zero() {
                None
            } else {
                Some(handoff)
            }
        },
        None => None,
    }
}

/// Draws a handoff. It is never zero.
pub fn fresh_handoff() -> (r: Option<HandoffId>)
    ensures
        r matches Some(handoff) ==> !all_zero(handoff@),
{
    handoff_of_draw(os_random_bytes())
}

impl ActivationState {
    /// Whether UIs may attach.
    pub open spec fn allows_ui(self) -> bool {
        self is Running || self is TargetCommitted
    }

    /// Whether the host is not to be asked anything.
    pub open spec fn is_suspended(self) -> bool {
        self is Draining || self is SupervisorOnly
    }

    /// What a coordinator calls the state.
    pub open spec fn lifecycle(self) -> LifecycleState {
        match self {
            ActivationState::Draining { .. } => LifecycleState::Draining,
            ActivationState::SupervisorOnly { .. } => LifecycleState::SupervisorOnly,
            ActivationState::Retired => LifecycleState::Retired,
            _ => LifecycleState::Running,
        }
    }

    /// The handoff that the broker has a part in.
    pub open spec fn handoff(self) -> Option<HandoffId> {
        match self {
            ActivationState::Draining { handoff, .. } => Some(handoff),
            ActivationState::SupervisorOnly { handoff } => Some(handoff),
            ActivationState::TargetGated { handoff } => Some(handoff),
            ActivationState::TargetCommitted { handoff } => Some(handoff),
            _ => None,
        }
    }

    /// Whom the broker makes way for.
    pub open spec fn target(self) -> Option<CompatibilityRecord> {
        match self {
            ActivationState::Draining { target, .. } => Some(target),
            _ => None,
        }
    }

    /// The same state, with the host suspended or not.
    pub open spec fn with_host(self, suspended: bool) -> Self {
        match self {
            ActivationState::Draining { target, handoff, .. } => ActivationState::Draining {
                target,
                handoff,
                host_suspended: suspended,
            },
            _ => self,
        }
    }

    /// The broker has a part in this handoff.
    pub open spec fn is_for(self, handoff: Seq<u8>) -> bool {
        self.handoff() matches Some(current) && current@ == handoff
    }
}

impl ActivationController {
    /// The same broker in another state.
    pub open spec fn in_state(self, state: ActivationState) -> Self {
        ActivationController { state, ..self }
    }

    /// `after` and `next` are what an operation leads to when it is asked for.
    pub open spec fn requested(
        self,
        operation: ControlOperation,
        fresh: Option<HandoffId>,
        after: Self,
        next: ControlNext,
    ) -> bool {
        match operation {
            ControlOperation::Status => after == self && next == ControlNext::Report {
                kind: ReportKind::Status,
                reopen: false,
                stop: false,
            },
            ControlOperation::Prepare { target } => match fresh {
                None => after == self && refuses(
                    next,
                    "could not generate a nonzero activation handoff ID"@,
                    false,
                ),
                Some(handoff) => if self.state.allows_ui() {
                    &&& after == self.in_state(
                        ActivationState::Draining { target, handoff, host_suspended: false },
                    )
                    &&& next == ControlNext::Drain
                } else {
                    after == self && refuses(
                        next,
                        "prepare is valid only for a running old broker"@,
                        false,
                    )
                },
            },
            ControlOperation::Commit { handoff_id } => {
                let old = self.state is Draining || self.state is SupervisorOnly;
                if self.state.is_for(handoff_id@) {
                    let handoff = self.state.handoff()->Some_0;
                    &&& after == self.in_state(
                        if old {
                            ActivationState::SupervisorOnly { handoff }
                        } else {
                            ActivationState::TargetCommitted { handoff }
                        },
                    )
                    &&& next == ControlNext::Report {
                        kind: ReportKind::Committed,
                        reopen: false,
                        stop: old,
                    }
                } else {
                    after == self && refuses(
                        next,
                        "commit handoff does not match the prepared activation"@,
                        false,
                    )
                }
            },
            ControlOperation::Abort { handoff_id } => match self.state {
                ActivationState::Draining { host_suspended, .. } if self.state.is_for(
                    handoff_id@,
                ) => {
                    &&& after == self
                    &&& next == if host_suspended {
                        ControlNext::ResumeHost
                    } else {
                        ControlNext::RebindListener
                    }
                },
                ActivationState::TargetGated { .. } if self.state.is_for(handoff_id@) => {
                    &&& after == self.in_state(ActivationState::Retired)
                    &&& next == ControlNext::Report {
                        kind: ReportKind::Aborted,
                        reopen: false,
                        stop: true,
                    }
                },
                ActivationState::Retired => after == self && next == ControlNext::Report {
                    kind: ReportKind::Aborted,
                    reopen: false,
                    stop: true,
                },
                _ => after == self && refuses(
                    next,
                    "abort handoff does not match the prepared activation"@,
                    false,
                ),
            },
            ControlOperation::Retire => if self.state.allows_ui() || self.state is Retired {
                &&& after == self.in_state(ActivationState::Retired)
                &&& next == ControlNext::DrainToRetire
            } else {
                after == self && refuses(
                    next,
                    "retire is invalid while activation is in progress"@,
                    false,
                )
            },
        }
    }

    /// `after` and `next` are what one stage of an operation leads to.
    pub open spec fn controls(self, stage: ControlStage, after: Self, next: ControlNext) -> bool {
        match stage {
            ControlStage::Requested { operation, fresh } => self.requested(
                operation,
                fresh,
                after,
                next,
            ),
            ControlStage::Drained(Ok(())) => after == self && next == ControlNext::SuspendHost,
            ControlStage::Drained(Err(error)) => {
                &&& after == self.in_state(ActivationState::Running)
                &&& refuses(next, "could not drain broker-owned UI state: "@ + error.text(), false)
            },
            ControlStage::HostSuspended(Ok(())) => {
                after == self && next == ControlNext::DrainListener
            },
            ControlStage::HostSuspended(Err(error)) => if is_unsupported(error) {
                &&& after == self.in_state(ActivationState::Running)
                &&& refuses(
                    next,
                    "host adapter cannot suspend for activation: "@ + error.text(),
                    true,
                )
            } else {
                after == self && next == ControlNext::RestoreHost { suspend: error }
            },
            ControlStage::HostRestored { suspend, restore } => {
                let text = "could not suspend host subscription for activation: "@ + suspend.text();
                match restore {
                    Ok(()) => {
                        &&& after == self.in_state(ActivationState::Running)
                        &&& refuses(next, text, true)
                    },
                    Err(restore) => {
                        &&& after == self.in_state(self.state.with_host(true))
                        &&& refuses(next, also_failed(text, restore), false)
                    },
                }
            },
            ControlStage::ListenerDrained(Ok(())) => {
                &&& after == self.in_state(self.state.with_host(true))
                &&& next == ControlNext::Report {
                    kind: ReportKind::Prepared,
                    reopen: false,
                    stop: false,
                }
            },
            ControlStage::ListenerDrained(Err(error)) => {
                after == self && next == ControlNext::RestoreAfterListener { listener: error }
            },
            ControlStage::ListenerRestored { listener, restore } => {
                let text = "could not drain broker listener for activation: "@ + listener@
                    + "; old endpoint remains drained"@;
                &&& after == self.in_state(self.state.with_host(restore is Err))
                &&& refuses(
                    next,
                    match restore {
                        Ok(()) => text,
                        Err(restore) => also_failed(text, restore),
                    },
                    false,
                )
            },
            ControlStage::HostResumed(Ok(())) => {
                after == self && next == ControlNext::RebindListener
            },
            ControlStage::HostResumed(Err(error)) => {
                &&& after == self
                &&& refuses(
                    next,
                    "could not resume host subscription after activation abort: "@ + error.text()
                        + "; old endpoint remains drained"@,
                    false,
                )
            },
            ControlStage::ListenerRebound(Ok(())) => {
                &&& after == self.in_state(ActivationState::Running)
                &&& next == ControlNext::Report {
                    kind: ReportKind::Aborted,
                    reopen: true,
                    stop: false,
                }
            },
            ControlStage::ListenerRebound(Err(error)) => {
                &&& after == self.in_state(self.state.with_host(false))
                &&& refuses(
                    next,
                    "could not rebind old broker listener after activation abort: "@ + error@
                        + "; old endpoint remains drained"@,
                    false,
                )
            },
            ControlStage::RetireDrained(Ok(())) => after == self && next == ControlNext::Report {
                kind: ReportKind::Retired,
                reopen: false,
                stop: true,
            },
            ControlStage::RetireDrained(Err(error)) => {
                &&& after == self
                &&& refuses(next, "could not drain broker-owned UI state: "@ + error.text(), false)
            },
        }
    }

    /// A broker's part in activations, from the server that its host names. A target ends here where
    /// that is not the server that it was made for.
    pub fn start(actual: LiveServerIdentity, bootstrap: ActivationBootstrap) -> (r: Result<
        Self,
        String,
    >)
        ensures
            match bootstrap {
                ActivationBootstrap::Running { current } => r == Ok::<Self, String>(
                    ActivationController {
                        current,
                        expected_live_server: actual,
                        state: ActivationState::Running,
                        connections: 0,
                    },
                ),
                ActivationBootstrap::Target { current, handoff, live_server } => if actual@
                    == live_server@ {
                    r == Ok::<Self, String>(
                        ActivationController {
                            current,
                            expected_live_server: live_server,
                            state: ActivationState::TargetGated { handoff },
                            connections: 0,
                        },
                    )
                } else {
                    r matches Err(text) && text@
                        == "target host identity changed before broker startup: expected "@
                        + live_server.text() + ", found "@ + actual.text()
                },
            },
            r is Err <==> bootstrap is Target && bootstrap->live_server@ != actual@,
            r matches Ok(started) ==> {
                &&& started.connections == 0
                &&& started.expected_live_server@ == actual@
                &&& bootstrap is Running <==> started.state is Running
                &&& bootstrap is Target <==> started.state is TargetGated
                &&& bootstrap matches ActivationBootstrap::Target { handoff, .. } ==> started.state
                    == (ActivationState::TargetGated { handoff })
            },
    {
        match bootstrap {
            ActivationBootstrap::Running { current } => Ok(
                ActivationController {
                    current,
                    expected_live_server: actual,
                    state: ActivationState::Running,
                    connections: 0,
                },
            ),
            ActivationBootstrap::Target { current, handoff, live_server } => {
                if !actual.same(&live_server) {
                    let expected = live_server.message();
                    let found = actual.message();
                    return Err(
                        "target host identity changed before broker startup: expected ".to_owned().concat(
                            expected.as_str(),
                        ).concat(", found ").concat(found.as_str()),
                    );
                }
                Ok(
                    ActivationController {
                        current,
                        expected_live_server: live_server,
                        state: ActivationState::TargetGated { handoff },
                        connections: 0,
                    },
                )
            },
        }
    }

    /// Whether UIs may attach.
    pub fn allows_ui(&self) -> (r: bool)
        ensures
            r == self.state.allows_ui(),
    {
        match &self.state {
            ActivationState::Running | ActivationState::TargetCommitted { .. } => true,
            _ => false,
        }
    }

    /// Whether the host is asked who it is before a status is told. A suspended host cannot answer.
    pub fn asks_host(&self) -> (r: bool)
        ensures
            r == !self.state.is_suspended(),
    {
        match &self.state {
            ActivationState::Draining { .. } | ActivationState::SupervisorOnly { .. } => false,
            _ => true,
        }
    }

    /// The status, from what the host says of itself. While the host is suspended, what it says does
    /// not matter: the server known from the start is told, and nothing of the clients.
    pub fn status(
        &self,
        actual: Result<LiveServerIdentity, BrokerError>,
        ready: Option<TargetReadiness>,
    ) -> (r: Result<ActivationStatus, String>)
        ensures
            self.tells_status(actual, ready, r),
    {
        let (live_server, ready) = if self.asks_host() {
            match actual {
                Err(error) => {
                    return Err(error.message());
                },
                Ok(actual) => {
                    if !actual.same(&self.expected_live_server) {
                        let expected = self.expected_live_server.message();
                        let found = actual.message();
                        return Err(
                            "live host identity changed during activation: expected ".to_owned().concat(
                                expected.as_str(),
                            ).concat(", found ").concat(found.as_str()),
                        );
                    }
                    (actual, ready)
                },
            }
        } else {
            (self.expected_live_server.clone(), None)
        };
        let (lifecycle, target, handoff_id) = match &self.state {
            ActivationState::Running => (LifecycleState::Running, None, None),
            ActivationState::Draining { target, handoff, .. } => (
                LifecycleState::Draining,
                Some(target.clone()),
                Some(*handoff),
            ),
            ActivationState::SupervisorOnly { handoff } => (
                LifecycleState::SupervisorOnly,
                None,
                Some(*handoff),
            ),
            ActivationState::TargetGated { handoff } => (
                LifecycleState::Running,
                None,
                Some(*handoff),
            ),
            ActivationState::TargetCommitted { handoff } => (
                LifecycleState::Running,
                None,
                Some(*handoff),
            ),
            ActivationState::Retired => (LifecycleState::Retired, None, None),
        };
        Ok(
            ActivationStatus {
                lifecycle,
                live_server,
                current: self.current.clone(),
                target,
                handoff_id,
                ready,
            },
        )
    }

    /// What the status is, from what the host says of itself.
    pub open spec fn tells_status(
        self,
        actual: Result<LiveServerIdentity, BrokerError>,
        ready: Option<TargetReadiness>,
        r: Result<ActivationStatus, String>,
    ) -> bool {
        let suspended = self.state.is_suspended();
        match actual {
            Err(error) if !suspended => r matches Err(text) && text@ == error.text(),
            Ok(found) if !suspended && found@ != self.expected_live_server@ => r matches Err(text)
                && text@ == "live host identity changed during activation: expected "@
                + self.expected_live_server.text() + ", found "@ + found.text(),
            _ => r == Ok::<ActivationStatus, String>(
                ActivationStatus {
                    lifecycle: self.state.lifecycle(),
                    live_server: if suspended {
                        self.expected_live_server
                    } else {
                        actual->Ok_0
                    },
                    current: self.current,
                    target: self.state.target(),
                    handoff_id: self.state.handoff(),
                    ready: if suspended {
                        None
                    } else {
                        ready
                    },
                },
            ),
        }
    }

    /// The answer that tells a status.
    pub fn status_result(kind: ReportKind, status: Result<ActivationStatus, String>) -> (r:
        ControlResult)
        ensures
            r == (match status {
                Err(diagnostic) => ControlResult::Error { diagnostic },
                Ok(status) => match kind {
                    ReportKind::Status => ControlResult::Status(status),
                    ReportKind::Prepared => ControlResult::Prepared(status),
                    ReportKind::Committed => ControlResult::Committed(status),
                    ReportKind::Aborted => ControlResult::Aborted(status),
                    ReportKind::Retired => ControlResult::Retired(status),
                },
            }),
            r is Error <==> status is Err,
            status matches Err(text) ==> r->diagnostic == text,
            status is Ok ==> (kind is Status <==> r is Status),
            status is Ok ==> (kind is Prepared <==> r is Prepared),
            status is Ok ==> (kind is Committed <==> r is Committed),
            status is Ok ==> (kind is Aborted <==> r is Aborted),
            status is Ok ==> (kind is Retired <==> r is Retired),
    {
        match status {
            Err(diagnostic) => ControlResult::Error { diagnostic },
            Ok(status) => match kind {
                ReportKind::Status => ControlResult::Status(status),
                ReportKind::Prepared => ControlResult::Prepared(status),
                ReportKind::Committed => ControlResult::Committed(status),
                ReportKind::Aborted => ControlResult::Aborted(status),
                ReportKind::Retired => ControlResult::Retired(status),
            },
        }
    }

    /// The handoff that the broker has a part in.
    fn handoff(&self) -> (r: Option<HandoffId>)
        ensures
            r == self.state.handoff(),
    {
        match &self.state {
            ActivationState::Draining { handoff, .. } => Some(*handoff),
            ActivationState::SupervisorOnly { handoff } => Some(*handoff),
            ActivationState::TargetGated { handoff } => Some(*handoff),
            ActivationState::TargetCommitted { handoff } => Some(*handoff),
            _ => None,
        }
    }

    /// Whether the broker has a part in this handoff.
    fn is_for(&self, handoff: &HandoffId) -> (r: bool)
        ensures
            r == self.state.is_for(handoff@),
    {
        match self.handoff() {
            Some(current) => current.same(handoff),
            None => false,
        }
    }

    /// Notes whether the host is suspended while the broker makes way.
    fn set_host(&mut self, suspended: bool)
        ensures
            *final(self) == old(self).in_state(old(self).state.with_host(suspended)),
    {
        let mut state = ActivationState::Running;
        std::mem::swap(&mut state, &mut self.state);
        self.state = match state {
            ActivationState::Draining { target, handoff, .. } => ActivationState::Draining {
                target,
                handoff,
                host_suspended: suspended,
            },
            other => other,
        };
    }

    /// Begins an operation.
    fn request(&mut self, operation: ControlOperation, fresh: Option<HandoffId>) -> (r: ControlNext)
        ensures
            old(self).requested(operation, fresh, *final(self), r),
    {
        match operation {
            ControlOperation::Status => ControlNext::Report {
                kind: ReportKind::Status,
                reopen: false,
                stop: false,
            },
            ControlOperation::Prepare { target } => {
                let handoff = match fresh {
                    Some(handoff) => handoff,
                    None => {
                        return refuse("could not generate a nonzero activation handoff ID");
                    },
                };
                if !self.allows_ui() {
                    return refuse("prepare is valid only for a running old broker");
                }
                self.state =
                ActivationState::Draining { target, handoff, host_suspended: false };
                ControlNext::Drain
            },
            ControlOperation::Commit { handoff_id } => {
                if !self.is_for(&handoff_id) {
                    return refuse("commit handoff does not match the prepared activation");
                }
                let old = match &self.state {
                    ActivationState::Draining { .. } | ActivationState::SupervisorOnly { .. } => true,
                    _ => false,
                };
                match self.handoff() {
                    Some(handoff) => {
                        self.state =
                        if old {
                            ActivationState::SupervisorOnly { handoff }
                        } else {
                            ActivationState::TargetCommitted { handoff }
                        };
                    },
                    None => {},
                }
                ControlNext::Report { kind: ReportKind::Committed, reopen: false, stop: old }
            },
            ControlOperation::Abort { handoff_id } => {
                let ours = self.is_for(&handoff_id);
                let (stops, resumes) = match &self.state {
                    ActivationState::Draining { host_suspended, .. } => (
                        false,
                        if ours {
                            Some(*host_suspended)
                        } else {
                            None
                        },
                    ),
                    ActivationState::TargetGated { .. } => (ours, None),
                    ActivationState::Retired => (true, None),
                    _ => (false, None),
                };
                if stops {
                    self.state = ActivationState::Retired;
                    return ControlNext::Report {
                        kind: ReportKind::Aborted,
                        reopen: false,
                        stop: true,
                    };
                }
                match resumes {
                    Some(true) => ControlNext::ResumeHost,
                    Some(false) => ControlNext::RebindListener,
                    None => refuse("abort handoff does not match the prepared activation"),
                }
            },
            ControlOperation::Retire => {
                let retired = match &self.state {
                    ActivationState::Retired => true,
                    _ => false,
                };
                if !self.allows_ui() && !retired {
                    return refuse("retire is invalid while activation is in progress");
                }
                self.state = ActivationState::Retired;
                ControlNext::DrainToRetire
            },
        }
    }

    /// Takes an operation of a coordinator one stage on.
    pub fn control(&mut self, stage: ControlStage) -> (r: ControlNext)
        ensures
            old(self).controls(stage, *final(self), r),
    {
        match stage {
            ControlStage::Requested { operation, fresh } => self.request(operation, fresh),
            ControlStage::Drained(Ok(())) => ControlNext::SuspendHost,
            ControlStage::Drained(Err(error)) => {
                self.state = ActivationState::Running;
                let text = error.message();
                ControlNext::Refuse {
                    diagnostic: "could not drain broker-owned UI state: ".to_owned().concat(
                        text.as_str(),
                    ),
                    reopen: false,
                }
            },
            ControlStage::HostSuspended(Ok(())) => ControlNext::DrainListener,
            ControlStage::HostSuspended(Err(error)) => {
                if !says_unsupported(&error) {
                    return ControlNext::RestoreHost { suspend: error };
                }
                self.state = ActivationState::Running;
                let text = error.message();
                ControlNext::Refuse {
                    diagnostic: "host adapter cannot suspend for activation: ".to_owned().concat(
                        text.as_str(),
                    ),
                    reopen: true,
                }
            },
            ControlStage::HostRestored { suspend, restore } => {
                let text = suspend.message();
                let mut diagnostic =
                    "could not suspend host subscription for activation: ".to_owned().concat(
                    text.as_str(),
                );
                match restore {
                    Ok(()) => {
                        self.state = ActivationState::Running;
                        ControlNext::Refuse { diagnostic, reopen: true }
                    },
                    Err(restore) => {
                        self.set_host(true);
                        let text = restore.message();
                        ControlNext::Refuse {
                            diagnostic: diagnostic.concat(
                                "; host restore also failed, adapter remains unhealthy: ",
                            ).concat(text.as_str()),
                            reopen: false,
                        }
                    },
                }
            },
            ControlStage::ListenerDrained(Ok(())) => {
                self.set_host(true);
                ControlNext::Report { kind: ReportKind::Prepared, reopen: false, stop: false }
            },
            ControlStage::ListenerDrained(Err(error)) => ControlNext::RestoreAfterListener {
                listener: error,
            },
            ControlStage::ListenerRestored { listener, restore } => {
                let diagnostic =
                    "could not drain broker listener for activation: ".to_owned().concat(
                    listener.as_str(),
                ).concat("; old endpoint remains drained");
                match restore {
                    Ok(()) => {
                        self.set_host(false);
                        ControlNext::Refuse { diagnostic, reopen: false }
                    },
                    Err(restore) => {
                        self.set_host(true);
                        let text = restore.message();
                        ControlNext::Refuse {
                            diagnostic: diagnostic.concat(
                                "; host restore also failed, adapter remains unhealthy: ",
                            ).concat(text.as_str()),
                            reopen: false,
                        }
                    },
                }
            },
            ControlStage::HostResumed(Ok(())) => ControlNext::RebindListener,
            ControlStage::HostResumed(Err(error)) => {
                let text = error.message();
                ControlNext::Refuse {
                    diagnostic:
                        "could not resume host subscription after activation abort: ".to_owned().concat(
                        text.as_str(),
                    ).concat("; old endpoint remains drained"),
                    reopen: false,
                }
            },
            ControlStage::ListenerRebound(Ok(())) => {
                self.state = ActivationState::Running;
                ControlNext::Report { kind: ReportKind::Aborted, reopen: true, stop: false }
            },
            ControlStage::ListenerRebound(Err(error)) => {
                self.set_host(false);
                ControlNext::Refuse {
                    diagnostic:
                        "could not rebind old broker listener after activation abort: ".to_owned().concat(
                        error.as_str(),
                    ).concat("; old endpoint remains drained"),
                    reopen: false,
                }
            },
            ControlStage::RetireDrained(Ok(())) => ControlNext::Report {
                kind: ReportKind::Retired,
                reopen: false,
                stop: true,
            },
            ControlStage::RetireDrained(Err(error)) => {
                let text = error.message();
                ControlNext::Refuse {
                    diagnostic: "could not drain broker-owned UI state: ".to_owned().concat(
                        text.as_str(),
                    ),
                    reopen: false,
                }
            },
        }
    }
}

} // verus!
