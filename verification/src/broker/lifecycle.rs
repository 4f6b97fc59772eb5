//! What happens to executions and sessions after they are admitted: stops, deadlines, ends,
//! controls, and what the host reports.
use super::{next_counter, counter_after, Broker, BrokerModel};
use crate::execution::{
    Completion, ControlStep, DeferredDispatch, ExecutionOwner, ExecutionPhase, StopTarget,
    TimeoutAction,
};
use crate::broker::invoke::DispatchAccepted;
use crate::ids::{CaptureLeaseId, CoreExecutionId, EventId, ExecutionId, ModalScopeId, UiSessionId};
use crate::protocol::{
    diagnostic, is_told, tells, AdapterError, AdapterErrorKind, BrokerError, CaptureReleaseReason,
    DiagnosticCode, ExecutionOutcome, MenuControl, PeerRole, ProtocolDiagnostic,
};
use crate::table::{lookup, Key};
use crate::text::{counter_bytes, is_truncation, spells_counter};
use crate::time::Duration;
use vstd::prelude::*;
use vstd::string::StringExecFns;

verus! {

/// What a requested stop comes to.
#[derive(Clone, Copy, Debug, PartialEq, Eq, Structural)]
pub enum StopAction {
    /// There is nothing to send.
    Settled,
    /// The host is asked to cancel.
    CancelHost,
    /// The child's process group is signalled.
    SignalChild,
    /// The child is not there to be signalled.
    Unsupported,
}

/// What an elapsed deadline comes to.
#[derive(Debug, PartialEq, Eq)]
pub struct DeadlineEffects {
    /// Who is stopped.
    pub stop: StopAction,
    /// Who is told, and what.
    pub session: Option<UiSessionId>,
    pub wire: ExecutionId,
    pub outcome: ExecutionOutcome,
    pub diagnostic: ProtocolDiagnostic,
}

/// How the host says that work ended.
#[derive(Debug, PartialEq, Eq)]
pub enum DispatchCompletion {
    Succeeded { execution: CoreExecutionId },
    Failed { execution: CoreExecutionId, error: AdapterError },
    OutcomeUnknown { execution: CoreExecutionId, error: AdapterError },
}

impl DispatchCompletion {
    pub open spec fn about(self) -> CoreExecutionId {
        match self {
            DispatchCompletion::Succeeded { execution } => execution,
            DispatchCompletion::Failed { execution, .. } => execution,
            DispatchCompletion::OutcomeUnknown { execution, .. } => execution,
        }
    }

    pub open spec fn outcome(self) -> ExecutionOutcome {
        match self {
            DispatchCompletion::Succeeded { .. } => ExecutionOutcome::Succeeded,
            DispatchCompletion::Failed { .. } => ExecutionOutcome::Failed,
            DispatchCompletion::OutcomeUnknown { .. } => ExecutionOutcome::OutcomeUnknown,
        }
    }

    /// The diagnostic that goes with an end.
    pub open spec fn is_told_by(self, diagnostic: Option<ProtocolDiagnostic>, limit: nat) -> bool {
        match self {
            DispatchCompletion::Succeeded { .. } => diagnostic is None,
            DispatchCompletion::Failed { error, .. } => diagnostic matches Some(diagnostic)
                && tells(diagnostic, DiagnosticCode::ActionBlocked, error.message@, limit),
            DispatchCompletion::OutcomeUnknown { error, .. } => diagnostic matches Some(diagnostic)
                && tells(diagnostic, DiagnosticCode::OutcomeUnknown, error.message@, limit),
        }
    }
}

/// How a child ended by itself.
#[derive(Debug, PartialEq, Eq)]
pub enum ChildExit {
    Success,
    /// It ended with a failure, whose text is given.
    Failure(String),
    /// It could not be waited for; the text says why.
    WaitFailed(String),
}

/// Why a child is stopped.
#[derive(Clone, Copy, Debug, PartialEq, Eq, Structural)]
pub enum GenericCancellation {
    UserRequested,
    Timeout,
}

/// What the end of a child by itself means.
pub fn generic_exit_outcome(status: &ChildExit, limit: usize) -> (r: (
    ExecutionOutcome,
    Option<ProtocolDiagnostic>,
))
    ensures
        match *status {
            ChildExit::Success => r == (
                ExecutionOutcome::Succeeded,
                None::<ProtocolDiagnostic>,
            ),
            ChildExit::Failure(text) => r.0 == ExecutionOutcome::Failed && is_told(
                r.1,
                DiagnosticCode::ActionBlocked,
                "generic command exited with "@ + text@,
                limit as nat,
            ),
            ChildExit::WaitFailed(text) => r.0 == ExecutionOutcome::Failed && is_told(
                r.1,
                DiagnosticCode::ActionBlocked,
                "could not reap generic command: "@ + text@,
                limit as nat,
            ),
        },
        r.0 is Succeeded <==> status is Success,
        r.1 is None <==> status is Success,
        !(status is Success) ==> r.0 is Failed && r.1->Some_0.code is ActionBlocked,
{
    match status {
        ChildExit::Success => (ExecutionOutcome::Succeeded, None),
        ChildExit::Failure(text) => {
            let message = "generic command exited with ".to_owned().concat(text.as_str());
            let told = diagnostic(DiagnosticCode::ActionBlocked, message.as_str(), limit);
            (ExecutionOutcome::Failed, Some(told))
        },
        ChildExit::WaitFailed(text) => {
            let message = "could not reap generic command: ".to_owned().concat(text.as_str());
            let told = diagnostic(DiagnosticCode::ActionBlocked, message.as_str(), limit);
            (ExecutionOutcome::Failed, Some(told))
        },
    }
}

/// What the end of a child that was stopped means.
pub fn generic_cancel_outcome(
    reason: GenericCancellation,
    reaped: &Result<(), String>,
    limit: usize,
) -> (r: (ExecutionOutcome, Option<ProtocolDiagnostic>))
    ensures
        match *reaped {
            Ok(()) => r == (
                if reason == GenericCancellation::Timeout {
                    ExecutionOutcome::TimedOut
                } else {
                    ExecutionOutcome::Cancelled
                },
                None::<ProtocolDiagnostic>,
            ),
            Err(text) => r.0 == ExecutionOutcome::Failed && is_told(
                r.1,
                DiagnosticCode::ActionBlocked,
                text@,
                limit as nat,
            ),
        },
        r.0 is TimedOut <==> reaped is Ok && reason is Timeout,
        r.0 is Cancelled <==> reaped is Ok && reason is UserRequested,
        r.0 is Failed <==> reaped is Err,
        r.1 is Some <==> reaped is Err,
{
    match reaped {
        Ok(()) => {
            let outcome = if reason == GenericCancellation::Timeout {
                ExecutionOutcome::TimedOut
            } else {
                ExecutionOutcome::Cancelled
            };
            (outcome, None)
        },
        Err(text) => {
            let told = diagnostic(DiagnosticCode::ActionBlocked, text.as_str(), limit);
            (ExecutionOutcome::Failed, Some(told))
        },
    }
}

/// What a menu control comes to.
#[derive(Debug, PartialEq, Eq)]
pub enum ControlNext {
    /// The UI waits for nothing; it may go on.
    Acknowledge,
    /// The UI may leave the execution.
    Complete { execution: ExecutionId, control: MenuControl },
    /// The execution is stopped first.
    Stop { core: CoreExecutionId, execution: ExecutionId },
    Refuse(BrokerError),
}

/// What a peer asks of the broker.
#[derive(Clone, Copy, Debug, PartialEq, Eq, Structural)]
pub enum RequestKind {
    PrepareUiLaunch,
    RegisterPendingPane,
    CommitUiLaunch,
    AbortUiLaunch,
    AttachUi,
    InvokeBinding,
    MenuControl,
    DetachUi,
    Heartbeat,
}

/// Who may ask for what. Everybody may send a heartbeat.
pub open spec fn role_for(kind: RequestKind) -> Option<PeerRole> {
    match kind {
        RequestKind::PrepareUiLaunch
        | RequestKind::RegisterPendingPane
        | RequestKind::CommitUiLaunch
        | RequestKind::AbortUiLaunch => Some(PeerRole::Launcher),
        RequestKind::AttachUi
        | RequestKind::InvokeBinding
        | RequestKind::MenuControl
        | RequestKind::DetachUi => Some(PeerRole::Ui),
        RequestKind::Heartbeat => None,
    }
}

/// Refuses a peer of another role.
pub fn require_role(role: PeerRole, expected: PeerRole) -> (r: Result<(), BrokerError>)
    ensures
        r == if role == expected {
            Ok::<(), BrokerError>(())
        } else {
            Err(BrokerError::Role { expected, actual: role })
        },
        r is Ok <==> role == expected,
{
    if role == expected {
        Ok(())
    } else {
        Err(BrokerError::Role { expected, actual: role })
    }
}

/// Refuses a peer what its role may not ask for.
pub fn authorize(role: PeerRole, kind: RequestKind) -> (r: Result<(), BrokerError>)
    ensures
        r == (match role_for(kind) {
            Some(expected) if role != expected => Err::<(), BrokerError>(
                BrokerError::Role { expected, actual: role },
            ),
            _ => Ok(()),
        }),
        role is Launcher ==> (r is Ok <==> kind is PrepareUiLaunch || kind is RegisterPendingPane
            || kind is CommitUiLaunch || kind is AbortUiLaunch || kind is Heartbeat),
        role is Ui ==> (r is Ok <==> kind is AttachUi || kind is InvokeBinding || kind is MenuControl
            || kind is DetachUi || kind is Heartbeat),
        !(role is Launcher) && !(role is Ui) ==> (r is Ok <==> kind is Heartbeat),
        r matches Err(error) ==> (error matches BrokerError::Role { expected, actual } && actual
            == role && expected != role),
{
    match kind {
        RequestKind::PrepareUiLaunch
        | RequestKind::RegisterPendingPane
        | RequestKind::CommitUiLaunch
        | RequestKind::AbortUiLaunch => require_role(role, PeerRole::Launcher),
        RequestKind::AttachUi
        | RequestKind::InvokeBinding
        | RequestKind::MenuControl
        | RequestKind::DetachUi => require_role(role, PeerRole::Ui),
        RequestKind::Heartbeat => Ok(()),
    }
}

/// Why the host took a capture away.
#[derive(Clone, Copy, Debug, PartialEq, Eq, Structural)]
pub enum CaptureLossReason {
    LeaseReplaced,
    UserModeChanged,
    BrokerLeaseExpired,
    AdapterHealth,
}

/// Why a session is detached whose capture the host took away.
pub fn release_reason(loss: CaptureLossReason) -> (r: CaptureReleaseReason)
    ensures
        r == (match loss {
            CaptureLossReason::LeaseReplaced => CaptureReleaseReason::Replaced,
            CaptureLossReason::UserModeChanged => CaptureReleaseReason::UserModeChanged,
            CaptureLossReason::BrokerLeaseExpired | CaptureLossReason::AdapterHealth => {
                CaptureReleaseReason::AdapterShutdown
            },
        }),
        r is Replaced <==> loss is LeaseReplaced,
        r is UserModeChanged <==> loss is UserModeChanged,
        r is AdapterShutdown <==> loss is BrokerLeaseExpired || loss is AdapterHealth,
{
    match loss {
        CaptureLossReason::LeaseReplaced => CaptureReleaseReason::Replaced,
        CaptureLossReason::UserModeChanged => CaptureReleaseReason::UserModeChanged,
        CaptureLossReason::BrokerLeaseExpired | CaptureLossReason::AdapterHealth => {
            CaptureReleaseReason::AdapterShutdown
        },
    }
}

/// What the host reports.
#[derive(Debug, PartialEq, Eq)]
pub enum AdapterHealthEvent {
    Healthy,
    CaptureReady,
    Reconnected,
    Unhealthy { modal_scope: Option<ModalScopeId>, error: AdapterError },
    CaptureLost { lease: CaptureLeaseId, reason: CaptureLossReason },
    DispatchCompleted(DispatchCompletion),
}

/// What a report of the host leads to.
#[allow(inconsistent_fields)]
#[derive(Debug, PartialEq, Eq)]
pub enum HealthAction {
    /// Every UI is told.
    Broadcast { healthy: bool, error: Option<AdapterError> },
    /// One scope is taken down.
    LoseScope { scope: ModalScopeId, error: AdapterError },
    /// One session is detached.
    Detach { session: UiSessionId, reason: CaptureReleaseReason },
    /// An execution ended.
    Complete(DispatchCompletion),
    Nothing,
}

/// What the watch over the host's health does next.
#[derive(Debug, PartialEq, Eq)]
pub enum MonitorStep {
    /// The report is followed.
    Handle(AdapterHealthEvent),
    /// Every UI is told that the host is unwell, and the host is asked again after a while.
    Report(AdapterError),
    /// The host has shut down; the watch ends.
    Stop,
}

/// What a report of the host, or the failure to get one, leads the watch to do.
pub fn monitor_step(event: Result<AdapterHealthEvent, AdapterError>) -> (r: MonitorStep)
    ensures
        r == (match event {
            Ok(event) => MonitorStep::Handle(event),
            Err(error) => if error.kind == AdapterErrorKind::Shutdown {
                MonitorStep::Stop
            } else {
                MonitorStep::Report(error)
            },
        }),
        r is Stop <==> event is Err && event->Err_0.kind is Shutdown,
        r is Handle <==> event is Ok,
        r matches MonitorStep::Handle(handled) ==> event == Ok::<AdapterHealthEvent, AdapterError>(
            handled,
        ),
        r matches MonitorStep::Report(told) ==> event == Err::<AdapterHealthEvent, AdapterError>(told),
{
    match event {
        Ok(event) => MonitorStep::Handle(event),
        Err(error) => if error.kind == AdapterErrorKind::Shutdown {
            MonitorStep::Stop
        } else {
            MonitorStep::Report(error)
        },
    }
}

/// What a UI is told of the host's failure, cut to `limit` bytes.
pub fn health_diagnostic(error: &Option<AdapterError>, limit: usize) -> (r: Option<
    ProtocolDiagnostic,
>)
    ensures
        match *error {
            Some(error) => is_told(
                r,
                DiagnosticCode::HostUnavailable,
                error.message@,
                limit as nat,
            ),
            None => r is None,
        },
        r is Some <==> error is Some,
        r matches Some(told) ==> told.code is HostUnavailable && is_truncation(
            error->Some_0.message@,
            limit as nat,
            told.message@,
        ),
{
    match error {
        Some(error) => Some(
            diagnostic(DiagnosticCode::HostUnavailable, error.message.as_str(), limit),
        ),
        None => None,
    }
}

/// How an event could be put into the bounded queue of a UI.
#[derive(Clone, Copy, Debug, PartialEq, Eq, Structural)]
pub enum SendOutcome {
    Sent,
    Full,
    Closed,
}

/// Whether a UI is to be taken down after a delivery: it is where its queue is full. A closed queue
/// means that it is gone already.
pub fn note_send_outcome(outcome: SendOutcome) -> (r: bool)
    ensures
        r == (outcome == SendOutcome::Full),
        outcome is Full ==> r,
        outcome is Sent || outcome is Closed ==> !r,
{
    outcome == SendOutcome::Full
}

/// How far a gated session is.
#[derive(Debug, PartialEq, Eq)]
pub enum SessionReadiness {
    Pending,
    Ready,
    Failed(ProtocolDiagnostic),
}

/// What a waiting UI is answered.
#[derive(Debug, PartialEq, Eq)]
pub enum AttachmentAnswer {
    /// It waits on.
    Wait,
    /// It stands.
    Attached,
    Failed(ProtocolDiagnostic),
}

/// What a waiting UI is answered; `closed` says that nobody is left who could make it ready.
pub fn attachment_answer(readiness: SessionReadiness, closed: bool, limit: usize) -> (r:
    AttachmentAnswer)
    ensures
        match readiness {
            SessionReadiness::Ready => r == AttachmentAnswer::Attached,
            SessionReadiness::Failed(told) => r == AttachmentAnswer::Failed(told),
            SessionReadiness::Pending => if closed {
                r matches AttachmentAnswer::Failed(told) && tells(
                    told,
                    DiagnosticCode::LaunchAborted,
                    "UI launch was cancelled before attachment completed"@,
                    limit as nat,
                )
            } else {
                r == AttachmentAnswer::Wait
            },
        },
        r is Attached <==> readiness is Ready,
        r is Wait <==> readiness is Pending && !closed,
        readiness matches SessionReadiness::Failed(told) ==> r == AttachmentAnswer::Failed(told),
        readiness is Pending && closed ==> r is Failed && r->Failed_0.code is LaunchAborted,
{
    match readiness {
        SessionReadiness::Ready => AttachmentAnswer::Attached,
        SessionReadiness::Failed(told) => AttachmentAnswer::Failed(told),
        SessionReadiness::Pending => if closed {
            AttachmentAnswer::Failed(
                diagnostic(
                    DiagnosticCode::LaunchAborted,
                    "UI launch was cancelled before attachment completed",
                    limit,
                ),
            )
        } else {
            AttachmentAnswer::Wait
        },
    }
}

/// What a UI is answered whose session was detached while it waited.
pub fn detached_readiness(limit: usize) -> (r: SessionReadiness)
    ensures
        r matches SessionReadiness::Failed(told) && tells(
            told,
            DiagnosticCode::LaunchAborted,
            "UI session detached"@,
            limit as nat,
        ),
        r is Failed && r->Failed_0.code is LaunchAborted,
        is_truncation("UI session detached"@, limit as nat, r->Failed_0.message@),
{
    SessionReadiness::Failed(
        diagnostic(DiagnosticCode::LaunchAborted, "UI session detached", limit),
    )
}

impl BrokerModel {
    /// A stop is requested.
    pub open spec fn request_stop(self, core: u64) -> (Self, StopAction) {
        let (executions, target) = self.executions.request_stop(core);
        let requested = BrokerModel { executions, ..self };
        let spawned = self.processes.contains_key(core);
        match target {
            None => (requested, StopAction::Settled),
            Some(StopTarget::Adapter) => (requested, StopAction::CancelHost),
            Some(StopTarget::GenericProcess) => if spawned {
                (requested, StopAction::SignalChild)
            } else {
                (
                    BrokerModel { executions: executions.stop_failed(core), ..self },
                    StopAction::Unsupported,
                )
            },
            Some(StopTarget::GenericProcessIfSpawned) => (
                requested,
                if spawned {
                    StopAction::SignalChild
                } else {
                    StopAction::Settled
                },
            ),
        }
    }

    /// `after` and `r` are what an elapsed deadline leads to.
    pub open spec fn deadline_elapses(
        self,
        core: u64,
        on_timeout: TimeoutAction,
        limit: nat,
        after: Self,
        r: Option<DeadlineEffects>,
    ) -> bool {
        let (executions, expiry) = self.executions.deadline_elapsed(core, on_timeout);
        &&& after == BrokerModel { executions, ..self }
        &&& match expiry {
            None => r is None,
            Some(expiry) => {
                &&& r matches Some(effects)
                &&& effects.session == expiry.session
                &&& effects.wire == expiry.wire
                &&& effects.outcome == expiry.outcome
                &&& effects.stop == match expiry.stop {
                    None => StopAction::Settled,
                    Some(ExecutionOwner::Adapter) => StopAction::CancelHost,
                    Some(ExecutionOwner::GenericProcess) => if self.processes.contains_key(core) {
                        StopAction::SignalChild
                    } else {
                        StopAction::Settled
                    },
                }
                &&& tells(
                    effects.diagnostic,
                    DiagnosticCode::ActionBlocked,
                    "execution exceeded its configured timeout"@,
                    limit,
                )
            },
        }
    }

    /// `after` and `r` are what the host's report of an end leads to.
    pub open spec fn dispatch_completes(
        self,
        completion: DispatchCompletion,
        limit: nat,
        after: Self,
        r: Option<Completion>,
    ) -> bool {
        exists|told: Option<ProtocolDiagnostic>|
            {
                &&& #[trigger] completion.is_told_by(told, limit)
                &&& (after.executions, r) == self.executions.complete(
                    completion.about()@,
                    ExecutionOwner::Adapter,
                    completion.outcome(),
                    told,
                )
                &&& after == BrokerModel { executions: after.executions, ..self }
            }
    }

    /// A child ended: it is supervised no more, and its execution ends.
    pub open spec fn finish_generic(
        self,
        core: u64,
        outcome: ExecutionOutcome,
        told: Option<ProtocolDiagnostic>,
    ) -> (Self, Option<Completion>) {
        let (executions, completion) = self.executions.complete(
            core,
            ExecutionOwner::GenericProcess,
            outcome,
            told,
        );
        (
            BrokerModel { executions, processes: self.processes.remove(core), ..self },
            completion,
        )
    }

    /// A control that came to nothing is refused, where it is still pending; else the UI may go.
    pub open spec fn control_refused(
        self,
        session: Seq<char>,
        core: u64,
        execution: ExecutionId,
        control: MenuControl,
        error: BrokerError,
    ) -> (Self, ControlNext) {
        let (executions, cleared) = self.executions.clear_control(session, core, control);
        (
            BrokerModel { executions, ..self },
            if cleared {
                ControlNext::Refuse(error)
            } else {
                ControlNext::Complete { execution, control }
            },
        )
    }

    /// A UI sends a menu control.
    pub open spec fn control(self, session: Seq<char>, control: MenuControl) -> (
        Self,
        ControlNext,
    ) {
        match self.executions.begin_control(session, control) {
            (_, Ok(None)) => (self, ControlNext::Acknowledge),
            (_, Err(error)) => (self, ControlNext::Refuse(error)),
            (executions, Ok(Some(start))) => {
                let begun = BrokerModel { executions, ..self };
                match start.step {
                    ControlStep::Accept => (
                        begun,
                        ControlNext::Complete { execution: start.wire, control },
                    ),
                    ControlStep::Stop => (
                        begun,
                        ControlNext::Stop { core: start.core, execution: start.wire },
                    ),
                    ControlStep::Refuse => begun.control_refused(
                        session,
                        start.core@,
                        start.wire,
                        control,
                        BrokerError::CancelUnsupported,
                    ),
                }
            },
        }
    }

    /// A session holds this capture.
    pub open spec fn holds_capture(self, session: Seq<char>, lease: Seq<char>) -> bool {
        lookup(self.sessions, session) matches Some(record) && record.capture matches Some(capture)
            && capture.id@ == lease
    }

    /// The host answers for work that waited for the UI's pane to go. An answer that names another
    /// execution still means that the work was taken.
    pub open spec fn post_dismissed(
        self,
        core: u64,
        outcome: Result<DispatchAccepted, AdapterError>,
    ) -> (Self, Option<(Duration, TimeoutAction)>) {
        match outcome {
            Err(_) => (
                BrokerModel { executions: self.executions.release(core).0, ..self },
                None,
            ),
            Ok(accepted) => {
                let (executions, activation) = self.executions.detach_ui(core).activate(
                    core,
                    ExecutionPhase::Adapter,
                    accepted.cancellable,
                );
                (BrokerModel { executions, ..self }, activation.deadline)
            },
        }
    }
}

impl Broker {
    /// Requests that an execution stops, and says what to send.
    pub fn request_execution_stop(&mut self, core: CoreExecutionId) -> (r: StopAction)
        ensures
            (final(self)@, r) == old(self)@.request_stop(core@),
    {
        match self.executions.request_stop(core) {
            None => StopAction::Settled,
            Some(StopTarget::Adapter) => StopAction::CancelHost,
            Some(StopTarget::GenericProcess) => if self.processes.contains_key(&core) {
                StopAction::SignalChild
            } else {
                self.executions.stop_failed(core);
                StopAction::Unsupported
            },
            Some(StopTarget::GenericProcessIfSpawned) => if self.processes.contains_key(&core) {
                StopAction::SignalChild
            } else {
                StopAction::Settled
            },
        }
    }

    /// Takes note that a stop could not be sent; it may be requested again.
    pub fn execution_stop_failed(&mut self, core: CoreExecutionId)
        ensures
            final(self)@ == (BrokerModel {
                executions: old(self)@.executions.stop_failed(core@),
                ..old(self)@
            }),
    {
        self.executions.stop_failed(core);
    }

    /// Takes the answer to a stop that was sent. Where it could not be sent, it may be requested again.
    pub fn execution_stop_answered(
        &mut self,
        core: CoreExecutionId,
        outcome: Result<(), BrokerError>,
    ) -> (r: Result<(), BrokerError>)
        ensures
            r == outcome,
            final(self)@ == match outcome {
                Ok(()) => old(self)@,
                Err(_) => BrokerModel {
                    executions: old(self)@.executions.stop_failed(core@),
                    ..old(self)@
                },
            },
    {
        if outcome.is_err() {
            self.execution_stop_failed(core);
        }
        outcome
    }

    /// Whether an execution has ended.
    pub fn is_terminal(&self, core: CoreExecutionId) -> (r: bool)
        ensures
            r == !self@.executions.executions.contains_key(core@),
    {
        self.executions.get(core).is_none()
    }

    /// Applies an elapsed deadline: who is told, and who is stopped.
    pub fn deadline_elapsed(
        &mut self,
        core: CoreExecutionId,
        on_timeout: TimeoutAction,
        limit: usize,
    ) -> (r: Option<DeadlineEffects>)
        ensures
            old(self)@.deadline_elapses(core@, on_timeout, limit as nat, final(self)@, r),
    {
        match self.executions.deadline_elapsed(core, on_timeout) {
            None => None,
            Some(expiry) => {
                let stop = match expiry.stop {
                    None => StopAction::Settled,
                    Some(ExecutionOwner::Adapter) => StopAction::CancelHost,
                    Some(ExecutionOwner::GenericProcess) => if self.processes.contains_key(&core) {
                        StopAction::SignalChild
                    } else {
                        StopAction::Settled
                    },
                };
                let told = diagnostic(
                    DiagnosticCode::ActionBlocked,
                    "execution exceeded its configured timeout",
                    limit,
                );
                Some(
                    DeadlineEffects {
                        stop,
                        session: expiry.session,
                        wire: expiry.wire,
                        outcome: expiry.outcome,
                        diagnostic: told,
                    },
                )
            },
        }
    }

    /// Ends an execution that the host reports as ended, and says whom to tell.
    pub fn dispatch_completed(&mut self, completion: &DispatchCompletion, limit: usize) -> (r: Option<
        Completion,
    >)
        ensures
            old(self)@.dispatch_completes(*completion, limit as nat, final(self)@, r),
    {
        let (core, outcome, told) = match completion {
            DispatchCompletion::Succeeded { execution } => (
                *execution,
                ExecutionOutcome::Succeeded,
                None,
            ),
            DispatchCompletion::Failed { execution, error } => (
                *execution,
                ExecutionOutcome::Failed,
                Some(diagnostic(DiagnosticCode::ActionBlocked, error.message.as_str(), limit)),
            ),
            DispatchCompletion::OutcomeUnknown { execution, error } => (
                *execution,
                ExecutionOutcome::OutcomeUnknown,
                Some(diagnostic(DiagnosticCode::OutcomeUnknown, error.message.as_str(), limit)),
            ),
        };
        assert(completion.is_told_by(told, limit as nat));
        self.executions.complete(core, ExecutionOwner::Adapter, outcome, told)
    }

    /// Ends the execution of a child that is gone, and says whom to tell.
    pub fn finish_generic(
        &mut self,
        core: CoreExecutionId,
        outcome: ExecutionOutcome,
        told: Option<ProtocolDiagnostic>,
    ) -> (r: Option<Completion>)
        ensures
            (final(self)@, r) == old(self)@.finish_generic(core@, outcome, told),
    {
        self.processes.remove(&core);
        self.executions.complete(core, ExecutionOwner::GenericProcess, outcome, told)
    }

    /// Whether some child is still supervised.
    pub fn has_supervised_children(&self) -> (r: bool)
        ensures
            r == (exists|core: u64| #[trigger] self@.processes.contains_key(core)),
    {
        let empty = self.processes.is_empty();
        proof {
            if !empty {
                let core = choose|core: u64| #[trigger] self.processes@.contains_key(core);
                assert(self@.processes.contains_key(core));
            } else {
                assert forall|core: u64| !#[trigger] self@.processes.contains_key(core) by {
                    assert(!self.processes@.contains_key(core));
                }
            }
        }
        !empty
    }

    fn refuse_control(
        &mut self,
        session: &UiSessionId,
        core: CoreExecutionId,
        execution: ExecutionId,
        control: MenuControl,
        error: BrokerError,
    ) -> (r: ControlNext)
        ensures
            (final(self)@, r) == old(self)@.control_refused(
                session@,
                core@,
                execution,
                control,
                error,
            ),
    {
        if self.executions.clear_control(session, core, control) {
            ControlNext::Refuse(error)
        } else {
            ControlNext::Complete { execution, control }
        }
    }

    /// Takes up a menu control of a UI.
    pub fn control(&mut self, session: &UiSessionId, control: MenuControl) -> (r: ControlNext)
        ensures
            (final(self)@, r) == old(self)@.control(session@, control),
    {
        match self.executions.begin_control(session, control) {
            Ok(None) => ControlNext::Acknowledge,
            Err(error) => ControlNext::Refuse(error),
            Ok(Some(start)) => match start.step {
                ControlStep::Accept => ControlNext::Complete { execution: start.wire, control },
                ControlStep::Stop => ControlNext::Stop { core: start.core, execution: start.wire },
                ControlStep::Refuse => self.refuse_control(
                    session,
                    start.core,
                    start.wire,
                    control,
                    BrokerError::CancelUnsupported,
                ),
            },
        }
    }

    /// Goes on with a menu control once the stop that it asked for was sent, or could not be.
    pub fn control_stopped(
        &mut self,
        session: &UiSessionId,
        core: CoreExecutionId,
        execution: ExecutionId,
        control: MenuControl,
        stopped: Result<(), BrokerError>,
    ) -> (r: ControlNext)
        ensures
            match stopped {
                Ok(()) => final(self)@ == old(self)@ && r == (ControlNext::Complete {
                    execution,
                    control,
                }),
                Err(error) => (final(self)@, r) == old(self)@.control_refused(
                    session@,
                    core@,
                    execution,
                    control,
                    error,
                ),
            },
            stopped is Ok ==> r is Complete,
            r matches ControlNext::Refuse(error) ==> stopped == Err::<(), BrokerError>(error),
            r is Refuse || r is Complete,
    {
        match stopped {
            Ok(()) => ControlNext::Complete { execution, control },
            Err(error) => self.refuse_control(session, core, execution, control, error),
        }
    }

    /// Takes the work that waited for the UI's pane to go, once.
    pub fn schedule_post_dismissal(&mut self, core: CoreExecutionId) -> (r: Option<DeferredDispatch>)
        ensures
            r == old(self)@.executions.take_deferred(core@).1,
            final(self)@ == (BrokerModel {
                executions: old(self)@.executions.take_deferred(core@).0,
                ..old(self)@
            }),
    {
        self.executions.take_deferred(core)
    }

    /// Takes up the host's answer for work that waited for the UI's pane to go; a deadline may
    /// have to be started.
    pub fn post_dismissed(
        &mut self,
        core: CoreExecutionId,
        outcome: &Result<DispatchAccepted, AdapterError>,
    ) -> (r: Option<(Duration, TimeoutAction)>)
        ensures
            (final(self)@, r) == old(self)@.post_dismissed(core@, *outcome),
    {
        match outcome {
            Err(_) => {
                self.executions.release(core);
                None
            },
            Ok(accepted) => {
                self.executions.detach_ui(core);
                let activation = self.executions.activate(
                    core,
                    ExecutionPhase::Adapter,
                    accepted.cancellable,
                );
                activation.deadline
            },
        }
    }

    /// A session that holds a capture.
    pub fn session_of_capture(&self, lease: &CaptureLeaseId) -> (r: Option<UiSessionId>)
        ensures
            match r {
                Some(session) => self@.holds_capture(session@, lease@),
                None => forall|session: Seq<char>| !#[trigger] self@.holds_capture(session, lease@),
            },
    {
        let n: usize = self.sessions.len();
        let mut i: usize = 0;
        while i < n
            invariant
                i <= n,
                n == self.sessions.items().len(),
                self.sessions.agrees(),
                forall|j: int|
                    0 <= j < i ==> !self@.holds_capture(
                        (#[trigger] self.sessions.items()[j]).0@,
                        lease@,
                    ),
            decreases n - i,
        {
            let item = self.sessions.item_at(i);
            assert(self@.sessions.contains_key(self.sessions.items()[i as int].0@));
            if let Some(capture) = &item.1.capture {
                if capture.id.same(lease) {
                    return Some(item.0.clone());
                }
            }
            i += 1;
        }
        assert forall|session: Seq<char>| !#[trigger] self@.holds_capture(session, lease@) by {
            if self@.sessions.contains_key(session) {
                let j = choose|j: int|
                    0 <= j < self.sessions.items().len() && (
                    #[trigger] self.sessions.items()[j]).0@ == session;
                assert(!self@.holds_capture(self.sessions.items()[j].0@, lease@));
            }
        }
        None
    }

    /// What a report of the host leads to.
    pub fn handle_health_event(&self, event: AdapterHealthEvent) -> (r: HealthAction)
        ensures
            match event {
                AdapterHealthEvent::Healthy
                | AdapterHealthEvent::CaptureReady
                | AdapterHealthEvent::Reconnected => r == (HealthAction::Broadcast {
                    healthy: true,
                    error: None,
                }),
                AdapterHealthEvent::Unhealthy { modal_scope: None, error } => r == (
                HealthAction::Broadcast { healthy: false, error: Some(error) }),
                AdapterHealthEvent::Unhealthy { modal_scope: Some(scope), error } => r == (
                HealthAction::LoseScope { scope, error }),
                AdapterHealthEvent::CaptureLost { lease, reason } => match r {
                    HealthAction::Detach { session, reason: given } => self@.holds_capture(
                        session@,
                        lease@,
                    ) && given == (match reason {
                        CaptureLossReason::LeaseReplaced => CaptureReleaseReason::Replaced,
                        CaptureLossReason::UserModeChanged => CaptureReleaseReason::UserModeChanged,
                        _ => CaptureReleaseReason::AdapterShutdown,
                    }),
                    _ => r == HealthAction::Nothing && forall|session: Seq<char>|
                        !#[trigger] self@.holds_capture(session, lease@),
                },
                AdapterHealthEvent::DispatchCompleted(completion) => r == HealthAction::Complete(
                    completion,
                ),
            },
            r is LoseScope <==> event is Unhealthy && event->modal_scope is Some,
            r matches HealthAction::LoseScope { scope, error } ==> event == (
            AdapterHealthEvent::Unhealthy { modal_scope: Some(scope), error }),
            r is Broadcast <==> event is Healthy || event is CaptureReady || event is Reconnected || (
            event is Unhealthy && event->modal_scope is None),
            r matches HealthAction::Broadcast { healthy, error } ==> (healthy <==> !(
            event is Unhealthy)) && (healthy <==> error is None),
            r is Detach || r is Nothing ==> event is CaptureLost,
            event matches AdapterHealthEvent::CaptureLost { lease, .. } ==> (r is Detach <==> exists|
                session: Seq<char>,
            | #[trigger] self@.holds_capture(session, lease@)),
            r is Complete <==> event is DispatchCompleted,
            r matches HealthAction::Detach { session, .. } ==> self@.sessions.contains_key(session@)
                && self@.sessions[session@].capture is Some
                && self@.sessions[session@].capture->Some_0.id@ == event->lease@,
            event is CaptureLost && r is Nothing ==> forall|session: Seq<char>| #[trigger]
                self@.sessions.contains_key(session) && self@.sessions[session].capture is Some
                    ==> self@.sessions[session].capture->Some_0.id@ != event->lease@,
    {
        match event {
            AdapterHealthEvent::Healthy
            | AdapterHealthEvent::CaptureReady
            | AdapterHealthEvent::Reconnected => HealthAction::Broadcast {
                healthy: true,
                error: None,
            },
            AdapterHealthEvent::Unhealthy { modal_scope, error } => match modal_scope {
                None => HealthAction::Broadcast { healthy: false, error: Some(error) },
                Some(scope) => HealthAction::LoseScope { scope, error },
            },
            AdapterHealthEvent::CaptureLost { lease, reason } => {
                match self.session_of_capture(&lease) {
                    Some(session) => HealthAction::Detach { session, reason: release_reason(reason) },
                    None => {
                        assert forall|session: Seq<char>| #[trigger]
                            self@.sessions.contains_key(session)
                                && self@.sessions[session].capture is Some implies self@.sessions[session].capture->Some_0.id@
                            != lease@ by {
                            assert(!self@.holds_capture(session, lease@));
                        }
                        HealthAction::Nothing
                    },
                }
            },
            AdapterHealthEvent::DispatchCompleted(completion) => HealthAction::Complete(completion),
        }
    }

    /// An identity for an event that was not given out before.
    pub fn new_event_id(&mut self) -> (r: EventId)
        ensures
            spells_counter(r@, old(self)@.next_event),
            final(self)@ == (BrokerModel {
                next_event: counter_after(old(self)@.next_event),
                ..old(self)@
            }),
    {
        let number: u64 = self.next_event;
        self.next_event = next_counter(number);
        EventId(counter_bytes(number))
    }
}

} // verus!
