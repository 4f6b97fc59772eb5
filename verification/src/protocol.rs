//! Values that cross the broker's boundaries: outcomes, diagnostics and errors.
pub mod laws;

use crate::gate::GateError;
use crate::ids::{ExecutionId, UiSessionId};
use crate::menu::MenuId;
use crate::text::{debug_form, debug_text, is_truncation, truncate_utf8};
use vstd::prelude::*;
use vstd::string::StringExecFns;

verus! {

/// What a peer connects as.
#[derive(Clone, Copy, Debug, PartialEq, Eq, Structural)]
pub enum PeerRole {
    Launcher,
    Ui,
    Broker,
    ActivationCoordinator,
}

/// The terminal multiplexer behind a broker.
#[derive(Clone, Copy, Debug, PartialEq, Eq, Structural)]
pub enum HostKind {
    Zellij,
    Herdr,
}

/// How an execution ended, as its UI is told.
#[derive(Clone, Copy, Debug, PartialEq, Eq, Structural)]
pub enum ExecutionOutcome {
    Succeeded,
    Failed,
    Cancelled,
    TimedOut,
    Detached,
    OutcomeUnknown,
}

/// What becomes of the UI once an invocation is accepted.
#[derive(Clone, Copy, Debug, PartialEq, Eq, Structural)]
pub enum InvocationDisposition {
    Awaited,
    Detached,
    Dismissed,
}

/// A control that a UI sends while it waits.
#[derive(Clone, Copy, Debug, PartialEq, Eq, Structural)]
pub enum MenuControl {
    Quit,
    Return,
}

/// What a diagnostic is about.
#[derive(Clone, Copy, Debug, PartialEq, Eq, Structural)]
pub enum DiagnosticCode {
    ActionBlocked,
    ActivationInProgress,
    HostUnavailable,
    InvalidRequest,
    LaunchAborted,
    OutcomeUnknown,
    ProtocolViolation,
}

/// A diagnostic for a peer, its message cut to the protocol's limit.
#[derive(Debug, PartialEq, Eq)]
pub struct ProtocolDiagnostic {
    pub code: DiagnosticCode,
    pub message: String,
}

impl Clone for ProtocolDiagnostic {
    fn clone(&self) -> (r: Self)
        ensures
            r == *self,
    {
        ProtocolDiagnostic { code: self.code, message: self.message.clone() }
    }
}

/// A diagnostic carries a code and a text, cut to a limit.
pub open spec fn tells(
    diagnostic: ProtocolDiagnostic,
    code: DiagnosticCode,
    text: Seq<char>,
    limit: nat,
) -> bool {
    diagnostic.code == code && is_truncation(text, limit, diagnostic.message@)
}

/// There is a diagnostic, and it carries a code and a text, cut to a limit.
pub open spec fn is_told(
    diagnostic: Option<ProtocolDiagnostic>,
    code: DiagnosticCode,
    text: Seq<char>,
    limit: nat,
) -> bool {
    diagnostic matches Some(diagnostic) && tells(diagnostic, code, text, limit)
}

/// A diagnostic with its message cut to `limit` bytes.
pub fn diagnostic(code: DiagnosticCode, message: &str, limit: usize) -> (r: ProtocolDiagnostic)
    ensures
        tells(r, code, message@, limit as nat),
{
    ProtocolDiagnostic { code, message: truncate_utf8(message, limit) }
}

/// A diagnostic for the log of work that has outlived its UI. It holds no text of the host's.
#[derive(Clone, Copy, Debug, PartialEq, Eq)]
pub struct BrokerDiagnostic {
    pub execution: ExecutionId,
    pub outcome: ExecutionOutcome,
    pub code: DiagnosticCode,
}

/// Why a host capture is given up.
#[derive(Clone, Copy, Debug, PartialEq, Eq, Structural)]
pub enum CaptureReleaseReason {
    UiDismissed,
    LeaseExpired,
    Replaced,
    UserModeChanged,
    AdapterShutdown,
}

/// What kind of failure the host reported.
#[derive(Clone, Copy, Debug, PartialEq, Eq, Structural)]
pub enum AdapterErrorKind {
    Unavailable,
    Unsupported,
    CancelUnsupported,
    DispatchFailed,
    Shutdown,
    Other,
}

/// A failure that the host reported, with its text.
#[derive(Debug, PartialEq, Eq)]
pub struct AdapterError {
    pub kind: AdapterErrorKind,
    pub message: String,
}

impl Clone for AdapterError {
    fn clone(&self) -> (r: Self)
        ensures
            r == *self,
    {
        AdapterError { kind: self.kind, message: self.message.clone() }
    }
}

/// A copy of an optional text.
pub fn clone_text(value: &Option<String>) -> (r: Option<String>)
    ensures
        r == *value,
{
    match value {
        Some(value) => Some(value.clone()),
        None => None,
    }
}

/// Why the broker refuses a request.
#[derive(Debug, PartialEq, Eq)]
pub enum BrokerError {
    ActivationInProgress,
    Configuration(String),
    Adapter(AdapterError),
    Gate(GateError),
    Role { expected: PeerRole, actual: PeerRole },
    UnknownMenu(MenuId),
    UnknownSession(UiSessionId),
    CancelUnsupported,
    ActivationDrainRefused(String),
    ActivationCleanupUnconfirmed(String),
    PendingControlInFlight,
    PendingExecutionInFlight,
    StaleGeneration,
    LocalMenuAction,
    MismatchedExecution,
    ContextUnavailable,
    PortableResolution { parameter: String, message: String },
    GenericProcess(String),
}

impl PeerRole {
    /// The role's name.
    pub open spec fn text(self) -> Seq<char> {
        match self {
            PeerRole::Launcher => "Launcher"@,
            PeerRole::Ui => "Ui"@,
            PeerRole::Broker => "Broker"@,
            PeerRole::ActivationCoordinator => "ActivationCoordinator"@,
        }
    }

    /// The role's name.
    pub fn name(&self) -> (r: &'static str)
        ensures
            r@ == self.text(),
    {
        match self {
            PeerRole::Launcher => "Launcher",
            PeerRole::Ui => "Ui",
            PeerRole::Broker => "Broker",
            PeerRole::ActivationCoordinator => "ActivationCoordinator",
        }
    }
}

impl BrokerError {
    /// The text that a reader of the error sees.
    pub open spec fn text(self) -> Seq<char> {
        match self {
            BrokerError::ActivationInProgress => {
                "activation is in progress; this broker is not accepting new launches or executions"@
            },
            BrokerError::CancelUnsupported => {
                "the active host cannot cancel this pending execution"@
            },
            BrokerError::PendingControlInFlight => {
                "a menu control is already pending for this execution"@
            },
            BrokerError::PendingExecutionInFlight => {
                "the UI already has an awaited execution in flight"@
            },
            BrokerError::StaleGeneration => {
                "binding belongs to a stale configuration generation"@
            },
            BrokerError::LocalMenuAction => {
                "binding action is UI-local and must not be dispatched to the broker"@
            },
            BrokerError::MismatchedExecution => {
                "adapter acknowledged a different execution identity"@
            },
            BrokerError::ContextUnavailable => {
                "native action could not resolve against its immutable origin"@
            },
            BrokerError::Configuration(text) => {
                "configuration failed: "@ + text@
            },
            BrokerError::Adapter(error) => {
                "host adapter failed: "@ + error.message@
            },
            BrokerError::ActivationDrainRefused(text) => {
                "activation drain refused with a non-cancellable host execution in flight: "@ + text@
            },
            BrokerError::ActivationCleanupUnconfirmed(text) => {
                "activation drain timed out waiting for broker-owned host cleanup: "@ + text@
            },
            BrokerError::UnknownSession(session) => {
                "unknown UI session: "@ + session.text()
            },
            BrokerError::GenericProcess(text) => {
                "generic command supervision failed: "@ + text@
            },
            BrokerError::Gate(error) => "launch gate rejected request: "@ + error.text(),
            BrokerError::Role { expected, actual } => "peer role "@ + actual.text()
                + " cannot make this request; expected "@ + expected.text(),
            BrokerError::UnknownMenu(menu) => "requested root menu does not exist: "@
                + menu.text(),
            BrokerError::PortableResolution { parameter, message } => "portable action parameter "@
                + debug_form(parameter@) + " is invalid after origin resolution: "@ + message@,
        }
    }

    /// The text that a reader of the error sees.
    pub fn message(&self) -> (r: String)
        ensures
            r@ == self.text(),
    {
        match self {
            BrokerError::ActivationInProgress => {
                "activation is in progress; this broker is not accepting new launches or executions".to_owned()
            },
            BrokerError::CancelUnsupported => {
                "the active host cannot cancel this pending execution".to_owned()
            },
            BrokerError::PendingControlInFlight => {
                "a menu control is already pending for this execution".to_owned()
            },
            BrokerError::PendingExecutionInFlight => {
                "the UI already has an awaited execution in flight".to_owned()
            },
            BrokerError::StaleGeneration => {
                "binding belongs to a stale configuration generation".to_owned()
            },
            BrokerError::LocalMenuAction => {
                "binding action is UI-local and must not be dispatched to the broker".to_owned()
            },
            BrokerError::MismatchedExecution => {
                "adapter acknowledged a different execution identity".to_owned()
            },
            BrokerError::ContextUnavailable => {
                "native action could not resolve against its immutable origin".to_owned()
            },
            BrokerError::Configuration(text) => {
                "configuration failed: ".to_owned().concat(text.as_str())
            },
            BrokerError::Adapter(error) => {
                "host adapter failed: ".to_owned().concat(error.message.as_str())
            },
            BrokerError::ActivationDrainRefused(text) => {
                "activation drain refused with a non-cancellable host execution in flight: ".to_owned().concat(text.as_str())
            },
            BrokerError::ActivationCleanupUnconfirmed(text) => {
                "activation drain timed out waiting for broker-owned host cleanup: ".to_owned().concat(text.as_str())
            },
            BrokerError::UnknownSession(session) => {
                let name = session.message();
                "unknown UI session: ".to_owned().concat(name.as_str())
            },
            BrokerError::GenericProcess(text) => {
                "generic command supervision failed: ".to_owned().concat(text.as_str())
            },
            BrokerError::Gate(error) => "launch gate rejected request: ".to_owned().concat(
                error.message(),
            ),
            BrokerError::Role { expected, actual } => "peer role ".to_owned().concat(
                actual.name(),
            ).concat(" cannot make this request; expected ").concat(expected.name()),
            BrokerError::UnknownMenu(menu) => {
                let name = menu.message();
                "requested root menu does not exist: ".to_owned().concat(name.as_str())
            },
            BrokerError::PortableResolution { parameter, message } => {
                let quoted = debug_text(parameter.as_str());
                "portable action parameter ".to_owned().concat(quoted.as_str()).concat(
                    " is invalid after origin resolution: ",
                ).concat(message.as_str())
            },
        }
    }
}

} // verus!
