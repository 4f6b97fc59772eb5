//! How a binding is invoked: admitted, handed to the host or spawned, and accepted.
use super::{counter_after, next_counter, Broker, BrokerModel, DetachEffects, SessionRecord};
use crate::command::{requires_post_dismissal, waits_for_dismissal, PortableAction};
use crate::execution::{
    DeferredDispatch, ExecutionMode, ExecutionOwner, ExecutionPhase, ExecutionPolicy, TimeoutAction,
};
use crate::ids::{CoreExecutionId, ExecutionId, UiSessionId};
use crate::protocol::{BrokerError, CaptureReleaseReason, InvocationDisposition};
use crate::table::{lookup, Key};
use crate::text::{counter_bytes, counter_of_bytes, spells_counter};
use crate::time::{Duration, Instant};
use vstd::prelude::*;

verus! {

/// Why an action has no value for a parameter at the menu's origin.
#[derive(Debug, PartialEq, Eq)]
pub enum ResolutionError {
    /// The origin does not have it.
    Context,
    /// The origin has something that does not fit.
    InvalidValue { parameter: String, message: String },
}

/// An action with its parameters read off the menu's origin.
#[derive(Debug, PartialEq, Eq)]
pub enum ResolvedAction {
    Portable(Result<PortableAction, ResolutionError>),
    /// An action that only this host has.
    Native,
}

/// What a binding does, and how.
#[derive(Debug, PartialEq, Eq)]
pub struct ResolvedBinding {
    pub action: ResolvedAction,
    pub policy: ExecutionPolicy,
}

/// What the host says of work that it has taken.
#[derive(Clone, Copy, Debug, PartialEq, Eq)]
pub struct DispatchAccepted {
    pub execution: CoreExecutionId,
    pub cancellable: bool,
    pub awaitable: bool,
}

/// What an invocation has come to.
#[allow(inconsistent_fields)]
#[derive(Debug, PartialEq, Eq)]
pub enum InvokeStage {
    /// A UI invokes a binding. There is none where its generation has passed.
    Requested { session: UiSessionId, binding: Option<ResolvedBinding> },
    /// The configuration was read again, or could not be.
    Reloaded { execution: ExecutionId, awaited: bool, outcome: Result<(), String> },
    /// The host has taken the work, or refused it.
    Dispatched {
        core: CoreExecutionId,
        execution: ExecutionId,
        mode: ExecutionMode,
        outcome: Result<DispatchAccepted, BrokerError>,
    },
    /// The command could not be made ready or spawned.
    CommandFailed { core: CoreExecutionId, error: BrokerError },
    /// The command runs under supervision.
    CommandSpawned { core: CoreExecutionId, execution: ExecutionId, mode: ExecutionMode },
    /// The command that had to be stopped again is gone.
    CommandReaped { core: CoreExecutionId, session: UiSessionId },
}

/// An accepted invocation, and what comes with it.
#[derive(Debug, PartialEq, Eq)]
pub struct Acceptance {
    pub execution: ExecutionId,
    pub disposition: InvocationDisposition,
    /// The deadline to start.
    pub deadline: Option<(Duration, TimeoutAction)>,
    /// A stop was requested before the command ran; its child is signalled now.
    pub cancel: bool,
    /// The UI is told at once that the execution succeeded.
    pub tell: bool,
    pub detached: Option<DetachEffects>,
}

/// What an invocation needs next.
#[derive(Debug, PartialEq, Eq)]
pub enum InvokeNext {
    Refuse { error: BrokerError, deadline: Option<(Duration, TimeoutAction)> },
    Accept(Acceptance),
    /// The configuration is to be read again.
    Reload { execution: ExecutionId, awaited: bool },
    /// The host is to take the work.
    Dispatch { core: CoreExecutionId, execution: ExecutionId },
    /// The command is to be spawned.
    Spawn { core: CoreExecutionId, execution: ExecutionId },
    /// The command is to be stopped again and waited for: admission was closed meanwhile.
    StopChild { core: CoreExecutionId, deadline: Option<(Duration, TimeoutAction)> },
}

/// A refusal without anything else.
pub open spec fn refusal(error: BrokerError) -> InvokeNext {
    InvokeNext::Refuse { error, deadline: None }
}

/// An acceptance without anything else.
pub open spec fn acceptance(
    execution: ExecutionId,
    disposition: InvocationDisposition,
) -> Acceptance {
    Acceptance { execution, disposition, deadline: None, cancel: false, tell: false, detached: None }
}

/// What becomes of a UI whose work the host has taken.
pub open spec fn disposition_of(mode: ExecutionMode, awaitable: bool) -> InvocationDisposition {
    if mode == ExecutionMode::Await && awaitable {
        InvocationDisposition::Awaited
    } else {
        InvocationDisposition::Detached
    }
}

impl BrokerModel {
    /// Ownership is reserved, and `next` follows where it is.
    pub open spec fn reserve_then(
        self,
        session: UiSessionId,
        wire: ExecutionId,
        core: CoreExecutionId,
        owner: ExecutionOwner,
        deferred: Option<DeferredDispatch>,
        policy: ExecutionPolicy,
        next: InvokeNext,
    ) -> (Self, InvokeNext) {
        let (executions, reserved) = self.executions.reserve(
            session,
            wire,
            core,
            owner,
            deferred,
            policy,
        );
        (
            BrokerModel { executions, ..self },
            match reserved {
                Ok(()) => next,
                Err(error) => refusal(error),
            },
        )
    }

    /// `after` and `next` are what a binding leads to, under a fresh identity.
    pub open spec fn invokes_binding(
        self,
        session: UiSessionId,
        record: SessionRecord,
        core: CoreExecutionId,
        wire: ExecutionId,
        binding: ResolvedBinding,
        now: Instant,
        after: Self,
        next: InvokeNext,
    ) -> bool {
        let policy = binding.policy;
        match binding.action {
            ResolvedAction::Portable(Err(ResolutionError::Context)) => {
                after == self && next == refusal(BrokerError::ContextUnavailable)
            },
            ResolvedAction::Portable(
                Err(ResolutionError::InvalidValue { parameter, message }),
            ) => {
                after == self && next == refusal(
                    BrokerError::PortableResolution { parameter, message },
                )
            },
            ResolvedAction::Portable(Ok(action)) if waits_for_dismissal(action) => {
                (after, next) == self.reserve_then(
                    session,
                    wire,
                    core,
                    ExecutionOwner::Adapter,
                    Some(DeferredDispatch { ui_pane: record.ui_pane }),
                    policy,
                    InvokeNext::Accept(acceptance(wire, InvocationDisposition::Dismissed)),
                )
            },
            ResolvedAction::Portable(Ok(PortableAction::Reload)) => {
                after == self && next == InvokeNext::Reload {
                    execution: wire,
                    awaited: policy.mode == ExecutionMode::Await,
                }
            },
            ResolvedAction::Portable(Ok(PortableAction::Quit)) => {
                &&& next matches InvokeNext::Accept(accepted)
                &&& accepted.detached matches Some(effects)
                &&& accepted == Acceptance {
                    detached: Some(effects),
                    ..acceptance(wire, InvocationDisposition::Detached)
                }
                &&& self.detaches(session, CaptureReleaseReason::UiDismissed, now, after, effects)
            },
            ResolvedAction::Portable(Ok(PortableAction::Menu)) => {
                after == self && next == refusal(BrokerError::LocalMenuAction)
            },
            ResolvedAction::Portable(Ok(PortableAction::Command(_))) => {
                (after, next) == self.reserve_then(
                    session,
                    wire,
                    core,
                    ExecutionOwner::GenericProcess,
                    None,
                    policy,
                    InvokeNext::Spawn { core, execution: wire },
                )
            },
            _ => {
                (after, next) == self.reserve_then(
                    session,
                    wire,
                    core,
                    ExecutionOwner::Adapter,
                    None,
                    policy,
                    InvokeNext::Dispatch { core, execution: wire },
                )
            },
        }
    }

    /// `after` and `next` are what the request of a UI leads to.
    pub open spec fn invokes_request(
        self,
        session: UiSessionId,
        binding: Option<ResolvedBinding>,
        now: Instant,
        after: Self,
        next: InvokeNext,
    ) -> bool {
        match (lookup(self.sessions, session@), binding) {
            (None, _) => after == self && next == refusal(BrokerError::UnknownSession(session)),
            (Some(_), None) => after == self && next == refusal(BrokerError::StaleGeneration),
            (Some(record), Some(binding)) => exists|wire: ExecutionId|
                {
                    &&& #[trigger] spells_counter(wire@, self.next_execution)
                    &&& BrokerModel {
                        next_execution: counter_after(self.next_execution),
                        ..self
                    }.invokes_binding(
                        session,
                        record,
                        CoreExecutionId(self.next_execution),
                        wire,
                        binding,
                        now,
                        after,
                        next,
                    )
                },
        }
    }

    /// The host has taken the work, or refused it.
    pub open spec fn dispatched(
        self,
        core: CoreExecutionId,
        execution: ExecutionId,
        mode: ExecutionMode,
        outcome: Result<DispatchAccepted, BrokerError>,
    ) -> (Self, InvokeNext) {
        match outcome {
            Err(error) => (
                BrokerModel { executions: self.executions.release(core@).0, ..self },
                refusal(error),
            ),
            Ok(accepted) => {
                let disposition = disposition_of(mode, accepted.awaitable);
                let ours = accepted.execution@ == core@;
                let settled = if ours && disposition == InvocationDisposition::Detached {
                    self.executions.detach_ui(core@)
                } else {
                    self.executions
                };
                let (executions, activation) = settled.activate(
                    core@,
                    ExecutionPhase::Adapter,
                    accepted.cancellable,
                );
                (
                    BrokerModel { executions, ..self },
                    match activation.result {
                        Err(error) => InvokeNext::Refuse { error, deadline: activation.deadline },
                        Ok(()) => if ours {
                            InvokeNext::Accept(
                                Acceptance {
                                    deadline: activation.deadline,
                                    ..acceptance(execution, disposition)
                                },
                            )
                        } else {
                            InvokeNext::Refuse {
                                error: BrokerError::MismatchedExecution,
                                deadline: activation.deadline,
                            }
                        },
                    },
                )
            },
        }
    }

    /// The command runs under supervision.
    pub open spec fn command_spawned(
        self,
        core: CoreExecutionId,
        execution: ExecutionId,
        mode: ExecutionMode,
    ) -> (Self, InvokeNext) {
        let cancel = lookup(self.executions.executions, core@) matches Some(record)
            && record.termination_requested;
        let (executions, activation) = self.executions.activate(
            core@,
            ExecutionPhase::Generic,
            true,
        );
        let running = BrokerModel {
            processes: self.processes.insert(core@, ()),
            executions,
            ..self
        };
        match activation.result {
            Err(_) => (running, InvokeNext::StopChild { core, deadline: activation.deadline }),
            Ok(()) => (
                if mode == ExecutionMode::Await {
                    running
                } else {
                    BrokerModel { executions: executions.detach_ui(core@), ..running }
                },
                InvokeNext::Accept(
                    Acceptance {
                        deadline: activation.deadline,
                        cancel,
                        ..acceptance(execution, disposition_of(mode, true))
                    },
                ),
            ),
        }
    }

    /// `after` and `next` are what one stage of an invocation leads to.
    pub open spec fn invokes(
        self,
        stage: InvokeStage,
        now: Instant,
        after: Self,
        next: InvokeNext,
    ) -> bool {
        match stage {
            InvokeStage::Requested { session, binding } => self.invokes_request(
                session,
                binding,
                now,
                after,
                next,
            ),
            InvokeStage::Reloaded { execution, awaited, outcome } => {
                &&& after == self
                &&& next == match outcome {
                    Err(text) => refusal(BrokerError::Configuration(text)),
                    Ok(()) => InvokeNext::Accept(
                        Acceptance {
                            tell: awaited,
                            ..acceptance(
                                execution,
                                if awaited {
                                    InvocationDisposition::Awaited
                                } else {
                                    InvocationDisposition::Detached
                                },
                            )
                        },
                    ),
                }
            },
            InvokeStage::Dispatched { core, execution, mode, outcome } => {
                (after, next) == self.dispatched(core, execution, mode, outcome)
            },
            InvokeStage::CommandFailed { core, error } => {
                &&& after == BrokerModel { executions: self.executions.release(core@).0, ..self }
                &&& next == refusal(error)
            },
            InvokeStage::CommandSpawned { core, execution, mode } => {
                (after, next) == self.command_spawned(core, execution, mode)
            },
            InvokeStage::CommandReaped { core, session } => {
                &&& after == BrokerModel {
                    processes: self.processes.remove(core@),
                    executions: self.executions.abandon(core@, session),
                    ..self
                }
                &&& next == refusal(BrokerError::ActivationInProgress)
            },
        }
    }
}

/// An identity that spells a counter.
pub fn new_execution_id(counter: u64) -> (r: ExecutionId)
    ensures
        spells_counter(r@, counter),
{
    ExecutionId(counter_bytes(counter))
}

/// The execution whose number an identity spells, if it spells one.
pub fn core_of(execution: ExecutionId) -> (r: Option<CoreExecutionId>)
    ensures
        r matches Some(core) ==> spells_counter(execution@, core@),
        r is None ==> forall|counter: u64| !spells_counter(execution@, counter),
        forall|counter: u64| #[trigger]
            spells_counter(execution@, counter) ==> r == Some(CoreExecutionId(counter)),
{
    match counter_of_bytes(&execution.0) {
        Some(counter) => Some(CoreExecutionId(counter)),
        None => None,
    }
}

impl Broker {
    fn reserve_then(
        &mut self,
        session: UiSessionId,
        wire: ExecutionId,
        core: CoreExecutionId,
        owner: ExecutionOwner,
        deferred: Option<DeferredDispatch>,
        policy: &ExecutionPolicy,
        next: InvokeNext,
    ) -> (r: InvokeNext)
        ensures
            (final(self)@, r) == old(self)@.reserve_then(
                session,
                wire,
                core,
                owner,
                deferred,
                *policy,
                next,
            ),
    {
        match self.executions.reserve(session, wire, core, owner, deferred, policy) {
            Ok(()) => next,
            Err(error) => InvokeNext::Refuse { error, deadline: None },
        }
    }

    fn accept(execution: ExecutionId, disposition: InvocationDisposition) -> (r: Acceptance)
        ensures
            r == acceptance(execution, disposition),
    {
        Acceptance {
            execution,
            disposition,
            deadline: None,
            cancel: false,
            tell: false,
            detached: None,
        }
    }

    /// Takes up the request of a UI.
    fn invoke_request(
        &mut self,
        session: UiSessionId,
        binding: Option<ResolvedBinding>,
        now: Instant,
    ) -> (r: InvokeNext)
        ensures
            old(self)@.invokes_request(session, binding, now, final(self)@, r),
    {
        let ui_pane = match self.sessions.get(&session) {
            Some(record) => record.ui_pane.clone(),
            None => return InvokeNext::Refuse {
                error: BrokerError::UnknownSession(session),
                deadline: None,
            },
        };
        let binding = match binding {
            Some(binding) => binding,
            None => return InvokeNext::Refuse {
                error: BrokerError::StaleGeneration,
                deadline: None,
            },
        };
        let serial: u64 = self.next_execution;
        self.next_execution = next_counter(serial);
        let wire = new_execution_id(serial);
        let core = CoreExecutionId(serial);
        let ResolvedBinding { action, policy } = binding;
        match action {
            ResolvedAction::Native => self.reserve_then(
                session,
                wire,
                core,
                ExecutionOwner::Adapter,
                None,
                &policy,
                InvokeNext::Dispatch { core, execution: wire },
            ),
            ResolvedAction::Portable(Err(ResolutionError::Context)) => InvokeNext::Refuse {
                error: BrokerError::ContextUnavailable,
                deadline: None,
            },
            ResolvedAction::Portable(
                Err(ResolutionError::InvalidValue { parameter, message }),
            ) => InvokeNext::Refuse {
                error: BrokerError::PortableResolution { parameter, message },
                deadline: None,
            },
            ResolvedAction::Portable(Ok(action)) => {
                if requires_post_dismissal(&action) {
                    return self.reserve_then(
                        session,
                        wire,
                        core,
                        ExecutionOwner::Adapter,
                        Some(DeferredDispatch { ui_pane }),
                        &policy,
                        InvokeNext::Accept(Self::accept(wire, InvocationDisposition::Dismissed)),
                    );
                }
                match action {
                    PortableAction::Reload => InvokeNext::Reload {
                        execution: wire,
                        awaited: policy.mode == ExecutionMode::Await,
                    },
                    PortableAction::Quit => {
                        let effects = self.detach(
                            &session,
                            CaptureReleaseReason::UiDismissed,
                            now,
                        );
                        let mut accepted = Self::accept(wire, InvocationDisposition::Detached);
                        accepted.detached = Some(effects);
                        InvokeNext::Accept(accepted)
                    },
                    PortableAction::Menu => InvokeNext::Refuse {
                        error: BrokerError::LocalMenuAction,
                        deadline: None,
                    },
                    PortableAction::Command(_) => self.reserve_then(
                        session,
                        wire,
                        core,
                        ExecutionOwner::GenericProcess,
                        None,
                        &policy,
                        InvokeNext::Spawn { core, execution: wire },
                    ),
                    _ => self.reserve_then(
                        session,
                        wire,
                        core,
                        ExecutionOwner::Adapter,
                        None,
                        &policy,
                        InvokeNext::Dispatch { core, execution: wire },
                    ),
                }
            },
        }
    }

    /// Takes up the host's answer to a dispatch.
    fn dispatched(
        &mut self,
        core: CoreExecutionId,
        execution: ExecutionId,
        mode: ExecutionMode,
        outcome: Result<DispatchAccepted, BrokerError>,
    ) -> (r: InvokeNext)
        ensures
            (final(self)@, r) == old(self)@.dispatched(core, execution, mode, outcome),
    {
        let accepted = match outcome {
            Ok(accepted) => accepted,
            Err(error) => {
                self.executions.release(core);
                return InvokeNext::Refuse { error, deadline: None };
            },
        };
        let disposition = if mode == ExecutionMode::Await && accepted.awaitable {
            InvocationDisposition::Awaited
        } else {
            InvocationDisposition::Detached
        };
        let ours = accepted.execution.same(&core);
        if ours && disposition == InvocationDisposition::Detached {
            self.executions.detach_ui(core);
        }
        let activation = self.executions.activate(
            core,
            ExecutionPhase::Adapter,
            accepted.cancellable,
        );
        match activation.result {
            Err(error) => InvokeNext::Refuse { error, deadline: activation.deadline },
            Ok(()) => if ours {
                let mut accepted = Self::accept(execution, disposition);
                accepted.deadline = activation.deadline;
                InvokeNext::Accept(accepted)
            } else {
                InvokeNext::Refuse {
                    error: BrokerError::MismatchedExecution,
                    deadline: activation.deadline,
                }
            },
        }
    }

    /// Takes up a command that runs under supervision.
    fn command_spawned(
        &mut self,
        core: CoreExecutionId,
        execution: ExecutionId,
        mode: ExecutionMode,
    ) -> (r: InvokeNext)
        ensures
            (final(self)@, r) == old(self)@.command_spawned(core, execution, mode),
    {
        self.processes.insert(core, ());
        let cancel = match self.executions.get(core) {
            Some(record) => record.termination_requested,
            None => false,
        };
        let activation = self.executions.activate(core, ExecutionPhase::Generic, true);
        match activation.result {
            Err(_) => InvokeNext::StopChild { core, deadline: activation.deadline },
            Ok(()) => {
                let disposition = if mode == ExecutionMode::Await {
                    InvocationDisposition::Awaited
                } else {
                    self.executions.detach_ui(core);
                    InvocationDisposition::Detached
                };
                let mut accepted = Self::accept(execution, disposition);
                accepted.deadline = activation.deadline;
                accepted.cancel = cancel;
                InvokeNext::Accept(accepted)
            },
        }
    }

    /// Takes an invocation from one stage to the next.
    pub fn invoke(&mut self, stage: InvokeStage, now: Instant) -> (r: InvokeNext)
        ensures
            old(self)@.invokes(stage, now, final(self)@, r),
    {
        match stage {
            InvokeStage::Requested { session, binding } => self.invoke_request(
                session,
                binding,
                now,
            ),
            InvokeStage::Reloaded { execution, awaited, outcome } => match outcome {
                Err(text) => InvokeNext::Refuse {
                    error: BrokerError::Configuration(text),
                    deadline: None,
                },
                Ok(()) => {
                    let disposition = if awaited {
                        InvocationDisposition::Awaited
                    } else {
                        InvocationDisposition::Detached
                    };
                    let mut accepted = Self::accept(execution, disposition);
                    accepted.tell = awaited;
                    InvokeNext::Accept(accepted)
                },
            },
            InvokeStage::Dispatched { core, execution, mode, outcome } => self.dispatched(
                core,
                execution,
                mode,
                outcome,
            ),
            InvokeStage::CommandFailed { core, error } => {
                self.executions.release(core);
                InvokeNext::Refuse { error, deadline: None }
            },
            InvokeStage::CommandSpawned { core, execution, mode } => self.command_spawned(
                core,
                execution,
                mode,
            ),
            InvokeStage::CommandReaped { core, session } => {
                self.processes.remove(&core);
                self.executions.abandon(core, session);
                InvokeNext::Refuse { error: BrokerError::ActivationInProgress, deadline: None }
            },
        }
    }
}

} // verus!
