//! What work comes to: which invocations go through and to whom, what is stopped and how, and who is
//! told of an end.
use super::invoke::{
    Acceptance, DispatchAccepted, InvokeNext, InvokeStage, ResolutionError, ResolvedAction,
    ResolvedBinding,
};
use super::lifecycle::{ControlNext, DeadlineEffects, DispatchCompletion, StopAction};
use super::{BrokerModel, DetachEffects};
use crate::command::{PortableAction, ScalarValue};
use crate::execution::{
    Completion, DeferredDispatch, ExecutionMode, ExecutionOwner, ExecutionPhase, ExecutionRecord,
    MenuControlAction, TimeoutAction,
};
use crate::ids::{CoreExecutionId, ExecutionId, UiSessionId};
use crate::protocol::{
    AdapterError, BrokerError, CaptureReleaseReason, DiagnosticCode, ExecutionOutcome,
    InvocationDisposition, MenuControl, ProtocolDiagnostic,
};
use crate::text::{is_truncation, spells_counter};
use crate::time::Instant;
use vstd::prelude::*;

verus! {

/// Whether an action moves the focus to something new, so that the menu has to be out of its way
/// first: a new tab or pane does, unless it is told to stay in the background.
pub open spec fn moves_focus(action: PortableAction) -> bool {
    let focus = match action {
        PortableAction::CreateTab { focus } => Some(focus),
        PortableAction::SplitPane { focus } => Some(focus),
        _ => None,
    };
    focus matches Some(focus) && (focus is None || focus == Some(ScalarValue::Boolean(true)))
}

/// Whether an action is for the host to carry out while the menu stands: a native one always, a
/// portable one where it is neither the menu's own nor a command, and does not move the focus.
pub open spec fn is_for_the_host(action: ResolvedAction) -> bool {
    match action {
        ResolvedAction::Native => true,
        ResolvedAction::Portable(Ok(portable)) => !(portable is Reload) && !(portable is Quit) && !(
        portable is Menu) && !(portable is Command) && !moves_focus(portable),
        ResolvedAction::Portable(Err(_)) => false,
    }
}

/// An execution that was just reserved, as its binding says.
pub open spec fn reserved_for(
    record: ExecutionRecord,
    core: CoreExecutionId,
    session: UiSessionId,
    owner: ExecutionOwner,
    binding: ResolvedBinding,
) -> bool {
    &&& record.core == core
    &&& record.session == Some(session)
    &&& record.owner == owner
    &&& record.phase == ExecutionPhase::Reserved
    &&& record.awaiting <==> binding.policy.mode == ExecutionMode::Await
    &&& record.timeout == binding.policy.timeout
    &&& record.on_timeout == binding.policy.on_timeout
    &&& record.on_menu_control == binding.policy.on_menu_control
    &&& record.pending_control is None
    &&& !record.termination_requested
    &&& !record.deadline_scheduled
}

/// Progress of an invocation: where admission is open, the session stands, the binding is current, and
/// the session waits for nothing or does not want to wait, every action goes to who carries it out. What
/// the host does, native actions among it, is handed to the host; a command is spawned; what moves the
/// focus waits for the menu to go; a reload reads the configuration; to quit detaches the session. Before
/// anything starts it is reserved under a fresh identity for the session. The one action that is refused
/// as local is the menu's own.
pub proof fn law_an_invocation_goes_to_who_carries_it_out(
    broker: BrokerModel,
    session: UiSessionId,
    binding: ResolvedBinding,
    now: Instant,
    after: BrokerModel,
    next: InvokeNext,
)
    requires
        broker.sessions.contains_key(session@),
        !broker.executions.sealed,
        binding.policy.mode == ExecutionMode::Detach || !broker.executions.awaiting.contains_key(
            session@,
        ),
        broker.invokes(
            InvokeStage::Requested { session, binding: Some(binding) },
            now,
            after,
            next,
        ),
    ensures
        ({
            let core = CoreExecutionId(broker.next_execution);
            let record = after.executions.executions[core@];
            let waits = binding.policy.mode == ExecutionMode::Await;
            let action = binding.action;
            &&& is_for_the_host(action) ==> {
                &&& next matches InvokeNext::Dispatch { core: taken, execution }
                &&& taken == core
                &&& spells_counter(execution@, core@)
                &&& after.executions.executions.contains_key(core@)
                &&& reserved_for(record, core, session, ExecutionOwner::Adapter, binding)
                &&& record.wire == execution
                &&& record.deferred is None
                &&& waits ==> after.executions.awaiting.contains_key(session@)
                    && after.executions.awaiting[session@] == core
                &&& !waits ==> after.executions.awaiting == broker.executions.awaiting
            }
            &&& (action matches ResolvedAction::Portable(Ok(PortableAction::Command(_)))) ==> {
                &&& next matches InvokeNext::Spawn { core: taken, execution }
                &&& taken == core
                &&& spells_counter(execution@, core@)
                &&& after.executions.executions.contains_key(core@)
                &&& reserved_for(record, core, session, ExecutionOwner::GenericProcess, binding)
                &&& record.wire == execution
                &&& record.cancellable
                &&& waits ==> after.executions.awaiting.contains_key(session@)
                    && after.executions.awaiting[session@] == core
            }
            &&& (action matches ResolvedAction::Portable(Ok(portable)) && moves_focus(portable)) ==> {
                &&& next matches InvokeNext::Accept(accepted)
                &&& accepted.disposition == InvocationDisposition::Dismissed
                &&& spells_counter(accepted.execution@, core@)
                &&& accepted.deadline is None && !accepted.cancel && !accepted.tell
                &&& accepted.detached is None
                &&& after.executions.executions.contains_key(core@)
                &&& reserved_for(record, core, session, ExecutionOwner::Adapter, binding)
                &&& record.deferred == Some(
                    DeferredDispatch { ui_pane: broker.sessions[session@].ui_pane },
                )
            }
            &&& action == ResolvedAction::Portable(Ok(PortableAction::Reload)) ==> {
                &&& next matches InvokeNext::Reload { execution, awaited }
                &&& awaited <==> waits
                &&& spells_counter(execution@, core@)
                &&& after.executions == broker.executions
            }
            &&& action == ResolvedAction::Portable(Ok(PortableAction::Quit)) ==> {
                &&& next matches InvokeNext::Accept(accepted)
                &&& accepted.disposition == InvocationDisposition::Detached
                &&& accepted.detached is Some
                &&& !after.sessions.contains_key(session@)
                &&& !accepted.tell
            }
            &&& (next matches InvokeNext::Refuse { error, .. } && error
                == BrokerError::LocalMenuAction) <==> action == ResolvedAction::Portable(
                Ok(PortableAction::Menu),
            )
            &&& action == ResolvedAction::Portable(Err(ResolutionError::Context)) ==> next == (
            InvokeNext::Refuse { error: BrokerError::ContextUnavailable, deadline: None })
            &&& action matches ResolvedAction::Portable(
                Err(ResolutionError::InvalidValue { parameter, message }),
            ) ==> next == (InvokeNext::Refuse {
                error: BrokerError::PortableResolution { parameter, message },
                deadline: None,
            })
            &&& after.next_execution != broker.next_execution
            &&& next is Refuse ==> after.executions == broker.executions && after.sessions
                == broker.sessions
        }),
{
}

/// An invocation is refused where there is nobody to invoke it, nothing to invoke, no admission, or a
/// wait in progress; and a refusal reserves nothing.
pub proof fn law_a_refused_invocation_says_why(
    broker: BrokerModel,
    session: UiSessionId,
    binding: Option<ResolvedBinding>,
    now: Instant,
    after: BrokerModel,
    next: InvokeNext,
)
    requires
        broker.invokes(InvokeStage::Requested { session, binding }, now, after, next),
    ensures
        !broker.sessions.contains_key(session@) ==> after == broker && next == (
        InvokeNext::Refuse { error: BrokerError::UnknownSession(session), deadline: None }),
        broker.sessions.contains_key(session@) && binding is None ==> after == broker && next == (
        InvokeNext::Refuse { error: BrokerError::StaleGeneration, deadline: None }),
        broker.sessions.contains_key(session@) && (binding matches Some(binding) && (
        is_for_the_host(binding.action) || (binding.action matches ResolvedAction::Portable(
            Ok(portable),
        ) && (portable is Command || moves_focus(portable))))) ==> {
            &&& broker.executions.sealed ==> next == (InvokeNext::Refuse {
                error: BrokerError::ActivationInProgress,
                deadline: None,
            })
            &&& !broker.executions.sealed && binding->Some_0.policy.mode == ExecutionMode::Await
                && broker.executions.awaiting.contains_key(session@) ==> next == (
            InvokeNext::Refuse { error: BrokerError::PendingExecutionInFlight, deadline: None })
        },
        next is Refuse ==> after.executions == broker.executions && after.sessions
            == broker.sessions && after.processes == broker.processes,
{
}

/// Work that the host has taken runs: its UI waits where it wanted to and can, and else goes its way;
/// its deadline starts with it. Work that the host refused is given back. An answer for other work, and
/// an admission that was closed meanwhile, are refused without losing the work.
pub proof fn law_work_that_the_host_took_runs(
    broker: BrokerModel,
    core: CoreExecutionId,
    execution: ExecutionId,
    mode: ExecutionMode,
    outcome: Result<DispatchAccepted, BrokerError>,
    now: Instant,
    after: BrokerModel,
    next: InvokeNext,
)
    requires
        broker.executions.executions.contains_key(core@),
        broker.executions.executions[core@].phase == ExecutionPhase::Reserved,
        broker.invokes(
            InvokeStage::Dispatched { core, execution, mode, outcome },
            now,
            after,
            next,
        ),
    ensures
        ({
            let before = broker.executions.executions[core@];
            let record = after.executions.executions[core@];
            &&& outcome matches Err(error) ==> next == (InvokeNext::Refuse {
                error,
                deadline: None,
            }) && !after.executions.executions.contains_key(core@) && (before.session matches Some(
                session,
            ) ==> !(after.executions.awaiting.contains_key(session@)
                && after.executions.awaiting[session@]@ == core@))
            &&& outcome matches Ok(accepted) ==> {
                let awaited = mode == ExecutionMode::Await && accepted.awaitable;
                let deadline = match before.timeout {
                    Some(timeout) if !before.deadline_scheduled => Some(
                        (timeout, before.on_timeout),
                    ),
                    _ => None,
                };
                &&& after.executions.executions.contains_key(core@)
                &&& record.phase == ExecutionPhase::Adapter
                &&& record.cancellable == accepted.cancellable
                &&& record.owner == before.owner && record.wire == before.wire
                &&& broker.executions.sealed ==> next == (InvokeNext::Refuse {
                    error: BrokerError::ActivationInProgress,
                    deadline,
                })
                &&& !broker.executions.sealed && accepted.execution@ != core@ ==> next == (
                InvokeNext::Refuse { error: BrokerError::MismatchedExecution, deadline })
                &&& !broker.executions.sealed && accepted.execution@ == core@ ==> {
                    &&& next matches InvokeNext::Accept(acceptance)
                    &&& acceptance.execution == execution
                    &&& acceptance.deadline == deadline
                    &&& !acceptance.cancel && !acceptance.tell && acceptance.detached is None
                    &&& acceptance.disposition == if awaited {
                        InvocationDisposition::Awaited
                    } else {
                        InvocationDisposition::Detached
                    }
                }
                &&& accepted.execution@ == core@ && !awaited ==> record.session is None
                    && !record.awaiting
                &&& awaited ==> record.session == before.session && record.awaiting
                    == before.awaiting
            }
            &&& after == BrokerModel { executions: after.executions, ..broker }
        }),
{
}

/// A command that runs is supervised under its identity: its UI waits where it wanted to, its deadline
/// starts, and a stop that was asked for before it ran reaches it now. Where admission was closed
/// meanwhile it is stopped again; and one that could not be spawned is given back.
pub proof fn law_a_spawned_command_is_supervised(
    broker: BrokerModel,
    core: CoreExecutionId,
    execution: ExecutionId,
    mode: ExecutionMode,
    now: Instant,
    after: BrokerModel,
    next: InvokeNext,
    error: BrokerError,
    given_back: BrokerModel,
    refusal: InvokeNext,
)
    requires
        broker.executions.executions.contains_key(core@),
        broker.executions.executions[core@].phase == ExecutionPhase::Reserved,
        broker.invokes(InvokeStage::CommandSpawned { core, execution, mode }, now, after, next),
        broker.invokes(InvokeStage::CommandFailed { core, error }, now, given_back, refusal),
    ensures
        ({
            let before = broker.executions.executions[core@];
            let record = after.executions.executions[core@];
            let deadline = match before.timeout {
                Some(timeout) if !before.deadline_scheduled => Some((timeout, before.on_timeout)),
                _ => None,
            };
            &&& after.processes.contains_key(core@)
            &&& after.executions.executions.contains_key(core@)
            &&& record.phase == ExecutionPhase::Generic
            &&& record.cancellable
            &&& record.termination_requested == before.termination_requested
            &&& broker.executions.sealed ==> next == (InvokeNext::StopChild { core, deadline })
            &&& !broker.executions.sealed ==> {
                &&& next matches InvokeNext::Accept(acceptance)
                &&& acceptance.execution == execution
                &&& acceptance.deadline == deadline
                &&& acceptance.cancel == before.termination_requested
                &&& !acceptance.tell && acceptance.detached is None
                &&& acceptance.disposition == if mode == ExecutionMode::Await {
                    InvocationDisposition::Awaited
                } else {
                    InvocationDisposition::Detached
                }
                &&& mode == ExecutionMode::Await ==> record.session == before.session
                    && record.awaiting == before.awaiting
                &&& mode == ExecutionMode::Detach ==> record.session is None && !record.awaiting
            }
            &&& refusal == (InvokeNext::Refuse { error, deadline: None })
            &&& !given_back.executions.executions.contains_key(core@)
            &&& given_back.processes == broker.processes
        }),
{
}

/// A command that had to be stopped again is forgotten once it is gone, and its UI is told that an
/// activation is in progress.
pub proof fn law_a_reaped_command_is_forgotten(
    broker: BrokerModel,
    core: CoreExecutionId,
    session: UiSessionId,
    now: Instant,
    after: BrokerModel,
    next: InvokeNext,
)
    requires
        broker.invokes(InvokeStage::CommandReaped { core, session }, now, after, next),
    ensures
        next == (InvokeNext::Refuse { error: BrokerError::ActivationInProgress, deadline: None }),
        !after.processes.contains_key(core@),
        !after.executions.executions.contains_key(core@),
        !(after.executions.awaiting.contains_key(session@)
            && after.executions.awaiting[session@]@ == core@),
        forall|other: u64| #[trigger]
            broker.executions.executions.contains_key(other) && other != core@
                ==> after.executions.executions.contains_key(other)
                && after.executions.executions[other] == broker.executions.executions[other],
{
}

/// A reload that went well is accepted, and its UI is told at once where it waits; one that failed is
/// refused with the text. Nothing is owned for it.
pub proof fn law_a_reload_is_answered(
    broker: BrokerModel,
    execution: ExecutionId,
    awaited: bool,
    outcome: Result<(), String>,
    now: Instant,
    after: BrokerModel,
    next: InvokeNext,
)
    requires
        broker.invokes(
            InvokeStage::Reloaded { execution, awaited, outcome },
            now,
            after,
            next,
        ),
    ensures
        after == broker,
        outcome matches Err(text) ==> next == (InvokeNext::Refuse {
            error: BrokerError::Configuration(text),
            deadline: None,
        }),
        outcome is Ok ==> next == InvokeNext::Accept(
            Acceptance {
                execution,
                disposition: if awaited {
                    InvocationDisposition::Awaited
                } else {
                    InvocationDisposition::Detached
                },
                deadline: None,
                cancel: false,
                tell: awaited,
                detached: None,
            },
        ),
{
}

/// An elapsed deadline concerns work that runs and is not being stopped, and that work alone. It frees
/// the UI, which is told once, and where the action is to cancel the work is stopped: the host is asked
/// where the host carries it out, and the child is signalled where a child is supervised under that
/// identity. There is nothing to send only where the action is to detach or no child is there.
pub proof fn law_a_cancelling_deadline_stops_its_work(
    broker: BrokerModel,
    core: u64,
    on_timeout: TimeoutAction,
    limit: nat,
    after: BrokerModel,
    r: Option<DeadlineEffects>,
)
    requires
        broker.deadline_elapses(core, on_timeout, limit, after, r),
    ensures
        ({
            let before = broker.executions.executions[core];
            let runs = broker.executions.executions.contains_key(core) && (before.phase
                == ExecutionPhase::Adapter || before.phase == ExecutionPhase::Generic)
                && !before.termination_requested;
            let record = after.executions.executions[core];
            &&& r is Some <==> runs
            &&& r is None ==> after == broker
            &&& r matches Some(effects) ==> {
                &&& effects.session == before.session
                &&& effects.wire == before.wire
                &&& effects.diagnostic.code == DiagnosticCode::ActionBlocked
                &&& is_truncation(
                    "execution exceeded its configured timeout"@,
                    limit,
                    effects.diagnostic.message@,
                )
                &&& on_timeout == TimeoutAction::Detach ==> effects.outcome
                    == ExecutionOutcome::Detached && effects.stop == StopAction::Settled
                    && !record.termination_requested
                &&& on_timeout == TimeoutAction::Cancel ==> effects.outcome
                    == ExecutionOutcome::TimedOut && record.termination_requested
                    && effects.stop == (if before.owner == ExecutionOwner::Adapter {
                    StopAction::CancelHost
                } else if broker.processes.contains_key(core) {
                    StopAction::SignalChild
                } else {
                    StopAction::Settled
                })
                &&& after.executions.executions.contains_key(core)
                &&& record.session is None && !record.awaiting
                &&& record.phase == before.phase && record.owner == before.owner
                &&& before.session matches Some(session) ==> !(
                after.executions.awaiting.contains_key(session@)
                    && after.executions.awaiting[session@]@ == core)
            }
            &&& after.processes == broker.processes && after.sessions == broker.sessions
        }),
{
}

/// A stop reaches who carries the work out, once: the host is asked to cancel its work, a supervised
/// child is signalled. Work that ended, or that is being stopped, needs nothing; neither does a command
/// that was not spawned yet, which is stopped when it is. A command without a child cannot be stopped,
/// and may be asked to again.
pub proof fn law_a_stop_reaches_its_owner(broker: BrokerModel, core: u64)
    ensures
        ({
            let (after, stop) = broker.request_stop(core);
            let known = broker.executions.executions.contains_key(core);
            let before = broker.executions.executions[core];
            let record = after.executions.executions[core];
            let child = broker.processes.contains_key(core);
            &&& !known || before.termination_requested ==> stop == StopAction::Settled && after
                == broker
            &&& known && !before.termination_requested ==> {
                &&& before.owner == ExecutionOwner::Adapter ==> stop == StopAction::CancelHost
                    && record.termination_requested
                &&& before.owner == ExecutionOwner::GenericProcess && child ==> stop
                    == StopAction::SignalChild && record.termination_requested
                &&& before.owner == ExecutionOwner::GenericProcess && !child && before.phase
                    == ExecutionPhase::Reserved ==> stop == StopAction::Settled
                    && record.termination_requested
                &&& before.owner == ExecutionOwner::GenericProcess && !child && before.phase
                    != ExecutionPhase::Reserved ==> stop == StopAction::Unsupported
                &&& before.owner == ExecutionOwner::GenericProcess && !child && before.phase
                    == ExecutionPhase::Generic ==> !record.termination_requested
                &&& after.executions.executions.contains_key(core)
                &&& record.session == before.session && record.phase == before.phase
            }
            &&& stop == StopAction::CancelHost || stop == StopAction::SignalChild
                ==> after.request_stop(core).1 == StopAction::Settled
            &&& (stop == StopAction::CancelHost || stop == StopAction::SignalChild) && before.phase
                != ExecutionPhase::Terminal ==> (BrokerModel {
                executions: after.executions.stop_failed(core),
                ..after
            }).request_stop(core).1 == stop
            &&& after.processes == broker.processes && after.sessions == broker.sessions
        }),
{
}

/// The end that the host reports is told: to the UI that waits for it, as it was; to the log where
/// nobody waits and something is to be said; and to nobody where the UI has sent a control. The work is
/// gone with it. A report for work that the host does not carry out changes nothing.
pub proof fn law_an_end_is_told_to_who_waits(
    broker: BrokerModel,
    completion: DispatchCompletion,
    limit: nat,
    after: BrokerModel,
    r: Option<Completion>,
)
    requires
        broker.dispatch_completes(completion, limit, after, r),
    ensures
        ({
            let core = match completion {
                DispatchCompletion::Succeeded { execution } => execution@,
                DispatchCompletion::Failed { execution, .. } => execution@,
                DispatchCompletion::OutcomeUnknown { execution, .. } => execution@,
            };
            let record = broker.executions.executions[core];
            let ends = broker.executions.executions.contains_key(core) && record.owner
                == ExecutionOwner::Adapter && (record.phase == ExecutionPhase::Reserved
                || record.phase == ExecutionPhase::Adapter);
            let waited = record.awaiting && record.session is Some && record.pending_control is None;
            &&& r is Some <==> ends
            &&& !ends ==> after == broker
            &&& ends ==> !after.executions.executions.contains_key(core)
            &&& ends && waited ==> {
                &&& r matches Some(Completion::Tell { session, execution, outcome, diagnostic })
                &&& session == record.session->Some_0
                &&& execution == record.wire
                &&& !after.executions.awaiting.contains_key(session@)
                    || after.executions.awaiting[session@]@ != core
                &&& match completion {
                    DispatchCompletion::Succeeded { .. } => outcome == ExecutionOutcome::Succeeded
                        && diagnostic is None,
                    DispatchCompletion::Failed { error, .. } => outcome == ExecutionOutcome::Failed
                        && diagnostic is Some && diagnostic->Some_0.code
                        == DiagnosticCode::ActionBlocked && is_truncation(
                        error.message@,
                        limit,
                        diagnostic->Some_0.message@,
                    ),
                    DispatchCompletion::OutcomeUnknown { error, .. } => outcome
                        == ExecutionOutcome::OutcomeUnknown && diagnostic is Some
                        && diagnostic->Some_0.code == DiagnosticCode::OutcomeUnknown
                        && is_truncation(error.message@, limit, diagnostic->Some_0.message@),
                }
            }
            &&& ends && !record.awaiting ==> match completion {
                DispatchCompletion::Succeeded { .. } => r == Some(Completion::Silent),
                DispatchCompletion::Failed { .. } => r matches Some(Completion::Log(entry))
                    && entry.execution == record.wire && entry.outcome == ExecutionOutcome::Failed
                    && entry.code == DiagnosticCode::ActionBlocked,
                DispatchCompletion::OutcomeUnknown { .. } => r matches Some(Completion::Log(entry))
                    && entry.execution == record.wire && entry.outcome
                    == ExecutionOutcome::OutcomeUnknown && entry.code
                    == DiagnosticCode::OutcomeUnknown,
            }
            &&& ends && record.awaiting && !waited ==> r == Some(Completion::Silent)
            &&& after.sessions == broker.sessions && after.processes == broker.processes
        }),
{
}

/// A child that is gone is supervised no more and its command is over: the UI that waits is told how it
/// ended, unless it has sent a control; where nobody waits, what is to be said goes to the log.
pub proof fn law_a_child_that_is_gone_ends_its_command(
    broker: BrokerModel,
    core: u64,
    outcome: ExecutionOutcome,
    told: Option<ProtocolDiagnostic>,
)
    ensures
        ({
            let (after, r) = broker.finish_generic(core, outcome, told);
            let record = broker.executions.executions[core];
            let ends = broker.executions.executions.contains_key(core) && record.owner
                == ExecutionOwner::GenericProcess;
            &&& !after.processes.contains_key(core)
            &&& r is Some <==> ends
            &&& ends ==> !after.executions.executions.contains_key(core)
            &&& !ends ==> after.executions == broker.executions
            &&& ends && record.pending_control is Some ==> r == Some(Completion::Silent)
            &&& ends && record.pending_control is None && record.awaiting && record.session is Some
                ==> r == Some(
                Completion::Tell {
                    session: record.session->Some_0,
                    execution: record.wire,
                    outcome,
                    diagnostic: told,
                },
            )
            &&& ends && record.pending_control is None && !record.awaiting && told is Some ==> (
            r matches Some(Completion::Log(entry)) && entry.execution == record.wire
                && entry.outcome == outcome && entry.code == told->Some_0.code)
            &&& ends && record.pending_control is None && !record.awaiting && told is None ==> r
                == Some(Completion::Silent)
        }),
{
}

/// A menu control concerns the work that its UI waits for: it lets the UI go where the work is to go on,
/// stops the work first where it is to be cancelled and can be, and is refused where it cannot be, or
/// while another control is under way. A UI that waits for nothing just goes on.
pub proof fn law_a_control_concerns_what_its_ui_waits_for(
    broker: BrokerModel,
    session: Seq<char>,
    control: MenuControl,
)
    ensures
        ({
            let (after, next) = broker.control(session, control);
            let core = broker.executions.awaiting[session];
            let waits = broker.executions.awaiting.contains_key(session)
                && broker.executions.executions.contains_key(core@);
            let record = broker.executions.executions[core@];
            let held = after.executions.executions[core@];
            &&& !waits ==> after == broker && next == ControlNext::Acknowledge
            &&& waits && record.pending_control is Some ==> after == broker && next
                == ControlNext::Refuse(BrokerError::PendingControlInFlight)
            &&& waits && record.pending_control is None ==> {
                &&& record.on_menu_control == MenuControlAction::Detach ==> next == (
                ControlNext::Complete { execution: record.wire, control }) && held.pending_control
                    == Some(control)
                &&& record.on_menu_control == MenuControlAction::Cancel && record.cancellable ==> next
                    == (ControlNext::Stop { core: record.core, execution: record.wire })
                    && held.pending_control == Some(control)
                &&& record.on_menu_control == MenuControlAction::Cancel && !record.cancellable
                    && record.core@ == core@ ==> next == ControlNext::Refuse(
                    BrokerError::CancelUnsupported,
                ) && held.pending_control is None
            }
        }),
{
}

/// A stop that a control asked for and that could not be sent is refused with its cause, and the UI may
/// try again; where the work ended meanwhile the UI may go.
pub proof fn law_a_failed_stop_leaves_the_ui_waiting(
    broker: BrokerModel,
    session: Seq<char>,
    core: u64,
    execution: ExecutionId,
    control: MenuControl,
    error: BrokerError,
)
    ensures
        ({
            let (after, next) = broker.control_refused(session, core, execution, control, error);
            let pending = broker.executions.awaiting.contains_key(session)
                && broker.executions.awaiting[session]@ == core
                && broker.executions.executions.contains_key(core)
                && broker.executions.executions[core].pending_control == Some(control);
            &&& pending ==> next == ControlNext::Refuse(error)
                && after.executions.executions[core].pending_control is None
                && after.executions.awaiting == broker.executions.awaiting
            &&& !pending ==> next == (ControlNext::Complete { execution, control }) && after
                == broker
        }),
{
}

/// Work that waited for the menu to go is handed over once; what the host takes of it runs for nobody,
/// with its deadline, and what the host refuses is given back.
pub proof fn law_deferred_work_is_handed_over_once(
    broker: BrokerModel,
    core: u64,
    outcome: Result<DispatchAccepted, AdapterError>,
)
    ensures
        ({
            let (taken, work) = broker.executions.take_deferred(core);
            let before = broker.executions.executions[core];
            &&& broker.executions.executions.contains_key(core) ==> work == before.deferred
                && taken.executions.contains_key(core) && taken.executions[core].deferred is None
                && taken.executions[core].phase == before.phase
            &&& taken.take_deferred(core).1 is None
            &&& !broker.executions.executions.contains_key(core) ==> work is None
        }),
        ({
            let (after, deadline) = broker.post_dismissed(core, outcome);
            let before = broker.executions.executions[core];
            let record = after.executions.executions[core];
            &&& broker.executions.executions.contains_key(core) && before.phase
                == ExecutionPhase::Reserved ==> match outcome {
                Err(_) => !after.executions.executions.contains_key(core) && deadline is None,
                Ok(accepted) => {
                    &&& after.executions.executions.contains_key(core)
                    &&& record.phase == ExecutionPhase::Adapter
                    &&& record.cancellable == accepted.cancellable
                    &&& record.session is None && !record.awaiting
                    &&& !before.deadline_scheduled && before.timeout is Some ==> deadline == Some(
                        (before.timeout->Some_0, before.on_timeout),
                    )
                    &&& before.timeout is None ==> deadline is None
                },
            }
        }),
{
}

/// Who leaves a menu leaves its work: what is to be cancelled with the menu and can be is stopped,
/// unless the UI has asked for something else already; what waited for the menu to go is handed over;
/// and no work keeps the UI.
pub proof fn law_a_ui_that_leaves_stops_what_it_should(
    broker: BrokerModel,
    session: UiSessionId,
    reason: CaptureReleaseReason,
    now: Instant,
    after: BrokerModel,
    effects: DetachEffects,
    core: u64,
)
    requires
        broker.detaches(session, reason, now, after, effects),
        broker.executions.executions.contains_key(core),
    ensures
        ({
            let record = broker.executions.executions[core];
            let its = record.session is Some && record.session->Some_0@ == session@;
            let left = after.executions.executions[core];
            &&& crate::table::views(effects.exit.cancel@).contains(core) <==> its
                && record.on_menu_control == MenuControlAction::Cancel && record.cancellable
                && record.pending_control is None
            &&& crate::table::views(effects.exit.deferred@).contains(core) <==> its
                && record.deferred is Some
            &&& after.executions.executions.contains_key(core)
            &&& its ==> left.session is None && !left.awaiting
            &&& !its ==> left == record
            &&& left.phase == record.phase && left.owner == record.owner
            &&& left.termination_requested == record.termination_requested
        }),
{
    assert(broker.executions.cancelled_by_exit(session@).contains(core) <==> crate::table::views(
        effects.exit.cancel@,
    ).contains(core));
    assert(broker.executions.deferred_by_exit(session@).contains(core) <==> crate::table::views(
        effects.exit.deferred@,
    ).contains(core));
}

/// An answer of the host that names other work, or that comes while admission is closed, takes nothing
/// from the UI of the work that was handed over: it is still told of the end.
pub proof fn law_a_mismatched_answer_leaves_the_ui(
    broker: BrokerModel,
    core: CoreExecutionId,
    execution: ExecutionId,
    mode: ExecutionMode,
    accepted: DispatchAccepted,
    now: Instant,
    after: BrokerModel,
    next: InvokeNext,
)
    requires
        broker.executions.executions.contains_key(core@),
        accepted.execution@ != core@,
        broker.invokes(
            InvokeStage::Dispatched { core, execution, mode, outcome: Ok(accepted) },
            now,
            after,
            next,
        ),
    ensures
        after.executions.executions.contains_key(core@),
        after.executions.executions[core@].session == broker.executions.executions[core@].session,
        after.executions.executions[core@].awaiting == broker.executions.executions[core@].awaiting,
        after.executions.awaiting == broker.executions.awaiting,
        next is Refuse,
{
}

} // verus!
