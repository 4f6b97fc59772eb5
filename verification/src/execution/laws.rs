//! What each step of an execution comes to, and what it leaves alone.
use super::{
    drain_refusal, ControlStart, ControlStep, DeferredDispatch, ExecutionMode, ExecutionModel,
    ExecutionOwner, ExecutionPhase, ExecutionPolicy, ExecutionRecord, FailedWait, MenuControlAction,
    StopTarget, TimeoutAction,
};
use crate::ids::{CoreExecutionId, ExecutionId, UiSessionId};
use crate::protocol::{BrokerError, MenuControl};
use crate::text::decimal;
use vstd::prelude::*;

verus! {

/// Every execution but this one is as it was.
pub open spec fn others_are_kept(before: ExecutionModel, after: ExecutionModel, core: u64) -> bool {
    forall|other: u64|
        other != core ==> (#[trigger] after.executions.contains_key(other)
            <==> before.executions.contains_key(other)) && (before.executions.contains_key(other)
            ==> after.executions[other] == before.executions[other])
}

/// Every wait for another execution is as it was.
pub open spec fn other_waits_are_kept(
    before: ExecutionModel,
    after: ExecutionModel,
    core: u64,
) -> bool {
    forall|session: Seq<char>|
        #![trigger after.awaiting.contains_key(session)]
        before.awaiting.contains_key(session) && before.awaiting[session]@ != core
            ==> after.awaiting.contains_key(session) && after.awaiting[session]
            == before.awaiting[session]
}

/// A reservation is made wherever admission is open and the UI is free to wait or does not want to; it
/// is for the UI that asked, under the identity that it was given, and carries the binding's policy.
/// Where it is refused nothing changes.
pub proof fn law_a_reservation_is_made_where_it_may_be(
    registry: ExecutionModel,
    session: UiSessionId,
    wire: ExecutionId,
    core: CoreExecutionId,
    owner: ExecutionOwner,
    deferred: Option<DeferredDispatch>,
    policy: ExecutionPolicy,
)
    ensures
        ({
            let (after, result) = registry.reserve(session, wire, core, owner, deferred, policy);
            let record = after.executions[core@];
            let waits = policy.mode == ExecutionMode::Await;
            &&& result is Ok <==> !registry.sealed && !(waits && registry.awaiting.contains_key(
                session@,
            ))
            &&& result is Err ==> after == registry
            &&& registry.sealed ==> result == Err::<(), BrokerError>(
                BrokerError::ActivationInProgress,
            )
            &&& result is Err && !registry.sealed ==> result == Err::<(), BrokerError>(
                BrokerError::PendingExecutionInFlight,
            )
            &&& result is Ok ==> {
                &&& after.executions.contains_key(core@)
                &&& record.wire == wire && record.core == core
                &&& record.session == Some(session)
                &&& record.awaiting == waits
                &&& record.owner == owner
                &&& record.phase == ExecutionPhase::Reserved
                &&& record.deferred == deferred
                &&& record.timeout == policy.timeout
                &&& record.on_timeout == policy.on_timeout
                &&& record.on_menu_control == policy.on_menu_control
                &&& record.cancellable <==> owner == ExecutionOwner::GenericProcess
                &&& record.pending_control is None
                &&& !record.termination_requested && !record.deadline_scheduled
                &&& waits ==> after.awaiting == registry.awaiting.insert(session@, core)
                &&& !waits ==> after.awaiting == registry.awaiting
                &&& others_are_kept(registry, after, core@)
                &&& after.sealed == registry.sealed
            }
        }),
{
}

/// A reservation that is given back is gone, and its UI is free; making it and giving it back leaves
/// the registry as it was.
pub proof fn law_a_reservation_can_be_given_back(
    registry: ExecutionModel,
    session: UiSessionId,
    wire: ExecutionId,
    core: CoreExecutionId,
    owner: ExecutionOwner,
    deferred: Option<DeferredDispatch>,
    policy: ExecutionPolicy,
)
    requires
        !registry.executions.contains_key(core@),
        forall|other: Seq<char>|
            registry.awaiting.contains_key(other) ==> (#[trigger] registry.awaiting[other])@ != core@,
        registry.reserve(session, wire, core, owner, deferred, policy).1 is Ok,
    ensures
        ({
            let reserved = registry.reserve(session, wire, core, owner, deferred, policy).0;
            let (after, given_back) = reserved.release(core@);
            &&& given_back
            &&& after == registry
            &&& after.release(core@) == (after, false)
        }),
{
    let reserved = registry.reserve(session, wire, core, owner, deferred, policy).0;
    let after = reserved.release(core@).0;
    assert(after.executions =~= registry.executions);
    assert(after.awaiting =~= registry.awaiting);
}

/// An owner that runs is in the phase that was said, and can be cancelled where that was said; its
/// deadline is started once; and what runs although admission was closed meanwhile is told so.
pub proof fn law_an_activation_starts_the_deadline_once(
    registry: ExecutionModel,
    core: u64,
    phase: ExecutionPhase,
    cancellable: bool,
)
    ensures
        ({
            let (after, activation) = registry.activate(core, phase, cancellable);
            let before = registry.executions[core];
            let record = after.executions[core];
            &&& activation.result is Ok <==> !registry.sealed
            &&& activation.result is Err ==> activation.result == Err::<(), BrokerError>(
                BrokerError::ActivationInProgress,
            )
            &&& registry.executions.contains_key(core) ==> {
                &&& after.executions.contains_key(core)
                &&& record.phase == phase && record.cancellable == cancellable
                &&& record.session == before.session && record.awaiting == before.awaiting
                &&& record.wire == before.wire && record.owner == before.owner
                &&& record.termination_requested == before.termination_requested
                &&& !before.deadline_scheduled && before.timeout is Some ==> activation.deadline
                    == Some((before.timeout->Some_0, before.on_timeout))
                &&& before.deadline_scheduled || before.timeout is None
                    ==> activation.deadline is None
                &&& after.activate(core, phase, cancellable).1.deadline is None
            }
            &&& !registry.executions.contains_key(core) ==> after == registry
                && activation.deadline is None
            &&& others_are_kept(registry, after, core)
            &&& after.awaiting == registry.awaiting
        }),
{
}

/// A stop goes to who carries the work out, and changes nothing but that it was asked for; one that
/// failed may be asked for again.
pub proof fn law_a_stop_goes_to_the_owner(registry: ExecutionModel, core: u64)
    ensures
        ({
            let (after, target) = registry.request_stop(core);
            let before = registry.executions[core];
            &&& target is Some <==> registry.executions.contains_key(core)
                && !before.termination_requested
            &&& target is Some ==> after.executions[core].termination_requested
            &&& target is None ==> after == registry
            &&& target matches Some(StopTarget::Adapter) ==> before.owner == ExecutionOwner::Adapter
            &&& target matches Some(StopTarget::GenericProcess) ==> before.owner
                == ExecutionOwner::GenericProcess && before.phase != ExecutionPhase::Reserved
            &&& target matches Some(StopTarget::GenericProcessIfSpawned) ==> before.owner
                == ExecutionOwner::GenericProcess && before.phase == ExecutionPhase::Reserved
            &&& target is Some && before.phase != ExecutionPhase::Terminal ==> after.stop_failed(
                core,
            ) == registry
            &&& others_are_kept(registry, after, core)
            &&& after.awaiting == registry.awaiting
        }),
{
    let after = registry.request_stop(core).0;
    if registry.request_stop(core).1 is Some && registry.executions[core].phase
        != ExecutionPhase::Terminal {
        assert(after.stop_failed(core).executions =~= registry.executions);
    }
}

/// A UI that goes its own way leaves the work as it is, but for itself, and waits for it no more.
pub proof fn law_work_goes_on_without_its_ui(registry: ExecutionModel, core: u64)
    requires
        registry.executions.contains_key(core),
    ensures
        ({
            let after = registry.detach_ui(core);
            let before = registry.executions[core];
            let record = after.executions[core];
            &&& after.executions.contains_key(core)
            &&& record.session is None && !record.awaiting
            &&& record.phase == before.phase && record.owner == before.owner
            &&& record.wire == before.wire && record.cancellable == before.cancellable
            &&& record.termination_requested == before.termination_requested
            &&& record.deferred == before.deferred
            &&& before.session matches Some(session) ==> !(after.awaiting.contains_key(session@)
                && after.awaiting[session@]@ == core)
            &&& others_are_kept(registry, after, core)
            &&& other_waits_are_kept(registry, after, core)
        }),
{
}

/// A deadline that elapses lets go of the UI of that work alone.
pub proof fn law_a_deadline_concerns_one_execution(
    registry: ExecutionModel,
    core: u64,
    on_timeout: TimeoutAction,
)
    ensures
        ({
            let (after, expiry) = registry.deadline_elapsed(core, on_timeout);
            &&& others_are_kept(registry, after, core)
            &&& other_waits_are_kept(registry, after, core)
            &&& expiry is None ==> after == registry
            &&& expiry matches Some(expiry) ==> expiry.wire == registry.executions[core].wire
                && expiry.session == registry.executions[core].session && (expiry.stop is Some
                <==> on_timeout == TimeoutAction::Cancel)
            &&& after.deadline_elapsed(core, TimeoutAction::Cancel).1 is Some ==> expiry is None
                || on_timeout == TimeoutAction::Detach
        }),
{
}

/// A control that is taken up is pending until it is taken back, and taking it back leaves the registry
/// as it was; no second one is taken up meanwhile.
pub proof fn law_a_control_can_be_taken_back(
    registry: ExecutionModel,
    session: Seq<char>,
    control: MenuControl,
    other: MenuControl,
)
    ensures
        ({
            let (after, started) = registry.begin_control(session, control);
            let core = registry.awaiting[session]@;
            let before = registry.executions[core];
            let waits = registry.awaiting.contains_key(session) && registry.executions.contains_key(
                core,
            );
            &&& !waits ==> started == Ok::<Option<ControlStart>, BrokerError>(None) && after
                == registry
            &&& waits && before.pending_control is Some ==> started == Err::<
                Option<ControlStart>,
                BrokerError,
            >(BrokerError::PendingControlInFlight) && after == registry
            &&& waits && before.pending_control is None ==> {
                &&& started matches Ok(Some(start))
                &&& start.core == before.core && start.wire == before.wire
                &&& start.step == ControlStep::Accept <==> before.on_menu_control
                    == MenuControlAction::Detach
                &&& start.step == ControlStep::Stop <==> before.on_menu_control
                    == MenuControlAction::Cancel && before.cancellable
                &&& start.step == ControlStep::Refuse <==> before.on_menu_control
                    == MenuControlAction::Cancel && !before.cancellable
                &&& after.begin_control(session, other).1 is Err
                &&& after.clear_control(session, core, control) == (registry, true)
                &&& other != control ==> after.clear_control(session, core, other) == (after, false)
            }
            &&& others_are_kept(registry, after, core)
            &&& after.awaiting == registry.awaiting
        }),
{
    let (after, started) = registry.begin_control(session, control);
    let core = registry.awaiting[session]@;
    if started is Ok && started->Ok_0 is Some {
        assert(after.clear_control(session, core, control).0.executions =~= registry.executions);
    }
}

/// A command that is forgotten is gone, with the wait of its UI, and nothing else is.
pub proof fn law_a_forgotten_command_is_gone(
    registry: ExecutionModel,
    core: u64,
    session: UiSessionId,
)
    ensures
        ({
            let after = registry.abandon(core, session);
            &&& !after.executions.contains_key(core)
            &&& !(after.awaiting.contains_key(session@) && after.awaiting[session@]@ == core)
            &&& others_are_kept(registry, after, core)
            &&& other_waits_are_kept(registry, after, core)
        }),
{
}

/// When the host can no longer be relied on, the UIs that wait for its work are told that it failed:
/// those among the sessions given, for work that the host owns, unless a control is pending.
pub proof fn law_the_hosts_work_fails_for_who_waits(
    registry: ExecutionModel,
    sessions: Set<Seq<char>>,
    core: u64,
    wait: FailedWait,
)
    requires
        registry.executions.contains_key(core),
    ensures
        ({
            let record = registry.executions[core];
            registry.failing(sessions).contains(core) <==> {
                &&& record.owner == ExecutionOwner::Adapter
                &&& record.pending_control is None
                &&& record.session is Some
                &&& sessions.contains(record.session->Some_0@)
            }
        }),
        wait.core@ == core && registry.is_about(wait) ==> Some(wait.session)
            == registry.executions[core].session && wait.wire == registry.executions[core].wire,
        forall|gone: u64|
            !registry.executions.contains_key(gone) ==> !#[trigger] registry.failing(
                sessions,
            ).contains(gone),
{
}

/// What a drain has to see to: a reservation that may still reach the host or a child is open unless it
/// waits for a pane; work of the host blocks where it cannot be cancelled; and what waits for a pane is
/// counted as waiting.
pub proof fn law_a_drain_sees_what_is_left(registry: ExecutionModel, core: u64)
    requires
        registry.executions.contains_key(core),
    ensures
        ({
            let record = registry.executions[core];
            &&& record.phase == ExecutionPhase::Reserved && record.deferred is None
                ==> registry.has_open_reservation()
            &&& registry.blocks_drain(core) <==> record.phase == ExecutionPhase::Adapter
                && !record.cancellable
            &&& registry.in_adapter().contains(core) <==> record.phase == ExecutionPhase::Adapter
            &&& registry.waiting_for_dismissal().contains(core) <==> record.deferred is Some
        }),
        (forall|other: u64|
            registry.executions.contains_key(other) ==> (#[trigger] registry.executions[other]).phase
                != ExecutionPhase::Reserved || registry.executions[other].deferred is Some)
            ==> !registry.has_open_reservation(),
{
}

/// A drain that is refused says whose work stands in its way, and which: the session's name, or that the
/// work is detached, comes first, and the number of the execution is there.
pub proof fn law_a_refused_drain_names_the_work(core: u64, record: ExecutionRecord)
    ensures
        ({
            let text = drain_refusal(core, record);
            let owner = match record.session {
                Some(session) => session@,
                None => "detached"@,
            };
            let number = decimal(core as nat);
            let at = owner.len() as int + 16;
            &&& text.subrange(0, owner.len() as int) == owner
            &&& text.subrange(at, at + number.len() as int) == number
        }),
{
    reveal_strlit(" host execution ");
    let text = drain_refusal(core, record);
    let owner = match record.session {
        Some(session) => session@,
        None => "detached"@,
    };
    let number = decimal(core as nat);
    let at = owner.len() as int + 16;
    assert(text.subrange(0, owner.len() as int) =~= owner);
    assert(text.subrange(at, at + number.len() as int) =~= number);
}

} // verus!
