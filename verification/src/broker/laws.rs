//! What every transition of the broker keeps, and what it promises as a whole.
use super::attach::{AttachNext, AttachStage, AttachUi, Published};
use super::drain::{close_launches, DrainNext, DrainStage};
use super::invoke::{InvokeNext, InvokeStage, ResolvedBinding};
use super::lifecycle::{DeadlineEffects, DispatchCompletion};
use super::stand::{CommitNext, CommitStage, StandNext, StandStage};
use super::{
    counter_after, enqueue_gated, session_name, BrokerModel, DetachEffects, FailEffects,
    GatedSession, Prepared, ScopeLoss,
};
use crate::cleanup::{
    law_enqueued_cleanups_are_supervised, law_task_turns_keep_supervision, CleanupEffect,
    CleanupModel, TaskEvent,
};
use crate::execution::{
    law_abandon_keeps_consistency, law_reserve_keeps_consistency, law_steps_keep_consistency,
    ExecutionModel, ExecutionOwner, ExecutionPhase, TimeoutAction,
};
use crate::gate::{
    law_attach_keeps_consistency, law_bind_keeps_consistency, law_commit_keeps_consistency,
    law_endings_keep_consistency, law_prepare_keeps_consistency, law_publish_keeps_consistency,
    law_register_keeps_consistency, law_removal_keeps_consistency, GateError, GateModel,
    PendingLaunch, RegisteredPane,
};
use crate::host::{CaptureLease, PendingPaneLease, PendingPaneRegistration};
use crate::ids::{
    CoreExecutionId, HostPaneId, HostTabId, ModalScopeId, PendingLaunchToken, UiSessionId,
};
use crate::menu::MenuId;
use crate::protocol::{
    BrokerError, CaptureReleaseReason, ExecutionOutcome, MenuControl, ProtocolDiagnostic,
};
use crate::table::{enumerates, lists, lookup};
use crate::time::Instant;
use vstd::prelude::*;

verus! {

impl BrokerModel {
    /// What holds of the broker at all times: the launch gate, the executions and the backlog are
    /// each in order, every pending launch has a session waiting for it, and no execution bears an
    /// identity that is still to be given out.
    pub open spec fn consistent(self) -> bool {
        &&& self.gate.consistent()
        &&& self.executions.consistent()
        &&& self.cleanup.supervised()
        &&& self.cleanup.panes_are_leased()
        &&& forall|token: Seq<u8>| #[trigger]
            self.gate.pending.contains_key(token) ==> self.pending_sessions.contains_key(token)
        &&& forall|core: u64| #[trigger]
            self.executions.executions.contains_key(core) ==> core < self.next_execution
    }
}

/// A new broker is consistent.
pub proof fn law_new_broker_is_consistent()
    ensures
        BrokerModel::empty().consistent(),
{
}

/// Putting a pane on the backlog keeps the broker consistent.
pub proof fn law_close_pane_keeps_consistency(
    broker: BrokerModel,
    session: UiSessionId,
    registration: Option<RegisteredPane>,
    primary: Option<String>,
    now: Instant,
)
    requires
        broker.consistent(),
    ensures
        broker.close_pane(session, registration, primary, now).0.consistent(),
{
    if let Some(registration) = registration {
        lemma_enqueue_pane(broker.cleanup, session, registration, primary, now);
    }
}

proof fn lemma_enqueue_pane(
    backlog: CleanupModel,
    session: UiSessionId,
    registration: RegisteredPane,
    primary: Option<String>,
    now: Instant,
)
    requires
        backlog.supervised(),
        backlog.panes_are_leased(),
    ensures
        backlog.enqueue_pane(session, registration, primary, now, false).0.supervised(),
        backlog.enqueue_pane(session, registration, primary, now, false).0.panes_are_leased(),
{
    let lease = arbitrary::<CaptureLease>();
    law_enqueued_cleanups_are_supervised(
        backlog,
        session,
        registration,
        lease,
        CaptureReleaseReason::UiDismissed,
        primary,
        now,
        false,
    );
}

proof fn lemma_enqueue_gated(
    backlog: CleanupModel,
    tokens: Seq<Seq<u8>>,
    gated: Map<Seq<u8>, GatedSession>,
    session: UiSessionId,
    now: Instant,
)
    requires
        backlog.supervised(),
        backlog.panes_are_leased(),
    ensures
        enqueue_gated(backlog, tokens, gated, session, now).0.supervised(),
        enqueue_gated(backlog, tokens, gated, session, now).0.panes_are_leased(),
    decreases tokens.len(),
{
    if tokens.len() > 0 {
        lemma_enqueue_gated(backlog, tokens.drop_last(), gated, session, now);
        let before = enqueue_gated(backlog, tokens.drop_last(), gated, session, now).0;
        if let Some(registration) = gated[tokens.last()].registration {
            lemma_enqueue_pane(before, session, registration, None, now);
        }
    }
}

/// Whatever happens to one execution keeps the executions consistent.
proof fn lemma_executions(
    executions: ExecutionModel,
    core: u64,
    phase: ExecutionPhase,
    cancellable: bool,
    on_timeout: TimeoutAction,
    owner: ExecutionOwner,
    outcome: ExecutionOutcome,
    told: Option<ProtocolDiagnostic>,
    session: Seq<char>,
    control: MenuControl,
)
    requires
        executions.consistent(),
    ensures
        executions.release(core).0.consistent(),
        executions.activate(core, phase, cancellable).0.consistent(),
        executions.request_stop(core).0.consistent(),
        executions.stop_failed(core).consistent(),
        executions.detach_ui(core).consistent(),
        executions.deadline_elapsed(core, on_timeout).0.consistent(),
        executions.complete(core, owner, outcome, told).0.consistent(),
        executions.begin_control(session, control).0.consistent(),
        executions.clear_control(session, core, control).0.consistent(),
        executions.take_deferred(core).0.consistent(),
        executions.detach_session(session).consistent(),
{
    law_steps_keep_consistency(
        executions,
        core,
        phase,
        cancellable,
        on_timeout,
        owner,
        outcome,
        told,
        session,
        control,
    );
}

/// Detaching a session keeps the executions consistent.
proof fn lemma_detach_session(executions: ExecutionModel, session: Seq<char>)
    requires
        executions.consistent(),
    ensures
        executions.detach_session(session).consistent(),
{
    lemma_executions(
        executions,
        0,
        ExecutionPhase::Reserved,
        false,
        TimeoutAction::Detach,
        ExecutionOwner::Adapter,
        ExecutionOutcome::Failed,
        None,
        session,
        MenuControl::Quit,
    );
}

/// What happens to one execution, apart from controls and ends, keeps the executions consistent.
proof fn lemma_step(executions: ExecutionModel, core: u64, phase: ExecutionPhase, cancellable: bool)
    requires
        executions.consistent(),
    ensures
        executions.release(core).0.consistent(),
        executions.activate(core, phase, cancellable).0.consistent(),
        executions.request_stop(core).0.consistent(),
        executions.stop_failed(core).consistent(),
        executions.detach_ui(core).consistent(),
        executions.take_deferred(core).0.consistent(),
{
    lemma_executions(
        executions,
        core,
        phase,
        cancellable,
        TimeoutAction::Detach,
        ExecutionOwner::Adapter,
        ExecutionOutcome::Failed,
        None,
        Seq::empty(),
        MenuControl::Quit,
    );
}

proof fn lemma_gate_endings(gate: GateModel, token: Seq<u8>, session: Seq<char>, scope: Seq<char>)
    requires
        gate.consistent(),
    ensures
        gate.abort(token).0.consistent(),
        gate.abort_if_uncommitted(token).0.consistent(),
        gate.detach(session).0.consistent(),
        gate.release_dangling_owner(scope).consistent(),
{
    law_endings_keep_consistency(gate, token, arbitrary::<Instant>(), session, scope);
}

/// Detaching a session keeps the broker consistent.
pub proof fn law_detach_keeps_consistency(
    broker: BrokerModel,
    session: UiSessionId,
    reason: CaptureReleaseReason,
    now: Instant,
    after: BrokerModel,
    effects: DetachEffects,
)
    requires
        broker.consistent(),
        broker.detaches(session, reason, now, after, effects),
    ensures
        after.consistent(),
{
    let tokens = choose|tokens: Seq<Seq<u8>>|
        {
            &&& #[trigger] enumerates(tokens, broker.gated_tokens(session@))
            &&& (after, effects.cleanup@) == broker.detached(session, reason, now, tokens)
        };
    if let Some(record) = lookup(broker.sessions, session@) {
        if let Some(capture) = record.capture {
            law_enqueued_cleanups_are_supervised(
                broker.cleanup,
                session,
                arbitrary::<RegisteredPane>(),
                capture,
                reason,
                None,
                now,
                false,
            );
        }
    }
    let captured = broker.release_capture(session@, reason, now).0;
    lemma_enqueue_gated(captured, tokens, broker.gated_sessions, session, now);
    lemma_gate_endings(broker.gate, Seq::empty(), session@, Seq::empty());
    lemma_detach_session(broker.executions, session@);
}

/// A failed session keeps the broker consistent.
pub proof fn law_failure_keeps_consistency(
    broker: BrokerModel,
    session: UiSessionId,
    registration: Option<RegisteredPane>,
    reason: CaptureReleaseReason,
    now: Instant,
    after: BrokerModel,
    effects: FailEffects,
)
    requires
        broker.consistent(),
        broker.fails(session, registration, reason, now, after, effects),
    ensures
        after.consistent(),
{
    let detached = choose|detached: BrokerModel| #[trigger]
        broker.detaches(session, reason, now, detached, effects.detached) && (
            after,
            effects.pane,
        ) == detached.close_pane(session, registration, None, now);
    law_detach_keeps_consistency(broker, session, reason, now, detached, effects.detached);
    law_close_pane_keeps_consistency(detached, session, registration, None, now);
}

/// Minting a launch keeps the broker consistent.
proof fn lemma_mint(
    broker: BrokerModel,
    menu_known: bool,
    drawn: Result<PendingLaunchToken, GateError>,
    scope: ModalScopeId,
    root: MenuId,
    lease_millis: u32,
    now: Instant,
    fresh: UiSessionId,
)
    requires
        broker.consistent(),
    ensures
        broker.mint(menu_known, drawn, scope, root, lease_millis, now, fresh).0.consistent(),
{
    let after = broker.mint(menu_known, drawn, scope, root, lease_millis, now, fresh).0;
    let lease = crate::time::Duration::of_millis(lease_millis as u64);
    law_prepare_keeps_consistency(broker.gate, drawn, scope, root, now, lease);
    assert forall|token: Seq<u8>| #[trigger] after.gate.pending.contains_key(token) implies
        after.pending_sessions.contains_key(token) by {
        let (gate, prepared) = broker.gate.prepare(drawn, scope, root, now, lease);
        if let Ok(prepared) = prepared {
            if let Some(displaced) = prepared.replaced_pending {
                let owner = lookup(broker.gate.scopes, scope@);
                assert(broker.gate.pending.contains_key(displaced.token@)) by {
                    if let Some(crate::gate::ScopeOwner::Pending(previous)) = owner {
                        assert(broker.gate.pending[previous@].consistent(previous@));
                    }
                }
            }
        }
        if broker.gate.pending.contains_key(token) {
            assert(broker.pending_sessions.contains_key(token));
        }
    }
}

/// Preparing a launch keeps the broker consistent, whatever the source draws and whomever the
/// launch displaces.
pub proof fn law_broker_prepare_keeps_consistency(
    broker: BrokerModel,
    menu_known: bool,
    drawn: Result<PendingLaunchToken, GateError>,
    scope: ModalScopeId,
    root: MenuId,
    lease_millis: u32,
    now: Instant,
    after: BrokerModel,
    r: Result<Prepared, BrokerError>,
)
    requires
        broker.consistent(),
        broker.prepares(menu_known, drawn, scope, root, lease_millis, now, after, r),
    ensures
        after.consistent(),
{
    let fresh = choose|fresh: UiSessionId|
        {
            let (minted, launch) = #[trigger] broker.mint(
                menu_known,
                drawn,
                scope,
                root,
                lease_millis,
                now,
                fresh,
            );
            &&& fresh@ == session_name(broker.next_session)
            &&& minted.displaces(launch, now, after, r)
        };
    let (minted, launch) = broker.mint(menu_known, drawn, scope, root, lease_millis, now, fresh);
    lemma_mint(broker, menu_known, drawn, scope, root, lease_millis, now, fresh);
    if let Ok(launch) = launch {
        let prepared = r->Ok_0;
        let between = choose|between: BrokerModel|
            {
                &&& #[trigger] minted.displaces_launch(
                    launch.displaced_launch,
                    now,
                    between,
                    prepared.displaced_launch,
                )
                &&& between.displaces_session(
                    launch.displaced_session,
                    now,
                    after,
                    prepared.displaced_session,
                )
            };
        if let Some((displaced, session)) = launch.displaced_launch {
            law_failure_keeps_consistency(
                minted,
                session,
                displaced.registered_pane,
                CaptureReleaseReason::Replaced,
                now,
                between,
                prepared.displaced_launch->Some_0,
            );
        }
        if let Some(session) = launch.displaced_session {
            law_detach_keeps_consistency(
                between,
                session,
                CaptureReleaseReason::Replaced,
                now,
                after,
                prepared.displaced_session->Some_0,
            );
        }
    }
}

/// Registering a pane, at each of its stages, keeps the broker consistent.
pub proof fn law_registration_keeps_consistency(
    broker: BrokerModel,
    token: Seq<u8>,
    pane: HostPaneId,
    temporary_tab: Option<HostTabId>,
    registration: PendingPaneRegistration,
    lease: PendingPaneLease,
    now: Instant,
)
    requires
        broker.consistent(),
    ensures
        broker.register(token, pane, temporary_tab).0.consistent(),
        broker.register_failed(token).consistent(),
        broker.register_leased(token, registration, lease, now).0.consistent(),
{
    law_register_keeps_consistency(
        broker.gate,
        token,
        RegisteredPane { pane, temporary_tab, lease: None },
    );
    law_bind_keeps_consistency(broker.gate, token, lease);
    let done = broker.register_failed(token);
    let retained = RegisteredPane {
        pane: registration.pane,
        temporary_tab: registration.temporary_tab,
        lease: Some(lease),
    };
    law_close_pane_keeps_consistency(done, registration.ui_session, Some(retained), None, now);
}

/// Committing a placement keeps the broker consistent.
pub proof fn law_broker_commit_keeps_consistency(
    broker: BrokerModel,
    token: Seq<u8>,
    pane: Seq<char>,
)
    requires
        broker.consistent(),
    ensures
        broker.commit(token, pane).0.consistent(),
{
    law_commit_keeps_consistency(broker.gate, token, pane);
    let after = broker.commit(token, pane).0;
    assert forall|other: Seq<u8>| #[trigger] after.gate.pending.contains_key(other) implies
        after.pending_sessions.contains_key(other) by {
        assert(broker.gate.pending.contains_key(other));
    }
}

/// A broker whose launch of a token is gone from the launch gate and from the waiting sessions.
proof fn lemma_aborted(broker: BrokerModel, token: Seq<u8>)
    requires
        broker.consistent(),
    ensures
        (BrokerModel {
            gate: broker.gate.abort(token).0,
            pending_sessions: broker.pending_sessions.remove(token),
            ..broker
        }).consistent(),
        (BrokerModel { gate: broker.gate.abort(token).0, ..broker }).consistent(),
{
    lemma_gate_endings(broker.gate, token, Seq::empty(), Seq::empty());
    let after = BrokerModel {
        gate: broker.gate.abort(token).0,
        pending_sessions: broker.pending_sessions.remove(token),
        ..broker
    };
    assert forall|other: Seq<u8>| #[trigger] after.gate.pending.contains_key(other) implies
        after.pending_sessions.contains_key(other) by {
        assert(broker.gate.pending.contains_key(other));
    }
}

/// Aborting a launch, on request or because its launcher or its UI went away, keeps the broker
/// consistent, and so does telling a UI that it stands.
pub proof fn law_abort_keeps_consistency(
    broker: BrokerModel,
    token: Seq<u8>,
    session: UiSessionId,
    now: Instant,
    after: BrokerModel,
)
    requires
        broker.consistent(),
    ensures
        forall|r: Result<FailEffects, BrokerError>| #[trigger]
            broker.aborts(token, now, after, r) ==> after.consistent(),
        forall|r: Result<Option<FailEffects>, BrokerError>| #[trigger]
            broker.launcher_leaves(token, now, after, r) ==> after.consistent(),
        forall|r: Option<FailEffects>| #[trigger]
            broker.gated_ui_leaves(token, session, now, after, r) ==> after.consistent(),
        broker.confirm_gated_attachment(token, session@).0.consistent(),
{
    lemma_aborted(broker, token);
    let dismissed = CaptureReleaseReason::UiDismissed;
    let (gate, aborted) = broker.gate.abort(token);
    let left = BrokerModel {
        gate,
        pending_sessions: broker.pending_sessions.remove(token),
        ..broker
    };
    assert forall|r: Result<FailEffects, BrokerError>| #[trigger]
        broker.aborts(token, now, after, r) implies after.consistent() by {
        if let (Some(owner), Ok(registration)) = (lookup(broker.pending_sessions, token), aborted) {
            law_failure_keeps_consistency(
                left,
                owner,
                registration,
                dismissed,
                now,
                after,
                r->Ok_0,
            );
        }
    }
    assert forall|r: Result<Option<FailEffects>, BrokerError>| #[trigger]
        broker.launcher_leaves(token, now, after, r) implies after.consistent() by {
        if !broker.gate.placement_committed(token) {
            if let (Some(owner), Ok(registration)) = (
                lookup(broker.pending_sessions, token),
                aborted,
            ) {
                law_failure_keeps_consistency(
                    left,
                    owner,
                    registration,
                    dismissed,
                    now,
                    after,
                    r->Ok_0->Some_0,
                );
            }
        }
    }
    let told = BrokerModel { gated_sessions: broker.gated_sessions.remove(token), ..broker };
    assert forall|r: Option<FailEffects>| #[trigger]
        broker.gated_ui_leaves(token, session, now, after, r) implies after.consistent() by {
        if broker.is_pending_for(token, session@) {
            law_failure_keeps_consistency(
                left,
                session,
                broker.pane_of(token),
                dismissed,
                now,
                after,
                r->Some_0,
            );
        } else if broker.is_gated_for(token, session@) {
            law_failure_keeps_consistency(
                told,
                session,
                broker.gated_sessions[token].registration,
                dismissed,
                now,
                after,
                r->Some_0,
            );
        }
    }
}

proof fn lemma_take_sessions(
    broker: BrokerModel,
    gate: GateModel,
    launches: Seq<PendingLaunch>,
)
    requires
        gate.consistent(),
        broker.consistent(),
        forall|token: Seq<u8>| #[trigger]
            gate.pending.contains_key(token) ==> broker.gate.pending.contains_key(token),
        forall|i: int| 0 <= i < launches.len() ==> !gate.pending.contains_key(
            (#[trigger] launches[i]).token@,
        ),
    ensures
        (BrokerModel { gate, ..broker }).take_sessions(launches).0.consistent(),
        (BrokerModel { gate, ..broker }).take_sessions(launches).0.gate == gate,
    decreases launches.len(),
{
    if launches.len() == 0 {
        let left = BrokerModel { gate, ..broker };
        assert forall|token: Seq<u8>| #[trigger] left.gate.pending.contains_key(token) implies
            left.pending_sessions.contains_key(token) by {
            assert(broker.gate.pending.contains_key(token));
        }
    } else {
        assert forall|i: int| 0 <= i < launches.drop_last().len() implies !gate.pending.contains_key(
            (#[trigger] launches.drop_last()[i]).token@,
        ) by {
            assert(launches.drop_last()[i] == launches[i]);
        }
        lemma_take_sessions(broker, gate, launches.drop_last());
        assert(!gate.pending.contains_key(launches[launches.len() - 1].token@));
    }
}

proof fn lemma_fails_all(
    broker: BrokerModel,
    pairs: Seq<(PendingLaunch, UiSessionId)>,
    reason: CaptureReleaseReason,
    now: Instant,
    after: BrokerModel,
    effects: Seq<FailEffects>,
)
    requires
        broker.consistent(),
        broker.fails_all(pairs, reason, now, after, effects),
    ensures
        after.consistent(),
    decreases pairs.len(),
{
    if pairs.len() > 0 {
        let between = choose|between: BrokerModel|
            {
                &&& broker.fails_all(
                    pairs.drop_last(),
                    reason,
                    now,
                    between,
                    effects.drop_last(),
                )
                &&& #[trigger] between.fails(
                    pairs.last().1,
                    pairs.last().0.registered_pane,
                    reason,
                    now,
                    after,
                    effects.last(),
                )
            };
        lemma_fails_all(broker, pairs.drop_last(), reason, now, between, effects.drop_last());
        law_failure_keeps_consistency(
            between,
            pairs.last().1,
            pairs.last().0.registered_pane,
            reason,
            now,
            after,
            effects.last(),
        );
    }
}

/// The expiry of launches keeps the broker consistent.
pub proof fn law_expiry_keeps_consistency(
    broker: BrokerModel,
    now: Instant,
    after: BrokerModel,
    effects: Seq<FailEffects>,
)
    requires
        broker.consistent(),
        broker.expires(now, after, effects),
    ensures
        after.consistent(),
{
    let expired = broker.gate.expired(now);
    let gate = broker.gate.without_launches(expired);
    let left = BrokerModel { gate, ..broker };
    let launches = choose|launches: Seq<PendingLaunch>|
        {
            let (taken, pairs) = left.take_sessions(launches);
            &&& #[trigger] lists(launches, expired)
            &&& taken.fails_all(pairs, CaptureReleaseReason::LeaseExpired, now, after, effects)
        };
    law_removal_keeps_consistency(broker.gate, expired);
    let keys = choose|keys: Seq<Seq<u8>>|
        {
            &&& #[trigger] enumerates(keys, expired.dom())
            &&& launches == keys.map_values(|key: Seq<u8>| expired[key])
        };
    assert forall|i: int| 0 <= i < launches.len() implies !gate.pending.contains_key(
        (#[trigger] launches[i]).token@,
    ) by {
        assert(keys.contains(keys[i]));
        assert(broker.gate.pending.contains_key(keys[i]));
        assert(broker.gate.pending[keys[i]].consistent(keys[i]));
    }
    lemma_take_sessions(broker, gate, launches);
    let (taken, pairs) = left.take_sessions(launches);
    lemma_fails_all(taken, pairs, CaptureReleaseReason::LeaseExpired, now, after, effects);
}

/// Detaching sessions one after the other keeps the broker consistent.
pub proof fn law_detach_all_keeps_consistency(
    broker: BrokerModel,
    sessions: Seq<UiSessionId>,
    reason: CaptureReleaseReason,
    now: Instant,
    after: BrokerModel,
    effects: Seq<DetachEffects>,
)
    requires
        broker.consistent(),
        broker.detaches_all(sessions, reason, now, after, effects),
    ensures
        after.consistent(),
    decreases sessions.len(),
{
    if sessions.len() > 0 {
        let between = choose|between: BrokerModel|
            {
                &&& broker.detaches_all(
                    sessions.drop_last(),
                    reason,
                    now,
                    between,
                    effects.drop_last(),
                )
                &&& #[trigger] between.detaches(
                    sessions.last(),
                    reason,
                    now,
                    after,
                    effects.last(),
                )
            };
        law_detach_all_keeps_consistency(
            broker,
            sessions.drop_last(),
            reason,
            now,
            between,
            effects.drop_last(),
        );
        law_detach_keeps_consistency(
            between,
            sessions.last(),
            reason,
            now,
            after,
            effects.last(),
        );
    }
}

proof fn lemma_loses_launches(
    broker: BrokerModel,
    tokens: Seq<PendingLaunchToken>,
    now: Instant,
    after: BrokerModel,
    effects: Seq<Option<FailEffects>>,
)
    requires
        broker.consistent(),
        broker.loses_launches(tokens, now, after, effects),
    ensures
        after.consistent(),
    decreases tokens.len(),
{
    if tokens.len() > 0 {
        let between = choose|between: BrokerModel|
            {
                &&& broker.loses_launches(tokens.drop_last(), now, between, effects.drop_last())
                &&& #[trigger] between.loses_launch(tokens.last()@, now, after, effects.last())
            };
        lemma_loses_launches(broker, tokens.drop_last(), now, between, effects.drop_last());
        let token = tokens.last()@;
        lemma_aborted(between, token);
        if let Some(session) = lookup(between.pending_sessions, token) {
            law_failure_keeps_consistency(
                BrokerModel {
                    gate: between.gate.abort(token).0,
                    pending_sessions: between.pending_sessions.remove(token),
                    ..between
                },
                session,
                between.pane_of(token),
                CaptureReleaseReason::LeaseExpired,
                now,
                after,
                effects.last()->Some_0,
            );
        }
    }
}

/// The loss of a scope keeps the broker consistent.
pub proof fn law_scope_loss_keeps_consistency(
    broker: BrokerModel,
    scope: Seq<char>,
    now: Instant,
    after: BrokerModel,
    loss: ScopeLoss,
)
    requires
        broker.consistent(),
        broker.loses_scope(scope, now, after, loss),
    ensures
        after.consistent(),
{
    let (detached, aborted) = choose|detached: BrokerModel, aborted: BrokerModel| #[trigger]
        broker.loses_scope_through(scope, now, detached, aborted, after, loss);
    law_detach_all_keeps_consistency(
        broker,
        loss.sessions@,
        CaptureReleaseReason::LeaseExpired,
        now,
        detached,
        loss.detached@,
    );
    lemma_loses_launches(detached, loss.launches@, now, aborted, loss.aborted@);
    lemma_gate_endings(aborted.gate, Seq::empty(), Seq::empty(), scope);
}

/// Admitting a UI keeps the broker consistent.
proof fn lemma_attach_admit(
    broker: BrokerModel,
    request: AttachUi,
    scope: ModalScopeId,
    menu_known: bool,
    fresh: UiSessionId,
)
    requires
        broker.consistent(),
    ensures
        broker.attach_admit(request, scope, menu_known, fresh).0.consistent(),
{
    let session = match request.pending_launch {
        Some(token) => broker.pending_sessions[token@],
        None => fresh,
    };
    law_attach_keeps_consistency(
        broker.gate,
        session,
        scope,
        request.pane,
        request.pending_launch,
    );
    let after = broker.attach_admit(request, scope, menu_known, fresh).0;
    assert forall|token: Seq<u8>| #[trigger] after.gate.pending.contains_key(token) implies
        after.pending_sessions.contains_key(token) by {
        assert(broker.gate.pending.contains_key(token));
    }
}

/// Withdrawing a UI keeps the broker consistent.
proof fn lemma_attach_withdrawn(
    broker: BrokerModel,
    token: Option<PendingLaunchToken>,
    session: Seq<char>,
)
    requires
        broker.consistent(),
    ensures
        broker.attach_withdrawn(token, session).0.consistent(),
{
    lemma_gate_endings(broker.gate, Seq::empty(), session, Seq::empty());
    if let Some(token) = token {
        lemma_aborted(broker, token@);
        let after = broker.attach_withdrawn(Some(token), session).0;
        assert forall|other: Seq<u8>| #[trigger] after.gate.pending.contains_key(other) implies
            after.pending_sessions.contains_key(other) by {
            assert(broker.gate.pending.contains_key(other));
        }
    }
}

/// Publishing a session, or refusing it, keeps the broker consistent.
proof fn lemma_attach_publishes(
    broker: BrokerModel,
    request: AttachUi,
    session: UiSessionId,
    scope: ModalScopeId,
    now: Instant,
    limit: nat,
    after: BrokerModel,
    r: Published,
)
    requires
        broker.consistent(),
        broker.attach_publishes(request, session, scope, now, limit, after, r),
    ensures
        after.consistent(),
{
    let token = request.pending_launch;
    if let Some(token) = token {
        law_publish_keeps_consistency(broker.gate, token@, session);
        let published = broker.gate.publish_attached(token@, session).0;
        lemma_gate_endings(published, token@, Seq::empty(), Seq::empty());
        lemma_gate_endings(broker.gate, token@, Seq::empty(), Seq::empty());
    }
    if broker.attach_is_current(token, session@) {
        match broker.attach_verdict(token, session, scope@) {
            Ok(ready) => {
                assert forall|other: Seq<u8>| #[trigger]
                    after.gate.pending.contains_key(other) implies after.pending_sessions.contains_key(
                other) by {
                    assert(broker.gate.pending.contains_key(other));
                }
            },
            Err(error) => {
                let refused = broker.attach_refused(token, session);
                assert forall|other: Seq<u8>| #[trigger]
                    refused.gate.pending.contains_key(other) implies refused.pending_sessions.contains_key(
                other) by {
                    assert(broker.gate.pending.contains_key(other));
                }
                assert(refused.consistent());
                let registration = match token {
                    Some(token) => broker.pane_of(token@),
                    None => None,
                };
                let primary = choose|primary: String|
                    {
                        &&& #[trigger] crate::text::is_truncation(error.text(), limit, primary@)
                        &&& ({
                            let (closed, pane) = refused.close_pane(
                                session,
                                registration,
                                Some(primary),
                                now,
                            );
                            &&& after == closed
                            &&& r == Published::Refused { error, pane }
                        })
                    };
                law_close_pane_keeps_consistency(
                    refused,
                    session,
                    registration,
                    Some(primary),
                    now,
                );
            },
        }
    }
}

/// Installing a capture, or putting it on the backlog, keeps the broker consistent.
proof fn lemma_captures(
    broker: BrokerModel,
    session: UiSessionId,
    capture: CaptureLease,
    now: Instant,
    limit: nat,
    after: BrokerModel,
    r: Result<(), BrokerError>,
    effect: CleanupEffect,
)
    requires
        broker.consistent(),
        broker.captures(session, capture, now, limit, after, r, effect),
    ensures
        after.consistent(),
{
    if lookup(broker.sessions, session@) is None {
        let primary = choose|primary: String| #[trigger]
            crate::text::is_truncation(
                super::stand::late_capture_text(session),
                limit,
                primary@,
            ) && ({
                let (cleanup, signal) = broker.cleanup.enqueue_capture(
                    capture,
                    CaptureReleaseReason::UiDismissed,
                    Some(primary),
                    now,
                    false,
                );
                after == BrokerModel { cleanup, ..broker } && effect == signal
            });
        law_enqueued_cleanups_are_supervised(
            broker.cleanup,
            session,
            arbitrary::<RegisteredPane>(),
            capture,
            CaptureReleaseReason::UiDismissed,
            Some(primary),
            now,
            false,
        );
    }
}

/// A session that falls leaves the broker consistent.
proof fn lemma_stand_falls(
    broker: BrokerModel,
    session: UiSessionId,
    error: BrokerError,
    cleanup: CleanupEffect,
    now: Instant,
    after: BrokerModel,
    next: StandNext,
)
    requires
        broker.consistent(),
        broker.stand_falls(session, error, cleanup, now, after, next),
    ensures
        after.consistent(),
{
    law_detach_keeps_consistency(
        broker,
        session,
        CaptureReleaseReason::UiDismissed,
        now,
        after,
        next->Refuse_detached,
    );
}

/// Every stage of the way of a session to stand keeps the broker consistent.
pub proof fn law_standing_keeps_consistency(
    broker: BrokerModel,
    stage: StandStage,
    now: Instant,
    limit: nat,
    after: BrokerModel,
    next: StandNext,
)
    requires
        broker.consistent(),
        broker.stands(stage, now, limit, after, next),
    ensures
        after.consistent(),
{
    if let StandStage::CaptureBegun { session, capture: Ok(capture), has_view } = stage {
        let (taken, r, effect) = choose|
            taken: BrokerModel,
            r: Result<(), BrokerError>,
            effect: CleanupEffect,
        |
            {
                &&& #[trigger] broker.captures(session, capture, now, limit, taken, r, effect)
                &&& match r {
                    Ok(()) => taken.stand_answers(session, has_view, now, after, next),
                    Err(error) => taken.stand_falls(session, error, effect, now, after, next),
                }
            };
        lemma_captures(broker, session, capture, now, limit, taken, r, effect);
        if let StandNext::Refuse { error, cleanup, detached } = next {
            lemma_stand_falls(taken, session, error, cleanup, now, after, next);
        }
    } else if let StandNext::Refuse { error, cleanup, detached } = next {
        let session = match stage {
            StandStage::HostAsked { session, .. } => session,
            StandStage::CaptureBegun { session, .. } => session,
        };
        lemma_stand_falls(broker, session, error, cleanup, now, after, next);
    }
}

/// Every stage of a launcher's commit keeps the broker consistent.
pub proof fn law_committing_keeps_consistency(
    broker: BrokerModel,
    stage: CommitStage,
    now: Instant,
    limit: nat,
    after: BrokerModel,
    next: CommitNext,
)
    requires
        broker.consistent(),
        broker.commits(stage, now, limit, after, next),
    ensures
        after.consistent(),
{
    match stage {
        CommitStage::Requested { token, pane } => {
            law_broker_commit_keeps_consistency(broker, token@, pane@);
        },
        CommitStage::Standing(stage) => {
            law_standing_keeps_consistency(broker, stage, now, limit, after, next->Standing_0);
        },
    }
}

/// Every stage of an attachment keeps the broker consistent.
pub proof fn law_attachment_keeps_consistency(
    broker: BrokerModel,
    request: AttachUi,
    stage: AttachStage,
    now: Instant,
    limit: nat,
    after: BrokerModel,
    next: AttachNext,
)
    requires
        broker.consistent(),
        broker.attaches(request, stage, now, limit, after, next),
    ensures
        after.consistent(),
{
    match stage {
        AttachStage::ScopeFound { scope, menu_known } => {
            let fresh = choose|fresh: UiSessionId|
                {
                    let (admitted, r) = #[trigger] broker.attach_admit(
                        request,
                        scope,
                        menu_known,
                        fresh,
                    );
                    &&& fresh@ == session_name(broker.next_session)
                    &&& after == admitted
                };
            lemma_attach_admit(broker, request, scope, menu_known, fresh);
        },
        AttachStage::OriginFailed { session, error } => {
            let (withdrawn, registration) = broker.attach_withdrawn(
                request.pending_launch,
                session@,
            );
            lemma_attach_withdrawn(broker, request.pending_launch, session@);
            let primary = choose|primary: String| #[trigger]
                crate::text::is_truncation(error.message@, limit, primary@) && (
                    after,
                    next->Refuse_cleanup,
                ) == withdrawn.close_pane(session, registration, Some(primary), now);
            law_close_pane_keeps_consistency(
                withdrawn,
                session,
                registration,
                Some(primary),
                now,
            );
        },
        AttachStage::OriginCaptured { session, scope } => {
            let published = choose|published: Published| #[trigger]
                broker.attach_publishes(request, session, scope, now, limit, after, published);
            lemma_attach_publishes(broker, request, session, scope, now, limit, after, published);
        },
        AttachStage::Standing(stage) => {
            law_standing_keeps_consistency(broker, stage, now, limit, after, next->Standing_0);
        },
    }
}

/// Every stage of an invocation keeps the broker consistent, as long as identities have not run
/// out and a command that had to be stopped again is forgotten with its own session.
pub proof fn law_invocation_keeps_consistency(
    broker: BrokerModel,
    stage: InvokeStage,
    now: Instant,
    after: BrokerModel,
    next: InvokeNext,
)
    requires
        broker.consistent(),
        broker.next_execution < u64::MAX,
        broker.invokes(stage, now, after, next),
        stage matches InvokeStage::CommandReaped { core, session } ==> (lookup(
            broker.executions.executions,
            core@,
        ) matches Some(record) ==> (record.session matches Some(owner) ==> owner@ == session@)),
    ensures
        after.consistent(),
{
    match stage {
        InvokeStage::Requested { session, binding } => {
            if let (Some(record), Some(binding)) = (lookup(broker.sessions, session@), binding) {
                lemma_invokes_request(broker, session, binding, now, after, next);
            }
        },
        InvokeStage::Reloaded { .. } => {},
        InvokeStage::Dispatched { core, execution, mode, outcome } => {
            let phase = ExecutionPhase::Adapter;
            let cancellable = match outcome {
                Ok(accepted) => accepted.cancellable,
                Err(_) => false,
            };
            lemma_step(broker.executions, core@, phase, cancellable);
            lemma_step(broker.executions.detach_ui(core@), core@, phase, cancellable);
        },
        InvokeStage::CommandFailed { core, .. } => {
            lemma_step(broker.executions, core@, ExecutionPhase::Adapter, false);
        },
        InvokeStage::CommandSpawned { core, execution, mode } => {
            let phase = ExecutionPhase::Generic;
            lemma_step(broker.executions, core@, phase, true);
            let running = broker.executions.activate(core@, phase, true).0;
            lemma_step(running, core@, phase, true);
        },
        InvokeStage::CommandReaped { core, session } => {
            law_abandon_keeps_consistency(broker.executions, core@, session);
        },
    }
}

proof fn lemma_invokes_request(
    broker: BrokerModel,
    session: UiSessionId,
    binding: ResolvedBinding,
    now: Instant,
    after: BrokerModel,
    next: InvokeNext,
)
    requires
        broker.consistent(),
        broker.next_execution < u64::MAX,
        broker.sessions.contains_key(session@),
        broker.invokes_request(session, Some(binding), now, after, next),
    ensures
        after.consistent(),
{
    let record = broker.sessions[session@];
    let core = CoreExecutionId(broker.next_execution);
    let counted = BrokerModel { next_execution: counter_after(broker.next_execution), ..broker };
    let wire = choose|wire: crate::ids::ExecutionId|
        {
            &&& #[trigger] crate::text::spells_counter(wire@, broker.next_execution)
            &&& counted.invokes_binding(session, record, core, wire, binding, now, after, next)
        };
    assert(counted.consistent());
    assert(!broker.executions.executions.contains_key(core@));
    assert forall|owner: ExecutionOwner, deferred: Option<crate::execution::DeferredDispatch>|
        (#[trigger] broker.executions.reserve(
            session,
            wire,
            core,
            owner,
            deferred,
            binding.policy,
        )).0.consistent() by {
        law_reserve_keeps_consistency(
            broker.executions,
            session,
            wire,
            core,
            owner,
            deferred,
            binding.policy,
        );
    }
    if let super::invoke::ResolvedAction::Portable(Ok(crate::command::PortableAction::Quit)) =
        binding.action {
        law_detach_keeps_consistency(
            counted,
            session,
            CaptureReleaseReason::UiDismissed,
            now,
            after,
            next->Accept_0.detached->Some_0,
        );
    }
}

/// What happens to an execution after it was admitted keeps the broker consistent.
#[verifier::rlimit(40)]
pub proof fn law_lifecycle_keeps_consistency(
    broker: BrokerModel,
    core: u64,
    on_timeout: TimeoutAction,
    completion: DispatchCompletion,
    outcome: ExecutionOutcome,
    told: Option<ProtocolDiagnostic>,
    session: Seq<char>,
    control: MenuControl,
    execution: crate::ids::ExecutionId,
    error: BrokerError,
    accepted: Result<super::invoke::DispatchAccepted, crate::protocol::AdapterError>,
    limit: nat,
    after: BrokerModel,
)
    requires
        broker.consistent(),
    ensures
        broker.request_stop(core).0.consistent(),
        forall|r: Option<DeadlineEffects>| #[trigger]
            broker.deadline_elapses(core, on_timeout, limit, after, r) ==> after.consistent(),
        forall|r: Option<crate::execution::Completion>| #[trigger]
            broker.dispatch_completes(completion, limit, after, r) ==> after.consistent(),
        broker.finish_generic(core, outcome, told).0.consistent(),
        broker.control(session, control).0.consistent(),
        broker.control_refused(session, core, execution, control, error).0.consistent(),
        broker.post_dismissed(core, accepted).0.consistent(),
{
    let cancellable = match accepted {
        Ok(accepted) => accepted.cancellable,
        Err(_) => false,
    };
    let phase = ExecutionPhase::Adapter;
    lemma_executions(
        broker.executions,
        core,
        phase,
        cancellable,
        on_timeout,
        ExecutionOwner::GenericProcess,
        outcome,
        told,
        session,
        control,
    );
    lemma_step(broker.executions.request_stop(core).0, core, phase, cancellable);
    lemma_step(broker.executions.detach_ui(core), core, phase, cancellable);
    assert forall|r: Option<crate::execution::Completion>| #[trigger]
        broker.dispatch_completes(completion, limit, after, r) implies after.consistent() by {
        let said = choose|said: Option<ProtocolDiagnostic>|
            {
                &&& #[trigger] completion.is_told_by(said, limit)
                &&& (after.executions, r) == broker.executions.complete(
                    completion.about()@,
                    ExecutionOwner::Adapter,
                    completion.outcome(),
                    said,
                )
                &&& after == BrokerModel { executions: after.executions, ..broker }
            };
        lemma_executions(
            broker.executions,
            completion.about()@,
            phase,
            cancellable,
            on_timeout,
            ExecutionOwner::Adapter,
            completion.outcome(),
            said,
            session,
            control,
        );
    }
    let (begun, start) = broker.executions.begin_control(session, control);
    if let Ok(Some(start)) = start {
        lemma_executions(
            begun,
            start.core@,
            phase,
            cancellable,
            on_timeout,
            ExecutionOwner::Adapter,
            outcome,
            told,
            session,
            control,
        );
    }
}

proof fn lemma_close_launches(
    backlog: CleanupModel,
    launches: Seq<PendingLaunch>,
    sessions: Map<Seq<u8>, UiSessionId>,
    now: Instant,
)
    requires
        backlog.supervised(),
        backlog.panes_are_leased(),
    ensures
        close_launches(backlog, launches, sessions, now).0.supervised(),
        close_launches(backlog, launches, sessions, now).0.panes_are_leased(),
    decreases launches.len(),
{
    if launches.len() > 0 {
        lemma_close_launches(backlog, launches.drop_last(), sessions, now);
        let before = close_launches(backlog, launches.drop_last(), sessions, now).0;
        let launch = launches.last();
        if let (Some(session), Some(registration)) = (
            lookup(sessions, launch.token@),
            launch.registered_pane,
        ) {
            lemma_enqueue_pane(before, session, registration, None, now);
        }
    }
}

/// Every stage of a drain keeps the broker consistent.
pub proof fn law_drain_keeps_consistency(
    broker: BrokerModel,
    stage: DrainStage,
    now: Instant,
    after: BrokerModel,
    next: DrainNext,
)
    requires
        broker.consistent(),
        broker.drains(stage, now, after, next),
    ensures
        after.consistent(),
{
    lemma_seal(broker, true);
    lemma_seal(broker, false);
    if let DrainStage::HostSettled = stage {
        if let DrainNext::Detached { panes, sessions, detached } = next {
            let (launches, emptied) = choose|launches: Seq<PendingLaunch>, emptied: BrokerModel|
                #[trigger]
                broker.empties_through(
                    now,
                    launches,
                    emptied,
                    after,
                    panes@,
                    sessions@,
                    detached@,
                );
            lemma_close_launches(broker.cleanup, launches, broker.pending_sessions, now);
            law_detach_all_keeps_consistency(
                emptied,
                sessions@,
                CaptureReleaseReason::UiDismissed,
                now,
                after,
                detached@,
            );
        }
    }
}

/// Opening or closing admission keeps the broker consistent.
proof fn lemma_seal(broker: BrokerModel, sealed: bool)
    requires
        broker.consistent(),
    ensures
        (BrokerModel {
            executions: ExecutionModel { sealed, ..broker.executions },
            ..broker
        }).consistent(),
{
    let executions = ExecutionModel { sealed, ..broker.executions };
    assert forall|core: u64| #[trigger] executions.executions.contains_key(core) implies
        executions.record_fits(core) by {
        assert(broker.executions.record_fits(core));
    }
    assert forall|session: Seq<char>| #[trigger] executions.awaiting.contains_key(session) implies
        executions.wait_fits(session) by {
        assert(broker.executions.wait_fits(session));
    }
}

/// Every turn of a cleanup task keeps the broker consistent.
pub proof fn law_cleanup_keeps_consistency(
    broker: BrokerModel,
    lease: Seq<char>,
    claim: u64,
    event: TaskEvent,
    now: Instant,
)
    requires
        broker.consistent(),
    ensures
        (BrokerModel {
            cleanup: broker.cleanup.pane_task(lease, claim, event, now).0,
            ..broker
        }).consistent(),
        (BrokerModel {
            cleanup: broker.cleanup.capture_task(lease, claim, event, now).0,
            ..broker
        }).consistent(),
{
    law_task_turns_keep_supervision(broker.cleanup, lease, claim, event, now);
}

} // verus!
