//! What the broker promises across its transitions.
use super::attach::{AttachNext, AttachStage, AttachUi};
use super::drain::{DrainNext, DrainStage};
use super::invoke::{InvokeNext, InvokeStage};
use super::stand::{StandNext, StandStage};
use super::{
    enqueue_gated, session_name, BrokerModel, DetachEffects, FailEffects, Prepared, ScopeLoss,
};
use crate::cleanup::{CleanupEffect, CleanupModel};
use crate::execution::{ExecutionOwner, ExecutionPhase};
use crate::gate::{GateError, GateModel, PendingLaunch, ScopeOwner};
use crate::host::CaptureLease;
use crate::ids::{
    CoreExecutionId, ExecutionId, HostPaneId, HostTabId, ModalScopeId, PendingLaunchToken, UiSessionId,
};
use crate::menu::MenuId;
use crate::protocol::{BrokerError, CaptureReleaseReason};
use crate::table::{enumerates, lookup, opt_view, views};
use crate::text::{decimal, law_decimals_differ};
use crate::time::Instant;
use vstd::prelude::*;

verus! {

/// While admission is closed no launch is prepared, no pane is registered and no UI is let in;
/// nothing changes.
pub proof fn law_closed_broker_admits_no_ui(
    broker: BrokerModel,
    drawn: Result<PendingLaunchToken, GateError>,
    scope: ModalScopeId,
    root: MenuId,
    lease_millis: u32,
    now: Instant,
    fresh: UiSessionId,
    token: Seq<u8>,
    pane: HostPaneId,
    temporary_tab: Option<HostTabId>,
    request: AttachUi,
)
    requires
        broker.executions.sealed,
    ensures
        broker.draws_no_token(true, lease_millis),
        forall|after: BrokerModel, r: Result<Prepared, BrokerError>| #[trigger]
            broker.prepares(true, drawn, scope, root, lease_millis, now, after, r) ==> after
                == broker && r == Err::<Prepared, BrokerError>(
                BrokerError::ActivationInProgress,
            ),
        broker.register(token, pane, temporary_tab) == (
            broker,
            Err::<super::RegisterStep, BrokerError>(BrokerError::ActivationInProgress),
        ),
        broker.attach_admit(request, scope, true, fresh) == (
            broker,
            Err::<UiSessionId, BrokerError>(BrokerError::ActivationInProgress),
        ),
{
}

/// A UI that was let in before admission was closed does not stand afterwards: it is refused, and
/// where the launch was its own, its session is not there.
pub proof fn law_no_ui_stands_once_closed(
    broker: BrokerModel,
    request: AttachUi,
    session: UiSessionId,
    scope: ModalScopeId,
    now: Instant,
    limit: nat,
    after: BrokerModel,
    next: AttachNext,
)
    requires
        broker.executions.sealed,
        broker.attaches(
            request,
            AttachStage::OriginCaptured { session, scope },
            now,
            limit,
            after,
            next,
        ),
    ensures
        next is Refuse,
        broker.attach_is_current(request.pending_launch, session@)
            ==> !after.sessions.contains_key(session@),
        !broker.attach_is_current(request.pending_launch, session@) ==> after == broker,
{
}

/// While admission is closed no invocation comes to own an execution: nothing is handed to the
/// host, and nothing is spawned.
pub proof fn law_closed_broker_admits_no_execution(
    broker: BrokerModel,
    session: UiSessionId,
    binding: Option<super::invoke::ResolvedBinding>,
    now: Instant,
    after: BrokerModel,
    next: InvokeNext,
)
    requires
        broker.executions.sealed,
        broker.invokes(InvokeStage::Requested { session, binding }, now, after, next),
    ensures
        !(next is Dispatch),
        !(next is Spawn),
        forall|core: u64| #[trigger]
            after.executions.executions.contains_key(core)
                ==> broker.executions.executions.contains_key(core),
{
}

/// An execution that stands reserved for a session's UI, under its own identity.
pub open spec fn is_reserved(
    broker: BrokerModel,
    session: UiSessionId,
    core: CoreExecutionId,
    execution: ExecutionId,
    owner: ExecutionOwner,
) -> bool {
    &&& broker.executions.executions.contains_key(core@)
    &&& ({
        let record = broker.executions.executions[core@];
        &&& record.wire == execution
        &&& record.core == core
        &&& record.session == Some(session)
        &&& record.owner == owner
        &&& record.phase == ExecutionPhase::Reserved
    })
}

/// The broker owns work before anybody starts it: when the host is to take it, or a command is to be
/// spawned, it stands reserved for the session that asked.
pub proof fn law_work_is_owned_before_it_starts(
    broker: BrokerModel,
    session: UiSessionId,
    binding: Option<super::invoke::ResolvedBinding>,
    now: Instant,
    after: BrokerModel,
    next: InvokeNext,
)
    requires
        broker.invokes(InvokeStage::Requested { session, binding }, now, after, next),
    ensures
        next matches InvokeNext::Dispatch { core, execution } ==> is_reserved(
            after,
            session,
            core,
            execution,
            ExecutionOwner::Adapter,
        ),
        next matches InvokeNext::Spawn { core, execution } ==> is_reserved(
            after,
            session,
            core,
            execution,
            ExecutionOwner::GenericProcess,
        ),
{
}

/// Panes on the backlog stay there, and each pane that is put there with a lease is there.
proof fn lemma_enqueue_gated(
    backlog: CleanupModel,
    tokens: Seq<Seq<u8>>,
    gated: Map<Seq<u8>, super::GatedSession>,
    session: UiSessionId,
    now: Instant,
)
    ensures
        ({
            let after = enqueue_gated(backlog, tokens, gated, session, now).0;
            &&& forall|lease: Seq<char>| #[trigger]
                backlog.panes.contains_key(lease) ==> after.panes.contains_key(lease)
            &&& after.captures == backlog.captures
            &&& forall|token: Seq<u8>|
                {
                    &&& #[trigger] tokens.contains(token)
                    &&& gated[token].registration matches Some(registration)
                    &&& registration.lease is Some
                } ==> after.panes.contains_key(gated[token].registration->Some_0.lease->Some_0.id@)
        }),
    decreases tokens.len(),
{
    if tokens.len() > 0 {
        lemma_enqueue_gated(backlog, tokens.drop_last(), gated, session, now);
        assert forall|token: Seq<u8>| #[trigger]
            tokens.contains(token) && token != tokens.last() implies tokens.drop_last().contains(
            token,
        ) by {
            let at = tokens.index_of(token);
            assert(tokens.drop_last()[at] == token);
        }
    }
}

/// What a session leaves behind is on the backlog as soon as it is detached: its capture, and the
/// panes of the launches that its UI was not told of.
pub proof fn law_detaching_hands_over_what_is_left(
    broker: BrokerModel,
    session: UiSessionId,
    reason: CaptureReleaseReason,
    now: Instant,
    after: BrokerModel,
    effects: DetachEffects,
)
    requires
        broker.detaches(session, reason, now, after, effects),
    ensures
        lookup(broker.sessions, session@) matches Some(record) ==> (record.capture matches Some(
            capture,
        ) ==> after.cleanup.captures.contains_key(capture.id@)),
        forall|token: Seq<u8>|
            {
                &&& #[trigger] broker.gated_tokens(session@).contains(token)
                &&& broker.gated_sessions[token].registration matches Some(registration)
                &&& registration.lease is Some
            } ==> after.cleanup.panes.contains_key(
                broker.gated_sessions[token].registration->Some_0.lease->Some_0.id@,
            ),
        forall|lease: Seq<char>| #[trigger]
            broker.cleanup.panes.contains_key(lease) ==> after.cleanup.panes.contains_key(lease),
        forall|lease: Seq<char>| #[trigger]
            broker.cleanup.captures.contains_key(lease) ==> after.cleanup.captures.contains_key(
                lease,
            ),
{
    let tokens = choose|tokens: Seq<Seq<u8>>|
        {
            &&& #[trigger] enumerates(tokens, broker.gated_tokens(session@))
            &&& (after, effects.cleanup@) == broker.detached(session, reason, now, tokens)
        };
    let captured = broker.release_capture(session@, reason, now).0;
    lemma_enqueue_gated(captured, tokens, broker.gated_sessions, session, now);
    assert(captured.panes == broker.cleanup.panes);
    assert forall|token: Seq<u8>| #[trigger]
        broker.gated_tokens(session@).contains(token) implies tokens.contains(token) by {}
}

/// A detached session is gone: it does not stand, no UI of it waits, and nothing that it had at the
/// launch gate is left.
pub proof fn law_a_detached_session_is_gone(
    broker: BrokerModel,
    session: UiSessionId,
    reason: CaptureReleaseReason,
    now: Instant,
    after: BrokerModel,
    effects: DetachEffects,
)
    requires
        broker.detaches(session, reason, now, after, effects),
    ensures
        !after.sessions.contains_key(session@),
        !after.executions.awaiting.contains_key(session@),
        !after.gate.sessions.contains_key(session@),
        after.gated_tokens(session@) =~= Set::<Seq<u8>>::empty(),
        forall|core: u64| #[trigger]
            after.executions.executions.contains_key(core)
                <==> broker.executions.executions.contains_key(core),
{
}

/// Detaching a session a second time changes nothing, and leaves nothing to be done.
pub proof fn law_detaching_is_once(
    broker: BrokerModel,
    session: UiSessionId,
    reason: CaptureReleaseReason,
    now: Instant,
    between: BrokerModel,
    first: DetachEffects,
    again: CaptureReleaseReason,
    later: Instant,
    after: BrokerModel,
    second: DetachEffects,
)
    requires
        broker.detaches(session, reason, now, between, first),
        between.detaches(session, again, later, after, second),
    ensures
        after =~= between,
        second.record is None,
        second.exit.cancel@.len() == 0,
        second.exit.deferred@.len() == 0,
        second.cleanup@.len() == 0,
{
    law_a_detached_session_is_gone(broker, session, reason, now, between, first);
    let tokens = choose|tokens: Seq<Seq<u8>>|
        {
            &&& #[trigger] enumerates(tokens, between.gated_tokens(session@))
            &&& (after, second.cleanup@) == between.detached(session, again, later, tokens)
        };
    if tokens.len() > 0 {
        assert(tokens.contains(tokens[0]));
    }
    assert(after.gated_sessions =~= between.gated_sessions);
    assert(after.executions.executions =~= between.executions.executions);
    assert(after.executions.awaiting =~= between.executions.awaiting);
    let cancel = views(second.exit.cancel@);
    let deferred = views(second.exit.deferred@);
    if cancel.len() > 0 {
        assert(cancel.contains(cancel[0]));
        assert(between.executions.cancelled_by_exit(session@).contains(cancel[0]));
    }
    if deferred.len() > 0 {
        assert(deferred.contains(deferred[0]));
        assert(between.executions.deferred_by_exit(session@).contains(deferred[0]));
    }
}

/// Detaching a session leaves every other session, its place at the launch gate, its untold launches
/// and the execution that it waits for as they are, and every launch pending.
pub proof fn law_detaching_spares_other_sessions(
    broker: BrokerModel,
    session: UiSessionId,
    reason: CaptureReleaseReason,
    now: Instant,
    after: BrokerModel,
    effects: DetachEffects,
    other: Seq<char>,
)
    requires
        broker.detaches(session, reason, now, after, effects),
        other != session@,
    ensures
        lookup(after.sessions, other) == lookup(broker.sessions, other),
        lookup(after.gate.sessions, other) == lookup(broker.gate.sessions, other),
        lookup(after.executions.awaiting, other) == lookup(broker.executions.awaiting, other),
        after.gated_tokens(other) =~= broker.gated_tokens(other),
        after.gate.pending == broker.gate.pending,
        after.pending_sessions == broker.pending_sessions,
{
}

/// A token and a session that do not belong together touch nothing: neither when a UI goes nor when
/// one is said to have been told.
pub proof fn law_a_mismatched_pair_touches_nothing(
    broker: BrokerModel,
    token: Seq<u8>,
    session: UiSessionId,
    now: Instant,
    after: BrokerModel,
    r: Option<FailEffects>,
)
    requires
        !broker.is_pending_for(token, session@),
        !broker.is_gated_for(token, session@),
        broker.gated_ui_leaves(token, session, now, after, r),
    ensures
        after == broker,
        r is None,
        broker.confirm_gated_attachment(token, session@) == (
            broker,
            None::<crate::host::PendingPaneLease>,
        ),
{
}

/// The lease of a pane is handed out once: after a UI was told, its launch has nothing more to hand
/// out, and the UI's going no longer closes the pane.
pub proof fn law_a_lease_is_handed_out_once(
    broker: BrokerModel,
    token: Seq<u8>,
    session: UiSessionId,
    now: Instant,
    after: BrokerModel,
    r: Option<FailEffects>,
)
    requires
        broker.is_gated_for(token, session@),
        !broker.is_pending_for(token, session@),
        broker.confirm_gated_attachment(token, session@).0.gated_ui_leaves(
            token,
            session,
            now,
            after,
            r,
        ),
    ensures
        ({
            let told = broker.confirm_gated_attachment(token, session@).0;
            &&& told.confirm_gated_attachment(token, session@) == (
                told,
                None::<crate::host::PendingPaneLease>,
            )
            &&& after == told
            &&& r is None
        }),
{
}

/// A capture that the host gives for a session that is gone is on the backlog, not lost.
pub proof fn law_a_late_capture_is_given_back(
    broker: BrokerModel,
    session: UiSessionId,
    capture: CaptureLease,
    now: Instant,
    limit: nat,
    after: BrokerModel,
    r: Result<(), BrokerError>,
    effect: CleanupEffect,
)
    requires
        !broker.sessions.contains_key(session@),
        broker.captures(session, capture, now, limit, after, r, effect),
    ensures
        r is Err,
        after.cleanup.captures.contains_key(capture.id@),
        after.sessions == broker.sessions,
{
}

/// The session that is on its way to stand.
pub open spec fn stage_session(stage: StandStage) -> UiSessionId {
    match stage {
        StandStage::HostAsked { session, .. } => session,
        StandStage::CaptureBegun { session, .. } => session,
    }
}

/// A session that is announced stands, with its menu and with the capture that the host gave for it;
/// one that is refused is gone; and while the host is asked for a capture nothing changes.
pub proof fn law_a_session_stands_or_is_gone(
    broker: BrokerModel,
    stage: StandStage,
    now: Instant,
    limit: nat,
    after: BrokerModel,
    next: StandNext,
)
    requires
        broker.stands(stage, now, limit, after, next),
    ensures
        match next {
            StandNext::BeginCapture { session, scope } => {
                &&& session == stage_session(stage)
                &&& after == broker
                &&& lookup(after.sessions, session@) matches Some(record) && record.scope == scope
            },
            StandNext::Announce { session, root } => {
                &&& session == stage_session(stage)
                &&& lookup(after.sessions, session@) matches Some(record) && record.root == root && (
                stage matches StandStage::CaptureBegun { capture: Ok(capture), .. }
                    ==> record.capture == Some(capture))
            },
            StandNext::Refuse { .. } => !after.sessions.contains_key(stage_session(stage)@),
        },
{
}

/// No capture that the host gave is lost: a session that stands has it, and where the session does
/// not stand it is on the backlog.
pub proof fn law_no_capture_is_lost(
    broker: BrokerModel,
    session: UiSessionId,
    capture: CaptureLease,
    has_view: bool,
    now: Instant,
    limit: nat,
    after: BrokerModel,
    next: StandNext,
)
    requires
        broker.stands(
            StandStage::CaptureBegun { session, capture: Ok(capture), has_view },
            now,
            limit,
            after,
            next,
        ),
    ensures
        next is Announce ==> after.sessions.contains_key(session@)
            && after.sessions[session@].capture == Some(capture),
        !(next is Announce) ==> after.cleanup.captures.contains_key(capture.id@),
{
    let (taken, r, effect) = choose|
        taken: BrokerModel,
        r: Result<(), BrokerError>,
        effect: CleanupEffect,
    |
        {
            &&& #[trigger] broker.captures(session, capture, now, limit, taken, r, effect)
            &&& match r {
                Ok(()) => taken.stand_answers(session, has_view, now, after, next),
                Err(error) => taken.stand_falls(session, error, effect, now, after, next),
            }
        };
    if lookup(broker.sessions, session@) is None {
        law_a_late_capture_is_given_back(
            broker,
            session,
            capture,
            now,
            limit,
            taken,
            r,
            effect,
        );
    } else {
        assert(taken.sessions.contains_key(session@));
        assert(taken.sessions[session@].capture == Some(capture));
    }
    if let StandNext::Refuse { error, cleanup, detached } = next {
        law_detaching_hands_over_what_is_left(
            taken,
            session,
            CaptureReleaseReason::UiDismissed,
            now,
            after,
            detached,
        );
    }
}

/// A fresh launch owns its scope, and waits for the session that was named for it; who owned the
/// scope before is gone: a launch no longer waits, a session no longer stands.
pub proof fn law_a_fresh_launch_owns_its_scope(
    broker: BrokerModel,
    menu_known: bool,
    drawn: Result<PendingLaunchToken, GateError>,
    scope: ModalScopeId,
    root: MenuId,
    lease_millis: u32,
    now: Instant,
    after: BrokerModel,
    prepared: Prepared,
)
    requires
        broker.prepares(
            menu_known,
            drawn,
            scope,
            root,
            lease_millis,
            now,
            after,
            Ok(prepared),
        ),
    ensures
        drawn == Ok::<PendingLaunchToken, GateError>(prepared.token),
        lookup(after.gate.scopes, scope@) == Some(ScopeOwner::Pending(prepared.token)),
        lookup(after.gate.pending, prepared.token@) matches Some(launch) && launch.root == root
            && launch.scope == scope,
        opt_view(lookup(after.pending_sessions, prepared.token@)) == Some(
            session_name(broker.next_session),
        ),
        match lookup(broker.gate.scopes, scope@) {
            None => prepared.displaced_launch is None && prepared.displaced_session is None,
            Some(ScopeOwner::Pending(previous)) => broker.gate.pending.contains_key(previous@)
                ==> !after.gate.pending.contains_key(previous@),
            Some(ScopeOwner::Ready(session)) => prepared.displaced_session is Some
                && !after.sessions.contains_key(session@),
        },
{
}

/// Of the sessions that are detached one after the other none is left; the others are as they were.
proof fn lemma_detaches_all(
    broker: BrokerModel,
    sessions: Seq<UiSessionId>,
    reason: CaptureReleaseReason,
    now: Instant,
    after: BrokerModel,
    effects: Seq<DetachEffects>,
)
    requires
        broker.detaches_all(sessions, reason, now, after, effects),
    ensures
        forall|session: Seq<char>| #[trigger]
            after.sessions.contains_key(session) <==> broker.sessions.contains_key(session)
                && !views(sessions).contains(session),
        forall|session: Seq<char>| #[trigger]
            after.sessions.contains_key(session) ==> after.sessions[session]
                == broker.sessions[session],
        after.gate.pending == broker.gate.pending,
        after.pending_sessions == broker.pending_sessions,
        broker.gate.sessions.dom() =~= Set::empty() ==> after.gate == broker.gate,
        after.executions.sealed == broker.executions.sealed,
    decreases sessions.len(),
{
    if sessions.len() > 0 {
        let between = choose|between: BrokerModel|
            {
                &&& broker.detaches_all(
                    sessions.drop_last(),
                    reason,
                    now,
                    between,
                    effects.drop_last(),
                )
                &&& #[trigger] between.detaches(
                    sessions.last(),
                    reason,
                    now,
                    after,
                    effects.last(),
                )
            };
        lemma_detaches_all(
            broker,
            sessions.drop_last(),
            reason,
            now,
            between,
            effects.drop_last(),
        );
        assert forall|session: Seq<char>|
            views(sessions).contains(session) <==> #[trigger] views(sessions.drop_last()).contains(
                session,
            ) || session == sessions.last()@ by {
            lemma_views_of_one_more(sessions, session);
        }
    }
}

/// A list has its last entry more than the list before it.
proof fn lemma_views_of_one_more<K: View>(list: Seq<K>, key: K::V)
    requires
        list.len() > 0,
    ensures
        views(list).contains(key) <==> views(list.drop_last()).contains(key) || key
            == list.last()@,
{
    if views(list).contains(key) {
        let at = views(list).index_of(key);
        if at < list.len() - 1 {
            assert(views(list.drop_last())[at] == key);
        }
    }
    if views(list.drop_last()).contains(key) {
        let at = views(list.drop_last()).index_of(key);
        assert(views(list)[at] == key);
    }
    assert(views(list)[list.len() - 1] == list.last()@);
}

/// A session that no lost launch waits for is as it was, and so is a launch that is not lost.
proof fn lemma_loses_launches(
    broker: BrokerModel,
    tokens: Seq<PendingLaunchToken>,
    now: Instant,
    after: BrokerModel,
    effects: Seq<Option<FailEffects>>,
    session: Seq<char>,
    other: Seq<u8>,
)
    requires
        broker.loses_launches(tokens, now, after, effects),
        forall|token: Seq<u8>|
            views(tokens).contains(token) && #[trigger] broker.pending_sessions.contains_key(token)
                ==> broker.pending_sessions[token]@ != session,
    ensures
        lookup(after.sessions, session) == lookup(broker.sessions, session),
        !views(tokens).contains(other) ==> lookup(after.gate.pending, other) == lookup(
            broker.gate.pending,
            other,
        ) && lookup(after.pending_sessions, other) == lookup(broker.pending_sessions, other),
        forall|token: Seq<u8>| #[trigger]
            after.pending_sessions.contains_key(token) ==> broker.pending_sessions.contains_key(
                token,
            ) && after.pending_sessions[token] == broker.pending_sessions[token],
    decreases tokens.len(),
{
    if tokens.len() > 0 {
        let between = choose|between: BrokerModel|
            {
                &&& broker.loses_launches(tokens.drop_last(), now, between, effects.drop_last())
                &&& #[trigger] between.loses_launch(tokens.last()@, now, after, effects.last())
            };
        assert forall|token: Seq<u8>|
            views(tokens.drop_last()).contains(token)
                && #[trigger] broker.pending_sessions.contains_key(token) implies
            broker.pending_sessions[token]@ != session by {
            lemma_views_of_one_more(tokens, token);
        }
        lemma_loses_launches(
            broker,
            tokens.drop_last(),
            now,
            between,
            effects.drop_last(),
            session,
            other,
        );
        lemma_views_of_one_more(tokens, other);
        let token = tokens.last()@;
        lemma_views_of_one_more(tokens, token);
        if let Some(failed) = lookup(between.pending_sessions, token) {
            let left = BrokerModel {
                gate: between.gate.abort(token).0,
                pending_sessions: between.pending_sessions.remove(token),
                ..between
            };
            let effects = effects.last()->Some_0;
            let detached = choose|detached: BrokerModel| #[trigger]
                left.detaches(
                    failed,
                    CaptureReleaseReason::LeaseExpired,
                    now,
                    detached,
                    effects.detached,
                ) && (after, effects.pane) == detached.close_pane(
                    failed,
                    between.pane_of(token),
                    None,
                    now,
                );
            assert(broker.pending_sessions[token]@ != session);
            law_detaching_spares_other_sessions(
                left,
                failed,
                CaptureReleaseReason::LeaseExpired,
                now,
                detached,
                effects.detached,
                session,
            );
        }
    }
}

/// The loss of one scope takes down what is in it and nothing else: its sessions and its launches
/// are gone. A session that stands in another scope, and that no launch of this one waits for, is
/// as it was; and so is every launch in another scope.
pub proof fn law_a_lost_scope_spares_the_others(
    broker: BrokerModel,
    scope: Seq<char>,
    now: Instant,
    after: BrokerModel,
    loss: ScopeLoss,
    session: Seq<char>,
    token: Seq<u8>,
)
    requires
        broker.loses_scope(scope, now, after, loss),
    ensures
        broker.sessions_in_scope(scope).contains(session) ==> !after.sessions.contains_key(session),
        broker.gate.tokens_in_scope(scope).contains(token) ==> !after.gate.pending.contains_key(
            token,
        ) && !after.pending_sessions.contains_key(token),
        !broker.sessions_in_scope(scope).contains(session) && (forall|launch: Seq<u8>| #[trigger]
            broker.gate.tokens_in_scope(scope).contains(launch)
                && broker.pending_sessions.contains_key(launch)
                ==> broker.pending_sessions[launch]@ != session) ==> lookup(
            after.sessions,
            session,
        ) == lookup(broker.sessions, session),
        !broker.gate.tokens_in_scope(scope).contains(token) ==> lookup(after.gate.pending, token)
            == lookup(broker.gate.pending, token) && lookup(after.pending_sessions, token)
            == lookup(broker.pending_sessions, token),
{
    let (detached, aborted) = choose|detached: BrokerModel, aborted: BrokerModel| #[trigger]
        broker.loses_scope_through(scope, now, detached, aborted, after, loss);
    lemma_detaches_all(
        broker,
        loss.sessions@,
        CaptureReleaseReason::LeaseExpired,
        now,
        detached,
        loss.detached@,
    );
    let launches = views(loss.launches@);
    assert(launches.contains(token) <==> broker.gate.tokens_in_scope(scope).contains(token));
    assert(views(loss.sessions@).contains(session) <==> broker.sessions_in_scope(scope).contains(
        session,
    ));
    lemma_lost_launches_are_gone(
        detached,
        loss.launches@,
        now,
        aborted,
        loss.aborted@,
        session,
        token,
    );
    if forall|launch: Seq<u8>| #[trigger]
        broker.gate.tokens_in_scope(scope).contains(launch) && broker.pending_sessions.contains_key(
            launch,
        ) ==> broker.pending_sessions[launch]@ != session {
        assert forall|launch: Seq<u8>|
            launches.contains(launch) && #[trigger] detached.pending_sessions.contains_key(
                launch,
            ) implies detached.pending_sessions[launch]@ != session by {
            assert(detached.gate.tokens_in_scope(scope).contains(launch));
            assert(broker.gate.tokens_in_scope(scope).contains(launch));
        }
        lemma_loses_launches(
            detached,
            loss.launches@,
            now,
            aborted,
            loss.aborted@,
            session,
            token,
        );
    }
}

/// Launches that are lost are gone, whatever happens to the others; and no session comes to stand.
proof fn lemma_lost_launches_are_gone(
    broker: BrokerModel,
    tokens: Seq<PendingLaunchToken>,
    now: Instant,
    after: BrokerModel,
    effects: Seq<Option<FailEffects>>,
    session: Seq<char>,
    other: Seq<u8>,
)
    requires
        broker.loses_launches(tokens, now, after, effects),
    ensures
        after.sessions.contains_key(session) ==> broker.sessions.contains_key(session),
        lookup(after.gate.pending, other) == if views(tokens).contains(other) {
            None
        } else {
            lookup(broker.gate.pending, other)
        },
        lookup(after.pending_sessions, other) == if views(tokens).contains(other) {
            None
        } else {
            lookup(broker.pending_sessions, other)
        },
    decreases tokens.len(),
{
    if tokens.len() > 0 {
        let between = choose|between: BrokerModel|
            {
                &&& broker.loses_launches(tokens.drop_last(), now, between, effects.drop_last())
                &&& #[trigger] between.loses_launch(tokens.last()@, now, after, effects.last())
            };
        lemma_lost_launches_are_gone(
            broker,
            tokens.drop_last(),
            now,
            between,
            effects.drop_last(),
            session,
            other,
        );
        lemma_views_of_one_more(tokens, other);
        let token = tokens.last()@;
        if let Some(failed) = lookup(between.pending_sessions, token) {
            let left = BrokerModel {
                gate: between.gate.abort(token).0,
                pending_sessions: between.pending_sessions.remove(token),
                ..between
            };
            let effects = effects.last()->Some_0;
            let detached = choose|detached: BrokerModel| #[trigger]
                left.detaches(
                    failed,
                    CaptureReleaseReason::LeaseExpired,
                    now,
                    detached,
                    effects.detached,
                ) && (after, effects.pane) == detached.close_pane(
                    failed,
                    between.pane_of(token),
                    None,
                    now,
                );
        }
    }
}

/// Once the host's executions have ended, a drain leaves no launch, no session waiting for one, no
/// owner of a scope and no session.
pub proof fn law_a_drain_empties_the_broker(
    broker: BrokerModel,
    now: Instant,
    after: BrokerModel,
    next: DrainNext,
)
    requires
        broker.drains(DrainStage::HostSettled, now, after, next),
    ensures
        after.gate == GateModel::empty(),
        after.pending_sessions =~= Map::<Seq<u8>, UiSessionId>::empty(),
        after.sessions =~= Map::<Seq<char>, super::SessionRecord>::empty(),
        after.executions.sealed == broker.executions.sealed,
{
    if let DrainNext::Detached { panes, sessions, detached } = next {
        let (launches, emptied) = choose|launches: Seq<PendingLaunch>, emptied: BrokerModel|
            #[trigger]
            broker.empties_through(now, launches, emptied, after, panes@, sessions@, detached@);
        lemma_detaches_all(
            emptied,
            sessions@,
            CaptureReleaseReason::UiDismissed,
            now,
            after,
            detached@,
        );
        assert forall|session: Seq<char>| !#[trigger] after.sessions.contains_key(session) by {
            assert(views(sessions@).contains(session) <==> broker.sessions.dom().contains(session));
        }
    }
}

/// A drain that fails, at whatever stage, leaves admission open; one that begins and goes on leaves
/// it closed; and one is done only when every cleanup is confirmed.
pub proof fn law_a_failed_drain_reopens_admission(
    broker: BrokerModel,
    stage: DrainStage,
    now: Instant,
    after: BrokerModel,
    next: DrainNext,
)
    requires
        broker.drains(stage, now, after, next),
    ensures
        next is Refuse ==> !after.executions.sealed,
        stage is Begin && !(next is Refuse) ==> after.executions.sealed,
        next is Done ==> after.cleanup.is_clear(),
{
}

/// Two sessions with different numbers have different names.
pub proof fn law_session_names_differ(first: u64, second: u64)
    requires
        first != second,
    ensures
        session_name(first) != session_name(second),
{
    let (left, right) = (session_name(first), session_name(second));
    if left == right {
        assert(left.skip("ui-"@.len() as int) =~= decimal(first as nat));
        assert(right.skip("ui-"@.len() as int) =~= decimal(second as nat));
        law_decimals_differ(first as nat, second as nat);
    }
}

} // verus!
