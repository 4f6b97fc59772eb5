//! What is left when sessions, launches and the broker itself come to their end: who is gone, and what
//! the host is still to be asked for.
use super::drain::{close_launches, DrainNext, DrainStage};
use super::promises::{
    law_a_lost_scope_spares_the_others, law_detaching_hands_over_what_is_left,
};
use super::{
    enqueue_gated, BrokerModel, DetachEffects, FailEffects, GatedSession, ScopeLoss,
};
use crate::cleanup::CleanupModel;
use crate::execution::{ExecutionOwner, ExecutionPhase};
use crate::gate::{PendingLaunch, ScopeOwner};
use crate::ids::UiSessionId;
use crate::protocol::{BrokerError, CaptureReleaseReason};
use crate::table::{enumerates, lists, views};
use crate::time::Instant;
use vstd::prelude::*;

verus! {

/// The pane of a launch is on a backlog, where the host holds a lease for it.
pub open spec fn pane_is_kept(backlog: CleanupModel, launch: PendingLaunch) -> bool {
    launch.registered_pane matches Some(registered) ==> (registered.lease matches Some(lease)
        ==> backlog.panes.contains_key(lease.id@))
}

/// Everything on one backlog is on the other.
pub open spec fn is_kept_in(before: CleanupModel, after: CleanupModel) -> bool {
    &&& forall|lease: Seq<char>| #[trigger]
        before.panes.contains_key(lease) ==> after.panes.contains_key(lease)
    &&& forall|lease: Seq<char>| #[trigger]
        before.captures.contains_key(lease) ==> after.captures.contains_key(lease)
}

pub(crate) proof fn lemma_enqueue_gated_keeps(
    backlog: CleanupModel,
    tokens: Seq<Seq<u8>>,
    gated: Map<Seq<u8>, GatedSession>,
    session: UiSessionId,
    now: Instant,
)
    ensures
        enqueue_gated(backlog, tokens, gated, session, now).0.captures == backlog.captures,
        is_kept_in(backlog, enqueue_gated(backlog, tokens, gated, session, now).0),
    decreases tokens.len(),
{
    if tokens.len() > 0 {
        lemma_enqueue_gated_keeps(backlog, tokens.drop_last(), gated, session, now);
    }
}

/// A session that is detached hands its record out, and its capture goes on the backlog to be ended for
/// the given reason, unless it is there already. What was on the backlog stays.
pub proof fn law_a_detached_capture_is_ended_for_its_reason(
    broker: BrokerModel,
    session: UiSessionId,
    reason: CaptureReleaseReason,
    now: Instant,
    after: BrokerModel,
    effects: DetachEffects,
)
    requires
        broker.detaches(session, reason, now, after, effects),
    ensures
        broker.sessions.contains_key(session@) ==> effects.record == Some(broker.sessions[session@]),
        !broker.sessions.contains_key(session@) ==> effects.record is None,
        is_kept_in(broker.cleanup, after.cleanup),
        broker.sessions.contains_key(session@) && broker.sessions[session@].capture is Some ==> {
            let capture = broker.sessions[session@].capture->Some_0;
            &&& after.cleanup.captures.contains_key(capture.id@)
            &&& !broker.cleanup.captures.contains_key(capture.id@)
                ==> after.cleanup.captures[capture.id@].lease == capture
                && after.cleanup.captures[capture.id@].reason == reason
        },
        after.gate.pending == broker.gate.pending,
        after.pending_sessions == broker.pending_sessions,
        after.processes == broker.processes,
        after.registering == broker.registering,
        after.executions.sealed == broker.executions.sealed,
{
    let tokens = choose|tokens: Seq<Seq<u8>>|
        {
            &&& #[trigger] enumerates(tokens, broker.gated_tokens(session@))
            &&& (after, effects.cleanup@) == broker.detached(session, reason, now, tokens)
        };
    let captured = broker.release_capture(session@, reason, now).0;
    lemma_enqueue_gated_keeps(captured, tokens, broker.gated_sessions, session, now);
    assert forall|lease: Seq<char>| #[trigger]
        broker.cleanup.panes.contains_key(lease) implies after.cleanup.panes.contains_key(lease) by {
        assert(captured.panes.contains_key(lease));
    }
    assert forall|lease: Seq<char>| #[trigger]
        broker.cleanup.captures.contains_key(lease) implies after.cleanup.captures.contains_key(
        lease,
    ) by {
        assert(captured.captures.contains_key(lease));
    }
}

pub(crate) proof fn lemma_failure_keeps(
    broker: BrokerModel,
    session: UiSessionId,
    launch: PendingLaunch,
    reason: CaptureReleaseReason,
    now: Instant,
    after: BrokerModel,
    effects: FailEffects,
)
    requires
        broker.fails(session, launch.registered_pane, reason, now, after, effects),
    ensures
        pane_is_kept(after.cleanup, launch),
        is_kept_in(broker.cleanup, after.cleanup),
        !after.sessions.contains_key(session@),
        forall|other: Seq<char>| #[trigger]
            after.sessions.contains_key(other) ==> broker.sessions.contains_key(other),
        after.gate.pending == broker.gate.pending,
        after.pending_sessions == broker.pending_sessions,
{
    let detached = choose|detached: BrokerModel| #[trigger]
        broker.detaches(session, reason, now, detached, effects.detached) && (
            after,
            effects.pane,
        ) == detached.close_pane(session, launch.registered_pane, None, now);
    law_a_detached_capture_is_ended_for_its_reason(
        broker,
        session,
        reason,
        now,
        detached,
        effects.detached,
    );
}

proof fn lemma_failures_keep(
    broker: BrokerModel,
    pairs: Seq<(PendingLaunch, UiSessionId)>,
    reason: CaptureReleaseReason,
    now: Instant,
    after: BrokerModel,
    effects: Seq<FailEffects>,
)
    requires
        broker.fails_all(pairs, reason, now, after, effects),
    ensures
        effects.len() == pairs.len(),
        forall|i: int|
            0 <= i < pairs.len() ==> pane_is_kept(after.cleanup, (#[trigger] pairs[i]).0)
                && !after.sessions.contains_key(pairs[i].1@),
        is_kept_in(broker.cleanup, after.cleanup),
        forall|other: Seq<char>| #[trigger]
            after.sessions.contains_key(other) ==> broker.sessions.contains_key(other),
        after.gate.pending == broker.gate.pending,
        after.pending_sessions == broker.pending_sessions,
    decreases pairs.len(),
{
    if pairs.len() > 0 {
        let between = choose|between: BrokerModel|
            {
                &&& broker.fails_all(
                    pairs.drop_last(),
                    reason,
                    now,
                    between,
                    effects.drop_last(),
                )
                &&& #[trigger] between.fails(
                    pairs.last().1,
                    pairs.last().0.registered_pane,
                    reason,
                    now,
                    after,
                    effects.last(),
                )
            };
        lemma_failures_keep(broker, pairs.drop_last(), reason, now, between, effects.drop_last());
        lemma_failure_keeps(
            between,
            pairs.last().1,
            pairs.last().0,
            reason,
            now,
            after,
            effects.last(),
        );
        assert forall|i: int| 0 <= i < pairs.len() implies pane_is_kept(
            after.cleanup,
            (#[trigger] pairs[i]).0,
        ) && !after.sessions.contains_key(pairs[i].1@) by {
            if i < pairs.len() - 1 {
                assert(pairs.drop_last()[i] == pairs[i]);
            }
        }
    }
}

proof fn lemma_sessions_are_taken(
    broker: BrokerModel,
    launches: Seq<PendingLaunch>,
    tokens: Seq<Seq<u8>>,
    at: int,
)
    requires
        0 <= at < launches.len(),
        tokens.len() == launches.len(),
        tokens.no_duplicates(),
        forall|i: int| 0 <= i < launches.len() ==> (#[trigger] launches[i]).token@ == tokens[i],
        broker.pending_sessions.contains_key(tokens[at]),
    ensures
        ({
            let (after, pairs) = broker.take_sessions(launches);
            &&& exists|i: int|
                0 <= i < pairs.len() && #[trigger] pairs[i] == (
                    launches[at],
                    broker.pending_sessions[tokens[at]],
                )
            &&& !after.pending_sessions.contains_key(tokens[at])
        }),
    decreases launches.len(),
{
    let rest = launches.drop_last();
    let (before, pairs) = broker.take_sessions(rest);
    if at < launches.len() - 1 {
        assert forall|i: int| 0 <= i < rest.len() implies (#[trigger] rest[i]).token@
            == tokens.drop_last()[i] by {
            assert(launches[i].token@ == tokens[i]);
        }
        lemma_sessions_are_taken(broker, rest, tokens.drop_last(), at);
        let i = choose|i: int|
            0 <= i < pairs.len() && #[trigger] pairs[i] == (
                launches[at],
                broker.pending_sessions[tokens[at]],
            );
        let (after, all) = broker.take_sessions(launches);
        assert(all[i] == pairs[i]);
    } else {
        lemma_others_are_left(broker, rest, tokens[at]);
        assert forall|i: int| 0 <= i < rest.len() implies (#[trigger] rest[i]).token@ != tokens[at] by {
            assert(launches[i].token@ == tokens[i]);
        }
        let (after, all) = broker.take_sessions(launches);
        assert(all[all.len() - 1] == (launches[at], broker.pending_sessions[tokens[at]]));
    }
}

proof fn lemma_others_are_left(broker: BrokerModel, launches: Seq<PendingLaunch>, token: Seq<u8>)
    ensures
        ({
            let after = broker.take_sessions(launches).0;
            &&& (forall|i: int|
                0 <= i < launches.len() ==> (#[trigger] launches[i]).token@ != token) ==> (
            after.pending_sessions.contains_key(token) <==> broker.pending_sessions.contains_key(
                token,
            )) && after.pending_sessions[token] == broker.pending_sessions[token]
            &&& after == BrokerModel { pending_sessions: after.pending_sessions, ..broker }
        }),
    decreases launches.len(),
{
    if launches.len() > 0 {
        lemma_others_are_left(broker, launches.drop_last(), token);
        if forall|i: int| 0 <= i < launches.len() ==> (#[trigger] launches[i]).token@ != token {
            assert forall|i: int| 0 <= i < launches.len() - 1 implies (
            #[trigger] launches.drop_last()[i]).token@ != token by {
                assert(launches[i].token@ != token);
            }
            assert(launches[launches.len() - 1].token@ != token);
        }
    }
}

/// A launch whose time is over is gone, nobody waits for it, its session does not stand, and its pane is
/// on the backlog; a launch whose time is not over is as it was, and so is who waits for it.
pub proof fn law_expired_launches_are_cleared_away(
    broker: BrokerModel,
    now: Instant,
    after: BrokerModel,
    effects: Seq<FailEffects>,
    token: Seq<u8>,
)
    requires
        broker.consistent(),
        broker.expires(now, after, effects),
        broker.gate.pending.contains_key(token),
    ensures
        ({
            let launch = broker.gate.pending[token];
            let over = launch.expires_at.nanos <= now.nanos;
            &&& over ==> !after.gate.pending.contains_key(token)
                && !after.pending_sessions.contains_key(token) && !after.sessions.contains_key(
                broker.pending_sessions[token]@,
            ) && pane_is_kept(after.cleanup, launch)
            &&& !over ==> after.gate.pending.contains_key(token) && after.gate.pending[token]
                == launch && after.pending_sessions.contains_key(token)
                && after.pending_sessions[token] == broker.pending_sessions[token]
            &&& is_kept_in(broker.cleanup, after.cleanup)
        }),
{
    let expired = broker.gate.expired(now);
    let launches = choose|launches: Seq<PendingLaunch>|
        {
            let left = BrokerModel { gate: broker.gate.without_launches(expired), ..broker };
            let (taken, pairs) = left.take_sessions(launches);
            &&& #[trigger] lists(launches, expired)
            &&& taken.fails_all(pairs, CaptureReleaseReason::LeaseExpired, now, after, effects)
        };
    let left = BrokerModel { gate: broker.gate.without_launches(expired), ..broker };
    let (taken, pairs) = left.take_sessions(launches);
    let keys = choose|keys: Seq<Seq<u8>>|
        {
            &&& #[trigger] enumerates(keys, expired.dom())
            &&& launches == keys.map_values(|key: Seq<u8>| expired[key])
        };
    lemma_failures_keep(taken, pairs, CaptureReleaseReason::LeaseExpired, now, after, effects);
    lemma_others_are_left(left, launches, token);
    assert forall|i: int| 0 <= i < launches.len() implies (#[trigger] launches[i]).token@ == keys[i] by {
        assert(keys.contains(keys[i]));
        assert(expired.dom().contains(keys[i]));
        assert(broker.gate.pending.contains_key(keys[i]));
        assert(broker.gate.pending[keys[i]].consistent(keys[i]));
    }
    if broker.gate.pending[token].expires_at.nanos <= now.nanos {
        assert(expired.dom().contains(token));
        assert(keys.contains(token));
        let at = keys.index_of(token);
        assert(keys[at] == token);
        assert(launches[at] == broker.gate.pending[token]);
        lemma_sessions_are_taken(left, launches, keys, at);
        let i = choose|i: int|
            0 <= i < pairs.len() && #[trigger] pairs[i] == (
                launches[at],
                left.pending_sessions[token],
            );
        assert(pairs[i].0 == broker.gate.pending[token]);
    } else {
        assert forall|i: int| 0 <= i < launches.len() implies (#[trigger] launches[i]).token@
            != token by {
            assert(keys.contains(keys[i]));
            assert(expired.dom().contains(keys[i]));
        }
    }
}

proof fn lemma_detached_captures(
    broker: BrokerModel,
    sessions: Seq<UiSessionId>,
    reason: CaptureReleaseReason,
    now: Instant,
    after: BrokerModel,
    effects: Seq<DetachEffects>,
)
    requires
        broker.detaches_all(sessions, reason, now, after, effects),
        views(sessions).no_duplicates(),
    ensures
        effects.len() == sessions.len(),
        is_kept_in(broker.cleanup, after.cleanup),
        forall|other: Seq<char>|
            !views(sessions).contains(other) ==> (#[trigger] after.sessions.contains_key(other)
                <==> broker.sessions.contains_key(other)) && after.sessions[other]
                == broker.sessions[other],
        forall|i: int|
            0 <= i < sessions.len() && broker.sessions.contains_key((#[trigger] sessions[i])@)
                && broker.sessions[sessions[i]@].capture is Some
                ==> after.cleanup.captures.contains_key(
                broker.sessions[sessions[i]@].capture->Some_0.id@,
            ),
        forall|i: int|
            0 <= i < sessions.len() ==> !after.sessions.contains_key((#[trigger] sessions[i])@),
    decreases sessions.len(),
{
    if sessions.len() > 0 {
        let rest = sessions.drop_last();
        let last = sessions.last();
        let between = choose|between: BrokerModel|
            {
                &&& broker.detaches_all(rest, reason, now, between, effects.drop_last())
                &&& #[trigger] between.detaches(last, reason, now, after, effects.last())
            };
        assert forall|i: int, j: int| 0 <= i < j < rest.len() implies views(rest)[i]
            != views(rest)[j] by {
            assert(views(sessions)[i] != views(sessions)[j]);
        }
        lemma_detached_captures(broker, rest, reason, now, between, effects.drop_last());
        law_a_detached_capture_is_ended_for_its_reason(
            between,
            last,
            reason,
            now,
            after,
            effects.last(),
        );
        assert(!views(rest).contains(last@)) by {
            if views(rest).contains(last@) {
                let i = views(rest).index_of(last@);
                assert(views(sessions)[i] == views(sessions)[sessions.len() - 1]);
            }
        }
        assert forall|other: Seq<char>| !views(sessions).contains(other) implies (
        #[trigger] after.sessions.contains_key(other) <==> broker.sessions.contains_key(other))
            && after.sessions[other] == broker.sessions[other] by {
            assert(!views(rest).contains(other)) by {
                if views(rest).contains(other) {
                    let i = views(rest).index_of(other);
                    assert(views(sessions)[i] == other);
                }
            }
            assert(views(sessions)[sessions.len() - 1] == last@);
            assert(between.sessions.contains_key(other) <==> broker.sessions.contains_key(other));
        }
        assert forall|i: int|
            0 <= i < sessions.len() && broker.sessions.contains_key((#[trigger] sessions[i])@)
                && broker.sessions[sessions[i]@].capture is Some implies after.cleanup.captures.contains_key(
        broker.sessions[sessions[i]@].capture->Some_0.id@) by {
            if i < rest.len() {
                assert(rest[i] == sessions[i]);
                assert(between.cleanup.captures.contains_key(
                    broker.sessions[rest[i]@].capture->Some_0.id@,
                ));
            } else {
                assert(between.sessions.contains_key(last@) <==> broker.sessions.contains_key(
                    last@,
                ));
                assert(between.sessions[last@] == broker.sessions[last@]);
            }
        }
        assert forall|i: int| 0 <= i < sessions.len() implies !after.sessions.contains_key(
            (#[trigger] sessions[i])@,
        ) by {
            if i < rest.len() {
                assert(rest[i] == sessions[i]);
                assert(!between.sessions.contains_key(rest[i]@));
            }
        }
    }
}

/// The loss of a scope ends what stood in it: every session in it is gone with its capture on the
/// backlog, and the UI of every work that the host carried out for them is told, unless it had asked for
/// something else.
pub proof fn law_a_lost_scope_ends_what_stood_in_it(
    broker: BrokerModel,
    scope: Seq<char>,
    now: Instant,
    after: BrokerModel,
    loss: ScopeLoss,
    detached: BrokerModel,
    aborted: BrokerModel,
    session: Seq<char>,
    core: u64,
)
    requires
        broker.loses_scope_through(scope, now, detached, aborted, after, loss),
    ensures
        views(loss.sessions@).contains(session) <==> broker.sessions.contains_key(session)
            && broker.sessions[session].scope@ == scope,
        broker.sessions.contains_key(session) && broker.sessions[session].scope@ == scope ==> {
            &&& !detached.sessions.contains_key(session)
            &&& broker.sessions[session].capture matches Some(capture)
                ==> detached.cleanup.captures.contains_key(capture.id@)
        },
        views(loss.failed@).contains(core) <==> {
            let record = broker.executions.executions[core];
            &&& broker.executions.executions.contains_key(core)
            &&& record.owner == ExecutionOwner::Adapter
            &&& record.pending_control is None
            &&& record.session is Some
            &&& broker.sessions.contains_key(record.session->Some_0@)
            &&& broker.sessions[record.session->Some_0@].scope@ == scope
        },
        forall|i: int|
            0 <= i < loss.failed@.len() ==> {
                let wait = #[trigger] loss.failed@[i];
                let record = broker.executions.executions[wait.core@];
                record.session == Some(wait.session) && record.wire == wait.wire
            },
{
    lemma_detached_captures(
        broker,
        loss.sessions@,
        CaptureReleaseReason::LeaseExpired,
        now,
        detached,
        loss.detached@,
    );
    assert(broker.sessions_in_scope(scope).contains(session) <==> views(loss.sessions@).contains(
        session,
    ));
    if views(loss.sessions@).contains(session) {
        let i = views(loss.sessions@).index_of(session);
        assert(loss.sessions@[i]@ == session);
    }
    assert(broker.executions.failing(broker.sessions_in_scope(scope)).contains(core) <==> views(
        loss.failed@,
    ).contains(core));
    if broker.executions.executions.contains_key(core)
        && broker.executions.executions[core].session is Some {
        let who = broker.executions.executions[core].session->Some_0@;
        assert(broker.sessions_in_scope(scope).contains(who) <==> broker.sessions.contains_key(who)
            && broker.sessions[who].scope@ == scope);
    }
}

pub(crate) proof fn lemma_closed_launches(
    backlog: CleanupModel,
    launches: Seq<PendingLaunch>,
    sessions: Map<Seq<u8>, UiSessionId>,
    now: Instant,
)
    ensures
        ({
            let after = close_launches(backlog, launches, sessions, now).0;
            &&& is_kept_in(backlog, after)
            &&& after.captures == backlog.captures
            &&& forall|i: int|
                0 <= i < launches.len() && sessions.contains_key((#[trigger] launches[i]).token@)
                    ==> pane_is_kept(after, launches[i])
        }),
    decreases launches.len(),
{
    if launches.len() > 0 {
        let rest = launches.drop_last();
        lemma_closed_launches(backlog, rest, sessions, now);
        let before = close_launches(backlog, rest, sessions, now).0;
        let after = close_launches(backlog, launches, sessions, now).0;
        assert forall|i: int|
            0 <= i < launches.len() && sessions.contains_key(
                (#[trigger] launches[i]).token@,
            ) implies pane_is_kept(after, launches[i]) by {
            if i < rest.len() {
                assert(rest[i] == launches[i]);
                assert(pane_is_kept(before, rest[i]));
            }
        }
    }
}

/// A drain that empties the broker forgets nothing that the host is still to do: the pane of every
/// launch and the capture of every session are on the backlog, and what was there stays.
pub proof fn law_a_drain_forgets_no_cleanup(
    broker: BrokerModel,
    now: Instant,
    after: BrokerModel,
    next: DrainNext,
    token: Seq<u8>,
    session: Seq<char>,
)
    requires
        broker.consistent(),
        broker.drains(DrainStage::HostSettled, now, after, next),
    ensures
        is_kept_in(broker.cleanup, after.cleanup),
        broker.gate.pending.contains_key(token) ==> pane_is_kept(
            after.cleanup,
            broker.gate.pending[token],
        ),
        broker.sessions.contains_key(session) ==> (broker.sessions[session].capture matches Some(
            capture,
        ) ==> after.cleanup.captures.contains_key(capture.id@)),
        next matches DrainNext::Detached { sessions, detached, .. } && (views(sessions@).contains(
            session,
        ) <==> broker.sessions.contains_key(session)) && detached@.len() == sessions@.len(),
{
    if let DrainNext::Detached { panes, sessions, detached } = next {
        let (launches, emptied) = choose|launches: Seq<PendingLaunch>, emptied: BrokerModel|
            #[trigger]
            broker.empties_through(now, launches, emptied, after, panes@, sessions@, detached@);
        lemma_closed_launches(broker.cleanup, launches, broker.pending_sessions, now);
        lemma_detached_captures(
            emptied,
            sessions@,
            CaptureReleaseReason::UiDismissed,
            now,
            after,
            detached@,
        );
        assert(views(sessions@).contains(session) <==> broker.sessions.dom().contains(session));
        if broker.sessions.contains_key(session) {
            let i = views(sessions@).index_of(session);
            assert(sessions@[i]@ == session);
        }
        if broker.gate.pending.contains_key(token) {
            let keys = choose|keys: Seq<Seq<u8>>|
                {
                    &&& #[trigger] enumerates(keys, broker.gate.pending.dom())
                    &&& launches == keys.map_values(|key: Seq<u8>| broker.gate.pending[key])
                };
            assert(keys.contains(token));
            let at = keys.index_of(token);
            assert(launches[at] == broker.gate.pending[token]);
            assert(broker.gate.pending[token].consistent(token));
            assert(pane_is_kept(emptied.cleanup, launches[at]));
        }
    }
}

/// A drain that begins closes admission. It waits for work that is on its way to somebody; it is refused,
/// and admission is open again, where the host carries out something that cannot be cancelled; and else
/// it stops all that the host carries out, and then what waits for a menu to go.
pub proof fn law_a_drain_stops_what_it_can(
    broker: BrokerModel,
    now: Instant,
    after: BrokerModel,
    next: DrainNext,
    core: u64,
)
    requires
        broker.drains(DrainStage::Begin, now, after, next),
    ensures
        ({
            let record = broker.executions.executions[core];
            let known = broker.executions.executions.contains_key(core);
            &&& known && record.phase == ExecutionPhase::Reserved && record.deferred is None ==> next
                == DrainNext::WaitForTransition
            &&& next == DrainNext::WaitForTransition ==> after.executions.sealed
                && broker.executions.has_open_reservation()
            &&& next is Stop ==> !(known && record.phase == ExecutionPhase::Adapter
                && !record.cancellable)
            &&& next matches DrainNext::Stop(plan) ==> {
                &&& after.executions.sealed
                &&& views(plan.adapter@).contains(core) <==> known && record.phase
                    == ExecutionPhase::Adapter
                &&& views(plan.deferred@).contains(core) <==> known && record.deferred is Some
            }
            &&& next is Refuse ==> !after.executions.sealed && exists|blocked: u64| #[trigger]
                broker.executions.executions.contains_key(blocked)
                    && broker.executions.executions[blocked].phase == ExecutionPhase::Adapter
                    && !broker.executions.executions[blocked].cancellable
            &&& next is WaitForTransition || next is Stop || next is Refuse
            &&& after.executions.executions == broker.executions.executions
            &&& after.sessions == broker.sessions && after.gate == broker.gate && after.cleanup
                == broker.cleanup
        }),
{
    if known_open(broker, core) {
        assert(broker.executions.has_open_reservation());
    }
    if let DrainNext::Stop(plan) = next {
        assert(!broker.executions.blocks_drain(core));
        assert(views(plan.adapter@).contains(core) <==> broker.executions.in_adapter().contains(
            core,
        ));
        assert(views(plan.deferred@).contains(core)
            <==> broker.executions.waiting_for_dismissal().contains(core));
    }
    if let DrainNext::Refuse(BrokerError::ActivationDrainRefused(text)) = next {
        let blocked = choose|blocked: u64| #[trigger]
            broker.executions.blocks_drain(blocked) && text@ == crate::execution::drain_refusal(
                blocked,
                broker.executions.executions[blocked],
            );
        assert(broker.executions.executions.contains_key(blocked));
    }
}

spec fn known_open(broker: BrokerModel, core: u64) -> bool {
    broker.executions.executions.contains_key(core) && broker.executions.executions[core].phase
        == ExecutionPhase::Reserved && broker.executions.executions[core].deferred is None
}

/// A drain is done exactly where nothing is left to be confirmed. Else it looks again soon, for five
/// seconds in all; then it is refused and admission is open again.
pub proof fn law_a_drain_waits_for_confirmation(
    broker: BrokerModel,
    deadline: Instant,
    now: Instant,
    after: BrokerModel,
    next: DrainNext,
    settled: BrokerModel,
    first: DrainNext,
)
    requires
        now.nanos + 5_000_000_000 <= u128::MAX,
        broker.drains(DrainStage::Poll { deadline }, now, after, next),
        broker.drains(DrainStage::Settled, now, settled, first),
    ensures
        ({
            let clear = (forall|lease: Seq<char>| !broker.cleanup.panes.contains_key(lease))
                && (forall|lease: Seq<char>| !broker.cleanup.captures.contains_key(lease));
            &&& clear ==> next == DrainNext::Done && first == DrainNext::Done && after == broker
                && settled == broker
            &&& !clear && deadline.nanos <= now.nanos ==> {
                &&& next matches DrainNext::Refuse(BrokerError::ActivationCleanupUnconfirmed(_))
                &&& !after.executions.sealed
                &&& after.cleanup == broker.cleanup
            }
            &&& !clear && deadline.nanos > now.nanos ==> {
                &&& next matches DrainNext::Wait { delay, deadline: until }
                &&& until == deadline
                &&& after == broker
                &&& delay.nanos <= 10_000_000
                &&& delay.nanos <= deadline.nanos - now.nanos
                &&& delay.nanos == 10_000_000 || delay.nanos == deadline.nanos - now.nanos
            }
            &&& !clear ==> {
                &&& first matches DrainNext::Wait { delay, deadline: until }
                &&& until.nanos == now.nanos + 5_000_000_000
                &&& delay.nanos == 10_000_000
                &&& settled == broker
            }
        }),
{
    crate::cleanup::laws::law_a_clear_backlog_is_empty(broker.cleanup);
}

/// A drain in which something failed is refused with that failure, and admission is open again.
pub proof fn law_a_failed_drain_says_why(
    broker: BrokerModel,
    error: BrokerError,
    now: Instant,
    after: BrokerModel,
    next: DrainNext,
)
    requires
        broker.drains(DrainStage::Failed(error), now, after, next),
    ensures
        next == DrainNext::Refuse(error),
        !after.executions.sealed,
        after.executions.executions == broker.executions.executions,
        after.executions.awaiting == broker.executions.awaiting,
        after.sessions == broker.sessions,
        after.gate == broker.gate,
        after.cleanup == broker.cleanup,
{
}

/// A lost scope is clear: no session stands in it, no launch is pending in it, and nobody who is not
/// there owns it.
pub proof fn law_a_lost_scope_is_clear(
    broker: BrokerModel,
    scope: Seq<char>,
    now: Instant,
    after: BrokerModel,
    loss: ScopeLoss,
    session: Seq<char>,
    token: Seq<u8>,
)
    requires
        broker.loses_scope(scope, now, after, loss),
    ensures
        broker.sessions.contains_key(session) && broker.sessions[session].scope@ == scope
            ==> !after.sessions.contains_key(session),
        broker.gate.pending.contains_key(token) && broker.gate.pending[token].scope@ == scope
            ==> !after.gate.pending.contains_key(token) && !after.pending_sessions.contains_key(
            token,
        ),
        after.gate.scopes.contains_key(scope) ==> match after.gate.scopes[scope] {
            ScopeOwner::Pending(owner) => after.gate.pending.contains_key(owner@),
            ScopeOwner::Ready(owner) => after.gate.sessions.contains_key(owner@),
        },
{
    law_a_lost_scope_spares_the_others(broker, scope, now, after, loss, session, token);
    assert(broker.sessions_in_scope(scope).contains(session) <==> broker.sessions.contains_key(
        session,
    ) && broker.sessions[session].scope@ == scope);
    assert(broker.gate.tokens_in_scope(scope).contains(token) <==> broker.gate.pending.contains_key(
        token,
    ) && broker.gate.pending[token].scope@ == scope);
}

/// A session that is detached waits nowhere to be told of its readiness: its complete launches are
/// forgotten, and the pane of each, where the host holds a lease on it, is on the backlog. The complete
/// launches of the others stay.
pub proof fn law_a_detached_session_is_told_nothing_more(
    broker: BrokerModel,
    session: UiSessionId,
    reason: CaptureReleaseReason,
    now: Instant,
    after: BrokerModel,
    effects: DetachEffects,
    token: Seq<u8>,
)
    requires
        broker.detaches(session, reason, now, after, effects),
        broker.gated_sessions.contains_key(token),
    ensures
        ({
            let owner = broker.gated_sessions[token];
            &&& owner.session@ == session@ ==> !after.gated_sessions.contains_key(token)
            &&& owner.session@ == session@ && owner.registration is Some
                && owner.registration->Some_0.lease is Some ==> after.cleanup.panes.contains_key(
                owner.registration->Some_0.lease->Some_0.id@,
            )
            &&& owner.session@ != session@ ==> after.gated_sessions.contains_key(token)
                && after.gated_sessions[token] == owner
        }),
{
    law_detaching_hands_over_what_is_left(broker, session, reason, now, after, effects);
    assert(broker.gated_tokens(session@).contains(token) <==> broker.gated_sessions[token].session@
        == session@);
}

} // verus!
