//! For which reason the capture of a session is ended, whoever ends the session.
use super::drain::{DrainNext, DrainStage};
use super::endings::{law_a_detached_capture_is_ended_for_its_reason, lemma_enqueue_gated_keeps};
use super::invoke::{InvokeNext, InvokeStage, ResolvedAction, ResolvedBinding};
use super::stand::{StandNext, StandStage};
use super::{BrokerModel, DetachEffects, FailEffects, ScopeLoss};
use crate::cleanup::{CleanupEffect, CleanupModel};
use crate::command::PortableAction;
use crate::gate::{PendingLaunch, RegisteredPane};
use crate::host::CaptureLease;
use crate::ids::{PendingLaunchToken, UiSessionId};
use crate::protocol::{BrokerError, CaptureReleaseReason};
use crate::table::{enumerates, lists};
use crate::text::is_truncation;
use crate::time::Instant;
use vstd::prelude::*;

verus! {

/// The capture of a session, if it has one that is not on the backlog yet, is put there to be ended for
/// this reason.
pub open spec fn ends_for(
    before: BrokerModel,
    after: BrokerModel,
    session: Seq<char>,
    reason: CaptureReleaseReason,
) -> bool {
    before.sessions.contains_key(session) && before.sessions[session].capture is Some
        && !before.cleanup.captures.contains_key(before.sessions[session].capture->Some_0.id@) ==> {
        let capture = before.sessions[session].capture->Some_0;
        &&& after.cleanup.captures.contains_key(capture.id@)
        &&& after.cleanup.captures[capture.id@].lease == capture
        &&& after.cleanup.captures[capture.id@].reason == reason
    }
}

proof fn lemma_failed_capture(
    broker: BrokerModel,
    session: UiSessionId,
    registration: Option<RegisteredPane>,
    reason: CaptureReleaseReason,
    now: Instant,
    after: BrokerModel,
    effects: FailEffects,
)
    requires
        broker.fails(session, registration, reason, now, after, effects),
    ensures
        ends_for(broker, after, session@, reason),
        !after.sessions.contains_key(session@),
{
    let detached = choose|detached: BrokerModel| #[trigger]
        broker.detaches(session, reason, now, detached, effects.detached) && (after, effects.pane)
            == detached.close_pane(session, registration, None, now);
    law_a_detached_capture_is_ended_for_its_reason(
        broker,
        session,
        reason,
        now,
        detached,
        effects.detached,
    );
    assert(after.cleanup.captures == detached.cleanup.captures);
}

/// A launch that is aborted, by its launcher or because its launcher has gone, dismisses its UI.
pub proof fn law_an_abort_dismisses_the_ui(
    broker: BrokerModel,
    token: Seq<u8>,
    now: Instant,
    after: BrokerModel,
    aborted: Result<FailEffects, BrokerError>,
    left: Result<Option<FailEffects>, BrokerError>,
)
    requires
        broker.pending_sessions.contains_key(token),
        broker.gate.pending.contains_key(token),
    ensures
        broker.aborts(token, now, after, aborted) ==> aborted is Ok && ends_for(
            broker,
            after,
            broker.pending_sessions[token]@,
            CaptureReleaseReason::UiDismissed,
        ) && !after.sessions.contains_key(broker.pending_sessions[token]@),
        broker.launcher_leaves(token, now, after, left) && !broker.gate.pending[token].placement_committed
            ==> left is Ok && left->Ok_0 is Some && ends_for(
            broker,
            after,
            broker.pending_sessions[token]@,
            CaptureReleaseReason::UiDismissed,
        ) && !after.sessions.contains_key(broker.pending_sessions[token]@),
{
    let session = broker.pending_sessions[token];
    let registration = broker.gate.pending[token].registered_pane;
    let begun = BrokerModel {
        gate: broker.gate.abort(token).0,
        pending_sessions: broker.pending_sessions.remove(token),
        ..broker
    };
    if broker.aborts(token, now, after, aborted) {
        lemma_failed_capture(
            begun,
            session,
            registration,
            CaptureReleaseReason::UiDismissed,
            now,
            after,
            aborted->Ok_0,
        );
    }
    if broker.launcher_leaves(token, now, after, left)
        && !broker.gate.pending[token].placement_committed {
        lemma_failed_capture(
            begun,
            session,
            registration,
            CaptureReleaseReason::UiDismissed,
            now,
            after,
            left->Ok_0->Some_0,
        );
    }
}

/// A UI that goes before it was told that it is ready is dismissed, whether its launch is pending or
/// complete.
pub proof fn law_an_untold_ui_is_dismissed(
    broker: BrokerModel,
    token: Seq<u8>,
    session: UiSessionId,
    now: Instant,
    after: BrokerModel,
    r: Option<FailEffects>,
)
    requires
        broker.gated_ui_leaves(token, session, now, after, r),
    ensures
        r is Some ==> ends_for(broker, after, session@, CaptureReleaseReason::UiDismissed)
            && !after.sessions.contains_key(session@),
        r is None ==> after == broker,
{
    if broker.is_pending_for(token, session@) {
        lemma_failed_capture(
            BrokerModel {
                gate: broker.gate.abort(token).0,
                pending_sessions: broker.pending_sessions.remove(token),
                ..broker
            },
            session,
            broker.pane_of(token),
            CaptureReleaseReason::UiDismissed,
            now,
            after,
            r->Some_0,
        );
    } else if broker.is_gated_for(token, session@) {
        lemma_failed_capture(
            BrokerModel { gated_sessions: broker.gated_sessions.remove(token), ..broker },
            session,
            broker.gated_sessions[token].registration,
            CaptureReleaseReason::UiDismissed,
            now,
            after,
            r->Some_0,
        );
    }
}

/// A UI that quits is dismissed.
pub proof fn law_a_ui_that_quits_is_dismissed(
    broker: BrokerModel,
    session: UiSessionId,
    binding: ResolvedBinding,
    now: Instant,
    after: BrokerModel,
    next: InvokeNext,
)
    requires
        broker.sessions.contains_key(session@),
        binding.action == ResolvedAction::Portable(Ok(PortableAction::Quit)),
        broker.invokes(
            InvokeStage::Requested { session, binding: Some(binding) },
            now,
            after,
            next,
        ),
    ensures
        ends_for(broker, after, session@, CaptureReleaseReason::UiDismissed),
        !after.sessions.contains_key(session@),
{
    let begun = BrokerModel {
        next_execution: super::counter_after(broker.next_execution),
        ..broker
    };
    let effects = next->Accept_0.detached->Some_0;
    law_a_detached_capture_is_ended_for_its_reason(
        begun,
        session,
        CaptureReleaseReason::UiDismissed,
        now,
        after,
        effects,
    );
}

/// A session that cannot stand after all is dismissed: the host could not be asked or would not capture,
/// or there is no menu to show. It is gone then, and its UI is refused with the cause.
pub proof fn law_a_session_that_cannot_stand_is_dismissed(
    broker: BrokerModel,
    session: UiSessionId,
    stage: StandStage,
    now: Instant,
    limit: nat,
    after: BrokerModel,
    next: StandNext,
)
    requires
        broker.stands(stage, now, limit, after, next),
        stage matches StandStage::HostAsked { session: asked, .. } ==> asked == session,
        stage matches StandStage::CaptureBegun { session: begun, .. } ==> begun == session,
        broker.sessions.contains_key(session@),
    ensures
        next is Refuse ==> !after.sessions.contains_key(session@),
        stage is HostAsked && next is Refuse ==> ends_for(
            broker,
            after,
            session@,
            CaptureReleaseReason::UiDismissed,
        ),
        (stage matches StandStage::CaptureBegun { capture: Ok(capture), .. } && next is Refuse
            && !broker.cleanup.captures.contains_key(capture.id@)) ==> {
            let capture = stage->capture->Ok_0;
            &&& after.cleanup.captures.contains_key(capture.id@)
            &&& after.cleanup.captures[capture.id@].reason == CaptureReleaseReason::UiDismissed
        },
        stage matches StandStage::CaptureBegun { capture: Err(error), .. } ==> next is Refuse
            && next->error == BrokerError::Adapter(error) && ends_for(
            broker,
            after,
            session@,
            CaptureReleaseReason::UiDismissed,
        ),
{
    if let StandStage::CaptureBegun { capture: Ok(capture), .. } = stage {
        let taken = BrokerModel {
            sessions: broker.sessions.insert(
                session@,
                super::SessionRecord { capture: Some(capture), ..broker.sessions[session@] },
            ),
            ..broker
        };
        if next is Refuse {
            law_a_detached_capture_is_ended_for_its_reason(
                taken,
                session,
                CaptureReleaseReason::UiDismissed,
                now,
                after,
                next->detached,
            );
        }
    } else if next is Refuse {
        law_a_detached_capture_is_ended_for_its_reason(
            broker,
            session,
            CaptureReleaseReason::UiDismissed,
            now,
            after,
            next->detached,
        );
    }
}

/// Whatever capture is new on a backlog is to be ended for this reason, and none that was there before
/// is to be ended for another one.
pub open spec fn new_captures_end_for(
    before: CleanupModel,
    after: CleanupModel,
    reason: CaptureReleaseReason,
) -> bool {
    forall|lease: Seq<char>| #[trigger]
        after.captures.contains_key(lease) ==> after.captures[lease].reason == if before.captures.contains_key(
            lease,
        ) {
            before.captures[lease].reason
        } else {
            reason
        }
}

/// Nothing that was on a backlog is taken off.
spec fn no_capture_is_taken_off(before: CleanupModel, after: CleanupModel) -> bool {
    forall|lease: Seq<char>| #[trigger]
        before.captures.contains_key(lease) ==> after.captures.contains_key(lease)
}

proof fn lemma_detached_reason(
    broker: BrokerModel,
    session: UiSessionId,
    reason: CaptureReleaseReason,
    now: Instant,
    after: BrokerModel,
    effects: DetachEffects,
)
    requires
        broker.detaches(session, reason, now, after, effects),
    ensures
        new_captures_end_for(broker.cleanup, after.cleanup, reason),
        no_capture_is_taken_off(broker.cleanup, after.cleanup),
{
    let tokens = choose|tokens: Seq<Seq<u8>>|
        {
            &&& #[trigger] enumerates(tokens, broker.gated_tokens(session@))
            &&& (after, effects.cleanup@) == broker.detached(session, reason, now, tokens)
        };
    let captured = broker.release_capture(session@, reason, now).0;
    lemma_enqueue_gated_keeps(captured, tokens, broker.gated_sessions, session, now);
}

proof fn lemma_failed_reason(
    broker: BrokerModel,
    session: UiSessionId,
    registration: Option<RegisteredPane>,
    reason: CaptureReleaseReason,
    now: Instant,
    after: BrokerModel,
    effects: FailEffects,
)
    requires
        broker.fails(session, registration, reason, now, after, effects),
    ensures
        new_captures_end_for(broker.cleanup, after.cleanup, reason),
        no_capture_is_taken_off(broker.cleanup, after.cleanup),
{
    let detached = choose|detached: BrokerModel| #[trigger]
        broker.detaches(session, reason, now, detached, effects.detached) && (after, effects.pane)
            == detached.close_pane(session, registration, None, now);
    lemma_detached_reason(broker, session, reason, now, detached, effects.detached);
    assert(after.cleanup.captures == detached.cleanup.captures);
}

proof fn lemma_all_detached_reason(
    broker: BrokerModel,
    sessions: Seq<UiSessionId>,
    reason: CaptureReleaseReason,
    now: Instant,
    after: BrokerModel,
    effects: Seq<DetachEffects>,
)
    requires
        broker.detaches_all(sessions, reason, now, after, effects),
    ensures
        new_captures_end_for(broker.cleanup, after.cleanup, reason),
        no_capture_is_taken_off(broker.cleanup, after.cleanup),
    decreases sessions.len(),
{
    if sessions.len() > 0 {
        let between = choose|between: BrokerModel|
            {
                &&& broker.detaches_all(
                    sessions.drop_last(),
                    reason,
                    now,
                    between,
                    effects.drop_last(),
                )
                &&& #[trigger] between.detaches(
                    sessions.last(),
                    reason,
                    now,
                    after,
                    effects.last(),
                )
            };
        lemma_all_detached_reason(
            broker,
            sessions.drop_last(),
            reason,
            now,
            between,
            effects.drop_last(),
        );
        lemma_detached_reason(between, sessions.last(), reason, now, after, effects.last());
    }
}

proof fn lemma_all_failed_reason(
    broker: BrokerModel,
    pairs: Seq<(PendingLaunch, UiSessionId)>,
    reason: CaptureReleaseReason,
    now: Instant,
    after: BrokerModel,
    effects: Seq<FailEffects>,
)
    requires
        broker.fails_all(pairs, reason, now, after, effects),
    ensures
        new_captures_end_for(broker.cleanup, after.cleanup, reason),
        no_capture_is_taken_off(broker.cleanup, after.cleanup),
    decreases pairs.len(),
{
    if pairs.len() > 0 {
        let between = choose|between: BrokerModel|
            {
                &&& broker.fails_all(pairs.drop_last(), reason, now, between, effects.drop_last())
                &&& #[trigger] between.fails(
                    pairs.last().1,
                    pairs.last().0.registered_pane,
                    reason,
                    now,
                    after,
                    effects.last(),
                )
            };
        lemma_all_failed_reason(
            broker,
            pairs.drop_last(),
            reason,
            now,
            between,
            effects.drop_last(),
        );
        lemma_failed_reason(
            between,
            pairs.last().1,
            pairs.last().0.registered_pane,
            reason,
            now,
            after,
            effects.last(),
        );
    }
}

proof fn lemma_lost_launches_reason(
    broker: BrokerModel,
    tokens: Seq<PendingLaunchToken>,
    now: Instant,
    after: BrokerModel,
    effects: Seq<Option<FailEffects>>,
)
    requires
        broker.loses_launches(tokens, now, after, effects),
    ensures
        new_captures_end_for(broker.cleanup, after.cleanup, CaptureReleaseReason::LeaseExpired),
        no_capture_is_taken_off(broker.cleanup, after.cleanup),
    decreases tokens.len(),
{
    if tokens.len() > 0 {
        let between = choose|between: BrokerModel|
            {
                &&& broker.loses_launches(tokens.drop_last(), now, between, effects.drop_last())
                &&& #[trigger] between.loses_launch(tokens.last()@, now, after, effects.last())
            };
        lemma_lost_launches_reason(
            broker,
            tokens.drop_last(),
            now,
            between,
            effects.drop_last(),
        );
        let token = tokens.last()@;
        if between.pending_sessions.contains_key(token) {
            lemma_failed_reason(
                BrokerModel {
                    gate: between.gate.abort(token).0,
                    pending_sessions: between.pending_sessions.remove(token),
                    ..between
                },
                between.pending_sessions[token],
                between.pane_of(token),
                CaptureReleaseReason::LeaseExpired,
                now,
                after,
                effects.last()->Some_0,
            );
        }
    }
}

proof fn lemma_taken_sessions_keep_the_backlog(
    broker: BrokerModel,
    launches: Seq<PendingLaunch>,
)
    ensures
        broker.take_sessions(launches).0.cleanup == broker.cleanup,
    decreases launches.len(),
{
    if launches.len() > 0 {
        lemma_taken_sessions_keep_the_backlog(broker, launches.drop_last());
    }
}

/// What runs out of time, and what stood in a scope that is lost, ends because its lease is over.
pub proof fn law_what_runs_out_ends_with_its_lease(
    broker: BrokerModel,
    scope: Seq<char>,
    now: Instant,
    after: BrokerModel,
    effects: Seq<FailEffects>,
    loss: ScopeLoss,
)
    ensures
        broker.expires(now, after, effects) ==> new_captures_end_for(
            broker.cleanup,
            after.cleanup,
            CaptureReleaseReason::LeaseExpired,
        ),
        broker.loses_scope(scope, now, after, loss) ==> new_captures_end_for(
            broker.cleanup,
            after.cleanup,
            CaptureReleaseReason::LeaseExpired,
        ),
{
    if broker.expires(now, after, effects) {
        let left = BrokerModel {
            gate: broker.gate.without_launches(broker.gate.expired(now)),
            ..broker
        };
        let launches = choose|launches: Seq<PendingLaunch>|
            {
                let (taken, pairs) = left.take_sessions(launches);
                &&& #[trigger] lists(launches, broker.gate.expired(now))
                &&& taken.fails_all(pairs, CaptureReleaseReason::LeaseExpired, now, after, effects)
            };
        let (taken, pairs) = left.take_sessions(launches);
        lemma_taken_sessions_keep_the_backlog(left, launches);
        lemma_all_failed_reason(
            taken,
            pairs,
            CaptureReleaseReason::LeaseExpired,
            now,
            after,
            effects,
        );
    }
    if broker.loses_scope(scope, now, after, loss) {
        let (detached, aborted) = choose|detached: BrokerModel, aborted: BrokerModel| #[trigger]
            broker.loses_scope_through(scope, now, detached, aborted, after, loss);
        lemma_all_detached_reason(
            broker,
            loss.sessions@,
            CaptureReleaseReason::LeaseExpired,
            now,
            detached,
            loss.detached@,
        );
        lemma_lost_launches_reason(detached, loss.launches@, now, aborted, loss.aborted@);
    }
}

/// A broker that is drained dismisses its UIs.
pub proof fn law_a_drain_dismisses_every_ui(
    broker: BrokerModel,
    now: Instant,
    after: BrokerModel,
    next: DrainNext,
)
    requires
        broker.drains(DrainStage::HostSettled, now, after, next),
    ensures
        new_captures_end_for(broker.cleanup, after.cleanup, CaptureReleaseReason::UiDismissed),
{
    if let DrainNext::Detached { panes, sessions, detached } = next {
        let (launches, emptied) = choose|launches: Seq<PendingLaunch>, emptied: BrokerModel|
            #[trigger]
            broker.empties_through(
                now,
                launches,
                emptied,
                after,
                panes@,
                sessions@,
                detached@,
            );
        super::endings::lemma_closed_launches(
            broker.cleanup,
            launches,
            broker.pending_sessions,
            now,
        );
        lemma_all_detached_reason(
            emptied,
            sessions@,
            CaptureReleaseReason::UiDismissed,
            now,
            after,
            detached@,
        );
    }
}

/// A capture that the host gives too late, for a session that has gone meanwhile, is put on the backlog
/// to be ended as that of a dismissed UI, with a note that names the session; the UI is refused.
pub proof fn law_a_late_capture_is_ended_as_dismissed(
    broker: BrokerModel,
    session: UiSessionId,
    capture: CaptureLease,
    has_view: bool,
    now: Instant,
    limit: nat,
    after: BrokerModel,
    next: StandNext,
)
    requires
        !broker.sessions.contains_key(session@),
        !broker.cleanup.captures.contains_key(capture.id@),
        broker.stands(
            StandStage::CaptureBegun { session, capture: Ok(capture), has_view },
            now,
            limit,
            after,
            next,
        ),
    ensures
        next is Refuse,
        next->error == BrokerError::UnknownSession(session),
        after.cleanup.captures.contains_key(capture.id@),
        after.cleanup.captures[capture.id@].lease == capture,
        after.cleanup.captures[capture.id@].reason == CaptureReleaseReason::UiDismissed,
        after.cleanup.captures[capture.id@].primary matches Some(note) && is_truncation(
            "UI session "@ + session.text() + " detached during capture start"@,
            limit,
            note@,
        ),
{
    let (taken, r, effect) = choose|
        taken: BrokerModel,
        r: Result<(), BrokerError>,
        effect: CleanupEffect,
    |
        {
            &&& #[trigger] broker.captures(session, capture, now, limit, taken, r, effect)
            &&& match r {
                Ok(()) => taken.stand_answers(session, has_view, now, after, next),
                Err(error) => taken.stand_falls(session, error, effect, now, after, next),
            }
        };
    let tokens = choose|tokens: Seq<Seq<u8>>|
        {
            &&& #[trigger] enumerates(tokens, taken.gated_tokens(session@))
            &&& (after, next->detached.cleanup@) == taken.detached(
                session,
                CaptureReleaseReason::UiDismissed,
                now,
                tokens,
            )
        };
    let captured = taken.release_capture(
        session@,
        CaptureReleaseReason::UiDismissed,
        now,
    ).0;
    assert(captured == taken.cleanup);
    lemma_enqueue_gated_keeps(captured, tokens, taken.gated_sessions, session, now);
}

} // verus!
