//! What comes of a request for a launch: the launch, a refusal, and those whom it displaces.
use super::attach::{caller_of, hint_of, AttachUi, OriginHintSource};
use super::endings::{
    is_kept_in, law_a_detached_capture_is_ended_for_its_reason, lemma_failure_keeps, pane_is_kept,
};
use super::{counter_after, session_name, BrokerModel, Minted, Prepared};
use crate::gate::{GateError, ScopeOwner};
use crate::ids::{ModalScopeId, PendingLaunchToken, UiSessionId};
use crate::menu::MenuId;
use crate::protocol::{BrokerError, CaptureReleaseReason};
use crate::text::decimal;
use crate::time::Instant;
use vstd::prelude::*;

verus! {

/// A launch is prepared wherever its menu is known, admission is open, its lease has an end and is not
/// empty, and a usable token was drawn: it is then pending in its scope under that token until the
/// lease is over, for a session of a name that was not given before. No wish of who stands in the scope
/// keeps it off.
pub proof fn law_a_launch_is_prepared_where_it_may_be(
    broker: BrokerModel,
    token: PendingLaunchToken,
    scope: ModalScopeId,
    root: MenuId,
    lease_millis: u32,
    now: Instant,
    after: BrokerModel,
    r: Result<Prepared, BrokerError>,
)
    requires
        !broker.executions.sealed,
        exists|i: int| 0 <= i < 16 && #[trigger] token@[i] != 0,
        !broker.gate.pending.contains_key(token@),
        lease_millis > 0,
        now.nanos + lease_millis * 1_000_000 <= u128::MAX,
        broker.prepares(true, Ok(token), scope, root, lease_millis, now, after, r),
    ensures
        r matches Ok(prepared) && prepared.token == token && prepared.lease_millis == lease_millis,
        after.gate.pending.contains_key(token@),
        after.gate.pending[token@].root == root,
        after.gate.pending[token@].scope == scope,
        after.gate.pending[token@].expires_at.nanos == now.nanos + lease_millis * 1_000_000,
        after.gate.pending[token@].registered_pane is None,
        after.gate.pending[token@].attached_ui is None,
        !after.gate.pending[token@].placement_committed,
        !after.gate.pending[token@].session_published,
        after.pending_sessions.contains_key(token@),
        after.pending_sessions[token@]@ == "ui-"@ + decimal(broker.next_session as nat),
        after.next_session != broker.next_session,
        !after.executions.sealed,
        after.next_execution == broker.next_execution,
{
    assert(!crate::ids::all_zero(token@));
    let fresh = choose|fresh: UiSessionId|
        {
            let (minted, launch) = #[trigger] broker.mint(
                true,
                Ok(token),
                scope,
                root,
                lease_millis,
                now,
                fresh,
            );
            &&& fresh@ == session_name(broker.next_session)
            &&& minted.displaces(launch, now, after, r)
        };
    let (minted, launch) = broker.mint(true, Ok(token), scope, root, lease_millis, now, fresh);
    assert(launch is Ok);
    assert(minted.gate.pending.contains_key(token@));
}

/// A request for a launch is refused for one reason at a time: an unknown menu, closed admission, a
/// lease of no time, a source that has no token, a token that is zero or taken. A request that is
/// refused for one of these changes nothing, and only a lease beyond the end of time is refused else.
pub proof fn law_a_refused_preparation_says_why(
    broker: BrokerModel,
    menu_known: bool,
    drawn: Result<PendingLaunchToken, GateError>,
    scope: ModalScopeId,
    root: MenuId,
    lease_millis: u32,
    now: Instant,
    after: BrokerModel,
    r: Result<Prepared, BrokerError>,
)
    requires
        broker.prepares(menu_known, drawn, scope, root, lease_millis, now, after, r),
    ensures
        !menu_known ==> r == Err::<Prepared, BrokerError>(BrokerError::UnknownMenu(root)) && after
            == broker,
        menu_known && broker.executions.sealed ==> r == Err::<Prepared, BrokerError>(
            BrokerError::ActivationInProgress,
        ) && after == broker,
        menu_known && !broker.executions.sealed ==> {
            &&& lease_millis == 0 ==> r == Err::<Prepared, BrokerError>(
                BrokerError::Gate(GateError::ZeroLease),
            ) && after == broker
            &&& lease_millis > 0 ==> match drawn {
                Err(error) => r == Err::<Prepared, BrokerError>(BrokerError::Gate(error)) && after
                    == broker,
                Ok(token) => {
                    let unusable = broker.gate.pending.contains_key(token@) || forall|i: int|
                        0 <= i < 16 ==> token@[i] == 0;
                    &&& unusable ==> r == Err::<Prepared, BrokerError>(
                        BrokerError::Gate(GateError::DuplicateToken),
                    ) && after == broker
                    &&& !unusable && r is Err ==> now.nanos + lease_millis * 1_000_000 > u128::MAX
                        && r == Err::<Prepared, BrokerError>(
                        BrokerError::Gate(GateError::LeaseOverflow),
                    )
                },
            }
        },
        broker.draws_no_token(menu_known, lease_millis) ==> r is Err && (!menu_known
            || broker.executions.sealed || lease_millis == 0),
        r is Err ==> after.sessions == broker.sessions && after.pending_sessions
            == broker.pending_sessions && after.next_session == broker.next_session && after.cleanup
            == broker.cleanup && after.executions == broker.executions,
{
    let fresh = choose|fresh: UiSessionId|
        {
            let (minted, launch) = #[trigger] broker.mint(
                menu_known,
                drawn,
                scope,
                root,
                lease_millis,
                now,
                fresh,
            );
            &&& fresh@ == session_name(broker.next_session)
            &&& minted.displaces(launch, now, after, r)
        };
    let (minted, launch) = broker.mint(menu_known, drawn, scope, root, lease_millis, now, fresh);
    assert(launch is Err ==> minted == after && r is Err);
    if drawn matches Ok(token) && (forall|i: int| 0 <= i < 16 ==> token@[i] == 0) {
        assert(crate::ids::all_zero(drawn->Ok_0@));
    }
    if lease_millis > 0 && menu_known && !broker.executions.sealed {
        assert(launch is Err && r->Err_0 != BrokerError::Gate(GateError::LeaseOverflow) ==> minted
            =~= broker);
    }
}

/// Who stands in the scope of a fresh launch gives way to it: a session is detached as replaced, its
/// capture goes on the backlog for that reason; a launch gives its registered pane to the backlog and
/// has no session to come any more. What was on the backlog stays there.
pub proof fn law_who_stands_in_the_scope_gives_way(
    broker: BrokerModel,
    menu_known: bool,
    drawn: Result<PendingLaunchToken, GateError>,
    scope: ModalScopeId,
    root: MenuId,
    lease_millis: u32,
    now: Instant,
    after: BrokerModel,
    r: Result<Prepared, BrokerError>,
)
    requires
        r is Ok,
        broker.prepares(menu_known, drawn, scope, root, lease_millis, now, after, r),
    ensures
        is_kept_in(broker.cleanup, after.cleanup),
        !broker.gate.scopes.contains_key(scope@) ==> r->Ok_0.displaced_launch is None
            && r->Ok_0.displaced_session is None && after.sessions == broker.sessions && after.cleanup
            == broker.cleanup,
        broker.gate.scopes.contains_key(scope@) ==> match broker.gate.scopes[scope@] {
            ScopeOwner::Ready(session) => {
                &&& r->Ok_0.displaced_launch is None
                &&& r->Ok_0.displaced_session is Some
                &&& !after.sessions.contains_key(session@)
                &&& broker.sessions.contains_key(session@) && broker.sessions[session@].capture is Some
                    ==> {
                    let capture = broker.sessions[session@].capture->Some_0;
                    &&& after.cleanup.captures.contains_key(capture.id@)
                    &&& !broker.cleanup.captures.contains_key(capture.id@)
                        ==> after.cleanup.captures[capture.id@].reason
                        == CaptureReleaseReason::Replaced
                }
            },
            ScopeOwner::Pending(previous) => {
                &&& r->Ok_0.displaced_session is None
                &&& broker.gate.pending.contains_key(previous@)
                    && broker.gate.pending[previous@].token@ == previous@
                    && broker.pending_sessions.contains_key(previous@) ==> {
                    let session = broker.pending_sessions[previous@];
                    &&& r->Ok_0.displaced_launch is Some
                    &&& pane_is_kept(after.cleanup, broker.gate.pending[previous@])
                    &&& !after.sessions.contains_key(session@)
                    &&& !after.gate.pending.contains_key(previous@)
                    &&& !after.pending_sessions.contains_key(previous@)
                }
            },
        },
{
    let fresh = choose|fresh: UiSessionId|
        {
            let (minted, launch) = #[trigger] broker.mint(
                menu_known,
                drawn,
                scope,
                root,
                lease_millis,
                now,
                fresh,
            );
            &&& fresh@ == session_name(broker.next_session)
            &&& minted.displaces(launch, now, after, r)
        };
    let (minted, launch) = broker.mint(menu_known, drawn, scope, root, lease_millis, now, fresh);
    assert(launch is Ok);
    let made: Minted = launch->Ok_0;
    let prepared = r->Ok_0;
    let between = choose|between: BrokerModel|
        {
            &&& #[trigger] minted.displaces_launch(
                made.displaced_launch,
                now,
                between,
                prepared.displaced_launch,
            )
            &&& between.displaces_session(
                made.displaced_session,
                now,
                after,
                prepared.displaced_session,
            )
        };
    assert(minted.cleanup == broker.cleanup);
    if let Some((gone, session)) = made.displaced_launch {
        lemma_failure_keeps(
            minted,
            session,
            gone,
            CaptureReleaseReason::Replaced,
            now,
            between,
            prepared.displaced_launch->Some_0,
        );
    }
    if let Some(session) = made.displaced_session {
        law_a_detached_capture_is_ended_for_its_reason(
            between,
            session,
            CaptureReleaseReason::Replaced,
            now,
            after,
            prepared.displaced_session->Some_0,
        );
    }
}

/// Sessions are counted up, and no counter is its own successor.
pub proof fn law_counters_move_on(counter: u64)
    ensures
        counter_after(counter) != counter,
        counter < u64::MAX ==> counter_after(counter) == counter + 1,
        counter == u64::MAX ==> counter_after(counter) == 0,
{
}

/// The host is told what the launcher said of the origin, as a hint of the launcher's, and what the
/// caller said of itself; nothing where nothing was said.
pub proof fn law_the_host_is_told_what_was_said(request: AttachUi)
    ensures
        request.origin is None ==> hint_of(request.origin) is None,
        request.origin matches Some(origin) ==> (hint_of(request.origin) matches Some(hint)
            && hint.workspace == origin.workspace && hint.tab == origin.tab && hint.pane
            == origin.pane && hint.cwd == origin.cwd && hint.source
            == OriginHintSource::LauncherBootstrap),
        request.caller_identity is None ==> caller_of(request.caller_identity) is None,
        request.caller_identity matches Some(caller) ==> (caller_of(request.caller_identity) matches
            Some(told) && told.workspace == caller.workspace && told.tab == caller.tab && told.pane
            == caller.pane && told.cwd == Some(caller.cwd)),
{
}

} // verus!
