//! What each step of a launch comes to at the launch gate, and how the steps relate.
use super::{
    AttachDisposition, GateError, GateModel, PendingLaunch, PreparedLaunch, RegisteredPane, ScopeOwner,
};
use crate::host::PendingPaneLease;
use crate::ids::{HostPaneId, ModalScopeId, PendingLaunchToken, UiSessionId};
use crate::menu::MenuId;
use crate::time::{Duration, Instant};
use vstd::prelude::*;

verus! {

/// A launch is minted wherever the source gives a usable token and the lease has an end: it is pending
/// under that token in its scope, with its menu, until the lease is over, and nobody has registered,
/// attached, committed or published anything for it yet.
pub proof fn law_a_usable_token_makes_a_launch(
    gate: GateModel,
    token: PendingLaunchToken,
    scope: ModalScopeId,
    root: MenuId,
    now: Instant,
    lease: Duration,
)
    requires
        exists|i: int| 0 <= i < 16 && #[trigger] token@[i] != 0,
        !gate.pending.contains_key(token@),
        lease.nanos > 0,
        now.nanos + lease.nanos <= u128::MAX,
    ensures
        ({
            let (after, r) = gate.prepare(Ok(token), scope, root, now, lease);
            &&& r matches Ok(prepared)
            &&& prepared.pending.token == token
            &&& prepared.pending.scope == scope
            &&& prepared.pending.root == root
            &&& prepared.pending.expires_at.nanos == now.nanos + lease.nanos
            &&& prepared.pending.registered_pane is None
            &&& prepared.pending.attached_ui is None
            &&& prepared.pending.attached_pane is None
            &&& !prepared.pending.placement_committed
            &&& !prepared.pending.session_published
            &&& after.pending.contains_key(token@)
            &&& after.pending[token@] == prepared.pending
            &&& after.scopes.contains_key(scope@)
            &&& after.scopes[scope@] == ScopeOwner::Pending(token)
            &&& after.sessions == gate.sessions
            &&& prepared.replaced is Some <==> gate.scopes.contains_key(scope@)
            &&& prepared.replaced matches Some(owner) ==> owner == gate.scopes[scope@]
            &&& prepared.replaced_pending matches Some(launch) ==> gate.scopes[scope@] matches
                ScopeOwner::Pending(previous) && gate.pending.contains_key(previous@) && launch
                == gate.pending[previous@]
            &&& (gate.scopes.contains_key(scope@) && (gate.scopes[scope@] matches
                ScopeOwner::Pending(previous) && gate.pending.contains_key(previous@)))
                ==> prepared.replaced_pending is Some
        }),
{
    assert(!crate::ids::all_zero(token@));
}

/// A launch is refused for one reason at a time: a lease of no time, a source that fails, a token that
/// is zero or taken, a lease without an end. Every launch that is not displaced stays as it was.
pub proof fn law_a_refused_launch_says_why(
    gate: GateModel,
    drawn: Result<PendingLaunchToken, GateError>,
    scope: ModalScopeId,
    root: MenuId,
    now: Instant,
    lease: Duration,
    other: Seq<u8>,
)
    ensures
        ({
            let (after, r) = gate.prepare(drawn, scope, root, now, lease);
            &&& lease.nanos == 0 ==> after == gate && r == Err::<PreparedLaunch, GateError>(
                GateError::ZeroLease,
            )
            &&& lease.nanos > 0 ==> match drawn {
                Err(error) => after == gate && r == Err::<PreparedLaunch, GateError>(error),
                Ok(token) => {
                    &&& (forall|i: int| 0 <= i < token@.len() ==> token@[i] == 0)
                        || gate.pending.contains_key(token@) ==> after == gate && r == Err::<
                        PreparedLaunch,
                        GateError,
                    >(GateError::DuplicateToken)
                    &&& r == Err::<PreparedLaunch, GateError>(GateError::LeaseOverflow) ==> now.nanos
                        + lease.nanos > u128::MAX
                    &&& now.nanos + lease.nanos > u128::MAX ==> r is Err
                },
            }
            &&& gate.pending.contains_key(other) && !(gate.scopes.contains_key(scope@)
                && (gate.scopes[scope@] matches ScopeOwner::Pending(previous) && previous@ == other))
                ==> after.pending.contains_key(other) && after.pending[other] == gate.pending[other]
        }),
{
}

/// Registering a pane for a pending launch succeeds exactly where no other pane is known for it: none
/// that was registered with anything different, none that a UI attached from. The pane is then the
/// launch's; nothing else changes.
pub proof fn law_a_pane_is_registered_once(gate: GateModel, token: Seq<u8>, pane: RegisteredPane)
    ensures
        ({
            let (after, r) = gate.register_pending_pane(token, pane);
            &&& !gate.pending.contains_key(token) ==> after == gate && r == Err::<(), GateError>(
                GateError::UnknownToken,
            )
            &&& gate.pending.contains_key(token) ==> {
                let launch = gate.pending[token];
                let free = (launch.registered_pane is None || launch.registered_pane->Some_0@
                    == pane@) && (launch.attached_pane is None || launch.attached_pane->Some_0@
                    == pane.pane@);
                &&& r is Ok <==> free
                &&& !free ==> after == gate && r == Err::<(), GateError>(GateError::PaneMismatch)
                &&& free ==> after.pending.contains_key(token)
                    && after.pending[token].registered_pane is Some
                    && after.pending[token].registered_pane->Some_0@ == pane@
                    && after.pending[token].scope == launch.scope && after.pending[token].root
                    == launch.root && after.pending[token].attached_ui == launch.attached_ui
                    && after.pending[token].attached_pane == launch.attached_pane
                    && after.pending[token].placement_committed == launch.placement_committed
                    && after.pending[token].session_published == launch.session_published
                    && after.pending[token].expires_at == launch.expires_at
            }
            &&& after.scopes == gate.scopes && after.sessions == gate.sessions
            &&& gate.register_pending_pane(token, pane).1 is Ok ==> after.register_pending_pane(
                token,
                pane,
            ) == (after, Ok::<(), GateError>(()))
        }),
{
    let (after, r) = gate.register_pending_pane(token, pane);
    if r is Ok {
        assert(after.register_pending_pane(token, pane).0 =~= after);
    }
}

/// The host's lease is bound to a registered pane once: a second lease is refused, the same one again
/// changes nothing. Without a registered pane there is nothing to bind.
pub proof fn law_a_lease_is_bound_once(gate: GateModel, token: Seq<u8>, lease: PendingPaneLease)
    ensures
        ({
            let (after, r) = gate.bind_pending_lease(token, lease);
            &&& !gate.pending.contains_key(token) ==> after == gate && r == Err::<(), GateError>(
                GateError::UnknownToken,
            )
            &&& gate.pending.contains_key(token) ==> match gate.pending[token].registered_pane {
                None => after == gate && r == Err::<(), GateError>(GateError::PaneMismatch),
                Some(registered) => {
                    let free = registered.lease is None || registered.lease->Some_0@ == lease@;
                    &&& r is Ok <==> free
                    &&& !free ==> after == gate && r == Err::<(), GateError>(
                        GateError::PaneMismatch,
                    )
                    &&& free ==> after.pending.contains_key(token)
                        && after.pending[token].registered_pane == Some(
                        RegisteredPane {
                            pane: registered.pane,
                            temporary_tab: registered.temporary_tab,
                            lease: Some(lease),
                        },
                    ) && after.pending[token].attached_ui == gate.pending[token].attached_ui
                        && after.pending[token].placement_committed
                        == gate.pending[token].placement_committed
                },
            }
            &&& after.scopes == gate.scopes && after.sessions == gate.sessions
        }),
{
}

/// A UI that names its launch is let in exactly where the launch is pending in that scope, no other
/// pane is registered for it and no other UI has it; a pane that is not registered yet is no obstacle.
/// The launch then has the UI and its pane, and the session is in the scope.
pub proof fn law_a_ui_attaches_to_its_launch(
    gate: GateModel,
    session: UiSessionId,
    scope: ModalScopeId,
    pane: HostPaneId,
    token: PendingLaunchToken,
)
    ensures
        ({
            let (after, r) = gate.attach(session, scope, pane, Some(token));
            let launch = gate.pending[token@];
            let fresh = !gate.sessions.contains_key(session@);
            let known = gate.pending.contains_key(token@);
            let here = launch.scope@ == scope@;
            let its_pane = launch.registered_pane is None || launch.registered_pane->Some_0.pane@
                == pane@;
            let its_ui = launch.attached_ui is None || launch.attached_ui->Some_0@ == session@;
            &&& r is Ok <==> fresh && known && here && its_pane && its_ui
            &&& r is Ok ==> {
                &&& r == Ok::<AttachDisposition, GateError>(
                    AttachDisposition::WaitingForCommit { token },
                )
                &&& after.pending.contains_key(token@)
                &&& after.pending[token@] == PendingLaunch {
                    attached_ui: Some(session),
                    attached_pane: Some(pane),
                    ..launch
                }
                &&& after.sessions.contains_key(session@)
                &&& after.sessions[session@]@ == scope@
                &&& after.scopes == gate.scopes
            }
            &&& r is Err ==> after == gate
            &&& !fresh ==> r == Err::<AttachDisposition, GateError>(GateError::DuplicateSession)
            &&& fresh && !known ==> r == Err::<AttachDisposition, GateError>(
                GateError::UnknownToken,
            )
            &&& fresh && known && !here ==> r == Err::<AttachDisposition, GateError>(
                GateError::ScopeMismatch,
            )
            &&& fresh && known && here && !its_pane ==> r == Err::<AttachDisposition, GateError>(
                GateError::PaneMismatch,
            )
            &&& fresh && known && here && its_pane && !its_ui ==> r == Err::<
                AttachDisposition,
                GateError,
            >(GateError::TokenAlreadyAttached)
        }),
{
}

/// A UI without a launch takes a scope exactly where nobody owns it.
pub proof fn law_a_ui_takes_a_free_scope(
    gate: GateModel,
    session: UiSessionId,
    scope: ModalScopeId,
    pane: HostPaneId,
)
    ensures
        ({
            let (after, r) = gate.attach(session, scope, pane, None);
            let fresh = !gate.sessions.contains_key(session@);
            let free = !gate.scopes.contains_key(scope@);
            &&& r is Ok <==> fresh && free
            &&& r is Ok ==> r == Ok::<AttachDisposition, GateError>(AttachDisposition::Ready)
                && after.scopes.contains_key(scope@) && after.scopes[scope@] == ScopeOwner::Ready(
                session,
            ) && after.sessions.contains_key(session@) && after.sessions[session@] == scope
                && after.pending == gate.pending
            &&& r is Err ==> after == gate
            &&& !fresh ==> r == Err::<AttachDisposition, GateError>(GateError::DuplicateSession)
            &&& fresh && !free ==> r == Err::<AttachDisposition, GateError>(
                GateError::ScopeOccupied,
            )
        }),
{
}

/// A pane may be registered before or after the UI attaches from it: the launch comes out the same, and
/// neither order is refused.
pub proof fn law_attachment_and_registration_in_either_order(
    gate: GateModel,
    token: PendingLaunchToken,
    session: UiSessionId,
    scope: ModalScopeId,
    pane: HostPaneId,
    registered: RegisteredPane,
)
    requires
        gate.pending.contains_key(token@),
        gate.pending[token@].scope@ == scope@,
        gate.pending[token@].registered_pane is None,
        gate.pending[token@].attached_ui is None,
        gate.pending[token@].attached_pane is None,
        !gate.sessions.contains_key(session@),
        registered.pane@ == pane@,
    ensures
        ({
            let (attached, first) = gate.attach(session, scope, pane, Some(token));
            let (both, second) = attached.register_pending_pane(token@, registered);
            let (placed, third) = gate.register_pending_pane(token@, registered);
            let (also_both, fourth) = placed.attach(session, scope, pane, Some(token));
            &&& first is Ok && second is Ok && third is Ok && fourth is Ok
            &&& both == also_both
        }),
{
    let (attached, first) = gate.attach(session, scope, pane, Some(token));
    let (both, second) = attached.register_pending_pane(token@, registered);
    let (placed, third) = gate.register_pending_pane(token@, registered);
    let (also_both, fourth) = placed.attach(session, scope, pane, Some(token));
    assert(both =~= also_both);
}

/// A launcher commits the pane that is registered, and that its UI attached from where there is one; any
/// other pane is refused, and so is a launch that does not own its scope. A launch whose session is
/// published is complete with the commit: the scope is the session's. Any other stays pending with the
/// commit noted.
pub proof fn law_a_commit_is_for_the_exact_pane(gate: GateModel, token: Seq<u8>, pane: Seq<char>)
    ensures
        ({
            let (after, r) = gate.commit(token, pane);
            let launch = gate.pending[token];
            let known = gate.pending.contains_key(token);
            let exact = launch.registered_pane is Some && launch.registered_pane->Some_0.pane@ == pane
                && (launch.attached_pane is None || launch.attached_pane->Some_0@ == pane);
            let owns = gate.scopes.contains_key(launch.scope@) && (gate.scopes[launch.scope@] matches
                ScopeOwner::Pending(owner) && owner@ == token);
            &&& !known ==> after == gate && r == Err::<Option<UiSessionId>, GateError>(
                GateError::UnknownToken,
            )
            &&& known && !exact ==> after == gate && r == Err::<Option<UiSessionId>, GateError>(
                GateError::PaneMismatch,
            )
            &&& known && exact && !owns ==> after == gate && r == Err::<
                Option<UiSessionId>,
                GateError,
            >(GateError::ScopeMismatch)
            &&& known && exact && owns && !launch.session_published ==> r == Ok::<
                Option<UiSessionId>,
                GateError,
            >(None) && after.pending.contains_key(token) && after.pending[token] == (
            PendingLaunch { placement_committed: true, ..launch }) && after.scopes == gate.scopes
            &&& known && exact && owns && launch.session_published && launch.attached_ui is Some
                ==> r == Ok::<Option<UiSessionId>, GateError>(launch.attached_ui)
                && !after.pending.contains_key(token) && after.scopes.contains_key(launch.scope@)
                && after.scopes[launch.scope@] == ScopeOwner::Ready(launch.attached_ui->Some_0)
            &&& after.sessions == gate.sessions
        }),
{
}

/// A session is published for the launch that it is attached to, and for no other. Where the placement
/// is committed and the scope still the launch's, the launch is complete; before the commit it waits.
pub proof fn law_a_session_is_published_for_its_launch(
    gate: GateModel,
    token: Seq<u8>,
    session: UiSessionId,
)
    ensures
        ({
            let (after, r) = gate.publish_attached(token, session);
            let launch = gate.pending[token];
            let known = gate.pending.contains_key(token);
            let its_ui = launch.attached_ui is Some && launch.attached_ui->Some_0@ == session@;
            let owns = gate.scopes.contains_key(launch.scope@) && (gate.scopes[launch.scope@] matches
                ScopeOwner::Pending(owner) && owner@ == token);
            &&& !known ==> after == gate && r == Err::<bool, GateError>(GateError::UnknownToken)
            &&& known && !its_ui ==> after == gate && r == Err::<bool, GateError>(
                GateError::TokenAlreadyAttached,
            )
            &&& known && its_ui && !launch.placement_committed ==> r == Ok::<bool, GateError>(false)
                && after.pending.contains_key(token) && after.pending[token] == (PendingLaunch {
                session_published: true,
                ..launch
            }) && after.scopes == gate.scopes
            &&& known && its_ui && launch.placement_committed && owns ==> r == Ok::<bool, GateError>(
                true,
            ) && !after.pending.contains_key(token) && after.scopes.contains_key(launch.scope@)
                && after.scopes[launch.scope@] == ScopeOwner::Ready(session)
            &&& known && its_ui && launch.placement_committed && !owns ==> r == Err::<
                bool,
                GateError,
            >(GateError::ScopeMismatch)
            &&& after.sessions == gate.sessions
        }),
{
}

/// What happens to one launch leaves every other launch as it was, and every other scope.
pub proof fn law_launches_do_not_disturb_each_other(
    gate: GateModel,
    token: PendingLaunchToken,
    session: UiSessionId,
    scope: ModalScopeId,
    pane: HostPaneId,
    registered: RegisteredPane,
    lease: PendingPaneLease,
    other: Seq<u8>,
    elsewhere: Seq<char>,
)
    requires
        other != token@,
        elsewhere != gate.pending[token@].scope@,
    ensures
        keeps(gate, gate.register_pending_pane(token@, registered).0, other, elsewhere),
        keeps(gate, gate.bind_pending_lease(token@, lease).0, other, elsewhere),
        keeps(gate, gate.attach(session, scope, pane, Some(token)).0, other, elsewhere),
        keeps(gate, gate.commit(token@, pane@).0, other, elsewhere),
        keeps(gate, gate.publish_attached(token@, session).0, other, elsewhere),
        keeps(gate, gate.abort(token@).0, other, elsewhere),
{
}

/// A launch and the owner of a scope are the same before and after.
pub open spec fn keeps(
    before: GateModel,
    after: GateModel,
    token: Seq<u8>,
    scope: Seq<char>,
) -> bool {
    &&& before.pending.contains_key(token) <==> after.pending.contains_key(token)
    &&& before.pending.contains_key(token) ==> after.pending[token] == before.pending[token]
    &&& before.scopes.contains_key(scope) <==> after.scopes.contains_key(scope)
    &&& before.scopes.contains_key(scope) ==> after.scopes[scope] == before.scopes[scope]
}

/// A launch that is taken out is gone with its scope and its UI's place, and hands out its pane; an
/// unknown one is nobody's. A launcher's going takes out exactly what is not committed.
pub proof fn law_an_aborted_launch_leaves_nothing(gate: GateModel, token: Seq<u8>)
    ensures
        ({
            let (after, r) = gate.abort(token);
            let launch = gate.pending[token];
            &&& !gate.pending.contains_key(token) ==> after == gate && r == Err::<
                Option<RegisteredPane>,
                GateError,
            >(GateError::UnknownToken)
            &&& gate.pending.contains_key(token) ==> {
                &&& r == Ok::<Option<RegisteredPane>, GateError>(launch.registered_pane)
                &&& !after.pending.contains_key(token)
                &&& launch.attached_ui matches Some(session) ==> !after.sessions.contains_key(
                    session@,
                )
                &&& gate.scopes.contains_key(launch.scope@) && (gate.scopes[launch.scope@] matches
                    ScopeOwner::Pending(owner) && owner@ == token) ==> !after.scopes.contains_key(
                    launch.scope@,
                )
                &&& !gate.pending[token].placement_committed ==> gate.abort_if_uncommitted(token)
                    == gate.abort(token)
                &&& gate.pending[token].placement_committed ==> gate.abort_if_uncommitted(token).0
                    == gate
            }
            &&& gate.placement_committed(token) <==> gate.pending.contains_key(token)
                && gate.pending[token].placement_committed
        }),
{
}

/// A launch runs out of time exactly when its lease is over: one that was just prepared is there until
/// then, and not after.
pub proof fn law_a_launch_lives_as_long_as_its_lease(
    gate: GateModel,
    token: PendingLaunchToken,
    scope: ModalScopeId,
    root: MenuId,
    now: Instant,
    lease: Duration,
    later: Instant,
)
    requires
        gate.prepare(Ok(token), scope, root, now, lease).1 is Ok,
    ensures
        ({
            let after = gate.prepare(Ok(token), scope, root, now, lease).0;
            &&& after.expired(later).contains_key(token@) <==> later.nanos >= now.nanos + lease.nanos
            &&& after.without_launches(after.expired(later)).pending.contains_key(token@)
                <==> later.nanos < now.nanos + lease.nanos
        }),
{
}

/// A session that leaves is in no scope any more; the scope it owned is free, and its leaving names the
/// scope that it was in.
pub proof fn law_a_session_that_leaves_is_nowhere(gate: GateModel, session: Seq<char>)
    ensures
        ({
            let (after, scope) = gate.detach(session);
            &&& !after.sessions.contains_key(session)
            &&& after.pending == gate.pending
            &&& scope is Some <==> gate.sessions.contains_key(session)
            &&& scope matches Some(scope) ==> scope == gate.sessions[session] && !(
            after.scopes.contains_key(scope@) && (after.scopes[scope@] matches ScopeOwner::Ready(
                owner,
            ) && owner@ == session))
            &&& scope is None ==> after == gate
        }),
{
}

/// The launches of a scope are those that were minted for it, and no others.
pub proof fn law_a_scope_has_its_own_launches(gate: GateModel, scope: Seq<char>, token: Seq<u8>)
    ensures
        gate.tokens_in_scope(scope).contains(token) <==> gate.pending.contains_key(token)
            && gate.pending[token].scope@ == scope,
{
}

/// A scope whose owner is not there any more is freed, and no other is; nothing else changes. So the
/// next UI that comes for a freed scope gets it.
pub proof fn law_a_scope_without_its_owner_is_freed(
    gate: GateModel,
    scope: Seq<char>,
    other: Seq<char>,
)
    ensures
        ({
            let after = gate.release_dangling_owner(scope);
            let gone = match gate.scopes[scope] {
                ScopeOwner::Pending(token) => !gate.pending.contains_key(token@),
                ScopeOwner::Ready(session) => !gate.sessions.contains_key(session@),
            };
            &&& gate.scopes.contains_key(scope) && gone ==> !after.scopes.contains_key(scope)
            &&& gate.scopes.contains_key(scope) && !gone ==> after.scopes.contains_key(scope)
                && after.scopes[scope] == gate.scopes[scope]
            &&& !gate.scopes.contains_key(scope) ==> !after.scopes.contains_key(scope)
            &&& other != scope ==> (after.scopes.contains_key(other) <==> gate.scopes.contains_key(
                other,
            )) && after.scopes[other] == gate.scopes[other]
            &&& after.pending == gate.pending && after.sessions == gate.sessions
        }),
{
}

/// Each refusal of the launch gate has its own text.
pub proof fn law_refusals_have_their_own_texts(left: GateError, right: GateError)
    requires
        left.text() == right.text(),
    ensures
        left == right,
{
    reveal_strlit("operating system randomness is unavailable");
    reveal_strlit("pending launch lease must be nonzero");
    reveal_strlit("pending launch lease overflowed its deadline");
    reveal_strlit("token source produced a duplicate or zero token");
    reveal_strlit("unknown pending launch token");
    reveal_strlit("pending launch belongs to another modal scope");
    reveal_strlit("modal scope is already owned");
    reveal_strlit("pending pane registration is already in progress");
    reveal_strlit("a different pane was registered or committed for this launch");
    reveal_strlit("the pending launch already has a different attached UI");
    reveal_strlit("UI session is already attached");
    reveal_strlit("pending launch cannot commit before its UI has attached");
    assert("operating system randomness is unavailable"@.len() == 42);
    assert("pending launch lease must be nonzero"@.len() == 36);
    assert("pending launch lease overflowed its deadline"@.len() == 44);
    assert("token source produced a duplicate or zero token"@.len() == 47);
    assert("unknown pending launch token"@.len() == 28);
    assert("pending launch belongs to another modal scope"@.len() == 45);
    assert("modal scope is already owned"@.len() == 28);
    assert("pending pane registration is already in progress"@.len() == 48);
    assert("a different pane was registered or committed for this launch"@.len() == 60);
    assert("the pending launch already has a different attached UI"@.len() == 54);
    assert("UI session is already attached"@.len() == 30);
    assert("pending launch cannot commit before its UI has attached"@.len() == 55);
    assert("unknown pending launch token"@[0] != "modal scope is already owned"@[0]);
}

} // verus!
