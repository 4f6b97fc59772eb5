//! What a launch comes to, step by step: which steps go through, in which orders, and what each of
//! them leaves.
use super::attach::{AttachNext, AttachStage, AttachUi, Published};
use super::stand::{CommitNext, CommitStage, StandNext, StandStage};
use super::{session_name, BrokerModel, FailEffects, GatedSession, RegisterStep, SessionRecord};
use crate::cleanup::CleanupEffect;
use crate::gate::{GateError, PendingLaunch, RegisteredPane, ScopeOwner};
use crate::host::{CaptureLease, PendingPaneLease, PendingPaneRegistration};
use crate::ids::{HostPaneId, HostTabId, ModalScopeId, PendingLaunchToken, UiSessionId};
use crate::protocol::{AdapterError, BrokerError};
use crate::text::is_truncation;
use crate::time::Instant;
use vstd::prelude::*;

verus! {

/// A launch that a UI may attach to from a pane: it is pending in the scope with the UI's menu, its
/// session has a name and is not attached, and neither another pane nor another UI is known for it. A
/// pane that is not registered yet is no obstacle.
pub open spec fn awaits(
    broker: BrokerModel,
    token: PendingLaunchToken,
    request: AttachUi,
    scope: ModalScopeId,
) -> bool {
    let launch = broker.gate.pending[token@];
    let session = broker.pending_sessions[token@];
    &&& broker.gate.pending.contains_key(token@)
    &&& broker.pending_sessions.contains_key(token@)
    &&& launch.root@ == request.root@
    &&& launch.scope@ == scope@
    &&& launch.registered_pane is None || launch.registered_pane->Some_0.pane@ == request.pane@
    &&& launch.attached_ui is None || launch.attached_ui->Some_0@ == session@
    &&& !broker.gate.sessions.contains_key(session@)
}

/// A UI that names its launch is let in exactly where admission is open, the menu is known and the
/// launch awaits it: from the registered pane, or from any pane while none is registered. The launch
/// then has this UI and this pane; everything else is as it was. A UI that is not let in changes
/// nothing.
pub proof fn law_a_launched_ui_is_let_in(
    broker: BrokerModel,
    request: AttachUi,
    scope: ModalScopeId,
    menu_known: bool,
    token: PendingLaunchToken,
    now: Instant,
    limit: nat,
    after: BrokerModel,
    next: AttachNext,
)
    requires
        request.pending_launch == Some(token),
        broker.attaches(
            request,
            AttachStage::ScopeFound { scope, menu_known },
            now,
            limit,
            after,
            next,
        ),
    ensures
        ({
            let session = broker.pending_sessions[token@];
            let launch = broker.gate.pending[token@];
            let open = menu_known && !broker.executions.sealed;
            &&& next == (AttachNext::CaptureOrigin { session }) <==> open && awaits(
                broker,
                token,
                request,
                scope,
            )
            &&& next is CaptureOrigin <==> open && awaits(broker, token, request, scope)
            &&& next is CaptureOrigin ==> {
                &&& after.gate.pending.contains_key(token@)
                &&& after.gate.pending[token@] == PendingLaunch {
                    attached_ui: Some(session),
                    attached_pane: Some(request.pane),
                    ..launch
                }
                &&& after.gate.sessions.contains_key(session@)
                &&& after.gate.sessions[session@]@ == scope@
                &&& after.gate.scopes == broker.gate.scopes
                &&& after == BrokerModel { gate: after.gate, ..broker }
            }
            &&& !(next is CaptureOrigin) ==> after == broker && next is Refuse
                && next->Refuse_cleanup == CleanupEffect::Nothing
            &&& !menu_known ==> next->Refuse_error == BrokerError::UnknownMenu(request.root)
            &&& menu_known && broker.executions.sealed ==> next->Refuse_error
                == BrokerError::ActivationInProgress
            &&& open && !broker.gate.pending.contains_key(token@) ==> next->Refuse_error
                == BrokerError::Gate(GateError::UnknownToken)
            &&& open && broker.gate.pending.contains_key(token@) && (launch.root@ != request.root@
                || launch.scope@ != scope@) ==> next->Refuse_error == BrokerError::Gate(
                GateError::ScopeMismatch,
            )
            &&& open && broker.gate.pending.contains_key(token@) && launch.root@ == request.root@
                && launch.scope@ == scope@ && (launch.registered_pane matches Some(registered)
                && registered.pane@ != request.pane@) ==> next->Refuse_error == BrokerError::Gate(
                GateError::PaneMismatch,
            )
        }),
{
}

/// A UI without a launch is let in exactly where admission is open, the menu is known, and nobody owns
/// the scope; it gets a session of its own with the next name.
pub proof fn law_a_ui_without_a_launch_is_let_in(
    broker: BrokerModel,
    request: AttachUi,
    scope: ModalScopeId,
    menu_known: bool,
    now: Instant,
    limit: nat,
    after: BrokerModel,
    next: AttachNext,
)
    requires
        request.pending_launch is None,
        broker.attaches(
            request,
            AttachStage::ScopeFound { scope, menu_known },
            now,
            limit,
            after,
            next,
        ),
    ensures
        next is CaptureOrigin <==> menu_known && !broker.executions.sealed
            && !broker.gate.scopes.contains_key(scope@) && !broker.gate.sessions.contains_key(
            session_name(broker.next_session),
        ),
        next matches AttachNext::CaptureOrigin { session } ==> {
            &&& session@ == session_name(broker.next_session)
            &&& after.gate.scopes.contains_key(scope@)
            &&& after.gate.scopes[scope@] == ScopeOwner::Ready(session)
            &&& after.gate.sessions.contains_key(session@)
            &&& after.gate.pending == broker.gate.pending
            &&& after.next_session != broker.next_session
            &&& after.sessions == broker.sessions
        },
        !(next is CaptureOrigin) ==> next is Refuse && after.gate == broker.gate && after.sessions
            == broker.sessions,
        menu_known && !broker.executions.sealed && !broker.gate.sessions.contains_key(
            session_name(broker.next_session),
        ) && broker.gate.scopes.contains_key(scope@) ==> next->Refuse_error == BrokerError::Gate(
            GateError::ScopeOccupied,
        ),
{
}

/// A pane that a launcher names for its pending launch is taken exactly where admission is open and no
/// other pane is known for the launch. The host is then asked to watch it for the launch's session,
/// unless it does so already or is being asked.
pub proof fn law_a_named_pane_is_watched(
    broker: BrokerModel,
    token: Seq<u8>,
    pane: HostPaneId,
    temporary_tab: Option<HostTabId>,
)
    ensures
        ({
            let (after, r) = broker.register(token, pane, temporary_tab);
            let launch = broker.gate.pending[token];
            let known = !broker.executions.sealed && broker.pending_sessions.contains_key(token)
                && broker.gate.pending.contains_key(token);
            let fresh = launch.registered_pane is None && (launch.attached_pane is None
                || launch.attached_pane->Some_0@ == pane@);
            let asked = broker.registering.contains_key(token);
            &&& known && fresh && !asked ==> r == Ok::<RegisterStep, BrokerError>(
                RegisterStep::Ask(
                    PendingPaneRegistration {
                        ui_session: broker.pending_sessions[token],
                        pane,
                        temporary_tab,
                    },
                ),
            ) && after.gate.pending[token].registered_pane == Some(
                RegisteredPane { pane, temporary_tab, lease: None },
            ) && after.registering.contains_key(token)
            &&& known && fresh && asked ==> r == Err::<RegisterStep, BrokerError>(
                BrokerError::Gate(GateError::RegistrationInProgress),
            )
            &&& broker.executions.sealed ==> after == broker && r == Err::<
                RegisterStep,
                BrokerError,
            >(BrokerError::ActivationInProgress)
            &&& !broker.executions.sealed && !known ==> after == broker && r == Err::<
                RegisterStep,
                BrokerError,
            >(BrokerError::Gate(GateError::UnknownToken))
            &&& known && launch.attached_pane is Some && launch.attached_pane->Some_0@ != pane@
                ==> after == broker && r == Err::<RegisterStep, BrokerError>(
                BrokerError::Gate(GateError::PaneMismatch),
            )
            &&& known && launch.registered_pane is Some && launch.registered_pane->Some_0.pane@
                != pane@ ==> after == broker && r == Err::<RegisterStep, BrokerError>(
                BrokerError::Gate(GateError::PaneMismatch),
            )
            &&& after.sessions == broker.sessions && after.pending_sessions
                == broker.pending_sessions && after.cleanup == broker.cleanup
        }),
{
}

/// The lease that the host gives for a pane goes to the launch that still has this pane; where the
/// launch is gone or has another one, or admission was closed, the pane is on the backlog under that
/// lease. Either way the registration is over.
pub proof fn law_a_lease_finds_its_launch_or_the_backlog(
    broker: BrokerModel,
    token: Seq<u8>,
    registration: PendingPaneRegistration,
    lease: PendingPaneLease,
    now: Instant,
)
    ensures
        ({
            let (after, r, effect) = broker.register_leased(token, registration, lease, now);
            let launch = broker.gate.pending[token];
            let current = !broker.executions.sealed && broker.pending_sessions.contains_key(token)
                && broker.gate.pending.contains_key(token) && launch.registered_pane is Some
                && launch.registered_pane->Some_0.pane@ == registration.pane@
                && crate::table::opt_view(launch.registered_pane->Some_0.temporary_tab)
                == crate::table::opt_view(registration.temporary_tab);
            &&& !after.registering.contains_key(token)
            &&& current && launch.registered_pane->Some_0.lease is None ==> r == Ok::<
                (),
                BrokerError,
            >(()) && after.gate.pending[token].registered_pane is Some
                && after.gate.pending[token].registered_pane->Some_0.lease == Some(lease)
            &&& current ==> effect == CleanupEffect::Nothing && after.cleanup == broker.cleanup
            &&& !current ==> r == Err::<(), BrokerError>(
                BrokerError::Gate(GateError::UnknownToken),
            ) && after.cleanup.panes.contains_key(lease.id@) && effect != CleanupEffect::Nothing
                && after.gate == broker.gate
            &&& !current && !broker.cleanup.panes.contains_key(lease.id@) ==> {
                let entry = after.cleanup.panes[lease.id@];
                &&& entry.session == registration.ui_session
                &&& entry.registration.pane == registration.pane
                &&& entry.registration.temporary_tab == registration.temporary_tab
                &&& entry.registration.lease == Some(lease)
            }
        }),
{
}

/// Attachment and registration may come in either order: while a launch has neither a pane nor a UI,
/// the UI is let in from its pane and the launcher may name that pane, whichever comes first, and what
/// they leave is the same.
pub proof fn law_a_ui_may_be_faster_than_its_launcher(
    broker: BrokerModel,
    request: AttachUi,
    scope: ModalScopeId,
    token: PendingLaunchToken,
    temporary_tab: Option<HostTabId>,
    fresh: UiSessionId,
)
    requires
        request.pending_launch == Some(token),
        !broker.executions.sealed,
        awaits(broker, token, request, scope),
        broker.gate.pending[token@].registered_pane is None,
        broker.gate.pending[token@].attached_ui is None,
        broker.gate.pending[token@].attached_pane is None,
        !broker.registering.contains_key(token@),
    ensures
        ({
            let session = broker.pending_sessions[token@];
            let (attached, first) = broker.attach_admit(request, scope, true, fresh);
            let (both, second) = attached.register(token@, request.pane, temporary_tab);
            let (placed, third) = broker.register(token@, request.pane, temporary_tab);
            let (also_both, fourth) = placed.attach_admit(request, scope, true, fresh);
            &&& first == Ok::<UiSessionId, BrokerError>(session)
            &&& fourth == first
            &&& second is Ok && second->Ok_0 is Ask
            &&& third == second
            &&& both == also_both
        }),
{
    let (attached, first) = broker.attach_admit(request, scope, true, fresh);
    let (both, second) = attached.register(token@, request.pane, temporary_tab);
    let (placed, third) = broker.register(token@, request.pane, temporary_tab);
    let (also_both, fourth) = placed.attach_admit(request, scope, true, fresh);
    assert(both.gate.pending =~= also_both.gate.pending);
    assert(both =~= also_both);
}

/// A launch that has its UI and its registered pane becomes a session by the launcher's commit of that
/// pane and by the UI's publication, in either order: after the first of the two it waits, after the
/// second its session stands with the UI's menu, scope and pane, owns the scope, and is still to be
/// told, with its registered pane kept until then.
pub proof fn law_a_launch_becomes_a_session(
    broker: BrokerModel,
    request: AttachUi,
    scope: ModalScopeId,
    token: PendingLaunchToken,
    session: UiSessionId,
    now: Instant,
    limit: nat,
    published: BrokerModel,
    waiting: Published,
    standing: BrokerModel,
    ready: Published,
)
    requires
        request.pending_launch == Some(token),
        !broker.executions.sealed,
        broker.pending_sessions.contains_key(token@),
        broker.pending_sessions[token@] == session,
        broker.gate.pending.contains_key(token@),
        broker.gate.pending[token@].scope@ == scope@,
        broker.gate.pending[token@].attached_ui == Some(session),
        broker.gate.pending[token@].attached_pane == Some(request.pane),
        broker.gate.pending[token@].registered_pane is Some,
        broker.gate.pending[token@].registered_pane->Some_0.pane@ == request.pane@,
        !broker.gate.pending[token@].placement_committed,
        !broker.gate.pending[token@].session_published,
        broker.gate.scopes.contains_key(scope@),
        broker.gate.scopes[scope@] == ScopeOwner::Pending(token),
        broker.attach_publishes(request, session, scope, now, limit, published, waiting),
        broker.commit(token@, request.pane@).0.attach_publishes(
            request,
            session,
            scope,
            now,
            limit,
            standing,
            ready,
        ),
    ensures
        ({
            let (committed, first) = broker.commit(token@, request.pane@);
            let (complete, second) = published.commit(token@, request.pane@);
            let record = SessionRecord {
                root: request.root,
                scope,
                ui_pane: request.pane,
                capture: None,
            };
            let untold = GatedSession {
                session,
                registration: broker.gate.pending[token@].registered_pane,
            };
            &&& first == Ok::<Option<UiSessionId>, BrokerError>(None)
            &&& committed.gate.pending.contains_key(token@)
            &&& waiting == Published::Waiting
            &&& published.gate.pending.contains_key(token@)
            &&& published.sessions.contains_key(session@) && published.sessions[session@] == record
            &&& second == Ok::<Option<UiSessionId>, BrokerError>(Some(session))
            &&& ready == Published::Ready
            &&& complete == standing
            &&& standing.sessions.contains_key(session@) && standing.sessions[session@] == record
            &&& standing.gate.scopes.contains_key(scope@) && standing.gate.scopes[scope@]
                == ScopeOwner::Ready(session)
            &&& !standing.gate.pending.contains_key(token@)
            &&& !standing.pending_sessions.contains_key(token@)
            &&& standing.gated_sessions.contains_key(token@) && standing.gated_sessions[token@]
                == untold
        }),
{
    let (committed, first) = broker.commit(token@, request.pane@);
    let (complete, second) = published.commit(token@, request.pane@);
    assert(complete.gate.pending =~= standing.gate.pending);
    assert(complete.gate.scopes =~= standing.gate.scopes);
    assert(complete.pending_sessions =~= standing.pending_sessions);
    assert(complete.gated_sessions =~= standing.gated_sessions);
    assert(complete.sessions =~= standing.sessions);
    assert(complete =~= standing);
}

/// A commit is acknowledged while the UI is still to come, goes on to the capture where it completes
/// the launch, and is refused for an unknown launch, another pane or a lost scope. What it refuses it
/// leaves alone.
pub proof fn law_a_commit_is_answered(
    broker: BrokerModel,
    token: PendingLaunchToken,
    pane: HostPaneId,
    now: Instant,
    limit: nat,
    after: BrokerModel,
    next: CommitNext,
)
    requires
        broker.commits(CommitStage::Requested { token, pane }, now, limit, after, next),
    ensures
        ({
            let launch = broker.gate.pending[token@];
            let known = broker.gate.pending.contains_key(token@);
            let exact = launch.registered_pane is Some && launch.registered_pane->Some_0.pane@
                == pane@ && (launch.attached_pane is None || launch.attached_pane->Some_0@ == pane@);
            let owns = broker.gate.scopes.contains_key(launch.scope@) && (
            broker.gate.scopes[launch.scope@] matches ScopeOwner::Pending(owner) && owner@ == token@
            );
            &&& !known ==> next == (CommitNext::Refuse {
                error: BrokerError::Gate(GateError::UnknownToken),
            })
            &&& known && !exact ==> next == (CommitNext::Refuse {
                error: BrokerError::Gate(GateError::PaneMismatch),
            })
            &&& known && exact && !owns ==> next == (CommitNext::Refuse {
                error: BrokerError::Gate(GateError::ScopeMismatch),
            })
            &&& known && exact && owns && !launch.session_published ==> next
                == CommitNext::Acknowledge && after.gate.pending.contains_key(token@)
                && after.gate.pending[token@].placement_committed && after.pending_sessions
                == broker.pending_sessions
            &&& known && exact && owns && launch.session_published && launch.attached_ui is Some
                ==> next == (CommitNext::AskCaptures { session: launch.attached_ui->Some_0 })
                && after.gated_sessions.contains_key(token@) && after.gated_sessions[token@] == (
            GatedSession {
                session: launch.attached_ui->Some_0,
                registration: launch.registered_pane,
            }) && !after.pending_sessions.contains_key(token@)
            &&& (!known || !exact || !owns) ==> after == broker
            &&& after.sessions == broker.sessions && after.cleanup == broker.cleanup
        }),
{
    assert(broker.gate.commit(token@, pane@).0 == broker.gate ==> BrokerModel {
        gate: broker.gate.commit(token@, pane@).0,
        ..broker
    } == broker);
}

/// A session that is there goes on to stand: where the host has no captures it is announced with its
/// menu, where it has them it is asked for one in the session's scope, and once it gives one the
/// session is announced. What stops it is told: a host that fails, a session that went, a menu that is
/// not shown.
pub proof fn law_a_session_goes_on_to_stand(
    broker: BrokerModel,
    session: UiSessionId,
    answer: Result<bool, AdapterError>,
    capture: Result<CaptureLease, AdapterError>,
    has_view: bool,
    now: Instant,
    limit: nat,
    after: BrokerModel,
    next: StandNext,
)
    ensures
        broker.stands(
            StandStage::HostAsked { session, captures: answer, has_view },
            now,
            limit,
            after,
            next,
        ) ==> match answer {
            Err(error) => next is Refuse && next->Refuse_error == BrokerError::Adapter(error),
            Ok(captures) => if !broker.sessions.contains_key(session@) {
                next is Refuse && next->Refuse_error == BrokerError::UnknownSession(session)
            } else if captures {
                next == (StandNext::BeginCapture {
                    session,
                    scope: broker.sessions[session@].scope,
                }) && after == broker
            } else if has_view {
                next == (StandNext::Announce { session, root: broker.sessions[session@].root })
                    && after == broker
            } else {
                next is Refuse && next->Refuse_error == BrokerError::UnknownMenu(
                    broker.sessions[session@].root,
                )
            },
        },
        broker.stands(
            StandStage::CaptureBegun { session, capture, has_view },
            now,
            limit,
            after,
            next,
        ) ==> match capture {
            Err(error) => next is Refuse && next->Refuse_error == BrokerError::Adapter(error),
            Ok(lease) => if !broker.sessions.contains_key(session@) {
                next is Refuse && next->Refuse_error == BrokerError::UnknownSession(session)
                    && next->Refuse_cleanup != CleanupEffect::Nothing
            } else if has_view {
                &&& next == (StandNext::Announce { session, root: broker.sessions[session@].root })
                &&& after.sessions.contains_key(session@)
                &&& after.sessions[session@] == SessionRecord {
                    capture: Some(lease),
                    ..broker.sessions[session@]
                }
                &&& after.cleanup == broker.cleanup
            } else {
                next is Refuse && next->Refuse_error == BrokerError::UnknownMenu(
                    broker.sessions[session@].root,
                )
            },
        },
        next is Refuse && (broker.stands(
            StandStage::HostAsked { session, captures: answer, has_view },
            now,
            limit,
            after,
            next,
        ) || broker.stands(
            StandStage::CaptureBegun { session, capture, has_view },
            now,
            limit,
            after,
            next,
        )) ==> !after.sessions.contains_key(session@) && !after.gate.sessions.contains_key(
            session@,
        ),
{
}

/// The host cannot tell where the menu was called up: the launch is off with its pane on the backlog,
/// or the UI's own place is given up; nobody waits for it any more.
pub proof fn law_an_unknown_origin_ends_the_attachment(
    broker: BrokerModel,
    request: AttachUi,
    session: UiSessionId,
    error: AdapterError,
    now: Instant,
    limit: nat,
    after: BrokerModel,
    next: AttachNext,
)
    requires
        broker.attaches(
            request,
            AttachStage::OriginFailed { session, error },
            now,
            limit,
            after,
            next,
        ),
    ensures
        next is Refuse,
        next->Refuse_error == BrokerError::Adapter(error),
        request.pending_launch is None ==> !after.gate.sessions.contains_key(session@)
            && after.cleanup == broker.cleanup && after.gate.pending == broker.gate.pending,
        request.pending_launch matches Some(token) ==> {
            let launch = broker.gate.pending[token@];
            &&& !after.gate.pending.contains_key(token@)
            &&& !after.pending_sessions.contains_key(token@)
            &&& broker.gate.pending.contains_key(token@) && launch.registered_pane is Some
                && launch.registered_pane->Some_0.lease is Some ==> {
                &&& after.cleanup.panes.contains_key(
                    launch.registered_pane->Some_0.lease->Some_0.id@,
                )
                &&& next->Refuse_cleanup != CleanupEffect::Nothing
            }
            &&& !broker.gate.pending.contains_key(token@) || launch.registered_pane is None
                ==> after.cleanup == broker.cleanup && next->Refuse_cleanup
                == CleanupEffect::Nothing
        },
{
}

/// A UI whose origin is known stands, or waits, as long as the launch is still its own and the scope is
/// still theirs; otherwise it is refused. A refused launch is gone with its pane on the backlog, and no
/// session stands for it.
pub proof fn law_a_published_ui_stands_or_its_launch_is_gone(
    broker: BrokerModel,
    request: AttachUi,
    session: UiSessionId,
    scope: ModalScopeId,
    now: Instant,
    limit: nat,
    after: BrokerModel,
    next: AttachNext,
)
    requires
        broker.attaches(
            request,
            AttachStage::OriginCaptured { session, scope },
            now,
            limit,
            after,
            next,
        ),
    ensures
        request.pending_launch is None ==> {
            let owned = broker.gate.scopes.contains_key(scope@) && (broker.gate.scopes[scope@]
                matches ScopeOwner::Ready(owner) && owner@ == session@);
            &&& !broker.executions.sealed && owned ==> next == (AttachNext::AskCaptures { session })
            &&& !broker.executions.sealed && !owned ==> next is Refuse && next->Refuse_error
                == BrokerError::Gate(GateError::ScopeMismatch)
            &&& broker.executions.sealed ==> next is Refuse && next->Refuse_error
                == BrokerError::ActivationInProgress
        },
        request.pending_launch matches Some(token) ==> {
            let launch = broker.gate.pending[token@];
            let own = broker.pending_sessions.contains_key(token@)
                && broker.pending_sessions[token@]@ == session@ && broker.gate.pending.contains_key(
                token@,
            ) && launch.attached_ui is Some && launch.attached_ui->Some_0@ == session@;
            let owns = broker.gate.scopes.contains_key(launch.scope@) && (
            broker.gate.scopes[launch.scope@] matches ScopeOwner::Pending(owner) && owner@ == token@
            );
            &&& !own ==> after == broker && next is Refuse && next->Refuse_error
                == BrokerError::Gate(GateError::UnknownToken)
            &&& own && !broker.executions.sealed && !launch.placement_committed ==> next == (
            AttachNext::WaitForCommit { token, session })
            &&& own && !broker.executions.sealed && launch.placement_committed && owns ==> next == (
            AttachNext::AskCaptures { session }) && after.gated_sessions.contains_key(token@)
                && after.gated_sessions[token@].session == session
                && after.gated_sessions[token@].registration == launch.registered_pane
            &&& own && (broker.executions.sealed || (launch.placement_committed && !owns)) ==> {
                &&& next is Refuse
                &&& !after.gate.pending.contains_key(token@)
                &&& !after.pending_sessions.contains_key(token@)
                &&& launch.registered_pane is Some && launch.registered_pane->Some_0.lease is Some
                    ==> after.cleanup.panes.contains_key(
                    launch.registered_pane->Some_0.lease->Some_0.id@,
                )
            }
        },
        next is AskCaptures || next is WaitForCommit ==> after.sessions.contains_key(session@)
            && after.sessions[session@] == (SessionRecord {
            root: request.root,
            scope,
            ui_pane: request.pane,
            capture: None,
        }),
        next is Refuse && after != broker ==> !after.sessions.contains_key(session@),
{
}

/// A launch is given up exactly where it is there: it is gone from the launch gate, nobody waits for
/// it, its UI's session is gone, and its pane is on the backlog.
pub proof fn law_an_abort_gives_the_launch_up(
    broker: BrokerModel,
    token: Seq<u8>,
    now: Instant,
    after: BrokerModel,
    r: Result<FailEffects, BrokerError>,
)
    requires
        broker.aborts(token, now, after, r),
    ensures
        ({
            let launch = broker.gate.pending[token];
            let known = broker.pending_sessions.contains_key(token)
                && broker.gate.pending.contains_key(token);
            &&& r is Ok <==> known
            &&& !known ==> r == Err::<FailEffects, BrokerError>(
                BrokerError::Gate(GateError::UnknownToken),
            )
            &&& !broker.pending_sessions.contains_key(token) ==> after == broker
            &&& known ==> {
                let session = broker.pending_sessions[token];
                &&& !after.gate.pending.contains_key(token)
                &&& !after.pending_sessions.contains_key(token)
                &&& !after.sessions.contains_key(session@)
                &&& !after.gate.sessions.contains_key(session@)
                &&& launch.registered_pane is Some && launch.registered_pane->Some_0.lease is Some
                    ==> after.cleanup.panes.contains_key(
                    launch.registered_pane->Some_0.lease->Some_0.id@,
                ) && r->Ok_0.pane != CleanupEffect::Nothing
                &&& launch.registered_pane is None ==> r->Ok_0.pane == CleanupEffect::Nothing
            }
        }),
{
}

/// A launcher that goes gives its launch up exactly where the placement is not committed.
pub proof fn law_a_launcher_takes_only_an_uncommitted_launch_along(
    broker: BrokerModel,
    token: Seq<u8>,
    now: Instant,
    after: BrokerModel,
    r: Result<Option<FailEffects>, BrokerError>,
)
    requires
        broker.launcher_leaves(token, now, after, r),
    ensures
        ({
            let launch = broker.gate.pending[token];
            let pending = broker.gate.pending.contains_key(token);
            &&& pending && launch.placement_committed ==> after == broker && r == Ok::<
                Option<FailEffects>,
                BrokerError,
            >(None)
            &&& !pending ==> r == Err::<Option<FailEffects>, BrokerError>(
                BrokerError::Gate(GateError::UnknownToken),
            ) && after.sessions == broker.sessions
            &&& pending && !launch.placement_committed && broker.pending_sessions.contains_key(token)
                ==> {
                &&& r is Ok && r->Ok_0 is Some
                &&& !after.gate.pending.contains_key(token)
                &&& !after.pending_sessions.contains_key(token)
                &&& !after.sessions.contains_key(broker.pending_sessions[token]@)
                &&& launch.registered_pane is Some && launch.registered_pane->Some_0.lease is Some
                    ==> after.cleanup.panes.contains_key(
                    launch.registered_pane->Some_0.lease->Some_0.id@,
                )
            }
        }),
{
}

/// A UI that goes before it was told takes down what is its own: its launch while that is pending, its
/// session once the launch is complete, with the pane on the backlog. Told UIs and strangers take
/// nothing down.
pub proof fn law_an_untold_ui_takes_its_own_along(
    broker: BrokerModel,
    token: Seq<u8>,
    session: UiSessionId,
    now: Instant,
    after: BrokerModel,
    r: Option<FailEffects>,
)
    requires
        broker.gated_ui_leaves(token, session, now, after, r),
    ensures
        ({
            let launch = broker.gate.pending[token];
            let pending = broker.pending_sessions.contains_key(token)
                && broker.pending_sessions[token]@ == session@ && broker.gate.pending.contains_key(
                token,
            ) && launch.attached_ui is Some && launch.attached_ui->Some_0@ == session@;
            let untold = broker.gated_sessions.contains_key(token)
                && broker.gated_sessions[token].session@ == session@;
            let pane = if pending {
                launch.registered_pane
            } else {
                broker.gated_sessions[token].registration
            };
            &&& r is Some <==> pending || untold
            &&& r is None ==> after == broker
            &&& pending ==> !after.gate.pending.contains_key(token)
                && !after.pending_sessions.contains_key(token)
            &&& !pending && untold ==> !after.gated_sessions.contains_key(token)
            &&& r is Some ==> !after.sessions.contains_key(session@) && (pane is Some
                && pane->Some_0.lease is Some ==> after.cleanup.panes.contains_key(
                pane->Some_0.lease->Some_0.id@,
            ))
        }),
{
}

/// A UI that was told is no longer untold, and the lease of its pane is handed out for the host to
/// forget; anyone else is told nothing.
pub proof fn law_a_told_ui_frees_its_lease(broker: BrokerModel, token: Seq<u8>, session: Seq<char>)
    ensures
        ({
            let (after, lease) = broker.confirm_gated_attachment(token, session);
            let untold = broker.gated_sessions.contains_key(token)
                && broker.gated_sessions[token].session@ == session;
            &&& untold ==> !after.gated_sessions.contains_key(token)
            &&& untold && broker.gated_sessions[token].registration is Some ==> lease
                == broker.gated_sessions[token].registration->Some_0.lease
            &&& untold && broker.gated_sessions[token].registration is None ==> lease is None
            &&& !untold ==> after == broker && lease is None
            &&& after == BrokerModel { gated_sessions: after.gated_sessions, ..broker }
        }),
{
}

/// A host that would not watch a pane ends the registration and nothing else, so that the launcher may
/// ask again: the same pane is then asked for once more.
pub proof fn law_a_failed_registration_may_be_tried_again(
    broker: BrokerModel,
    token: Seq<u8>,
    pane: HostPaneId,
    temporary_tab: Option<HostTabId>,
)
    ensures
        ({
            let failed = broker.register_failed(token);
            &&& !failed.registering.contains_key(token)
            &&& failed.gate == broker.gate && failed.pending_sessions == broker.pending_sessions
            &&& failed.sessions == broker.sessions && failed.cleanup == broker.cleanup
            &&& failed.executions == broker.executions
            &&& forall|other: Seq<u8>|
                other != token ==> (#[trigger] failed.registering.contains_key(other)
                    <==> broker.registering.contains_key(other))
        }),
        ({
            let (asked, step) = broker.register(token, pane, temporary_tab);
            step matches Ok(RegisterStep::Ask(_)) ==> asked.registering.contains_key(token)
                && asked.register_failed(token).register(token, pane, temporary_tab).1 == step
        }),
{
}

/// The pane of an attachment whose origin the host could not tell is put on the backlog with the host's
/// own words for it.
pub proof fn law_an_unknown_origin_is_noted(
    broker: BrokerModel,
    token: PendingLaunchToken,
    request: AttachUi,
    session: UiSessionId,
    error: AdapterError,
    now: Instant,
    limit: nat,
    after: BrokerModel,
    next: AttachNext,
)
    requires
        request.pending_launch == Some(token),
        broker.attaches(
            request,
            AttachStage::OriginFailed { session, error },
            now,
            limit,
            after,
            next,
        ),
        broker.gate.pending.contains_key(token@),
        broker.gate.pending[token@].registered_pane matches Some(registered) && registered.lease
            is Some && !broker.cleanup.panes.contains_key(registered.lease->Some_0.id@),
    ensures
        ({
            let registered = broker.gate.pending[token@].registered_pane->Some_0;
            let entry = after.cleanup.panes[registered.lease->Some_0.id@];
            &&& after.cleanup.panes.contains_key(registered.lease->Some_0.id@)
            &&& entry.session == session
            &&& entry.registration == registered
            &&& entry.primary matches Some(note) && is_truncation(error.message@, limit, note@)
        }),
{
}

} // verus!
