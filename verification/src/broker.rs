//! The broker's state and every transition of it: launches, sessions, executions and cleanups
//! under one lock. A transition that needs the host says what to ask, and goes on with the answer.
pub mod attach;
pub mod child;
pub mod drain;
pub mod endings;
pub mod invoke;
pub mod launches;
pub mod laws;
pub mod lifecycle;
pub mod preparation;
pub mod promises;
pub mod reasons;
pub mod stand;
pub mod work;

use crate::cleanup::{
    is_bounded_event, CaptureTaskAction, CleanupEffect, CleanupModel, CleanupRegistry,
    CleanupTaskKey, PaneTaskAction, TaskEvent, LONGEST_DELAY_NANOS,
};
use crate::execution::{ExecutionModel, ExecutionRegistry, FailedWait, SessionExit};
use crate::gate::{
    clone_registered, GateError, GateModel, LaunchGate, PendingLaunch, PreparedLaunch,
    RegisteredPane, ScopeOwner, TokenSource,
};
use crate::host::{clone_option, CaptureLease, PendingPaneLease, PendingPaneRegistration};
use crate::ids::{
    CaptureLeaseId, CoreExecutionId, HostPaneId, HostTabId, ModalScopeId, PendingLaunchToken,
    PendingPaneLeaseId, UiSessionId,
};
use crate::menu::MenuId;
use crate::protocol::{AdapterError, BrokerError, CaptureReleaseReason};
use crate::table::{
    enumerates, is_some_of, lemma_enumerates_push, lists, lookup, opt_view, views, Key, Table,
};
use crate::text::{decimal, decimal_text};
use crate::time::{Duration, Instant};
use vstd::prelude::*;
use vstd::string::StringExecFns;

verus! {

/// An attached UI.
#[derive(Debug, PartialEq, Eq)]
pub struct SessionRecord {
    pub root: MenuId,
    pub scope: ModalScopeId,
    pub ui_pane: HostPaneId,
    pub capture: Option<CaptureLease>,
}

/// A session whose launch is complete, until its UI has been told. The pane stays known here, so
/// that it can be closed where the UI goes before that.
#[derive(Debug, PartialEq, Eq)]
pub struct GatedSession {
    pub session: UiSessionId,
    pub registration: Option<RegisteredPane>,
}

/// What a detached session leaves to be done.
#[derive(Debug, PartialEq, Eq)]
pub struct DetachEffects {
    /// The session's record; its UI is told that the session is over.
    pub record: Option<SessionRecord>,
    pub exit: SessionExit,
    pub cleanup: Vec<CleanupEffect>,
}

/// A fresh launch, and whom its coming displaces.
#[derive(Debug, PartialEq, Eq)]
pub struct Minted {
    pub token: PendingLaunchToken,
    pub lease_millis: u32,
    /// The launch that gives way, with its session: it fails.
    pub displaced_launch: Option<(PendingLaunch, UiSessionId)>,
    /// The session that gives way: it is detached.
    pub displaced_session: Option<UiSessionId>,
}

/// A fresh launch, and what those whom it displaced leave to be done.
#[derive(Debug, PartialEq, Eq)]
pub struct Prepared {
    pub token: PendingLaunchToken,
    pub lease_millis: u32,
    /// What the launch leaves that gave way.
    pub displaced_launch: Option<FailEffects>,
    /// What the session leaves that gave way.
    pub displaced_session: Option<DetachEffects>,
}

/// What comes of a pane that a launcher registers.
#[derive(Debug, PartialEq, Eq)]
pub enum RegisterStep {
    /// The host already watches the pane.
    Leased,
    /// The host is asked to watch the pane.
    Ask(PendingPaneRegistration),
}

/// What a failed launch or session leaves to be done.
#[derive(Debug, PartialEq, Eq)]
pub struct FailEffects {
    pub detached: DetachEffects,
    pub pane: CleanupEffect,
}

/// What the loss of one scope leaves to be done.
#[derive(Debug, PartialEq, Eq)]
pub struct ScopeLoss {
    /// The sessions in the scope; their UIs are told that the host is gone.
    pub sessions: Vec<UiSessionId>,
    /// The executions whose UIs are told that they failed.
    pub failed: Vec<FailedWait>,
    pub detached: Vec<DetachEffects>,
    /// The launches in the scope.
    pub launches: Vec<PendingLaunchToken>,
    pub aborted: Vec<Option<FailEffects>>,
}

/// What the broker holds.
#[verifier::ext_equal]
pub struct BrokerModel {
    pub gate: GateModel,
    /// The launches whose pane the host is being asked to watch.
    pub registering: Map<Seq<u8>, ()>,
    /// The session that each pending launch will have.
    pub pending_sessions: Map<Seq<u8>, UiSessionId>,
    pub gated_sessions: Map<Seq<u8>, GatedSession>,
    pub cleanup: CleanupModel,
    pub executions: ExecutionModel,
    pub sessions: Map<Seq<char>, SessionRecord>,
    /// The executions that have a supervised child.
    pub processes: Map<u64, ()>,
    pub next_session: u64,
    pub next_execution: u64,
    pub next_event: u64,
}

/// The counter after this one.
pub open spec fn counter_after(counter: u64) -> u64 {
    if counter == u64::MAX {
        0
    } else {
        (counter + 1) as u64
    }
}

/// The name of the session with this number.
pub open spec fn session_name(number: u64) -> Seq<char> {
    "ui-"@ + decimal(number as nat)
}

/// Puts the panes of the tokens' owners on the backlog, one after the other.
pub open spec fn enqueue_gated(
    backlog: CleanupModel,
    tokens: Seq<Seq<u8>>,
    gated: Map<Seq<u8>, GatedSession>,
    session: UiSessionId,
    now: Instant,
) -> (CleanupModel, Seq<CleanupEffect>)
    decreases tokens.len(),
{
    if tokens.len() == 0 {
        (backlog, Seq::empty())
    } else {
        let (before, effects) = enqueue_gated(backlog, tokens.drop_last(), gated, session, now);
        match gated[tokens.last()].registration {
            None => (before, effects),
            Some(registration) => {
                let (after, effect) = before.enqueue_pane(session, registration, None, now, false);
                (after, effects.push(effect))
            },
        }
    }
}

impl BrokerModel {
    pub open spec fn empty() -> Self {
        BrokerModel {
            gate: GateModel::empty(),
            registering: Map::empty(),
            pending_sessions: Map::empty(),
            gated_sessions: Map::empty(),
            cleanup: CleanupModel::empty(),
            executions: ExecutionModel::empty(),
            sessions: Map::empty(),
            processes: Map::empty(),
            next_session: 1,
            next_execution: 1,
            next_event: 1,
        }
    }

    /// The tokens under which a session is still to be told of its readiness.
    pub open spec fn gated_tokens(self, session: Seq<char>) -> Set<Seq<u8>> {
        Set::new(
            |token: Seq<u8>|
                self.gated_sessions.contains_key(token) && self.gated_sessions[token].session@
                    == session,
        )
    }

    /// A session's capture, if it has one, goes on the backlog.
    pub open spec fn release_capture(
        self,
        session: Seq<char>,
        reason: CaptureReleaseReason,
        now: Instant,
    ) -> (CleanupModel, Seq<CleanupEffect>) {
        match lookup(self.sessions, session) {
            Some(record) => match record.capture {
                Some(capture) => {
                    let (after, effect) = self.cleanup.enqueue_capture(
                        capture,
                        reason,
                        None,
                        now,
                        false,
                    );
                    (after, seq![effect])
                },
                None => (self.cleanup, Seq::empty()),
            },
            None => (self.cleanup, Seq::empty()),
        }
    }

    /// A session leaves everything that it was in. What is to be cleaned up goes on the backlog
    /// in the same breath: its capture, and the panes of the launches that it was not told of,
    /// taken in the order of `tokens`.
    pub open spec fn detached(
        self,
        session: UiSessionId,
        reason: CaptureReleaseReason,
        now: Instant,
        tokens: Seq<Seq<u8>>,
    ) -> (Self, Seq<CleanupEffect>) {
        let (captured, first) = self.release_capture(session@, reason, now);
        let (cleanup, rest) = enqueue_gated(captured, tokens, self.gated_sessions, session, now);
        (
            BrokerModel {
                gate: self.gate.detach(session@).0,
                gated_sessions: self.gated_sessions.remove_keys(self.gated_tokens(session@)),
                cleanup,
                executions: self.executions.detach_session(session@),
                sessions: self.sessions.remove(session@),
                ..self
            },
            first + rest,
        )
    }

    /// `after` and `effects` are what detaching a session leads to.
    pub open spec fn detaches(
        self,
        session: UiSessionId,
        reason: CaptureReleaseReason,
        now: Instant,
        after: Self,
        effects: DetachEffects,
    ) -> bool {
        &&& exists|tokens: Seq<Seq<u8>>|
            {
                &&& #[trigger] enumerates(tokens, self.gated_tokens(session@))
                &&& (after, effects.cleanup@) == self.detached(session, reason, now, tokens)
            }
        &&& effects.record == lookup(self.sessions, session@)
        &&& enumerates(
            views(effects.exit.cancel@),
            self.executions.cancelled_by_exit(session@),
        )
        &&& enumerates(
            views(effects.exit.deferred@),
            self.executions.deferred_by_exit(session@),
        )
    }

    /// A launch is minted for a known menu, unless admission is closed. `fresh` is the session
    /// that it will have.
    pub open spec fn mint(
        self,
        menu_known: bool,
        drawn: Result<PendingLaunchToken, GateError>,
        scope: ModalScopeId,
        root: MenuId,
        lease_millis: u32,
        now: Instant,
        fresh: UiSessionId,
    ) -> (Self, Result<Minted, BrokerError>) {
        if !menu_known {
            (self, Err(BrokerError::UnknownMenu(root)))
        } else if self.executions.sealed {
            (self, Err(BrokerError::ActivationInProgress))
        } else {
            match self.gate.prepare(
                drawn,
                scope,
                root,
                now,
                Duration::of_millis(lease_millis as u64),
            ) {
                (gate, Err(error)) => (BrokerModel { gate, ..self }, Err(BrokerError::Gate(error))),
                (gate, Ok(prepared)) => {
                    let (kept, displaced_launch) = match prepared.replaced_pending {
                        None => (self.pending_sessions, None),
                        Some(launch) => (
                            self.pending_sessions.remove(launch.token@),
                            match lookup(self.pending_sessions, launch.token@) {
                                Some(session) => Some((launch, session)),
                                None => None,
                            },
                        ),
                    };
                    (
                        BrokerModel {
                            gate,
                            pending_sessions: kept.insert(prepared.pending.token@, fresh),
                            next_session: counter_after(self.next_session),
                            ..self
                        },
                        Ok(
                            Minted {
                                token: prepared.pending.token,
                                lease_millis,
                                displaced_launch,
                                displaced_session: match prepared.replaced {
                                    Some(ScopeOwner::Ready(session)) => Some(session),
                                    _ => None,
                                },
                            },
                        ),
                    )
                },
            }
        }
    }

    /// The request for a launch is refused before a token is drawn for it.
    pub open spec fn draws_no_token(self, menu_known: bool, lease_millis: u32) -> bool {
        !menu_known || self.executions.sealed || lease_millis == 0
    }

    /// `after` and `effects` are what the giving way of a launch leads to.
    pub open spec fn displaces_launch(
        self,
        displaced: Option<(PendingLaunch, UiSessionId)>,
        now: Instant,
        after: Self,
        effects: Option<FailEffects>,
    ) -> bool {
        match displaced {
            None => after == self && effects is None,
            Some((launch, session)) => effects matches Some(effects) && self.fails(
                session,
                launch.registered_pane,
                CaptureReleaseReason::Replaced,
                now,
                after,
                effects,
            ),
        }
    }

    /// `after` and `effects` are what the giving way of a session leads to.
    pub open spec fn displaces_session(
        self,
        displaced: Option<UiSessionId>,
        now: Instant,
        after: Self,
        effects: Option<DetachEffects>,
    ) -> bool {
        match displaced {
            None => after == self && effects is None,
            Some(session) => effects matches Some(effects) && self.detaches(
                session,
                CaptureReleaseReason::Replaced,
                now,
                after,
                effects,
            ),
        }
    }

    /// `after` and `r` are what comes of a launch that was minted, or refused: whom it displaces
    /// goes, the launch first.
    pub open spec fn displaces(
        self,
        minted: Result<Minted, BrokerError>,
        now: Instant,
        after: Self,
        r: Result<Prepared, BrokerError>,
    ) -> bool {
        match minted {
            Err(error) => after == self && r == Err::<Prepared, BrokerError>(error),
            Ok(minted) => {
                &&& r matches Ok(prepared)
                &&& prepared.token == minted.token
                &&& prepared.lease_millis == minted.lease_millis
                &&& exists|between: Self|
                    {
                        &&& #[trigger] self.displaces_launch(
                            minted.displaced_launch,
                            now,
                            between,
                            prepared.displaced_launch,
                        )
                        &&& between.displaces_session(
                            minted.displaced_session,
                            now,
                            after,
                            prepared.displaced_session,
                        )
                    }
            },
        }
    }

    /// `after` and `r` are what preparing a launch leads to.
    pub open spec fn prepares(
        self,
        menu_known: bool,
        drawn: Result<PendingLaunchToken, GateError>,
        scope: ModalScopeId,
        root: MenuId,
        lease_millis: u32,
        now: Instant,
        after: Self,
        r: Result<Prepared, BrokerError>,
    ) -> bool {
        exists|fresh: UiSessionId|
            {
                let (minted, launch) = #[trigger] self.mint(
                    menu_known,
                    drawn,
                    scope,
                    root,
                    lease_millis,
                    now,
                    fresh,
                );
                &&& fresh@ == session_name(self.next_session)
                &&& minted.displaces(launch, now, after, r)
            }
    }

    /// A pane goes on the backlog, where there is one.
    pub open spec fn close_pane(
        self,
        session: UiSessionId,
        registration: Option<RegisteredPane>,
        primary: Option<String>,
        now: Instant,
    ) -> (Self, CleanupEffect) {
        match registration {
            None => (self, CleanupEffect::Nothing),
            Some(registration) => {
                let (cleanup, effect) = self.cleanup.enqueue_pane(
                    session,
                    registration,
                    primary,
                    now,
                    false,
                );
                (BrokerModel { cleanup, ..self }, effect)
            },
        }
    }

    /// `after` and `effects` are what detaching a session and closing its pane leads to.
    pub open spec fn fails(
        self,
        session: UiSessionId,
        registration: Option<RegisteredPane>,
        reason: CaptureReleaseReason,
        now: Instant,
        after: Self,
        effects: FailEffects,
    ) -> bool {
        exists|detached: Self| #[trigger]
            self.detaches(session, reason, now, detached, effects.detached) && (
                after,
                effects.pane,
            ) == detached.close_pane(session, registration, None, now)
    }

    /// A launcher names the pane of its launch.
    pub open spec fn register(
        self,
        token: Seq<u8>,
        pane: HostPaneId,
        temporary_tab: Option<HostTabId>,
    ) -> (Self, Result<RegisterStep, BrokerError>) {
        if self.executions.sealed {
            (self, Err(BrokerError::ActivationInProgress))
        } else {
            match lookup(self.pending_sessions, token) {
                None => (self, Err(BrokerError::Gate(GateError::UnknownToken))),
                Some(session) => match self.gate.register_pending_pane(
                    token,
                    RegisteredPane { pane, temporary_tab, lease: None },
                ) {
                    (gate, Err(error)) => (
                        BrokerModel { gate, ..self },
                        Err(BrokerError::Gate(error)),
                    ),
                    (gate, Ok(())) => {
                        let leased = gate.registered_pane(token) matches Ok(Some(registered))
                            && registered.lease is Some;
                        if leased {
                            (BrokerModel { gate, ..self }, Ok(RegisterStep::Leased))
                        } else if self.registering.contains_key(token) {
                            (
                                BrokerModel { gate, ..self },
                                Err(BrokerError::Gate(GateError::RegistrationInProgress)),
                            )
                        } else {
                            (
                                BrokerModel {
                                    gate,
                                    registering: self.registering.insert(token, ()),
                                    ..self
                                },
                                Ok(
                                    RegisterStep::Ask(
                                        PendingPaneRegistration {
                                            ui_session: session,
                                            pane,
                                            temporary_tab,
                                        },
                                    ),
                                ),
                            )
                        }
                    },
                },
            }
        }
    }

    /// The host would not watch the pane.
    pub open spec fn register_failed(self, token: Seq<u8>) -> Self {
        BrokerModel { registering: self.registering.remove(token), ..self }
    }

    /// The launch still has the pane that the host was asked to watch.
    pub open spec fn registration_is_current(
        self,
        token: Seq<u8>,
        registration: PendingPaneRegistration,
    ) -> bool {
        &&& !self.executions.sealed
        &&& self.pending_sessions.contains_key(token)
        &&& self.gate.registered_pane(token) matches Ok(Some(registered)) && registered.pane@
            == registration.pane@ && opt_view(registered.temporary_tab) == opt_view(
            registration.temporary_tab,
        )
    }

    /// The host watches the pane under a lease. Where the launch is gone meanwhile, the pane goes
    /// on the backlog.
    pub open spec fn register_leased(
        self,
        token: Seq<u8>,
        registration: PendingPaneRegistration,
        lease: PendingPaneLease,
        now: Instant,
    ) -> (Self, Result<(), BrokerError>, CleanupEffect) {
        let done = BrokerModel { registering: self.registering.remove(token), ..self };
        if self.registration_is_current(token, registration) {
            match self.gate.bind_pending_lease(token, lease) {
                (gate, Ok(())) => (BrokerModel { gate, ..done }, Ok(()), CleanupEffect::Nothing),
                (gate, Err(error)) => (
                    BrokerModel { gate, ..done },
                    Err(BrokerError::Gate(error)),
                    CleanupEffect::Nothing,
                ),
            }
        } else {
            let retained = RegisteredPane {
                pane: registration.pane,
                temporary_tab: registration.temporary_tab,
                lease: Some(lease),
            };
            let (after, effect) = done.close_pane(
                registration.ui_session,
                Some(retained),
                None,
                now,
            );
            (after, Err(BrokerError::Gate(GateError::UnknownToken)), effect)
        }
    }

    /// A complete launch waits for its UI to be told.
    pub open spec fn gated(
        self,
        token: Seq<u8>,
        session: UiSessionId,
        registration: Option<RegisteredPane>,
    ) -> Self {
        BrokerModel {
            pending_sessions: self.pending_sessions.remove(token),
            gated_sessions: self.gated_sessions.insert(
                token,
                GatedSession { session, registration },
            ),
            ..self
        }
    }

    /// The pane registered for a pending launch.
    pub open spec fn pane_of(self, token: Seq<u8>) -> Option<RegisteredPane> {
        match lookup(self.gate.pending, token) {
            Some(launch) => launch.registered_pane,
            None => None,
        }
    }

    /// A launcher commits its placement.
    pub open spec fn commit(self, token: Seq<u8>, pane: Seq<char>) -> (
        Self,
        Result<Option<UiSessionId>, BrokerError>,
    ) {
        match self.gate.commit(token, pane) {
            (gate, Err(error)) => (BrokerModel { gate, ..self }, Err(BrokerError::Gate(error))),
            (gate, Ok(None)) => (BrokerModel { gate, ..self }, Ok(None)),
            (gate, Ok(Some(session))) => (
                BrokerModel { gate, ..self }.gated(token, session, self.pane_of(token)),
                Ok(Some(session)),
            ),
        }
    }

    /// `after` and `r` are what aborting a launch leads to.
    pub open spec fn aborts(
        self,
        token: Seq<u8>,
        now: Instant,
        after: Self,
        r: Result<FailEffects, BrokerError>,
    ) -> bool {
        match lookup(self.pending_sessions, token) {
            None => after == self && r == Err::<FailEffects, BrokerError>(
                BrokerError::Gate(GateError::UnknownToken),
            ),
            Some(session) => {
                let (gate, aborted) = self.gate.abort(token);
                let left = BrokerModel {
                    gate,
                    pending_sessions: self.pending_sessions.remove(token),
                    ..self
                };
                match aborted {
                    Err(error) => after == left && r == Err::<FailEffects, BrokerError>(
                        BrokerError::Gate(error),
                    ),
                    Ok(registration) => r matches Ok(effects) && left.fails(
                        session,
                        registration,
                        CaptureReleaseReason::UiDismissed,
                        now,
                        after,
                        effects,
                    ),
                }
            },
        }
    }

    /// `after` and `r` are what the going of a launcher leads to: its launch is aborted, unless
    /// the placement is committed.
    pub open spec fn launcher_leaves(
        self,
        token: Seq<u8>,
        now: Instant,
        after: Self,
        r: Result<Option<FailEffects>, BrokerError>,
    ) -> bool {
        if self.gate.placement_committed(token) {
            after == self && r == Ok::<Option<FailEffects>, BrokerError>(None)
        } else {
            let (gate, aborted) = self.gate.abort_if_uncommitted(token);
            let left = BrokerModel { gate, ..self };
            match (aborted, lookup(self.pending_sessions, token)) {
                (Err(error), _) => after == left && r == Err::<Option<FailEffects>, BrokerError>(
                    BrokerError::Gate(error),
                ),
                (Ok(_), None) => after == left && r == Err::<Option<FailEffects>, BrokerError>(
                    BrokerError::Gate(GateError::UnknownToken),
                ),
                (Ok(registration), Some(session)) => {
                    &&& r matches Ok(Some(effects))
                    &&& BrokerModel {
                        pending_sessions: self.pending_sessions.remove(token),
                        ..left
                    }.fails(
                        session,
                        registration,
                        CaptureReleaseReason::UiDismissed,
                        now,
                        after,
                        effects,
                    )
                },
            }
        }
    }

    /// The launch of a token is pending for this session.
    pub open spec fn is_pending_for(self, token: Seq<u8>, session: Seq<char>) -> bool {
        &&& opt_view(lookup(self.pending_sessions, token)) == Some(session)
        &&& lookup(self.gate.pending, token) matches Some(launch) && opt_view(launch.attached_ui)
            == Some(session)
    }

    /// The launch of a token is complete for this session, whose UI is still to be told.
    pub open spec fn is_gated_for(self, token: Seq<u8>, session: Seq<char>) -> bool {
        lookup(self.gated_sessions, token) matches Some(owner) && owner.session@ == session
    }

    /// `after` and `r` are what the going of a UI leads to that was not told of its readiness.
    /// Exactly one of the launch and the session is taken down; a pair that does not belong
    /// together touches nothing.
    pub open spec fn gated_ui_leaves(
        self,
        token: Seq<u8>,
        session: UiSessionId,
        now: Instant,
        after: Self,
        r: Option<FailEffects>,
    ) -> bool {
        if self.is_pending_for(token, session@) {
            let (gate, aborted) = self.gate.abort(token);
            &&& r matches Some(effects)
            &&& BrokerModel {
                gate,
                pending_sessions: self.pending_sessions.remove(token),
                ..self
            }.fails(
                session,
                self.pane_of(token),
                CaptureReleaseReason::UiDismissed,
                now,
                after,
                effects,
            )
        } else if self.is_gated_for(token, session@) {
            &&& r matches Some(effects)
            &&& BrokerModel {
                gated_sessions: self.gated_sessions.remove(token),
                ..self
            }.fails(
                session,
                self.gated_sessions[token].registration,
                CaptureReleaseReason::UiDismissed,
                now,
                after,
                effects,
            )
        } else {
            after == self && r is None
        }
    }

    /// A UI was told of its readiness: the host may forget the pane's lease.
    pub open spec fn confirm_gated_attachment(self, token: Seq<u8>, session: Seq<char>) -> (
        Self,
        Option<PendingPaneLease>,
    ) {
        if self.is_gated_for(token, session) {
            (
                BrokerModel { gated_sessions: self.gated_sessions.remove(token), ..self },
                match self.gated_sessions[token].registration {
                    Some(registration) => registration.lease,
                    None => None,
                },
            )
        } else {
            (self, None)
        }
    }

    /// The launches that have a session, each with it; the sessions are taken.
    pub open spec fn take_sessions(self, launches: Seq<PendingLaunch>) -> (
        Self,
        Seq<(PendingLaunch, UiSessionId)>,
    )
        decreases launches.len(),
    {
        if launches.len() == 0 {
            (self, Seq::empty())
        } else {
            let (before, pairs) = self.take_sessions(launches.drop_last());
            let launch = launches.last();
            let after = BrokerModel {
                pending_sessions: before.pending_sessions.remove(launch.token@),
                ..before
            };
            match lookup(before.pending_sessions, launch.token@) {
                Some(session) => (after, pairs.push((launch, session))),
                None => (after, pairs),
            }
        }
    }

    /// `after` and `effects` are what failing launches one after the other leads to.
    pub open spec fn fails_all(
        self,
        pairs: Seq<(PendingLaunch, UiSessionId)>,
        reason: CaptureReleaseReason,
        now: Instant,
        after: Self,
        effects: Seq<FailEffects>,
    ) -> bool
        decreases pairs.len(),
    {
        if pairs.len() == 0 {
            after == self && effects.len() == 0
        } else {
            &&& effects.len() == pairs.len()
            &&& exists|between: Self|
                {
                    &&& self.fails_all(
                        pairs.drop_last(),
                        reason,
                        now,
                        between,
                        effects.drop_last(),
                    )
                    &&& #[trigger] between.fails(
                        pairs.last().1,
                        pairs.last().0.registered_pane,
                        reason,
                        now,
                        after,
                        effects.last(),
                    )
                }
        }
    }

    /// `after` and `effects` are what the expiry of launches leads to.
    pub open spec fn expires(self, now: Instant, after: Self, effects: Seq<FailEffects>) -> bool {
        exists|launches: Seq<PendingLaunch>|
            {
                let left = BrokerModel {
                    gate: self.gate.without_launches(self.gate.expired(now)),
                    ..self
                };
                let (taken, pairs) = left.take_sessions(launches);
                &&& #[trigger] lists(launches, self.gate.expired(now))
                &&& taken.fails_all(pairs, CaptureReleaseReason::LeaseExpired, now, after, effects)
            }
    }

    /// The sessions in a scope.
    pub open spec fn sessions_in_scope(self, scope: Seq<char>) -> Set<Seq<char>> {
        Set::new(
            |session: Seq<char>|
                self.sessions.contains_key(session) && self.sessions[session].scope@ == scope,
        )
    }

    /// `after` and `effects` are what detaching sessions one after the other leads to.
    pub open spec fn detaches_all(
        self,
        sessions: Seq<UiSessionId>,
        reason: CaptureReleaseReason,
        now: Instant,
        after: Self,
        effects: Seq<DetachEffects>,
    ) -> bool
        decreases sessions.len(),
    {
        if sessions.len() == 0 {
            after == self && effects.len() == 0
        } else {
            &&& effects.len() == sessions.len()
            &&& exists|between: Self|
                {
                    &&& self.detaches_all(
                        sessions.drop_last(),
                        reason,
                        now,
                        between,
                        effects.drop_last(),
                    )
                    &&& #[trigger] between.detaches(
                        sessions.last(),
                        reason,
                        now,
                        after,
                        effects.last(),
                    )
                }
        }
    }

    /// `after` and `effects` are what the loss of the scope of a launch leads to: the launch is
    /// aborted, and its session, if it has one, fails.
    pub open spec fn loses_launch(
        self,
        token: Seq<u8>,
        now: Instant,
        after: Self,
        effects: Option<FailEffects>,
    ) -> bool {
        let left = BrokerModel {
            gate: self.gate.abort(token).0,
            pending_sessions: self.pending_sessions.remove(token),
            ..self
        };
        match lookup(self.pending_sessions, token) {
            None => after == left && effects is None,
            Some(session) => effects matches Some(effects) && left.fails(
                session,
                self.pane_of(token),
                CaptureReleaseReason::LeaseExpired,
                now,
                after,
                effects,
            ),
        }
    }

    /// `after` and `effects` are what the loss of launches leads to, one after the other.
    pub open spec fn loses_launches(
        self,
        tokens: Seq<PendingLaunchToken>,
        now: Instant,
        after: Self,
        effects: Seq<Option<FailEffects>>,
    ) -> bool
        decreases tokens.len(),
    {
        if tokens.len() == 0 {
            after == self && effects.len() == 0
        } else {
            &&& effects.len() == tokens.len()
            &&& exists|between: Self|
                {
                    &&& self.loses_launches(tokens.drop_last(), now, between, effects.drop_last())
                    &&& #[trigger] between.loses_launch(tokens.last()@, now, after, effects.last())
                }
        }
    }

    /// `after` and `loss` are what the loss of one scope leads to. `detached` and `aborted` are
    /// the states once its sessions are detached and once its launches are aborted.
    pub open spec fn loses_scope_through(
        self,
        scope: Seq<char>,
        now: Instant,
        detached: Self,
        aborted: Self,
        after: Self,
        loss: ScopeLoss,
    ) -> bool {
        &&& enumerates(views(loss.sessions@), self.sessions_in_scope(scope))
        &&& enumerates(
            views(loss.failed@),
            self.executions.failing(self.sessions_in_scope(scope)),
        )
        &&& forall|i: int|
            0 <= i < loss.failed@.len() ==> self.executions.is_about(#[trigger] loss.failed@[i])
        &&& self.detaches_all(
            loss.sessions@,
            CaptureReleaseReason::LeaseExpired,
            now,
            detached,
            loss.detached@,
        )
        &&& enumerates(views(loss.launches@), detached.gate.tokens_in_scope(scope))
        &&& detached.loses_launches(loss.launches@, now, aborted, loss.aborted@)
        &&& after == BrokerModel { gate: aborted.gate.release_dangling_owner(scope), ..aborted }
    }

    /// `after` and `loss` are what the loss of one scope leads to.
    pub open spec fn loses_scope(
        self,
        scope: Seq<char>,
        now: Instant,
        after: Self,
        loss: ScopeLoss,
    ) -> bool {
        exists|detached: Self, aborted: Self| #[trigger]
            self.loses_scope_through(scope, now, detached, aborted, after, loss)
    }
}

/// The broker's state.
pub struct Broker {
    gate: LaunchGate,
    registering: Table<PendingLaunchToken, ()>,
    pending_sessions: Table<PendingLaunchToken, UiSessionId>,
    gated_sessions: Table<PendingLaunchToken, GatedSession>,
    cleanup: CleanupRegistry,
    executions: ExecutionRegistry,
    sessions: Table<UiSessionId, SessionRecord>,
    processes: Table<CoreExecutionId, ()>,
    next_session: u64,
    next_execution: u64,
    next_event: u64,
}

impl View for Broker {
    type V = BrokerModel;

    closed spec fn view(&self) -> BrokerModel {
        BrokerModel {
            gate: self.gate@,
            registering: self.registering@,
            pending_sessions: self.pending_sessions@,
            gated_sessions: self.gated_sessions@,
            cleanup: self.cleanup@,
            executions: self.executions@,
            sessions: self.sessions@,
            processes: self.processes@,
            next_session: self.next_session,
            next_execution: self.next_execution,
            next_event: self.next_event,
        }
    }
}

proof fn lemma_fails_all_length(
    start: BrokerModel,
    pairs: Seq<(PendingLaunch, UiSessionId)>,
    reason: CaptureReleaseReason,
    now: Instant,
    after: BrokerModel,
    effects: Seq<FailEffects>,
)
    requires
        start.fails_all(pairs, reason, now, after, effects),
    ensures
        effects.len() == pairs.len(),
{
}

/// The counter after this one.
fn next_counter(counter: u64) -> (r: u64)
    ensures
        r == counter_after(counter),
{
    if counter == u64::MAX {
        0
    } else {
        counter + 1
    }
}

impl Broker {
    pub fn new() -> (r: Self)
        ensures
            r@ == BrokerModel::empty(),
    {
        Broker {
            gate: LaunchGate::default(),
            registering: Table::new(),
            pending_sessions: Table::new(),
            gated_sessions: Table::new(),
            cleanup: CleanupRegistry::new(),
            executions: ExecutionRegistry::new(),
            sessions: Table::new(),
            processes: Table::new(),
            next_session: 1,
            next_execution: 1,
            next_event: 1,
        }
    }

    /// The session with this number.
    fn session_id(&self, number: u64) -> (r: UiSessionId)
        ensures
            r@ == session_name(number),
    {
        let digits = decimal_text(number);
        UiSessionId::from_string("ui-".to_owned().concat(digits.as_str()))
    }

    /// Takes the owners of the tokens under which a session is still to be told of its readiness.
    fn take_gated(&mut self, session: &UiSessionId) -> (r: Vec<GatedSession>)
        ensures
            final(self)@ == (BrokerModel {
                gated_sessions: old(self)@.gated_sessions.remove_keys(
                    old(self)@.gated_tokens(session@),
                ),
                ..old(self)@
            }),
            exists|tokens: Seq<Seq<u8>>|
                {
                    &&& #[trigger] enumerates(tokens, old(self)@.gated_tokens(session@))
                    &&& r@ == tokens.map_values(|token: Seq<u8>| old(self)@.gated_sessions[token])
                },
    {
        let ghost before = self@;
        let ghost wanted = before.gated_tokens(session@);
        let keys = self.gated_sessions.keys();
        let mut taken: Vec<GatedSession> = Vec::new();
        let ghost mut seen: Set<Seq<u8>> = Set::empty();
        let ghost mut tokens: Seq<Seq<u8>> = Seq::empty();
        let mut i: usize = 0;
        assert(before.gated_sessions.remove_keys(seen.intersect(wanted)) =~= before.gated_sessions);
        assert(taken@ =~= tokens.map_values(|token: Seq<u8>| before.gated_sessions[token]));
        while i < keys.len()
            invariant
                i <= keys.len(),
                wanted == before.gated_tokens(session@),
                enumerates(views(keys@), before.gated_sessions.dom()),
                forall|token: Seq<u8>| #[trigger]
                    seen.contains(token) <==> exists|j: int|
                        0 <= j < i && #[trigger] views(keys@)[j] == token,
                enumerates(tokens, seen.intersect(wanted)),
                taken@ == tokens.map_values(|token: Seq<u8>| before.gated_sessions[token]),
                self@ == (BrokerModel {
                    gated_sessions: before.gated_sessions.remove_keys(seen.intersect(wanted)),
                    ..before
                }),
            decreases keys.len() - i,
        {
            let ghost key = keys@[i as int]@;
            assert(views(keys@)[i as int] == key);
            assert(views(keys@).contains(key));
            assert(!seen.contains(key));
            let matches = match self.gated_sessions.get(&keys[i]) {
                Some(owner) => owner.session.same(session),
                None => false,
            };
            if matches {
                if let Some(owner) = self.gated_sessions.remove(&keys[i]) {
                    proof {
                        lemma_enumerates_push(tokens, seen.intersect(wanted), key);
                        assert(seen.insert(key).intersect(wanted) =~= seen.intersect(wanted).insert(
                            key,
                        ));
                        let longer = tokens.push(key);
                        assert(longer.map_values(|token: Seq<u8>| before.gated_sessions[token])
                            =~= taken@.push(owner));
                        tokens = longer;
                    }
                    taken.push(owner);
                    assert(self@.gated_sessions =~= before.gated_sessions.remove_keys(
                        seen.insert(key).intersect(wanted),
                    ));
                }
            } else {
                assert(seen.insert(key).intersect(wanted) =~= seen.intersect(wanted));
            }
            proof {
                seen = seen.insert(key);
            }
            i += 1;
        }
        proof {
            assert forall|token: Seq<u8>| #[trigger] wanted.contains(token) implies seen.contains(
                token,
            ) by {
                assert(views(keys@).contains(token));
                let j = views(keys@).index_of(token);
                assert(views(keys@)[j] == token);
            }
            assert(seen.intersect(wanted) =~= wanted);
        }
        taken
    }

    /// Detaches a session from everything that it is in.
    pub fn detach(
        &mut self,
        session: &UiSessionId,
        reason: CaptureReleaseReason,
        now: Instant,
    ) -> (r: DetachEffects)
        ensures
            old(self)@.detaches(*session, reason, now, final(self)@, r),
    {
        let ghost before = self@;
        let record = self.sessions.remove(session);
        self.gate.detach(session);
        let owners = self.take_gated(session);
        let ghost tokens = choose|tokens: Seq<Seq<u8>>|
            {
                &&& #[trigger] enumerates(tokens, before.gated_tokens(session@))
                &&& owners@ == tokens.map_values(|token: Seq<u8>| before.gated_sessions[token])
            };
        let mut cleanup: Vec<CleanupEffect> = Vec::new();
        if let Some(record) = &record {
            if let Some(capture) = &record.capture {
                let effect = self.cleanup.enqueue_capture(capture, reason, None, now, false);
                cleanup.push(effect);
            }
        }
        let ghost (captured, first) = before.release_capture(session@, reason, now);
        assert(cleanup@ =~= first);
        let ghost after_capture = self@;
        let mut i: usize = 0;
        assert(tokens.take(0) =~= Seq::empty());
        while i < owners.len()
            invariant
                i <= owners.len(),
                owners@ == tokens.map_values(|token: Seq<u8>| before.gated_sessions[token]),
                self@ == (BrokerModel {
                    cleanup: enqueue_gated(
                        captured,
                        tokens.take(i as int),
                        before.gated_sessions,
                        *session,
                        now,
                    ).0,
                    ..after_capture
                }),
                cleanup@ == first + enqueue_gated(
                    captured,
                    tokens.take(i as int),
                    before.gated_sessions,
                    *session,
                    now,
                ).1,
            decreases owners.len() - i,
        {
            assert(tokens.take(i + 1).drop_last() =~= tokens.take(i as int));
            if let Some(registration) = &owners[i].registration {
                let effect = self.cleanup.enqueue_pane(session, registration, None, now, false);
                cleanup.push(effect);
            }
            i += 1;
        }
        assert(tokens.take(i as int) =~= tokens);
        let exit = self.executions.detach_session(session);
        assert(self@ =~= before.detached(*session, reason, now, tokens).0);
        DetachEffects { record, exit, cleanup }
    }

    /// Prepares a launch for a menu that the configuration has, from the source's next token. The
    /// source is asked for none where the request is refused without one.
    pub fn prepare<S: TokenSource>(
        &mut self,
        menu_known: bool,
        source: &mut S,
        scope: ModalScopeId,
        root: MenuId,
        lease_millis: u32,
        now: Instant,
    ) -> (r: Result<Prepared, BrokerError>)
        ensures
            old(self)@.draws_no_token(menu_known, lease_millis) ==> *final(source) == *old(source),
            exists|drawn: Result<PendingLaunchToken, GateError>|
                {
                    &&& #[trigger] old(self)@.prepares(
                        menu_known,
                        drawn,
                        scope,
                        root,
                        lease_millis,
                        now,
                        final(self)@,
                        r,
                    )
                    &&& !old(self)@.draws_no_token(menu_known, lease_millis) ==> old(source).draws(
                        final(source),
                        drawn,
                    )
                },
    {
        let drawn = if !menu_known || self.executions.is_sealed() || lease_millis == 0 {
            Err(GateError::ZeroLease)
        } else {
            source.pending_launch_token()
        };
        self.prepare_drawn(menu_known, drawn, scope, root, lease_millis, now)
    }

    /// Prepares a launch for a menu that the configuration has, from a drawn token: it is minted,
    /// and whom it displaces goes.
    pub fn prepare_drawn(
        &mut self,
        menu_known: bool,
        drawn: Result<PendingLaunchToken, GateError>,
        scope: ModalScopeId,
        root: MenuId,
        lease_millis: u32,
        now: Instant,
    ) -> (r: Result<Prepared, BrokerError>)
        ensures
            old(self)@.prepares(
                menu_known,
                drawn,
                scope,
                root,
                lease_millis,
                now,
                final(self)@,
                r,
            ),
    {
        let minted = match self.mint(menu_known, drawn, scope, root, lease_millis, now) {
            Ok(minted) => minted,
            Err(error) => return Err(error),
        };
        let ghost fresh_launch = self@;
        let displaced_launch = match &minted.displaced_launch {
            Some((launch, session)) => {
                let effects = self.fail_session(
                    session,
                    &launch.registered_pane,
                    CaptureReleaseReason::Replaced,
                    now,
                );
                Some(effects)
            },
            None => None,
        };
        assert(fresh_launch.displaces_launch(
            minted.displaced_launch,
            now,
            self@,
            displaced_launch,
        ));
        let displaced_session = match &minted.displaced_session {
            Some(session) => {
                let effects = self.detach(session, CaptureReleaseReason::Replaced, now);
                Some(effects)
            },
            None => None,
        };
        Ok(
            Prepared {
                token: minted.token,
                lease_millis: minted.lease_millis,
                displaced_launch,
                displaced_session,
            },
        )
    }

    /// Mints a launch for a menu that the configuration has, from a drawn token.
    fn mint(
        &mut self,
        menu_known: bool,
        drawn: Result<PendingLaunchToken, GateError>,
        scope: ModalScopeId,
        root: MenuId,
        lease_millis: u32,
        now: Instant,
    ) -> (r: Result<Minted, BrokerError>)
        ensures
            exists|fresh: UiSessionId| #[trigger]
                old(self)@.mint(menu_known, drawn, scope, root, lease_millis, now, fresh) == (
                    final(self)@,
                    r,
                ) && fresh@ == session_name(old(self)@.next_session),
    {
        let ghost before = self@;
        let fresh = self.session_id(self.next_session);
        let ghost wanted = before.mint(
            menu_known,
            drawn,
            scope,
            root,
            lease_millis,
            now,
            fresh,
        );
        if !menu_known {
            return Err(BrokerError::UnknownMenu(root));
        }
        if self.executions.is_sealed() {
            return Err(BrokerError::ActivationInProgress);
        }
        let lease = Duration::from_millis(lease_millis as u64);
        let prepared = match self.gate.prepare_drawn(drawn, scope, root, now, lease) {
            Ok(prepared) => prepared,
            Err(error) => return Err(BrokerError::Gate(error)),
        };
        self.next_session = next_counter(self.next_session);
        let PreparedLaunch { pending, replaced, replaced_pending } = prepared;
        let displaced_launch = match replaced_pending {
            Some(launch) => match self.pending_sessions.remove(&launch.token) {
                Some(session) => Some((launch, session)),
                None => None,
            },
            None => None,
        };
        self.pending_sessions.insert(pending.token, fresh);
        let displaced_session = match replaced {
            Some(ScopeOwner::Ready(session)) => Some(session),
            _ => None,
        };
        assert(self@ =~= wanted.0);
        Ok(Minted { token: pending.token, lease_millis, displaced_launch, displaced_session })
    }

    /// Puts a pane on the backlog, where there is one.
    pub fn close_pane(
        &mut self,
        session: &UiSessionId,
        registration: &Option<RegisteredPane>,
        primary: Option<String>,
        now: Instant,
    ) -> (r: CleanupEffect)
        ensures
            (final(self)@, r) == old(self)@.close_pane(*session, *registration, primary, now),
    {
        match registration {
            Some(registration) => self.cleanup.enqueue_pane(
                session,
                registration,
                primary,
                now,
                false,
            ),
            None => CleanupEffect::Nothing,
        }
    }

    /// Detaches a session and puts its pane on the backlog.
    pub fn fail_session(
        &mut self,
        session: &UiSessionId,
        registration: &Option<RegisteredPane>,
        reason: CaptureReleaseReason,
        now: Instant,
    ) -> (r: FailEffects)
        ensures
            old(self)@.fails(*session, *registration, reason, now, final(self)@, r),
    {
        let detached = self.detach(session, reason, now);
        let pane = self.close_pane(session, registration, None, now);
        FailEffects { detached, pane }
    }

    /// Takes the pane that a launcher names for its launch.
    pub fn register(
        &mut self,
        token: PendingLaunchToken,
        pane: HostPaneId,
        temporary_tab: Option<HostTabId>,
    ) -> (r: Result<RegisterStep, BrokerError>)
        ensures
            (final(self)@, r) == old(self)@.register(token@, pane, temporary_tab),
    {
        if self.executions.is_sealed() {
            return Err(BrokerError::ActivationInProgress);
        }
        let session = match self.pending_sessions.get(&token) {
            Some(session) => session.clone(),
            None => return Err(BrokerError::Gate(GateError::UnknownToken)),
        };
        let registered = RegisteredPane {
            pane: pane.clone(),
            temporary_tab: clone_option(&temporary_tab),
            lease: None,
        };
        if let Err(error) = self.gate.register_pending_pane(token, registered) {
            return Err(BrokerError::Gate(error));
        }
        let leased = match self.gate.registered_pane(token) {
            Ok(Some(registered)) => registered.lease.is_some(),
            _ => false,
        };
        if leased {
            return Ok(RegisterStep::Leased);
        }
        if self.registering.contains_key(&token) {
            return Err(BrokerError::Gate(GateError::RegistrationInProgress));
        }
        self.registering.insert(token, ());
        Ok(RegisterStep::Ask(PendingPaneRegistration { ui_session: session, pane, temporary_tab }))
    }

    /// Ends a registration that the host refused.
    pub fn register_failed(&mut self, token: PendingLaunchToken)
        ensures
            final(self)@ == old(self)@.register_failed(token@),
    {
        self.registering.remove(&token);
    }

    /// Ends a registration with the host's lease. Where the launch is gone meanwhile, the pane
    /// goes on the backlog.
    pub fn register_leased(
        &mut self,
        token: PendingLaunchToken,
        registration: PendingPaneRegistration,
        lease: PendingPaneLease,
        now: Instant,
    ) -> (r: (Result<(), BrokerError>, CleanupEffect))
        ensures
            (final(self)@, r.0, r.1) == old(self)@.register_leased(
                token@,
                registration,
                lease,
                now,
            ),
    {
        let current = !self.executions.is_sealed() && self.pending_sessions.contains_key(&token)
            && match self.gate.registered_pane(token) {
            Ok(Some(registered)) => registered.pane.same(&registration.pane)
                && crate::table::same_option(
                &registered.temporary_tab,
                &registration.temporary_tab,
            ),
            _ => false,
        };
        self.registering.remove(&token);
        if current {
            return match self.gate.bind_pending_lease(token, lease) {
                Ok(()) => (Ok(()), CleanupEffect::Nothing),
                Err(error) => (Err(BrokerError::Gate(error)), CleanupEffect::Nothing),
            };
        }
        let PendingPaneRegistration { ui_session, pane, temporary_tab } = registration;
        let retained = Some(RegisteredPane { pane, temporary_tab, lease: Some(lease) });
        let effect = self.close_pane(&ui_session, &retained, None, now);
        (Err(BrokerError::Gate(GateError::UnknownToken)), effect)
    }

    /// Ends a registration with what the host answered.
    pub fn register_answered(
        &mut self,
        token: PendingLaunchToken,
        registration: PendingPaneRegistration,
        answer: Result<PendingPaneLease, AdapterError>,
        now: Instant,
    ) -> (r: (Result<(), BrokerError>, CleanupEffect))
        ensures
            (final(self)@, r.0, r.1) == match answer {
                Ok(lease) => old(self)@.register_leased(token@, registration, lease, now),
                Err(error) => (
                    old(self)@.register_failed(token@),
                    Err(BrokerError::Adapter(error)),
                    CleanupEffect::Nothing,
                ),
            },
    {
        match answer {
            Ok(lease) => self.register_leased(token, registration, lease, now),
            Err(error) => {
                self.register_failed(token);
                (Err(BrokerError::Adapter(error)), CleanupEffect::Nothing)
            },
        }
    }

    /// The pane registered for a pending launch.
    fn pane_of(&self, token: PendingLaunchToken) -> (r: Option<RegisteredPane>)
        ensures
            r == self@.pane_of(token@),
    {
        match self.gate.pending(token) {
            Some(launch) => clone_registered(&launch.registered_pane),
            None => None,
        }
    }

    /// Commits the placement of a launch, and hands out the session that this completes.
    pub fn commit_placement(&mut self, token: PendingLaunchToken, pane: &HostPaneId) -> (r: Result<
        Option<UiSessionId>,
        BrokerError,
    >)
        ensures
            (final(self)@, r) == old(self)@.commit(token@, pane@),
    {
        let registration = self.pane_of(token);
        match self.gate.commit(token, pane) {
            Err(error) => Err(BrokerError::Gate(error)),
            Ok(None) => Ok(None),
            Ok(Some(session)) => {
                self.pending_sessions.remove(&token);
                self.gated_sessions.insert(
                    token,
                    GatedSession { session: session.clone(), registration },
                );
                Ok(Some(session))
            },
        }
    }

    /// Aborts a launch, with its session and its pane.
    pub fn abort(&mut self, token: PendingLaunchToken, now: Instant) -> (r: Result<
        FailEffects,
        BrokerError,
    >)
        ensures
            old(self)@.aborts(token@, now, final(self)@, r),
    {
        let session = match self.pending_sessions.remove(&token) {
            Some(session) => session,
            None => {
                assert(self@ =~= old(self)@);
                return Err(BrokerError::Gate(GateError::UnknownToken));
            },
        };
        let registration = match self.gate.abort(token) {
            Ok(registration) => registration,
            Err(error) => return Err(BrokerError::Gate(error)),
        };
        let effects = self.fail_session(
            &session,
            &registration,
            CaptureReleaseReason::UiDismissed,
            now,
        );
        Ok(effects)
    }

    /// Aborts the launch of a launcher that went away, unless its placement is committed.
    pub fn abort_on_launcher_disconnect(&mut self, token: PendingLaunchToken, now: Instant) -> (r:
        Result<Option<FailEffects>, BrokerError>)
        ensures
            old(self)@.launcher_leaves(token@, now, final(self)@, r),
    {
        if self.gate.placement_committed(token) {
            return Ok(None);
        }
        let registration = match self.gate.abort_if_uncommitted(token) {
            Ok(registration) => registration,
            Err(error) => return Err(BrokerError::Gate(error)),
        };
        let session = match self.pending_sessions.remove(&token) {
            Some(session) => session,
            None => {
                assert(self.pending_sessions@ =~= old(self).pending_sessions@);
                return Err(BrokerError::Gate(GateError::UnknownToken));
            },
        };
        let effects = self.fail_session(
            &session,
            &registration,
            CaptureReleaseReason::UiDismissed,
            now,
        );
        Ok(Some(effects))
    }

    /// Takes down what a UI leaves that was not told of its readiness: its launch while that is
    /// pending, its session once the launch is complete. A pair that does not belong together
    /// touches nothing.
    pub fn disconnect_gated(
        &mut self,
        token: PendingLaunchToken,
        session: &UiSessionId,
        now: Instant,
    ) -> (r: Option<FailEffects>)
        ensures
            old(self)@.gated_ui_leaves(token@, *session, now, final(self)@, r),
    {
        let waits = match self.pending_sessions.get(&token) {
            Some(owner) => owner.same(session),
            None => false,
        };
        let pending = waits && match self.gate.pending(token) {
            Some(launch) => is_some_of(&launch.attached_ui, session),
            None => false,
        };
        let registration = if pending {
            let registration = self.pane_of(token);
            let _ = self.gate.abort(token);
            self.pending_sessions.remove(&token);
            registration
        } else {
            let gated = match self.gated_sessions.get(&token) {
                Some(owner) => owner.session.same(session),
                None => false,
            };
            if !gated {
                return None;
            }
            match self.gated_sessions.remove(&token) {
                Some(owner) => owner.registration,
                None => None,
            }
        };
        let effects = self.fail_session(
            session,
            &registration,
            CaptureReleaseReason::UiDismissed,
            now,
        );
        Some(effects)
    }

    /// Takes note that a UI was told of its readiness, and hands out the lease that the host may
    /// forget.
    pub fn confirm_gated_attachment(&mut self, token: PendingLaunchToken, session: &UiSessionId) -> (r:
        Option<PendingPaneLease>)
        ensures
            (final(self)@, r) == old(self)@.confirm_gated_attachment(token@, session@),
    {
        let gated = match self.gated_sessions.get(&token) {
            Some(owner) => owner.session.same(session),
            None => false,
        };
        if !gated {
            return None;
        }
        match self.gated_sessions.remove(&token) {
            Some(owner) => match owner.registration {
                Some(registration) => registration.lease,
                None => None,
            },
            None => None,
        }
    }

    /// Fails every launch that has run out of time.
    pub fn expire_pending(&mut self, now: Instant) -> (r: Vec<FailEffects>)
        ensures
            old(self)@.expires(now, final(self)@, r@),
    {
        let ghost before = self@;
        let expired = self.gate.expire(now);
        let ghost left = BrokerModel {
            gate: before.gate.without_launches(before.gate.expired(now)),
            ..before
        };
        assert(self@ =~= left);
        let ghost launches = expired@;
        let mut pairs: Vec<(PendingLaunch, UiSessionId)> = Vec::new();
        let mut i: usize = 0;
        assert(launches.take(0) =~= Seq::empty());
        while i < expired.len()
            invariant
                i <= expired.len(),
                expired@ == launches,
                (self@, pairs@) == left.take_sessions(launches.take(i as int)),
            decreases expired.len() - i,
        {
            assert(launches.take(i + 1).drop_last() =~= launches.take(i as int));
            if let Some(session) = self.pending_sessions.remove(&expired[i].token) {
                pairs.push((expired[i].clone(), session));
            }
            i += 1;
        }
        assert(launches.take(i as int) =~= launches);
        let ghost taken = self@;
        let ghost due = pairs@;
        let mut effects: Vec<FailEffects> = Vec::new();
        i = 0;
        assert(due.take(0) =~= Seq::empty());
        while i < pairs.len()
            invariant
                i <= pairs.len(),
                pairs@ == due,
                taken.fails_all(
                    due.take(i as int),
                    CaptureReleaseReason::LeaseExpired,
                    now,
                    self@,
                    effects@,
                ),
            decreases pairs.len() - i,
        {
            let ghost between = self@;
            let ghost earlier = effects@;
            assert(due.take(i + 1).drop_last() =~= due.take(i as int));
            let effect = self.fail_session(
                &pairs[i].1,
                &pairs[i].0.registered_pane,
                CaptureReleaseReason::LeaseExpired,
                now,
            );
            effects.push(effect);
            assert(effects@.drop_last() =~= earlier);
            assert(effects@.last() == effect);
            i += 1;
            proof {
                lemma_fails_all_length(
                    taken,
                    due.take(i - 1),
                    CaptureReleaseReason::LeaseExpired,
                    now,
                    between,
                    earlier,
                );
            }
            assert(taken.fails_all(
                due.take(i as int),
                CaptureReleaseReason::LeaseExpired,
                now,
                self@,
                effects@,
            ));
        }
        assert(due.take(i as int) =~= due);
        assert(left.take_sessions(launches) == (taken, due));
        effects
    }

    /// The sessions in a scope.
    pub fn sessions_in_scope(&self, scope: &ModalScopeId) -> (r: Vec<UiSessionId>)
        ensures
            enumerates(views(r@), self@.sessions_in_scope(scope@)),
    {
        let keys = self.sessions.keys();
        let ghost wanted = self@.sessions_in_scope(scope@);
        let mut found: Vec<UiSessionId> = Vec::new();
        let ghost mut seen: Set<Seq<char>> = Set::empty();
        let mut i: usize = 0;
        while i < keys.len()
            invariant
                i <= keys.len(),
                wanted == self@.sessions_in_scope(scope@),
                enumerates(views(keys@), self@.sessions.dom()),
                forall|session: Seq<char>| #[trigger]
                    seen.contains(session) <==> exists|j: int|
                        0 <= j < i && #[trigger] views(keys@)[j] == session,
                enumerates(views(found@), seen.intersect(wanted)),
            decreases keys.len() - i,
        {
            let ghost key = keys@[i as int]@;
            assert(views(keys@)[i as int] == key);
            assert(views(keys@).contains(key));
            assert(!seen.contains(key));
            let within = match self.sessions.get(&keys[i]) {
                Some(record) => record.scope.same(scope),
                None => false,
            };
            if within {
                proof {
                    lemma_enumerates_push(views(found@), seen.intersect(wanted), key);
                    assert(views(found@.push(keys@[i as int])) =~= views(found@).push(key));
                    assert(seen.insert(key).intersect(wanted) =~= seen.intersect(wanted).insert(
                        key,
                    ));
                }
                found.push(keys[i].clone());
            } else {
                assert(seen.insert(key).intersect(wanted) =~= seen.intersect(wanted));
            }
            proof {
                seen = seen.insert(key);
            }
            i += 1;
        }
        proof {
            assert forall|session: Seq<char>| #[trigger]
                wanted.contains(session) implies seen.contains(session) by {
                assert(views(keys@).contains(session));
                let j = views(keys@).index_of(session);
                assert(views(keys@)[j] == session);
            }
            assert(seen.intersect(wanted) =~= wanted);
        }
        found
    }

    /// Detaches sessions one after the other.
    pub fn detach_all(
        &mut self,
        sessions: &Vec<UiSessionId>,
        reason: CaptureReleaseReason,
        now: Instant,
    ) -> (r: Vec<DetachEffects>)
        ensures
            old(self)@.detaches_all(sessions@, reason, now, final(self)@, r@),
    {
        let ghost before = self@;
        let mut effects: Vec<DetachEffects> = Vec::new();
        let mut i: usize = 0;
        assert(sessions@.take(0) =~= Seq::empty());
        while i < sessions.len()
            invariant
                i <= sessions.len(),
                effects@.len() == i,
                before.detaches_all(sessions@.take(i as int), reason, now, self@, effects@),
            decreases sessions.len() - i,
        {
            let ghost earlier = effects@;
            let ghost between = self@;
            assert(sessions@.take(i + 1).drop_last() =~= sessions@.take(i as int));
            let effect = self.detach(&sessions[i], reason, now);
            effects.push(effect);
            assert(effects@.drop_last() =~= earlier);
            i += 1;
            assert(between.detaches(
                sessions@.take(i as int).last(),
                reason,
                now,
                self@,
                effects@.last(),
            ));
        }
        assert(sessions@.take(i as int) =~= sessions@);
        effects
    }

    /// Aborts the launch of a lost scope.
    fn lose_launch(&mut self, token: PendingLaunchToken, now: Instant) -> (r: Option<FailEffects>)
        ensures
            old(self)@.loses_launch(token@, now, final(self)@, r),
    {
        let registration = self.pane_of(token);
        let session = self.pending_sessions.remove(&token);
        let _ = self.gate.abort(token);
        match session {
            Some(session) => {
                let effects = self.fail_session(
                    &session,
                    &registration,
                    CaptureReleaseReason::LeaseExpired,
                    now,
                );
                Some(effects)
            },
            None => None,
        }
    }

    /// Takes down everything in one scope that the host has lost: its sessions, their executions'
    /// waits, and its launches. Nothing in any other scope is touched.
    pub fn scope_unhealthy(&mut self, scope: &ModalScopeId, now: Instant) -> (r: ScopeLoss)
        ensures
            old(self)@.loses_scope(scope@, now, final(self)@, r),
    {
        let ghost before = self@;
        let sessions = self.sessions_in_scope(scope);
        let failed = self.executions.failing(&sessions, Ghost(before.sessions_in_scope(scope@)));
        let detached = self.detach_all(&sessions, CaptureReleaseReason::LeaseExpired, now);
        let ghost after_detach = self@;
        let launches = self.gate.pending_tokens_in_scope(scope);
        let mut aborted: Vec<Option<FailEffects>> = Vec::new();
        let mut i: usize = 0;
        assert(launches@.take(0) =~= Seq::empty());
        while i < launches.len()
            invariant
                i <= launches.len(),
                aborted@.len() == i,
                after_detach.loses_launches(launches@.take(i as int), now, self@, aborted@),
            decreases launches.len() - i,
        {
            let ghost earlier = aborted@;
            let ghost between = self@;
            assert(launches@.take(i + 1).drop_last() =~= launches@.take(i as int));
            let effect = self.lose_launch(launches[i], now);
            aborted.push(effect);
            assert(aborted@.drop_last() =~= earlier);
            i += 1;
            assert(between.loses_launch(
                launches@.take(i as int).last()@,
                now,
                self@,
                aborted@.last(),
            ));
        }
        assert(launches@.take(i as int) =~= launches@);
        let ghost after_abort = self@;
        self.gate.release_dangling_owner(scope);
        let loss = ScopeLoss { sessions, failed, detached, launches, aborted };
        assert(before.loses_scope_through(
            scope@,
            now,
            after_detach,
            after_abort,
            self@,
            loss,
        ));
        loss
    }

    /// One turn of the task that closes a pane under a claim.
    pub fn run_pending_pane_cleanup(
        &mut self,
        lease: &PendingPaneLeaseId,
        claim: u64,
        event: TaskEvent,
        now: Instant,
        limit: usize,
    ) -> (r: PaneTaskAction)
        requires
            now@ + LONGEST_DELAY_NANOS <= u128::MAX,
        ensures
            exists|bounded: TaskEvent| #[trigger]
                is_bounded_event(event, limit as nat, bounded) && (final(self)@.cleanup, r) == old(
                    self,
                )@.cleanup.pane_task(lease@, claim, bounded, now),
            final(self)@ == (BrokerModel { cleanup: final(self)@.cleanup, ..old(self)@ }),
    {
        self.cleanup.run_pending_pane_cleanup(lease, claim, event, now, limit)
    }

    /// One turn of the task that ends a capture under a claim.
    pub fn run_capture_cleanup(
        &mut self,
        lease: &CaptureLeaseId,
        claim: u64,
        event: TaskEvent,
        now: Instant,
        limit: usize,
    ) -> (r: CaptureTaskAction)
        requires
            now@ + LONGEST_DELAY_NANOS <= u128::MAX,
        ensures
            exists|bounded: TaskEvent| #[trigger]
                is_bounded_event(event, limit as nat, bounded) && (final(self)@.cleanup, r) == old(
                    self,
                )@.cleanup.capture_task(lease@, claim, bounded, now),
            final(self)@ == (BrokerModel { cleanup: final(self)@.cleanup, ..old(self)@ }),
    {
        self.cleanup.run_capture_cleanup(lease, claim, event, now, limit)
    }

    /// Gives up the slot of a cleanup task that ended, unless another task has it.
    pub fn cleanup_task_ended(&mut self, key: &CleanupTaskKey, claim: u64)
        ensures
            final(self)@ == (BrokerModel {
                cleanup: old(self)@.cleanup.remove_if_claim(key@, claim),
                ..old(self)@
            }),
    {
        self.cleanup.remove_if_claim(key, claim);
    }
}

} // verus!
