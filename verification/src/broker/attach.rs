//! How a UI attaches: to the launch that a launcher made for it, or to a scope that nobody owns.
use super::stand::{StandNext, StandStage};
use super::{counter_after, session_name, Broker, BrokerModel, GatedSession, SessionRecord};
use crate::cleanup::CleanupEffect;
use crate::gate::{GateError, RegisteredPane, ScopeOwner};
use crate::ids::{HostPaneId, HostTabId, ModalScopeId, PendingLaunchToken, UiSessionId};
use crate::menu::MenuId;
use crate::protocol::{clone_text, AdapterError, BrokerError};
use crate::table::{is_some_of, lookup, Key};
use crate::text::{is_truncation, truncate_utf8};
use crate::time::Instant;
use vstd::prelude::*;

verus! {

/// Where a launcher says that a menu was called up. The broker does not trust it.
#[derive(Debug, PartialEq, Eq)]
pub struct LaunchOrigin {
    pub workspace: String,
    pub tab: HostTabId,
    pub pane: HostPaneId,
    pub cwd: Option<String>,
}

/// Where the caller of a menu sits.
#[derive(Debug, PartialEq, Eq)]
pub struct CallerIdentity {
    pub workspace: String,
    pub tab: HostTabId,
    pub pane: HostPaneId,
    pub cwd: String,
}

/// A UI's request to attach.
#[derive(Debug, PartialEq, Eq)]
pub struct AttachUi {
    pub root: MenuId,
    pub pane: HostPaneId,
    pub pending_launch: Option<PendingLaunchToken>,
    pub origin: Option<LaunchOrigin>,
    pub caller_identity: Option<CallerIdentity>,
}

/// Who gave an origin hint.
#[derive(Clone, Copy, Debug, PartialEq, Eq, Structural)]
pub enum OriginHintSource {
    LauncherBootstrap,
}

/// A hint for the host on where a menu was called up.
#[derive(Debug, PartialEq, Eq)]
pub struct UntrustedOriginHint {
    pub workspace: String,
    pub tab: HostTabId,
    pub pane: HostPaneId,
    pub cwd: Option<String>,
    pub source: OriginHintSource,
}

/// The caller of a menu, as the host is told.
#[derive(Debug, PartialEq, Eq)]
pub struct HostCallerIdentity {
    pub workspace: String,
    pub tab: HostTabId,
    pub pane: HostPaneId,
    pub cwd: Option<String>,
}

/// What the host is told of the launcher's origin.
pub open spec fn hint_of(origin: Option<LaunchOrigin>) -> Option<UntrustedOriginHint> {
    match origin {
        Some(origin) => Some(
            UntrustedOriginHint {
                workspace: origin.workspace,
                tab: origin.tab,
                pane: origin.pane,
                cwd: origin.cwd,
                source: OriginHintSource::LauncherBootstrap,
            },
        ),
        None => None,
    }
}

/// What the host is told of the caller.
pub open spec fn caller_of(caller: Option<CallerIdentity>) -> Option<HostCallerIdentity> {
    match caller {
        Some(caller) => Some(
            HostCallerIdentity {
                workspace: caller.workspace,
                tab: caller.tab,
                pane: caller.pane,
                cwd: Some(caller.cwd),
            },
        ),
        None => None,
    }
}

/// What the host is told of the launcher's origin and of the caller.
pub fn origin_hints(request: &AttachUi) -> (r: (
    Option<UntrustedOriginHint>,
    Option<HostCallerIdentity>,
))
    ensures
        r == (hint_of(request.origin), caller_of(request.caller_identity)),
{
    let hint = match &request.origin {
        Some(origin) => Some(
            UntrustedOriginHint {
                workspace: origin.workspace.clone(),
                tab: origin.tab.clone(),
                pane: origin.pane.clone(),
                cwd: clone_text(&origin.cwd),
                source: OriginHintSource::LauncherBootstrap,
            },
        ),
        None => None,
    };
    let caller = match &request.caller_identity {
        Some(caller) => Some(
            HostCallerIdentity {
                workspace: caller.workspace.clone(),
                tab: caller.tab.clone(),
                pane: caller.pane.clone(),
                cwd: Some(caller.cwd.clone()),
            },
        ),
        None => None,
    };
    (hint, caller)
}

/// What comes of an attachment once the host has told where its menu was called up.
#[derive(Debug, PartialEq, Eq)]
pub enum Published {
    /// The session stands; its input is captured next.
    Ready,
    /// The session stands; it waits for the launcher's commit.
    Waiting,
    /// The attachment is off. Its pane, if the broker has one, is on the backlog.
    Refused { error: BrokerError, pane: CleanupEffect },
}

/// What an attachment has come to.
#[derive(Debug, PartialEq, Eq)]
pub enum AttachStage {
    /// The host has found the scope of the UI's pane.
    ScopeFound { scope: ModalScopeId, menu_known: bool },
    /// The host could not tell where the menu was called up.
    OriginFailed { session: UiSessionId, error: AdapterError },
    /// The host has told where the menu was called up.
    OriginCaptured { session: UiSessionId, scope: ModalScopeId },
    /// The session is on its way to stand.
    Standing(StandStage),
}

/// What an attachment needs next.
#[derive(Debug, PartialEq, Eq)]
pub enum AttachNext {
    /// The host is asked where the menu was called up.
    CaptureOrigin { session: UiSessionId },
    /// The UI is answered once the launcher has committed.
    WaitForCommit { token: PendingLaunchToken, session: UiSessionId },
    /// The host is asked whether it captures input.
    AskCaptures { session: UiSessionId },
    /// What the session needs on its way to stand. Where it is announced, the UI is answered.
    Standing(StandNext),
    /// The UI is refused.
    Refuse { error: BrokerError, cleanup: CleanupEffect },
}

/// A UI that is about to stand: all that decides whether it may.
pub open spec fn admission(
    broker: BrokerModel,
    request: AttachUi,
    scope: Seq<char>,
    menu_known: bool,
) -> Result<(), BrokerError> {
    if !menu_known {
        Err(BrokerError::UnknownMenu(request.root))
    } else if broker.executions.sealed {
        Err(BrokerError::ActivationInProgress)
    } else {
        match request.pending_launch {
            None => Ok(()),
            Some(token) => match lookup(broker.gate.pending, token@) {
                None => Err(BrokerError::Gate(GateError::UnknownToken)),
                Some(launch) => {
                    if launch.root@ != request.root@ || launch.scope@ != scope {
                        Err(BrokerError::Gate(GateError::ScopeMismatch))
                    } else if launch.registered_pane matches Some(registered)
                        && registered.pane@ != request.pane@ {
                        Err(BrokerError::Gate(GateError::PaneMismatch))
                    } else if !broker.pending_sessions.contains_key(token@) {
                        Err(BrokerError::Gate(GateError::UnknownToken))
                    } else {
                        Ok(())
                    }
                },
            },
        }
    }
}

impl BrokerModel {
    /// A UI takes its place at the launch gate. A UI without a launch gets `fresh`.
    pub open spec fn attach_admit(
        self,
        request: AttachUi,
        scope: ModalScopeId,
        menu_known: bool,
        fresh: UiSessionId,
    ) -> (Self, Result<UiSessionId, BrokerError>) {
        match admission(self, request, scope@, menu_known) {
            Err(error) => (self, Err(error)),
            Ok(()) => {
                let (named, session) = match request.pending_launch {
                    Some(token) => (self, self.pending_sessions[token@]),
                    None => (
                        BrokerModel { next_session: counter_after(self.next_session), ..self },
                        fresh,
                    ),
                };
                match self.gate.attach(session, scope, request.pane, request.pending_launch) {
                    (gate, Ok(_)) => (BrokerModel { gate, ..named }, Ok(session)),
                    (gate, Err(error)) => (
                        BrokerModel { gate, ..named },
                        Err(BrokerError::Gate(error)),
                    ),
                }
            },
        }
    }

    /// What is left at the launch gate where the host could not tell the origin.
    pub open spec fn attach_withdrawn(
        self,
        token: Option<PendingLaunchToken>,
        session: Seq<char>,
    ) -> (Self, Option<RegisteredPane>) {
        match token {
            None => (BrokerModel { gate: self.gate.detach(session).0, ..self }, None),
            Some(token) => {
                let forgotten = BrokerModel {
                    pending_sessions: self.pending_sessions.remove(token@),
                    ..self
                };
                match self.gate.abort(token@) {
                    (gate, Ok(registration)) => (
                        BrokerModel { gate, ..forgotten },
                        registration,
                    ),
                    (_, Err(_)) => (
                        BrokerModel { gate: self.gate.detach(session).0, ..forgotten },
                        None,
                    ),
                }
            },
        }
    }

    /// `after` and `effect` are what comes of an attachment whose origin the host could not tell.
    pub open spec fn origin_fails(
        self,
        token: Option<PendingLaunchToken>,
        session: UiSessionId,
        error: AdapterError,
        now: Instant,
        limit: nat,
        after: Self,
        effect: CleanupEffect,
    ) -> bool {
        let (withdrawn, registration) = self.attach_withdrawn(token, session@);
        exists|primary: String| #[trigger]
            is_truncation(error.message@, limit, primary@) && (after, effect)
                == withdrawn.close_pane(session, registration, Some(primary), now)
    }

    /// `after` and `next` are what one stage of an attachment leads to.
    pub open spec fn attaches(
        self,
        request: AttachUi,
        stage: AttachStage,
        now: Instant,
        limit: nat,
        after: Self,
        next: AttachNext,
    ) -> bool {
        match stage {
            AttachStage::ScopeFound { scope, menu_known } => {
                exists|fresh: UiSessionId|
                    {
                        let (admitted, r) = #[trigger] self.attach_admit(
                            request,
                            scope,
                            menu_known,
                            fresh,
                        );
                        &&& fresh@ == session_name(self.next_session)
                        &&& after == admitted
                        &&& next == match r {
                            Ok(session) => AttachNext::CaptureOrigin { session },
                            Err(error) => AttachNext::Refuse {
                                error,
                                cleanup: CleanupEffect::Nothing,
                            },
                        }
                    }
            },
            AttachStage::OriginFailed { session, error } => {
                &&& next matches AttachNext::Refuse { cleanup, .. }
                &&& next == AttachNext::Refuse { error: BrokerError::Adapter(error), cleanup }
                &&& self.origin_fails(
                    request.pending_launch,
                    session,
                    error,
                    now,
                    limit,
                    after,
                    cleanup,
                )
            },
            AttachStage::OriginCaptured { session, scope } => {
                exists|published: Published|
                    {
                        &&& #[trigger] self.attach_publishes(
                            request,
                            session,
                            scope,
                            now,
                            limit,
                            after,
                            published,
                        )
                        &&& next == match published {
                            Published::Ready => AttachNext::AskCaptures { session },
                            Published::Waiting => AttachNext::WaitForCommit {
                                token: request.pending_launch->Some_0,
                                session,
                            },
                            Published::Refused { error, pane } => AttachNext::Refuse {
                                error,
                                cleanup: pane,
                            },
                        }
                    }
            },
            AttachStage::Standing(stage) => {
                &&& next matches AttachNext::Standing(next)
                &&& self.stands(stage, now, limit, after, next)
            },
        }
    }

    /// The launch is still this session's, or there is no launch.
    pub open spec fn attach_is_current(
        self,
        token: Option<PendingLaunchToken>,
        session: Seq<char>,
    ) -> bool {
        token matches Some(token) ==> self.is_pending_for(token@, session)
    }

    /// What the launch gate says of a session that is ready to stand.
    pub open spec fn attach_verdict(
        self,
        token: Option<PendingLaunchToken>,
        session: UiSessionId,
        scope: Seq<char>,
    ) -> Result<bool, BrokerError> {
        if self.executions.sealed {
            Err(BrokerError::ActivationInProgress)
        } else {
            match token {
                Some(token) => match self.gate.publish_attached(token@, session).1 {
                    Ok(ready) => Ok(ready),
                    Err(error) => Err(BrokerError::Gate(error)),
                },
                None => if self.gate.owned_by_session(scope, session@) {
                    Ok(true)
                } else {
                    Err(BrokerError::Gate(GateError::ScopeMismatch))
                },
            }
        }
    }

    /// The session stands, and its launch is complete or waits for the commit.
    pub open spec fn attach_stands(
        self,
        token: Option<PendingLaunchToken>,
        session: UiSessionId,
        record: SessionRecord,
        ready: bool,
    ) -> Self {
        let standing = BrokerModel {
            sessions: self.sessions.insert(session@, record),
            ..self
        };
        match token {
            None => standing,
            Some(token) => {
                let published = BrokerModel {
                    gate: self.gate.publish_attached(token@, session).0,
                    ..standing
                };
                if ready {
                    published.gated(token@, session, self.pane_of(token@))
                } else {
                    published
                }
            },
        }
    }

    /// The attachment is off: its launch is aborted.
    pub open spec fn attach_refused(
        self,
        token: Option<PendingLaunchToken>,
        session: UiSessionId,
    ) -> Self {
        let gone = BrokerModel { sessions: self.sessions.remove(session@), ..self };
        match token {
            None => gone,
            Some(token) => {
                let published = if self.executions.sealed {
                    self.gate
                } else {
                    self.gate.publish_attached(token@, session).0
                };
                BrokerModel {
                    gate: published.abort(token@).0,
                    pending_sessions: self.pending_sessions.remove(token@),
                    ..gone
                }
            },
        }
    }

    /// `after` and `r` are what comes of an attachment once the origin is known.
    pub open spec fn attach_publishes(
        self,
        request: AttachUi,
        session: UiSessionId,
        scope: ModalScopeId,
        now: Instant,
        limit: nat,
        after: Self,
        r: Published,
    ) -> bool {
        let token = request.pending_launch;
        let record = SessionRecord {
            root: request.root,
            scope,
            ui_pane: request.pane,
            capture: None,
        };
        if !self.attach_is_current(token, session@) {
            &&& after == self
            &&& r == Published::Refused {
                error: BrokerError::Gate(GateError::UnknownToken),
                pane: CleanupEffect::Nothing,
            }
        } else {
            match self.attach_verdict(token, session, scope@) {
                Ok(ready) => {
                    &&& after == self.attach_stands(token, session, record, ready)
                    &&& r == if ready {
                        Published::Ready
                    } else {
                        Published::Waiting
                    }
                },
                Err(error) => {
                    let registration = match token {
                        Some(token) => self.pane_of(token@),
                        None => None,
                    };
                    exists|primary: String|
                        {
                            &&& #[trigger] is_truncation(
                                error.text(),
                                limit,
                                primary@,
                            )
                            &&& ({
                                let (closed, pane) = self.attach_refused(token, session).close_pane(
                                    session,
                                    registration,
                                    Some(primary),
                                    now,
                                );
                                &&& after == closed
                                &&& r == Published::Refused { error, pane }
                            })
                        }
                },
            }
        }
    }
}

impl Broker {
    /// Lets a UI take its place at the launch gate, for the scope that the host has found.
    pub fn attach_admit(&mut self, request: &AttachUi, scope: &ModalScopeId, menu_known: bool) -> (r:
        Result<UiSessionId, BrokerError>)
        ensures
            exists|fresh: UiSessionId| #[trigger]
                old(self)@.attach_admit(*request, *scope, menu_known, fresh) == (final(self)@, r)
                    && fresh@ == session_name(old(self)@.next_session),
    {
        let fresh = self.session_id(self.next_session);
        let ghost wanted = self@.attach_admit(*request, *scope, menu_known, fresh);
        if !menu_known {
            return Err(BrokerError::UnknownMenu(request.root.clone()));
        }
        if self.executions.is_sealed() {
            return Err(BrokerError::ActivationInProgress);
        }
        let session = match &request.pending_launch {
            Some(token) => {
                let launch = match self.gate.pending(*token) {
                    Some(launch) => launch,
                    None => return Err(BrokerError::Gate(GateError::UnknownToken)),
                };
                if !launch.root.same(&request.root) || !launch.scope.same(scope) {
                    return Err(BrokerError::Gate(GateError::ScopeMismatch));
                }
                if let Some(registered) = &launch.registered_pane {
                    if !registered.pane.same(&request.pane) {
                        return Err(BrokerError::Gate(GateError::PaneMismatch));
                    }
                }
                match self.pending_sessions.get(token) {
                    Some(session) => session.clone(),
                    None => return Err(BrokerError::Gate(GateError::UnknownToken)),
                }
            },
            None => {
                self.next_session = super::next_counter(self.next_session);
                fresh
            },
        };
        match self.gate.attach(
            session.clone(),
            scope.clone(),
            request.pane.clone(),
            request.pending_launch,
        ) {
            Ok(_) => {
                assert(self@ =~= wanted.0);
                Ok(session)
            },
            Err(error) => {
                assert(self@ =~= wanted.0);
                Err(BrokerError::Gate(error))
            },
        }
    }

    /// Withdraws a UI whose origin the host could not tell. The pane of its launch, if there is
    /// one, goes on the backlog with the host's text.
    pub fn attach_origin_failed(
        &mut self,
        token: &Option<PendingLaunchToken>,
        session: &UiSessionId,
        error: &AdapterError,
        now: Instant,
        limit: usize,
    ) -> (r: CleanupEffect)
        ensures
            old(self)@.origin_fails(*token, *session, *error, now, limit as nat, final(self)@, r),
    {
        let ghost (withdrawn, pane) = self@.attach_withdrawn(*token, session@);
        let registration = match token {
            Some(token) => {
                self.pending_sessions.remove(token);
                match self.gate.abort(*token) {
                    Ok(registration) => registration,
                    Err(_) => {
                        self.gate.detach(session);
                        None
                    },
                }
            },
            None => {
                self.gate.detach(session);
                None
            },
        };
        assert(self@ =~= withdrawn);
        let primary = truncate_utf8(error.message.as_str(), limit);
        self.close_pane(session, &registration, Some(primary), now)
    }

    /// Lets the session stand once its origin is known, unless its launch or its scope was taken
    /// meanwhile, or admission was closed.
    pub fn attach_publish(
        &mut self,
        request: &AttachUi,
        session: &UiSessionId,
        scope: &ModalScopeId,
        now: Instant,
        limit: usize,
    ) -> (r: Published)
        ensures
            old(self)@.attach_publishes(
                *request,
                *session,
                *scope,
                now,
                limit as nat,
                final(self)@,
                r,
            ),
    {
        let ghost before = self@;
        let ghost token = request.pending_launch;
        if let Some(token) = &request.pending_launch {
            let waits = match self.pending_sessions.get(token) {
                Some(owner) => owner.same(session),
                None => false,
            };
            let attached = match self.gate.pending(*token) {
                Some(launch) => is_some_of(&launch.attached_ui, session),
                None => false,
            };
            if !waits || !attached {
                return Published::Refused {
                    error: BrokerError::Gate(GateError::UnknownToken),
                    pane: CleanupEffect::Nothing,
                };
            }
        }
        let record = SessionRecord {
            root: request.root.clone(),
            scope: scope.clone(),
            ui_pane: request.pane.clone(),
            capture: None,
        };
        let mut registration: Option<RegisteredPane> = None;
        let sealed = self.executions.is_sealed();
        let error = match &request.pending_launch {
            Some(token) => {
                registration = self.pane_of(*token);
                let verdict = if sealed {
                    Err(BrokerError::ActivationInProgress)
                } else {
                    match self.gate.publish_attached(*token, session) {
                        Ok(ready) => Ok(ready),
                        Err(error) => Err(BrokerError::Gate(error)),
                    }
                };
                match verdict {
                    Ok(ready) => {
                        self.sessions.insert(session.clone(), record);
                        if ready {
                            self.pending_sessions.remove(token);
                            self.gated_sessions.insert(
                                *token,
                                GatedSession { session: session.clone(), registration },
                            );
                            assert(self@ =~= before.attach_stands(
                                request.pending_launch,
                                *session,
                                record,
                                true,
                            ));
                            return Published::Ready;
                        }
                        assert(self@ =~= before.attach_stands(
                            request.pending_launch,
                            *session,
                            record,
                            false,
                        ));
                        return Published::Waiting;
                    },
                    Err(error) => {
                        let _ = self.gate.abort(*token);
                        self.pending_sessions.remove(token);
                        error
                    },
                }
            },
            None => {
                let owned = match self.gate.owner(scope) {
                    Some(ScopeOwner::Ready(active)) => active.same(session),
                    _ => false,
                };
                if sealed {
                    BrokerError::ActivationInProgress
                } else if owned {
                    self.sessions.insert(session.clone(), record);
                    assert(self@ =~= before.attach_stands(
                        request.pending_launch,
                        *session,
                        record,
                        true,
                    ));
                    return Published::Ready;
                } else {
                    BrokerError::Gate(GateError::ScopeMismatch)
                }
            },
        };
        self.sessions.remove(session);
        assert(self@ =~= before.attach_refused(request.pending_launch, *session));
        let text = error.message();
        let primary = truncate_utf8(text.as_str(), limit);
        let pane = self.close_pane(session, &registration, Some(primary), now);
        assert(is_truncation(error.text(), limit as nat, primary@));
        Published::Refused { error, pane }
    }

    /// Takes an attachment from one stage to the next.
    pub fn attach(&mut self, request: &AttachUi, stage: AttachStage, now: Instant, limit: usize) -> (r:
        AttachNext)
        ensures
            old(self)@.attaches(*request, stage, now, limit as nat, final(self)@, r),
    {
        match stage {
            AttachStage::ScopeFound { scope, menu_known } => {
                match self.attach_admit(request, &scope, menu_known) {
                    Ok(session) => AttachNext::CaptureOrigin { session },
                    Err(error) => AttachNext::Refuse {
                        error,
                        cleanup: CleanupEffect::Nothing,
                    },
                }
            },
            AttachStage::OriginFailed { session, error } => {
                let cleanup = self.attach_origin_failed(
                    &request.pending_launch,
                    &session,
                    &error,
                    now,
                    limit,
                );
                AttachNext::Refuse { error: BrokerError::Adapter(error), cleanup }
            },
            AttachStage::OriginCaptured { session, scope } => {
                match self.attach_publish(request, &session, &scope, now, limit) {
                    Published::Ready => AttachNext::AskCaptures { session },
                    Published::Waiting => match request.pending_launch {
                        Some(token) => AttachNext::WaitForCommit { token, session },
                        None => AttachNext::AskCaptures { session },
                    },
                    Published::Refused { error, pane } => AttachNext::Refuse {
                        error,
                        cleanup: pane,
                    },
                }
            },
            AttachStage::Standing(stage) => AttachNext::Standing(self.stand(stage, now, limit)),
        }
    }
}

} // verus!
