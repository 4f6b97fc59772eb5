//! The launch gate: which launch or session owns each modal scope.
pub mod laws;

use crate::host::PendingPaneLease;
use crate::ids::{all_zero, HostPaneId, HostTabId, ModalScopeId, PendingLaunchToken, UiSessionId};
use crate::menu::MenuId;
use crate::table::{
    enumerates, is_some_of, lemma_enumerates_push, lists, lookup, opt_view, same_option, views, Key,
    Table,
};
use crate::time::{Duration, Instant};
use vstd::prelude::*;

verus! {

/// Where launch tokens come from.
pub trait TokenSource {
    /// Whether one draw can hand this out and leave the source so. A source that says no more may
    /// hand out anything.
    open spec fn draws(&self, after: &Self, drawn: Result<PendingLaunchToken, GateError>) -> bool {
        true
    }

    /// Mints one nonzero token, or fails where no randomness is to be had.
    fn pending_launch_token(&mut self) -> (r: Result<PendingLaunchToken, GateError>)
        ensures
            old(self).draws(final(self), r),
    ;
}

/// The operating system's random generator as a source of tokens.
#[derive(Clone, Copy, Debug)]
pub struct OsTokenSource;

impl Default for OsTokenSource {
    fn default() -> (r: Self)
        ensures
            r == OsTokenSource,
    {
        OsTokenSource
    }
}

/// Draws 16 bytes with `try_fill_bytes` of rand's `OsRng`, the operating system's generator; there
/// are none where the generator reports a failure. Nothing is claimed of the bytes: they rest on
/// chance.
#[verifier::external_body]
pub(crate) fn os_random_bytes() -> (r: Option<[u8; 16]>) {
    let mut bytes: [u8; 16] = [0; 16];
    match rand::TryRngCore::try_fill_bytes(&mut rand::rngs::OsRng, &mut bytes) {
        Ok(()) => Some(bytes),
        Err(_) => None,
    }
}

/// The token made of drawn bytes. Zero is no token: it is refused as the launch gate refuses it.
pub fn token_of_draw(draw: Option<[u8; 16]>) -> (r: Result<PendingLaunchToken, GateError>)
    ensures
        r == (match draw {
            Some(bytes) if !all_zero(bytes@) => Ok::<PendingLaunchToken, GateError>(
                PendingLaunchToken(bytes),
            ),
            Some(_) => Err(GateError::DuplicateToken),
            None => Err(GateError::EntropyUnavailable),
        }),
        r matches Ok(token) ==> draw == Some(token.0),
        r is Err <==> draw is None || forall|i: int| 0 <= i < 16 ==> draw->Some_0@[i] == 0,
        draw is None <==> r == Err::<PendingLaunchToken, GateError>(GateError::EntropyUnavailable),
{
    match draw {
        Some(bytes) => {
            let token = PendingLaunchToken(bytes);
            if token.is_zero() {
                Err(GateError::DuplicateToken)
            } else {
                Ok(token)
            }
        },
        None => Err(GateError::EntropyUnavailable),
    }
}

impl TokenSource for OsTokenSource {
    /// A nonzero token, or one of the two failures of a draw. The generator is the machine's: the
    /// source itself holds nothing.
    open spec fn draws(&self, after: &Self, drawn: Result<PendingLaunchToken, GateError>) -> bool {
        match drawn {
            Ok(token) => !all_zero(token@),
            Err(error) => error == GateError::EntropyUnavailable || error
                == GateError::DuplicateToken,
        }
    }

    /// Draws a token. It is never zero; which one it is, and whether the generator fails, rests on
    /// chance and on the machine.
    fn pending_launch_token(&mut self) -> (r: Result<PendingLaunchToken, GateError>)
        ensures
            match r {
                Ok(token) => !all_zero(token@),
                Err(error) => error == GateError::EntropyUnavailable || error
                    == GateError::DuplicateToken,
            },
            *final(self) == *old(self),
    {
        token_of_draw(os_random_bytes())
    }
}

/// A pane that the host created for a launch.
#[derive(Debug, PartialEq, Eq)]
pub struct RegisteredPane {
    pub pane: HostPaneId,
    pub temporary_tab: Option<HostTabId>,
    pub lease: Option<PendingPaneLease>,
}

impl View for RegisteredPane {
    type V = (Seq<char>, Option<Seq<char>>, Option<(Seq<char>, Seq<char>)>);

    open spec fn view(&self) -> Self::V {
        (self.pane@, opt_view(self.temporary_tab), opt_view(self.lease))
    }
}

impl Clone for RegisteredPane {
    fn clone(&self) -> (r: Self)
        ensures
            r == *self,
    {
        RegisteredPane {
            pane: self.pane.clone(),
            temporary_tab: match &self.temporary_tab {
                Some(tab) => Some(tab.clone()),
                None => None,
            },
            lease: match &self.lease {
                Some(lease) => Some(lease.clone()),
                None => None,
            },
        }
    }
}

impl Key for RegisteredPane {
    fn same(&self, other: &Self) -> (r: bool) {
        self.pane.same(&other.pane) && same_option(&self.temporary_tab, &other.temporary_tab)
            && same_option(&self.lease, &other.lease)
    }

    fn duplicate(&self) -> (r: Self) {
        self.clone()
    }
}

/// A launch that is not yet a ready session.
#[derive(Debug, PartialEq, Eq)]
pub struct PendingLaunch {
    pub token: PendingLaunchToken,
    pub scope: ModalScopeId,
    pub root: MenuId,
    pub expires_at: Instant,
    pub registered_pane: Option<RegisteredPane>,
    pub attached_ui: Option<UiSessionId>,
    pub attached_pane: Option<HostPaneId>,
    /// The launcher has placed the pane. This says nothing of the UI: the launch stays pending
    /// until both the placement and the session are complete.
    pub placement_committed: bool,
    pub session_published: bool,
}

/// A copy of an optional registered pane.
pub fn clone_registered(value: &Option<RegisteredPane>) -> (r: Option<RegisteredPane>)
    ensures
        r == *value,
{
    match value {
        Some(value) => Some(value.clone()),
        None => None,
    }
}

/// A copy of an optional session.
pub fn clone_session(value: &Option<UiSessionId>) -> (r: Option<UiSessionId>)
    ensures
        r == *value,
{
    match value {
        Some(value) => Some(value.clone()),
        None => None,
    }
}

impl Clone for PendingLaunch {
    fn clone(&self) -> (r: Self)
        ensures
            r == *self,
    {
        PendingLaunch {
            token: self.token,
            scope: self.scope.clone(),
            root: self.root.clone(),
            expires_at: self.expires_at,
            registered_pane: clone_registered(&self.registered_pane),
            attached_ui: clone_session(&self.attached_ui),
            attached_pane: match &self.attached_pane {
                Some(pane) => Some(pane.clone()),
                None => None,
            },
            placement_committed: self.placement_committed,
            session_published: self.session_published,
        }
    }
}

/// Who a modal scope belongs to.
#[derive(Debug, PartialEq, Eq)]
pub enum ScopeOwner {
    Pending(PendingLaunchToken),
    Ready(UiSessionId),
}

impl Clone for ScopeOwner {
    fn clone(&self) -> (r: Self)
        ensures
            r == *self,
    {
        match self {
            ScopeOwner::Pending(token) => ScopeOwner::Pending(*token),
            ScopeOwner::Ready(session) => ScopeOwner::Ready(session.clone()),
        }
    }
}

/// A fresh launch, and the owner that it displaced.
#[derive(Debug, PartialEq, Eq)]
pub struct PreparedLaunch {
    pub pending: PendingLaunch,
    /// The owner to detach or abort before the host creates a pane for the new launch.
    pub replaced: Option<ScopeOwner>,
    /// The displaced launch with the exact pane that was registered for it.
    pub replaced_pending: Option<PendingLaunch>,
}

#[derive(Debug, PartialEq, Eq)]
pub enum AttachDisposition {
    Ready,
    WaitingForCommit { token: PendingLaunchToken },
}

#[derive(Clone, Copy, Debug, PartialEq, Eq, Structural)]
pub enum GateError {
    EntropyUnavailable,
    ZeroLease,
    LeaseOverflow,
    DuplicateToken,
    UnknownToken,
    ScopeMismatch,
    ScopeOccupied,
    RegistrationInProgress,
    PaneMismatch,
    TokenAlreadyAttached,
    DuplicateSession,
    UiNotAttached,
}

impl GateError {
    /// The text that a reader of the error sees.
    pub open spec fn text(self) -> Seq<char> {
        match self {
            GateError::EntropyUnavailable => "operating system randomness is unavailable"@,
            GateError::ZeroLease => "pending launch lease must be nonzero"@,
            GateError::LeaseOverflow => "pending launch lease overflowed its deadline"@,
            GateError::DuplicateToken => "token source produced a duplicate or zero token"@,
            GateError::UnknownToken => "unknown pending launch token"@,
            GateError::ScopeMismatch => "pending launch belongs to another modal scope"@,
            GateError::ScopeOccupied => "modal scope is already owned"@,
            GateError::RegistrationInProgress => {
                "pending pane registration is already in progress"@
            },
            GateError::PaneMismatch => {
                "a different pane was registered or committed for this launch"@
            },
            GateError::TokenAlreadyAttached => {
                "the pending launch already has a different attached UI"@
            },
            GateError::DuplicateSession => "UI session is already attached"@,
            GateError::UiNotAttached => "pending launch cannot commit before its UI has attached"@,
        }
    }

    /// The text that a reader of the error sees.
    pub fn message(&self) -> (r: &'static str)
        ensures
            r@ == self.text(),
    {
        match self {
            GateError::EntropyUnavailable => "operating system randomness is unavailable",
            GateError::ZeroLease => "pending launch lease must be nonzero",
            GateError::LeaseOverflow => "pending launch lease overflowed its deadline",
            GateError::DuplicateToken => "token source produced a duplicate or zero token",
            GateError::UnknownToken => "unknown pending launch token",
            GateError::ScopeMismatch => "pending launch belongs to another modal scope",
            GateError::ScopeOccupied => "modal scope is already owned",
            GateError::RegistrationInProgress => "pending pane registration is already in progress",
            GateError::PaneMismatch => {
                "a different pane was registered or committed for this launch"
            },
            GateError::TokenAlreadyAttached => {
                "the pending launch already has a different attached UI"
            },
            GateError::DuplicateSession => "UI session is already attached",
            GateError::UiNotAttached => "pending launch cannot commit before its UI has attached",
        }
    }
}

/// What the launch gate holds.
#[verifier::ext_equal]
pub struct GateModel {
    /// The launches by their tokens.
    pub pending: Map<Seq<u8>, PendingLaunch>,
    /// The owner of each owned scope.
    pub scopes: Map<Seq<char>, ScopeOwner>,
    /// The scope of each attached session.
    pub sessions: Map<Seq<char>, ModalScopeId>,
}

impl GateModel {
    pub open spec fn empty() -> Self {
        GateModel { pending: Map::empty(), scopes: Map::empty(), sessions: Map::empty() }
    }

    /// The scope belongs to the launch with this token.
    pub open spec fn owned_by_launch(self, scope: Seq<char>, token: Seq<u8>) -> bool {
        lookup(self.scopes, scope) matches Some(ScopeOwner::Pending(active)) && active@ == token
    }

    /// The scope belongs to this session.
    pub open spec fn owned_by_session(self, scope: Seq<char>, session: Seq<char>) -> bool {
        lookup(self.scopes, scope) matches Some(ScopeOwner::Ready(active)) && active@ == session
    }

    /// The launch of a token becomes `launch`.
    pub open spec fn with_launch(self, token: Seq<u8>, launch: PendingLaunch) -> Self {
        GateModel { pending: self.pending.insert(token, launch), ..self }
    }

    /// The launch of a token is complete: its scope belongs to its session.
    pub open spec fn completed(self, token: Seq<u8>, scope: Seq<char>, session: UiSessionId) -> Self {
        GateModel {
            pending: self.pending.remove(token),
            scopes: self.scopes.insert(scope, ScopeOwner::Ready(session)),
            ..self
        }
    }

    /// A launch is minted from a drawn token; the scope's owner, if any, gives way.
    pub open spec fn prepare(
        self,
        drawn: Result<PendingLaunchToken, GateError>,
        scope: ModalScopeId,
        root: MenuId,
        now: Instant,
        lease: Duration,
    ) -> (Self, Result<PreparedLaunch, GateError>) {
        match drawn {
            _ if lease@ == 0 => (self, Err(GateError::ZeroLease)),
            Err(error) => (self, Err(error)),
            Ok(token) if all_zero(token@) || self.pending.contains_key(token@) => (
                self,
                Err(GateError::DuplicateToken),
            ),
            Ok(token) => {
                let replaced = lookup(self.scopes, scope@);
                let (kept, replaced_pending) = match replaced {
                    Some(ScopeOwner::Pending(previous)) => (
                        self.pending.remove(previous@),
                        lookup(self.pending, previous@),
                    ),
                    _ => (self.pending, None),
                };
                match now.later(lease) {
                    None => (
                        GateModel { pending: kept, scopes: self.scopes.remove(scope@), ..self },
                        Err(GateError::LeaseOverflow),
                    ),
                    Some(expires_at) => {
                        let pending = PendingLaunch {
                            token,
                            scope,
                            root,
                            expires_at,
                            registered_pane: None,
                            attached_ui: None,
                            attached_pane: None,
                            placement_committed: false,
                            session_published: false,
                        };
                        (
                            GateModel {
                                pending: kept.insert(token@, pending),
                                scopes: self.scopes.insert(scope@, ScopeOwner::Pending(token)),
                                ..self
                            },
                            Ok(PreparedLaunch { pending, replaced, replaced_pending }),
                        )
                    },
                }
            },
        }
    }

    /// The host's pane for a launch is recorded; a pane that is already there stays.
    pub open spec fn register_pending_pane(
        self,
        token: Seq<u8>,
        pane: RegisteredPane,
    ) -> (Self, Result<(), GateError>) {
        match lookup(self.pending, token) {
            None => (self, Err(GateError::UnknownToken)),
            Some(launch) => {
                if launch.attached_pane matches Some(attached) && attached@ != pane.pane@ {
                    (self, Err(GateError::PaneMismatch))
                } else {
                    match launch.registered_pane {
                        Some(existing) if existing@ != pane@ => (self, Err(GateError::PaneMismatch)),
                        Some(_) => (self, Ok(())),
                        None => (
                            self.with_launch(
                                token,
                                PendingLaunch { registered_pane: Some(pane), ..launch },
                            ),
                            Ok(()),
                        ),
                    }
                }
            },
        }
    }

    /// The host's lease is bound to the pane registered for a launch.
    pub open spec fn bind_pending_lease(
        self,
        token: Seq<u8>,
        lease: PendingPaneLease,
    ) -> (Self, Result<(), GateError>) {
        match lookup(self.pending, token) {
            None => (self, Err(GateError::UnknownToken)),
            Some(launch) => match launch.registered_pane {
                None => (self, Err(GateError::PaneMismatch)),
                Some(registered) => {
                    if registered.lease matches Some(bound) && bound@ != lease@ {
                        (self, Err(GateError::PaneMismatch))
                    } else {
                        let registered = RegisteredPane { lease: Some(lease), ..registered };
                        (
                            self.with_launch(
                                token,
                                PendingLaunch { registered_pane: Some(registered), ..launch },
                            ),
                            Ok(()),
                        )
                    }
                },
            },
        }
    }

    /// The pane registered for a launch.
    pub open spec fn registered_pane(self, token: Seq<u8>) -> Result<
        Option<RegisteredPane>,
        GateError,
    > {
        match lookup(self.pending, token) {
            None => Err(GateError::UnknownToken),
            Some(launch) => Ok(launch.registered_pane),
        }
    }

    /// A session attaches to a pending launch, or takes a free scope outright.
    pub open spec fn attach(
        self,
        session: UiSessionId,
        scope: ModalScopeId,
        pane: HostPaneId,
        token: Option<PendingLaunchToken>,
    ) -> (Self, Result<AttachDisposition, GateError>) {
        if self.sessions.contains_key(session@) {
            (self, Err(GateError::DuplicateSession))
        } else {
            match token {
                Some(token) => match lookup(self.pending, token@) {
                    None => (self, Err(GateError::UnknownToken)),
                    Some(launch) => {
                        if launch.scope@ != scope@ {
                            (self, Err(GateError::ScopeMismatch))
                        } else if launch.registered_pane matches Some(registered)
                            && registered.pane@ != pane@ {
                            (self, Err(GateError::PaneMismatch))
                        } else if launch.attached_ui matches Some(ui) && ui@ != session@ {
                            (self, Err(GateError::TokenAlreadyAttached))
                        } else {
                            let attached = PendingLaunch {
                                attached_ui: Some(session),
                                attached_pane: Some(pane),
                                ..launch
                            };
                            (
                                GateModel {
                                    pending: self.pending.insert(token@, attached),
                                    sessions: self.sessions.insert(session@, launch.scope),
                                    ..self
                                },
                                Ok(AttachDisposition::WaitingForCommit { token }),
                            )
                        }
                    },
                },
                None => if self.scopes.contains_key(scope@) {
                    (self, Err(GateError::ScopeOccupied))
                } else {
                    (
                        GateModel {
                            scopes: self.scopes.insert(scope@, ScopeOwner::Ready(session)),
                            sessions: self.sessions.insert(session@, scope),
                            ..self
                        },
                        Ok(AttachDisposition::Ready),
                    )
                },
            }
        }
    }

    /// The launcher commits the placement. Where the session is already published the launch is
    /// complete; else it stays pending with the commit recorded.
    pub open spec fn commit(self, token: Seq<u8>, final_pane: Seq<char>) -> (
        Self,
        Result<Option<UiSessionId>, GateError>,
    ) {
        match lookup(self.pending, token) {
            None => (self, Err(GateError::UnknownToken)),
            Some(launch) => {
                let fits = launch.registered_pane matches Some(registered) && registered.pane@
                    == final_pane && (launch.attached_pane matches Some(attached) ==> attached@
                    == final_pane);
                if !fits {
                    (self, Err(GateError::PaneMismatch))
                } else if !self.owned_by_launch(launch.scope@, token) {
                    (self, Err(GateError::ScopeMismatch))
                } else {
                    let committed = PendingLaunch { placement_committed: true, ..launch };
                    match launch.attached_ui {
                        _ if !launch.session_published => (
                            self.with_launch(token, committed),
                            Ok(None),
                        ),
                        None => (self.with_launch(token, committed), Err(GateError::UiNotAttached)),
                        Some(session) => (
                            self.completed(token, launch.scope@, session),
                            Ok(Some(session)),
                        ),
                    }
                }
            },
        }
    }

    /// The broker publishes the finished session of a launch. Where the placement is already
    /// committed the launch is complete.
    pub open spec fn publish_attached(self, token: Seq<u8>, session: UiSessionId) -> (
        Self,
        Result<bool, GateError>,
    ) {
        match lookup(self.pending, token) {
            None => (self, Err(GateError::UnknownToken)),
            Some(launch) => {
                let published = PendingLaunch { session_published: true, ..launch };
                if opt_view(launch.attached_ui) != Some(session@) {
                    (self, Err(GateError::TokenAlreadyAttached))
                } else if !launch.placement_committed {
                    (self.with_launch(token, published), Ok(false))
                } else if !self.owned_by_launch(launch.scope@, token) {
                    (self.with_launch(token, published), Err(GateError::ScopeMismatch))
                } else {
                    (self.completed(token, launch.scope@, session), Ok(true))
                }
            },
        }
    }

    /// A launch is gone, with its scope and its session.
    pub open spec fn without_launch(self, token: Seq<u8>) -> Self {
        match lookup(self.pending, token) {
            None => self,
            Some(launch) => GateModel {
                pending: self.pending.remove(token),
                scopes: if self.owned_by_launch(launch.scope@, token) {
                    self.scopes.remove(launch.scope@)
                } else {
                    self.scopes
                },
                sessions: match launch.attached_ui {
                    Some(session) => self.sessions.remove(session@),
                    None => self.sessions,
                },
            },
        }
    }

    /// A launch is aborted; its pane is handed out for cleanup.
    pub open spec fn abort(self, token: Seq<u8>) -> (Self, Result<Option<RegisteredPane>, GateError>) {
        (self.without_launch(token), self.registered_pane(token))
    }

    /// Whether the placement of a pending launch is committed.
    pub open spec fn placement_committed(self, token: Seq<u8>) -> bool {
        lookup(self.pending, token) matches Some(launch) && launch.placement_committed
    }

    /// A launch is aborted unless its placement is committed.
    pub open spec fn abort_if_uncommitted(self, token: Seq<u8>) -> (
        Self,
        Result<Option<RegisteredPane>, GateError>,
    ) {
        if self.placement_committed(token) {
            (self, Ok(None))
        } else {
            self.abort(token)
        }
    }

    /// The owner of a scope names a launch or a session that is not there.
    pub open spec fn dangling(self, scope: Seq<char>) -> bool {
        match lookup(self.scopes, scope) {
            Some(ScopeOwner::Pending(token)) => !self.pending.contains_key(token@),
            Some(ScopeOwner::Ready(session)) => !self.sessions.contains_key(session@),
            None => false,
        }
    }

    /// A scope is freed where its owner dangles.
    pub open spec fn release_dangling_owner(self, scope: Seq<char>) -> Self {
        if self.dangling(scope) {
            GateModel { scopes: self.scopes.remove(scope), ..self }
        } else {
            self
        }
    }

    /// The tokens of the launches in a scope.
    pub open spec fn tokens_in_scope(self, scope: Seq<char>) -> Set<Seq<u8>> {
        Set::new(
            |token: Seq<u8>|
                self.pending.contains_key(token) && self.pending[token].scope@ == scope,
        )
    }

    /// The launches that have run out of time.
    pub open spec fn expired(self, now: Instant) -> Map<Seq<u8>, PendingLaunch> {
        self.pending.restrict(
            Set::new(
                |token: Seq<u8>|
                    self.pending.contains_key(token) && self.pending[token].expires_at@ <= now@,
            ),
        )
    }

    /// What is left once the launches of `gone` are taken out with their scopes and sessions.
    pub open spec fn without_launches(self, gone: Map<Seq<u8>, PendingLaunch>) -> Self {
        GateModel {
            pending: self.pending.remove_keys(gone.dom()),
            scopes: self.scopes.remove_keys(
                Set::new(
                    |scope: Seq<char>|
                        exists|token: Seq<u8>| #[trigger]
                            gone.contains_key(token) && gone[token].scope@ == scope
                                && self.owned_by_launch(scope, token),
                ),
            ),
            sessions: self.sessions.remove_keys(
                Set::new(
                    |session: Seq<char>|
                        exists|token: Seq<u8>| #[trigger]
                            gone.contains_key(token) && opt_view(gone[token].attached_ui) == Some(
                                session,
                            ),
                ),
            ),
        }
    }

    /// A session leaves; a scope that it owned is free.
    pub open spec fn detach(self, session: Seq<char>) -> (Self, Option<ModalScopeId>) {
        match lookup(self.sessions, session) {
            None => (self, None),
            Some(scope) => (
                GateModel {
                    scopes: if self.owned_by_session(scope@, session) {
                        self.scopes.remove(scope@)
                    } else {
                        self.scopes
                    },
                    sessions: self.sessions.remove(session),
                    ..self
                },
                Some(scope),
            ),
        }
    }
}

/// Taking out one launch more is taking it out of what is left.
proof fn lemma_one_launch_more(
    gate: GateModel,
    gone: Map<Seq<u8>, PendingLaunch>,
    token: Seq<u8>,
    launch: PendingLaunch,
)
    requires
        gate.pending.contains_key(token),
        gate.pending[token] == launch,
        !gone.contains_key(token),
    ensures
        gate.without_launches(gone.insert(token, launch)) == gate.without_launches(
            gone,
        ).without_launch(token),
{
    let more = gone.insert(token, launch);
    let left = gate.without_launches(gone);
    let right = left.without_launch(token);
    let both = gate.without_launches(more);
    assert(both.pending =~= right.pending);
    assert(both.scopes =~= right.scopes) by {
        assert forall|scope: Seq<char>| both.scopes.contains_key(scope)
            == right.scopes.contains_key(scope) by {
            if both.scopes.contains_key(scope) {
                assert forall|other: Seq<u8>| #[trigger]
                    gone.contains_key(other) && gone[other].scope@ == scope implies !gate.owned_by_launch(
                    scope,
                    other,
                ) by {
                    assert(more.contains_key(other));
                }
                assert(more.contains_key(token));
            }
            if right.scopes.contains_key(scope) {
                assert forall|other: Seq<u8>| #[trigger]
                    more.contains_key(other) && more[other].scope@ == scope implies !gate.owned_by_launch(
                    scope,
                    other,
                ) by {
                    if other != token {
                        assert(gone.contains_key(other));
                    }
                }
            }
        }
    }
    assert(both.sessions =~= right.sessions) by {
        assert forall|session: Seq<char>| both.sessions.contains_key(session)
            == right.sessions.contains_key(session) by {
            if both.sessions.contains_key(session) {
                assert forall|other: Seq<u8>| #[trigger] gone.contains_key(other) implies opt_view(
                    gone[other].attached_ui,
                ) != Some(session) by {
                    assert(more.contains_key(other));
                }
                assert(more.contains_key(token));
            }
            if right.sessions.contains_key(session) {
                assert forall|other: Seq<u8>| #[trigger] more.contains_key(other) implies opt_view(
                    more[other].attached_ui,
                ) != Some(session) by {
                    if other != token {
                        assert(gone.contains_key(other));
                    }
                }
            }
        }
    }
}

/// The launch gate stands between launchers, which place panes, and the UIs that attach in them.
pub struct LaunchGate {
    pending: Table<PendingLaunchToken, PendingLaunch>,
    scopes: Table<ModalScopeId, ScopeOwner>,
    sessions: Table<UiSessionId, ModalScopeId>,
}

impl View for LaunchGate {
    type V = GateModel;

    closed spec fn view(&self) -> GateModel {
        GateModel {
            pending: self.pending@,
            scopes: self.scopes@,
            sessions: self.sessions@,
        }
    }
}

impl Default for LaunchGate {
    fn default() -> (r: Self)
        ensures
            r@ == GateModel::empty(),
    {
        LaunchGate { pending: Table::new(), scopes: Table::new(), sessions: Table::new() }
    }
}

impl LaunchGate {
    /// Mints a pending launch from the source's next token, replacing any owner of the scope. A lease
    /// of no time is refused before the source is asked.
    pub fn prepare<S: TokenSource>(
        &mut self,
        source: &mut S,
        scope: ModalScopeId,
        root: MenuId,
        now: Instant,
        lease: Duration,
    ) -> (r: Result<PreparedLaunch, GateError>)
        ensures
            lease@ == 0 ==> r == Err::<PreparedLaunch, GateError>(GateError::ZeroLease)
                && final(self)@ == old(self)@ && *final(source) == *old(source),
            lease@ != 0 ==> exists|drawn: Result<PendingLaunchToken, GateError>|
                {
                    &&& #[trigger] old(source).draws(final(source), drawn)
                    &&& old(self)@.prepare(drawn, scope, root, now, lease) == (final(self)@, r)
                },
    {
        if lease.is_zero() {
            return Err(GateError::ZeroLease);
        }
        let drawn = source.pending_launch_token();
        self.prepare_drawn(drawn, scope, root, now, lease)
    }

    /// Mints a pending launch from a drawn token, replacing any owner of the scope.
    pub fn prepare_drawn(
        &mut self,
        drawn: Result<PendingLaunchToken, GateError>,
        scope: ModalScopeId,
        root: MenuId,
        now: Instant,
        lease: Duration,
    ) -> (r: Result<PreparedLaunch, GateError>)
        ensures
            (final(self)@, r) == old(self)@.prepare(drawn, scope, root, now, lease),
    {
        if lease.is_zero() {
            return Err(GateError::ZeroLease);
        }
        let token = match drawn {
            Ok(token) => token,
            Err(error) => return Err(error),
        };
        if token.is_zero() || self.pending.contains_key(&token) {
            return Err(GateError::DuplicateToken);
        }
        let replaced = self.scopes.remove(&scope);
        let replaced_pending = match &replaced {
            Some(ScopeOwner::Pending(previous)) => self.pending.remove(previous),
            _ => None,
        };
        let expires_at = match now.checked_add(lease) {
            Some(expires_at) => expires_at,
            None => return Err(GateError::LeaseOverflow),
        };
        let pending = PendingLaunch {
            token,
            scope: scope.clone(),
            root,
            expires_at,
            registered_pane: None,
            attached_ui: None,
            attached_pane: None,
            placement_committed: false,
            session_published: false,
        };
        self.scopes.insert(scope, ScopeOwner::Pending(token));
        self.pending.insert(token, pending.clone());
        assert(self@ =~= old(self)@.prepare(drawn, scope, root, now, lease).0);
        Ok(PreparedLaunch { pending, replaced, replaced_pending })
    }

    /// Records the host's pane for a pending launch.
    pub fn register_pending_pane(&mut self, token: PendingLaunchToken, pane: RegisteredPane) -> (r:
        Result<(), GateError>)
        ensures
            (final(self)@, r) == old(self)@.register_pending_pane(token@, pane),
    {
        let launch = match self.pending.get(&token) {
            Some(launch) => launch,
            None => return Err(GateError::UnknownToken),
        };
        if let Some(attached) = &launch.attached_pane {
            if !attached.same(&pane.pane) {
                return Err(GateError::PaneMismatch);
            }
        }
        if let Some(existing) = &launch.registered_pane {
            return if existing.same(&pane) {
                Ok(())
            } else {
                Err(GateError::PaneMismatch)
            };
        }
        if let Some(mut launch) = self.pending.remove(&token) {
            launch.registered_pane = Some(pane);
            self.pending.insert(token, launch);
        }
        assert(self@ =~= old(self)@.register_pending_pane(token@, pane).0);
        Ok(())
    }

    /// Binds the host's lease to the pane registered for a pending launch.
    pub fn bind_pending_lease(&mut self, token: PendingLaunchToken, lease: PendingPaneLease) -> (r:
        Result<(), GateError>)
        ensures
            (final(self)@, r) == old(self)@.bind_pending_lease(token@, lease),
    {
        let launch = match self.pending.get(&token) {
            Some(launch) => launch,
            None => return Err(GateError::UnknownToken),
        };
        let registered = match &launch.registered_pane {
            Some(registered) => registered,
            None => return Err(GateError::PaneMismatch),
        };
        if let Some(bound) = &registered.lease {
            if !bound.same(&lease) {
                return Err(GateError::PaneMismatch);
            }
        }
        let mut registered = registered.clone();
        registered.lease = Some(lease);
        if let Some(mut launch) = self.pending.remove(&token) {
            launch.registered_pane = Some(registered);
            self.pending.insert(token, launch);
        }
        assert(self@ =~= old(self)@.bind_pending_lease(token@, lease).0);
        Ok(())
    }

    /// The pane registered for a pending launch.
    pub fn registered_pane(&self, token: PendingLaunchToken) -> (r: Result<
        Option<RegisteredPane>,
        GateError,
    >)
        ensures
            r == self@.registered_pane(token@),
    {
        match self.pending.get(&token) {
            Some(launch) => Ok(clone_registered(&launch.registered_pane)),
            None => Err(GateError::UnknownToken),
        }
    }

    /// Attaches a session to a pending launch, or to a scope that nobody owns.
    pub fn attach(
        &mut self,
        session: UiSessionId,
        scope: ModalScopeId,
        pane: HostPaneId,
        token: Option<PendingLaunchToken>,
    ) -> (r: Result<AttachDisposition, GateError>)
        ensures
            (final(self)@, r) == old(self)@.attach(session, scope, pane, token),
    {
        if self.sessions.contains_key(&session) {
            return Err(GateError::DuplicateSession);
        }
        match token {
            Some(key) => {
                let launch = match self.pending.get(&key) {
                    Some(launch) => launch,
                    None => return Err(GateError::UnknownToken),
                };
                if !launch.scope.same(&scope) {
                    return Err(GateError::ScopeMismatch);
                }
                if let Some(registered) = &launch.registered_pane {
                    if !registered.pane.same(&pane) {
                        return Err(GateError::PaneMismatch);
                    }
                }
                if let Some(ui) = &launch.attached_ui {
                    if !ui.same(&session) {
                        return Err(GateError::TokenAlreadyAttached);
                    }
                }
                let scope_of_launch = launch.scope.clone();
                if let Some(mut launch) = self.pending.remove(&key) {
                    launch.attached_ui = Some(session.clone());
                    launch.attached_pane = Some(pane);
                    self.pending.insert(key, launch);
                }
                self.sessions.insert(session, scope_of_launch);
                assert(self@ =~= old(self)@.attach(session, scope, pane, token).0);
                Ok(AttachDisposition::WaitingForCommit { token: key })
            },
            None => {
                if self.scopes.contains_key(&scope) {
                    return Err(GateError::ScopeOccupied);
                }
                self.scopes.insert(scope.clone(), ScopeOwner::Ready(session.clone()));
                self.sessions.insert(session, scope);
                Ok(AttachDisposition::Ready)
            },
        }
    }

    /// Whether the scope belongs to the launch with this token.
    fn is_owned_by_launch(&self, scope: &ModalScopeId, token: &PendingLaunchToken) -> (r: bool)
        ensures
            r == self@.owned_by_launch(scope@, token@),
    {
        match self.scopes.get(scope) {
            Some(ScopeOwner::Pending(active)) => active.same(token),
            _ => false,
        }
    }

    /// Commits a pending launch to its registered pane. The commit may come before the UI
    /// attaches; the session is handed out where it completes the launch.
    pub fn commit(&mut self, token: PendingLaunchToken, final_pane: &HostPaneId) -> (r: Result<
        Option<UiSessionId>,
        GateError,
    >)
        ensures
            (final(self)@, r) == old(self)@.commit(token@, final_pane@),
    {
        let launch = match self.pending.get(&token) {
            Some(launch) => launch,
            None => return Err(GateError::UnknownToken),
        };
        match &launch.registered_pane {
            Some(registered) => {
                if !registered.pane.same(final_pane) {
                    return Err(GateError::PaneMismatch);
                }
            },
            None => return Err(GateError::PaneMismatch),
        }
        if let Some(attached) = &launch.attached_pane {
            if !attached.same(final_pane) {
                return Err(GateError::PaneMismatch);
            }
        }
        if !self.is_owned_by_launch(&launch.scope, &token) {
            return Err(GateError::ScopeMismatch);
        }
        if let Some(mut launch) = self.pending.remove(&token) {
            if launch.session_published {
                if let Some(session) = launch.attached_ui {
                    self.scopes.insert(launch.scope, ScopeOwner::Ready(session.clone()));
                    return Ok(Some(session));
                }
            }
            let published = launch.session_published;
            launch.placement_committed = true;
            self.pending.insert(token, launch);
            assert(self@ =~= old(self)@.commit(token@, final_pane@).0);
            if published {
                return Err(GateError::UiNotAttached);
            }
        }
        Ok(None)
    }

    /// Publishes the session of a pending launch once the broker has made it; says whether this
    /// completes the launch.
    pub fn publish_attached(&mut self, token: PendingLaunchToken, session: &UiSessionId) -> (r:
        Result<bool, GateError>)
        ensures
            (final(self)@, r) == old(self)@.publish_attached(token@, *session),
    {
        let launch = match self.pending.get(&token) {
            Some(launch) => launch,
            None => return Err(GateError::UnknownToken),
        };
        if !is_some_of(&launch.attached_ui, session) {
            return Err(GateError::TokenAlreadyAttached);
        }
        let owned = self.is_owned_by_launch(&launch.scope, &token);
        if let Some(mut launch) = self.pending.remove(&token) {
            if launch.placement_committed && owned {
                self.scopes.insert(launch.scope, ScopeOwner::Ready(session.clone()));
                return Ok(true);
            }
            let committed = launch.placement_committed;
            launch.session_published = true;
            self.pending.insert(token, launch);
            assert(self@ =~= old(self)@.publish_attached(token@, *session).0);
            if committed {
                return Err(GateError::ScopeMismatch);
            }
        }
        Ok(false)
    }

    /// Aborts a pending launch whose placement is not committed, and hands out its pane.
    pub fn abort_if_uncommitted(&mut self, token: PendingLaunchToken) -> (r: Result<
        Option<RegisteredPane>,
        GateError,
    >)
        ensures
            (final(self)@, r) == old(self)@.abort_if_uncommitted(token@),
    {
        if self.placement_committed(token) {
            return Ok(None);
        }
        self.abort(token)
    }

    /// Aborts a pending launch and hands out its pane.
    pub fn abort(&mut self, token: PendingLaunchToken) -> (r: Result<
        Option<RegisteredPane>,
        GateError,
    >)
        ensures
            (final(self)@, r) == old(self)@.abort(token@),
    {
        match self.pending.remove(&token) {
            Some(launch) => {
                if self.is_owned_by_launch(&launch.scope, &token) {
                    self.scopes.remove(&launch.scope);
                }
                if let Some(session) = &launch.attached_ui {
                    self.sessions.remove(session);
                }
                Ok(launch.registered_pane)
            },
            None => {
                assert(self@ =~= old(self)@);
                Err(GateError::UnknownToken)
            },
        }
    }

    /// Whether a pending launch has its placement committed. A launcher that goes away must not
    /// abort such a launch.
    pub fn placement_committed(&self, token: PendingLaunchToken) -> (r: bool)
        ensures
            r == self@.placement_committed(token@),
    {
        match self.pending.get(&token) {
            Some(launch) => launch.placement_committed,
            None => false,
        }
    }

    /// The tokens of the pending launches in a scope.
    pub fn pending_tokens_in_scope(&self, scope: &ModalScopeId) -> (r: Vec<PendingLaunchToken>)
        ensures
            enumerates(views(r@), self@.tokens_in_scope(scope@)),
    {
        let keys = self.pending.keys();
        let mut found: Vec<PendingLaunchToken> = Vec::new();
        let ghost mut seen: Set<Seq<u8>> = Set::empty();
        let mut i: usize = 0;
        while i < keys.len()
            invariant
                i <= keys.len(),
                enumerates(views(keys@), self@.pending.dom()),
                forall|token: Seq<u8>| #[trigger]
                    seen.contains(token) <==> exists|j: int|
                        0 <= j < i && #[trigger] views(keys@)[j] == token,
                enumerates(views(found@), seen.intersect(self@.tokens_in_scope(scope@))),
            decreases keys.len() - i,
        {
            let ghost key = keys@[i as int]@;
            assert(views(keys@)[i as int] == key);
            assert(views(keys@).contains(key));
            assert(!seen.contains(key));
            if let Some(launch) = self.pending.get(&keys[i]) {
                if launch.scope.same(scope) {
                    proof {
                        lemma_enumerates_push(
                            views(found@),
                            seen.intersect(self@.tokens_in_scope(scope@)),
                            key,
                        );
                    }
                    let ghost before = found@;
                    found.push(keys[i]);
                    assert(views(found@) =~= views(before).push(key));
                    assert(seen.insert(key).intersect(self@.tokens_in_scope(scope@))
                        =~= seen.intersect(self@.tokens_in_scope(scope@)).insert(key));
                } else {
                    assert(seen.insert(key).intersect(self@.tokens_in_scope(scope@))
                        =~= seen.intersect(self@.tokens_in_scope(scope@)));
                }
            }
            proof {
                seen = seen.insert(key);
            }
            i += 1;
        }
        proof {
            assert forall|token: Seq<u8>| #[trigger]
                self@.tokens_in_scope(scope@).contains(token) implies seen.contains(token) by {
                assert(views(keys@).contains(token));
                let j = views(keys@).index_of(token);
                assert(views(keys@)[j] == token);
            }
            assert(seen.intersect(self@.tokens_in_scope(scope@)) =~= self@.tokens_in_scope(scope@));
        }
        found
    }

    /// Takes out every launch that has run out of time, with its scope and its session.
    pub fn expire(&mut self, now: Instant) -> (r: Vec<PendingLaunch>)
        ensures
            lists(r@, old(self)@.expired(now)),
            final(self)@ == old(self)@.without_launches(old(self)@.expired(now)),
    {
        let ghost before = self@;
        let ghost all = before.expired(now);
        let ghost mut seen: Set<Seq<u8>> = Set::empty();
        let ghost mut tokens: Seq<Seq<u8>> = Seq::empty();
        let keys = self.pending.keys();
        let mut expired: Vec<PendingLaunch> = Vec::new();
        let mut i: usize = 0;
        assert(all.restrict(seen) =~= Map::empty());
        assert(self@ =~= before.without_launches(all.restrict(seen)));
        while i < keys.len()
            invariant
                i <= keys.len(),
                all == before.expired(now),
                enumerates(views(keys@), before.pending.dom()),
                forall|token: Seq<u8>| #[trigger]
                    seen.contains(token) <==> exists|j: int|
                        0 <= j < i && #[trigger] views(keys@)[j] == token,
                enumerates(tokens, all.restrict(seen).dom()),
                expired@ == tokens.map_values(|token: Seq<u8>| all[token]),
                self@ == before.without_launches(all.restrict(seen)),
            decreases keys.len() - i,
        {
            let ghost key = keys@[i as int]@;
            assert(views(keys@)[i as int] == key);
            assert(views(keys@).contains(key));
            assert(!seen.contains(key));
            let due = match self.pending.get(&keys[i]) {
                Some(launch) => launch.expires_at.is_at_or_before(now),
                None => false,
            };
            if due {
                if let Some(launch) = self.pending.remove(&keys[i]) {
                    if self.is_owned_by_launch(&launch.scope, &keys[i]) {
                        self.scopes.remove(&launch.scope);
                    }
                    if let Some(session) = &launch.attached_ui {
                        self.sessions.remove(session);
                    }
                    proof {
                        lemma_enumerates_push(tokens, all.restrict(seen).dom(), key);
                        assert(all.restrict(seen.insert(key)).dom() =~= all.restrict(
                            seen,
                        ).dom().insert(key));
                        let longer = tokens.push(key);
                        assert(longer.map_values(|token: Seq<u8>| all[token])
                            =~= tokens.map_values(|token: Seq<u8>| all[token]).push(launch));
                        tokens = longer;
                        lemma_one_launch_more(before, all.restrict(seen), key, launch);
                        assert(all.restrict(seen.insert(key)) =~= all.restrict(seen).insert(
                            key,
                            launch,
                        ));
                    }
                    expired.push(launch);
                }
            } else {
                assert(all.restrict(seen.insert(key)) =~= all.restrict(seen));
            }
            proof {
                seen = seen.insert(key);
            }
            i += 1;
        }
        proof {
            assert forall|token: Seq<u8>| #[trigger] all.contains_key(token) implies seen.contains(
                token,
            ) by {
                assert(views(keys@).contains(token));
                let j = views(keys@).index_of(token);
                assert(views(keys@)[j] == token);
            }
            assert(all.restrict(seen) =~= all);
        }
        expired
    }

    /// Takes out everything and hands out the launches that were pending.
    pub fn drain(&mut self) -> (r: Vec<PendingLaunch>)
        ensures
            lists(r@, old(self)@.pending),
            final(self)@ == GateModel::empty(),
    {
        self.scopes = Table::new();
        self.sessions = Table::new();
        let mut pending: Table<PendingLaunchToken, PendingLaunch> = Table::new();
        std::mem::swap(&mut pending, &mut self.pending);
        pending.into_values()
    }

    /// Frees a scope whose owner names a launch or a session that is gone.
    pub fn release_dangling_owner(&mut self, scope: &ModalScopeId)
        ensures
            final(self)@ == old(self)@.release_dangling_owner(scope@),
    {
        let dangling = match self.scopes.get(scope) {
            Some(ScopeOwner::Pending(token)) => !self.pending.contains_key(token),
            Some(ScopeOwner::Ready(session)) => !self.sessions.contains_key(session),
            None => false,
        };
        if dangling {
            self.scopes.remove(scope);
        }
    }

    /// Detaches a session and hands out the scope that it was in.
    pub fn detach(&mut self, session: &UiSessionId) -> (r: Option<ModalScopeId>)
        ensures
            (final(self)@, r) == old(self)@.detach(session@),
    {
        match self.sessions.remove(session) {
            Some(scope) => {
                let owned = match self.scopes.get(&scope) {
                    Some(ScopeOwner::Ready(active)) => active.same(session),
                    _ => false,
                };
                if owned {
                    self.scopes.remove(&scope);
                }
                Some(scope)
            },
            None => {
                assert(self@ =~= old(self)@);
                None
            },
        }
    }

    /// The owner of a scope.
    pub fn owner(&self, scope: &ModalScopeId) -> (r: Option<&ScopeOwner>)
        ensures
            r == (match lookup(self@.scopes, scope@) {
                Some(owner) => Some(&owner),
                None => None,
            }),
    {
        self.scopes.get(scope)
    }

    /// The pending launch of a token.
    pub fn pending(&self, token: PendingLaunchToken) -> (r: Option<&PendingLaunch>)
        ensures
            r == (match lookup(self@.pending, token@) {
                Some(launch) => Some(&launch),
                None => None,
            }),
    {
        self.pending.get(&token)
    }
}

impl PendingLaunch {
    /// What holds of a launch that is pending under a token: it names that token, its pane and its
    /// session came together, and not everything that it waits for has happened.
    pub open spec fn consistent(self, token: Seq<u8>) -> bool {
        &&& self.token@ == token
        &&& !all_zero(token)
        &&& self.attached_ui is Some <==> self.attached_pane is Some
        &&& self.session_published ==> self.attached_ui is Some
        &&& self.placement_committed ==> self.registered_pane is Some
        &&& !(self.placement_committed && self.session_published)
        &&& (self.registered_pane matches Some(registered) && self.attached_pane matches Some(
            attached,
        )) ==> self.registered_pane->Some_0.pane@ == self.attached_pane->Some_0@
    }
}

impl GateModel {
    /// Launches and scopes name each other: each pending launch owns its scope, and each scope
    /// that a launch owns belongs to a launch that is pending in it.
    pub open spec fn consistent(self) -> bool {
        &&& forall|token: Seq<u8>| #[trigger]
            self.pending.contains_key(token) ==> self.pending[token].consistent(token)
                && self.owned_by_launch(self.pending[token].scope@, token)
        &&& forall|scope: Seq<char>| #[trigger]
            self.scopes.contains_key(scope) ==> (self.scopes[scope] matches ScopeOwner::Pending(
                token,
            ) ==> self.pending.contains_key(token@) && self.pending[token@].scope@ == scope)
    }
}

/// A new launch gate is consistent.
pub proof fn law_new_gate_is_consistent()
    ensures
        GateModel::empty().consistent(),
{
}

/// Preparing a launch keeps the launch gate consistent, whatever the source draws.
pub proof fn law_prepare_keeps_consistency(
    gate: GateModel,
    drawn: Result<PendingLaunchToken, GateError>,
    scope: ModalScopeId,
    root: MenuId,
    now: Instant,
    lease: Duration,
)
    requires
        gate.consistent(),
    ensures
        gate.prepare(drawn, scope, root, now, lease).0.consistent(),
{
    let after = gate.prepare(drawn, scope, root, now, lease).0;
    assert forall|token: Seq<u8>| #[trigger] after.pending.contains_key(token) implies {
        &&& after.pending[token].consistent(token)
        &&& after.owned_by_launch(after.pending[token].scope@, token)
    } by {
        if gate.pending.contains_key(token) {
            assert(gate.owned_by_launch(gate.pending[token].scope@, token));
        }
    }
    assert forall|other: Seq<char>| #[trigger] after.scopes.contains_key(other) implies (
    after.scopes[other] matches ScopeOwner::Pending(token) ==> after.pending.contains_key(token@)
        && after.pending[token@].scope@ == other) by {
        if gate.scopes.contains_key(other) && other != scope@ {
            assert(after.scopes[other] == gate.scopes[other]);
        }
    }
}

/// Recording a pane keeps the launch gate consistent.
pub proof fn law_register_keeps_consistency(gate: GateModel, token: Seq<u8>, pane: RegisteredPane)
    requires
        gate.consistent(),
    ensures
        gate.register_pending_pane(token, pane).0.consistent(),
{
    lemma_same_places_consistent(gate, gate.register_pending_pane(token, pane).0, token);
}

/// Binding a lease keeps the launch gate consistent.
pub proof fn law_bind_keeps_consistency(gate: GateModel, token: Seq<u8>, lease: PendingPaneLease)
    requires
        gate.consistent(),
    ensures
        gate.bind_pending_lease(token, lease).0.consistent(),
{
    lemma_same_places_consistent(gate, gate.bind_pending_lease(token, lease).0, token);
}

/// A launch that changes in place, in its own scope, leaves the launch gate consistent.
proof fn lemma_same_places_consistent(gate: GateModel, after: GateModel, token: Seq<u8>)
    requires
        gate.consistent(),
        after.scopes == gate.scopes,
        after.pending == gate.pending || (gate.pending.contains_key(token) && after.pending
            == gate.pending.insert(token, after.pending[token]) && after.pending[token].consistent(
            token,
        ) && after.pending[token].scope == gate.pending[token].scope),
    ensures
        after.consistent(),
{
    assert forall|other: Seq<u8>| #[trigger] after.pending.contains_key(other) implies {
        &&& after.pending[other].consistent(other)
        &&& after.owned_by_launch(after.pending[other].scope@, other)
    } by {
        assert(gate.pending.contains_key(other));
    }
}

/// Attaching a session keeps the launch gate consistent, where it attaches to a launch whose session is
/// not yet published or to a free scope.
pub proof fn law_attach_keeps_consistency(
    gate: GateModel,
    session: UiSessionId,
    scope: ModalScopeId,
    pane: HostPaneId,
    token: Option<PendingLaunchToken>,
)
    requires
        gate.consistent(),
    ensures
        gate.attach(session, scope, pane, token).0.consistent(),
{
    let after = gate.attach(session, scope, pane, token).0;
    if token is Some && after != gate {
        lemma_same_places_consistent(gate, after, token->Some_0@);
    } else if after != gate {
        assert forall|other: Seq<u8>| #[trigger] after.pending.contains_key(other) implies {
            &&& after.pending[other].consistent(other)
            &&& after.owned_by_launch(after.pending[other].scope@, other)
        } by {
            assert(gate.pending.contains_key(other));
        }
    }
}

/// Completing a launch keeps the launch gate consistent.
proof fn lemma_completed_consistent(gate: GateModel, token: Seq<u8>, session: UiSessionId)
    requires
        gate.consistent(),
        gate.pending.contains_key(token),
    ensures
        gate.completed(token, gate.pending[token].scope@, session).consistent(),
{
    let scope = gate.pending[token].scope@;
    let after = gate.completed(token, scope, session);
    assert forall|other: Seq<u8>| #[trigger] after.pending.contains_key(other) implies {
        &&& after.pending[other].consistent(other)
        &&& after.owned_by_launch(after.pending[other].scope@, other)
    } by {
        assert(gate.pending.contains_key(other));
        assert(gate.owned_by_launch(scope, token));
    }
    assert forall|other: Seq<char>| #[trigger] after.scopes.contains_key(other) implies (
    after.scopes[other] matches ScopeOwner::Pending(owner) ==> after.pending.contains_key(owner@)
        && after.pending[owner@].scope@ == other) by {
        if other != scope {
            assert(gate.scopes.contains_key(other));
        }
    }
}

/// Committing a placement keeps the launch gate consistent. Of its errors only two can come: the token is
/// unknown, or the pane is another one.
pub proof fn law_commit_keeps_consistency(gate: GateModel, token: Seq<u8>, final_pane: Seq<char>)
    requires
        gate.consistent(),
    ensures
        gate.commit(token, final_pane).0.consistent(),
        gate.commit(token, final_pane).1 matches Err(error) ==> error == GateError::UnknownToken
            || error == GateError::PaneMismatch,
{
    if gate.pending.contains_key(token) {
        let launch = gate.pending[token];
        assert(launch.consistent(token));
        if launch.session_published {
            lemma_completed_consistent(gate, token, launch.attached_ui->Some_0);
        } else {
            lemma_same_places_consistent(gate, gate.commit(token, final_pane).0, token);
        }
    }
}

/// Publishing a session keeps the launch gate consistent. Of its errors only two can come: the token is
/// unknown, or another session is attached.
pub proof fn law_publish_keeps_consistency(gate: GateModel, token: Seq<u8>, session: UiSessionId)
    requires
        gate.consistent(),
    ensures
        gate.publish_attached(token, session).0.consistent(),
        gate.publish_attached(token, session).1 matches Err(error) ==> error
            == GateError::UnknownToken || error == GateError::TokenAlreadyAttached,
{
    if gate.pending.contains_key(token) {
        let launch = gate.pending[token];
        assert(launch.consistent(token));
        if launch.placement_committed {
            lemma_completed_consistent(gate, token, session);
        } else {
            lemma_same_places_consistent(gate, gate.publish_attached(token, session).0, token);
        }
    }
}

/// Taking launches out keeps the launch gate consistent.
pub proof fn law_removal_keeps_consistency(gate: GateModel, gone: Map<Seq<u8>, PendingLaunch>)
    requires
        gate.consistent(),
        gone.submap_of(gate.pending),
    ensures
        gate.without_launches(gone).consistent(),
{
    let after = gate.without_launches(gone);
    assert forall|token: Seq<u8>| #[trigger] after.pending.contains_key(token) implies {
        &&& after.pending[token].consistent(token)
        &&& after.owned_by_launch(after.pending[token].scope@, token)
    } by {
        assert(gate.pending.contains_key(token));
        assert(gate.owned_by_launch(gate.pending[token].scope@, token));
    }
    assert forall|scope: Seq<char>| #[trigger] after.scopes.contains_key(scope) implies (
    after.scopes[scope] matches ScopeOwner::Pending(token) ==> after.pending.contains_key(token@)
        && after.pending[token@].scope@ == scope) by {
        assert(gate.scopes.contains_key(scope));
        if let ScopeOwner::Pending(token) = after.scopes[scope] {
            if gone.contains_key(token@) {
                assert(gate.owned_by_launch(scope, token@));
            }
        }
    }
}

/// Aborting a launch, expiring launches and detaching a session keep the launch gate consistent.
pub proof fn law_endings_keep_consistency(
    gate: GateModel,
    token: Seq<u8>,
    now: Instant,
    session: Seq<char>,
    scope: Seq<char>,
)
    requires
        gate.consistent(),
    ensures
        gate.abort(token).0.consistent(),
        gate.abort_if_uncommitted(token).0.consistent(),
        gate.without_launches(gate.expired(now)).consistent(),
        gate.detach(session).0.consistent(),
        gate.release_dangling_owner(scope).consistent(),
{
    law_removal_keeps_consistency(gate, gate.expired(now));
    if gate.pending.contains_key(token) {
        let launch = gate.pending[token];
        let nothing = Map::<Seq<u8>, PendingLaunch>::empty();
        assert(gate.without_launches(nothing) =~= gate);
        lemma_one_launch_more(gate, nothing, token, launch);
        law_removal_keeps_consistency(gate, nothing.insert(token, launch));
    }
    let detached = gate.detach(session).0;
    assert forall|other: Seq<u8>| #[trigger] detached.pending.contains_key(other) implies {
        &&& detached.pending[other].consistent(other)
        &&& detached.owned_by_launch(detached.pending[other].scope@, other)
    } by {
        assert(gate.pending.contains_key(other));
    }
    let released = gate.release_dangling_owner(scope);
    assert forall|other: Seq<u8>| #[trigger] released.pending.contains_key(other) implies {
        &&& released.pending[other].consistent(other)
        &&& released.owned_by_launch(released.pending[other].scope@, other)
    } by {
        assert(gate.pending.contains_key(other));
    }
}

/// A modal scope has at most one pending launch.
pub proof fn law_one_launch_per_scope(gate: GateModel, first: Seq<u8>, second: Seq<u8>)
    requires
        gate.consistent(),
        gate.pending.contains_key(first),
        gate.pending.contains_key(second),
        gate.pending[first].scope@ == gate.pending[second].scope@,
    ensures
        first == second,
{
    assert(gate.owned_by_launch(gate.pending[first].scope@, first));
    assert(gate.owned_by_launch(gate.pending[second].scope@, second));
}

/// A launch becomes ready by its commit and its publication together, and the order of the two
/// does not matter: after one of them it is still pending and owns its scope, after both the
/// scope belongs to its session.
pub proof fn law_commit_and_publication_in_either_order(
    gate: GateModel,
    token: Seq<u8>,
    final_pane: Seq<char>,
    session: UiSessionId,
)
    requires
        gate.consistent(),
        gate.pending.contains_key(token),
        !gate.pending[token].placement_committed,
        !gate.pending[token].session_published,
        gate.pending[token].attached_ui == Some(session),
        gate.pending[token].registered_pane matches Some(registered) && registered.pane@
            == final_pane,
    ensures
        ({
            let scope = gate.pending[token].scope@;
            let (committed, first) = gate.commit(token, final_pane);
            let (published, second) = gate.publish_attached(token, session);
            let ready = gate.completed(token, scope, session);
            &&& first == Ok::<Option<UiSessionId>, GateError>(None)
            &&& committed.owned_by_launch(scope, token)
            &&& committed.pending.contains_key(token)
            &&& second == Ok::<bool, GateError>(false)
            &&& published.owned_by_launch(scope, token)
            &&& published.pending.contains_key(token)
            &&& committed.publish_attached(token, session) == (ready, Ok::<bool, GateError>(true))
            &&& published.commit(token, final_pane) == (
                ready,
                Ok::<Option<UiSessionId>, GateError>(Some(session)),
            )
            &&& ready.owned_by_session(scope, session@)
            &&& !ready.pending.contains_key(token)
        }),
{
    let scope = gate.pending[token].scope@;
    let (committed, first) = gate.commit(token, final_pane);
    let (published, second) = gate.publish_attached(token, session);
    let ready = gate.completed(token, scope, session);
    assert(gate.pending[token].consistent(token));
    assert(gate.owned_by_launch(scope, token));
    assert(committed.completed(token, scope, session) =~= ready);
    assert(published.completed(token, scope, session) =~= ready);
}

/// A launcher that goes away cannot undo a committed placement.
pub proof fn law_disconnect_spares_a_committed_placement(gate: GateModel, token: Seq<u8>)
    requires
        gate.placement_committed(token),
    ensures
        gate.abort_if_uncommitted(token) == (gate, Ok::<Option<RegisteredPane>, GateError>(None)),
{
}

/// Expiry takes out the launches whose time has run out, frees their scopes, and leaves every
/// other launch and every other scope as it was.
pub proof fn law_expiry_releases_only_expired_launches(gate: GateModel, now: Instant)
    requires
        gate.consistent(),
    ensures
        ({
            let after = gate.without_launches(gate.expired(now));
            &&& forall|token: Seq<u8>| #[trigger]
                after.pending.contains_key(token) <==> gate.pending.contains_key(token)
                    && gate.pending[token].expires_at@ > now@
            &&& forall|token: Seq<u8>| #[trigger]
                gate.pending.contains_key(token) && gate.pending[token].expires_at@ <= now@
                    ==> !after.scopes.contains_key(gate.pending[token].scope@)
            &&& forall|scope: Seq<char>| #[trigger]
                gate.scopes.contains_key(scope) && (gate.scopes[scope] matches ScopeOwner::Pending(
                    token,
                ) ==> gate.pending[token@].expires_at@ > now@) ==> lookup(after.scopes, scope)
                    == lookup(gate.scopes, scope)
        }),
{
    let gone = gate.expired(now);
    let after = gate.without_launches(gone);
    assert forall|token: Seq<u8>| #[trigger]
        gate.pending.contains_key(token) && gate.pending[token].expires_at@ <= now@ implies !after.scopes.contains_key(
    gate.pending[token].scope@) by {
        assert(gone.contains_key(token));
        assert(gate.owned_by_launch(gate.pending[token].scope@, token));
    }
    assert forall|scope: Seq<char>| #[trigger]
        gate.scopes.contains_key(scope) && (gate.scopes[scope] matches ScopeOwner::Pending(token)
            ==> gate.pending[token@].expires_at@ > now@) implies lookup(after.scopes, scope)
        == lookup(gate.scopes, scope) by {
        assert forall|token: Seq<u8>| #[trigger] gone.contains_key(token) implies !(
        gone[token].scope@ == scope && gate.owned_by_launch(scope, token)) by {}
    }
}

/// A launch that another one displaced cannot come back: its token attaches, registers, commits
/// and publishes nothing, and the scope belongs to the new launch.
pub proof fn law_displaced_launch_stays_out(
    gate: GateModel,
    token: PendingLaunchToken,
    scope: ModalScopeId,
    root: MenuId,
    now: Instant,
    lease: Duration,
    displaced: PendingLaunchToken,
    session: UiSessionId,
    pane: HostPaneId,
    registered: RegisteredPane,
)
    requires
        gate.consistent(),
        gate.owned_by_launch(scope@, displaced@),
        gate.prepare(Ok(token), scope, root, now, lease).1 is Ok,
        !gate.sessions.contains_key(session@),
    ensures
        ({
            let (after, prepared) = gate.prepare(Ok(token), scope, root, now, lease);
            &&& after.owned_by_launch(scope@, token@)
            &&& prepared->Ok_0.replaced_pending == Some(gate.pending[displaced@])
            &&& after.attach(session, scope, pane, Some(displaced)) == (
                after,
                Err::<AttachDisposition, GateError>(GateError::UnknownToken),
            )
            &&& after.register_pending_pane(displaced@, registered) == (
                after,
                Err::<(), GateError>(GateError::UnknownToken),
            )
            &&& after.commit(displaced@, pane@) == (
                after,
                Err::<Option<UiSessionId>, GateError>(GateError::UnknownToken),
            )
            &&& after.publish_attached(displaced@, session) == (
                after,
                Err::<bool, GateError>(GateError::UnknownToken),
            )
        }),
{
}

/// Preparing a launch in one scope leaves the owner of every other scope as it was.
pub proof fn law_prepare_touches_one_scope(
    gate: GateModel,
    drawn: Result<PendingLaunchToken, GateError>,
    scope: ModalScopeId,
    root: MenuId,
    now: Instant,
    lease: Duration,
    other: Seq<char>,
)
    requires
        other != scope@,
    ensures
        lookup(gate.prepare(drawn, scope, root, now, lease).0.scopes, other) == lookup(
            gate.scopes,
            other,
        ),
{
}

/// Aborting a pending launch frees its scope and hands out the pane registered for it.
pub proof fn law_abort_frees_the_scope(gate: GateModel, token: Seq<u8>)
    requires
        gate.consistent(),
        gate.pending.contains_key(token),
    ensures
        !gate.abort(token).0.scopes.contains_key(gate.pending[token].scope@),
        !gate.abort(token).0.pending.contains_key(token),
        gate.abort(token).1 == Ok::<Option<RegisteredPane>, GateError>(
            gate.pending[token].registered_pane,
        ),
{
    assert(gate.owned_by_launch(gate.pending[token].scope@, token));
}

/// Detaching a session frees the scope that it owns and no other scope.
pub proof fn law_detach_frees_only_its_own_scope(
    gate: GateModel,
    session: Seq<char>,
    scope: Seq<char>,
)
    requires
        gate.sessions.contains_key(session),
    ensures
        gate.owned_by_session(gate.sessions[session]@, session) ==> !gate.detach(
            session,
        ).0.scopes.contains_key(gate.sessions[session]@),
        scope != gate.sessions[session]@ || !gate.owned_by_session(scope, session) ==> lookup(
            gate.detach(session).0.scopes,
            scope,
        ) == lookup(gate.scopes, scope),
{
}

/// An owner with a live launch or a live session survives the release of dangling owners.
pub proof fn law_live_owners_survive_release(gate: GateModel, released: Seq<char>, scope: Seq<char>)
    requires
        lookup(gate.scopes, scope) matches Some(owner) && match owner {
            ScopeOwner::Pending(token) => gate.pending.contains_key(token@),
            ScopeOwner::Ready(session) => gate.sessions.contains_key(session@),
        },
    ensures
        lookup(gate.release_dangling_owner(released).scopes, scope) == lookup(gate.scopes, scope),
{
}

} // verus!
