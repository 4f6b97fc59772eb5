//! How a session comes to stand once its launch is complete: its input is captured, where the host
//! has captures, and its UI is told. A launcher's commit that completes its launch leads here too.
use super::{Broker, BrokerModel, DetachEffects, SessionRecord};
use crate::cleanup::CleanupEffect;
use crate::host::CaptureLease;
use crate::ids::{HostPaneId, ModalScopeId, PendingLaunchToken, UiSessionId};
use crate::menu::MenuId;
use crate::protocol::{AdapterError, BrokerError, CaptureReleaseReason};
use crate::table::lookup;
use crate::text::{is_truncation, truncate_utf8};
use crate::time::Instant;
use vstd::prelude::*;
use vstd::string::StringExecFns;

verus! {

/// What the way of a session to stand has come to. `has_view` says whether the session's
/// configuration shows its root menu.
#[derive(Debug, PartialEq, Eq)]
pub enum StandStage {
    /// The host has told whether it captures input.
    HostAsked { session: UiSessionId, captures: Result<bool, AdapterError>, has_view: bool },
    /// The host has begun a capture, or would not.
    CaptureBegun {
        session: UiSessionId,
        capture: Result<CaptureLease, AdapterError>,
        has_view: bool,
    },
}

/// What the way of a session to stand needs next.
#[derive(Debug, PartialEq, Eq)]
pub enum StandNext {
    /// The host is asked to capture the input in the scope.
    BeginCapture { session: UiSessionId, scope: ModalScopeId },
    /// The UI is told that it stands, with its menu.
    Announce { session: UiSessionId, root: MenuId },
    /// The session does not stand: it is detached.
    Refuse { error: BrokerError, cleanup: CleanupEffect, detached: DetachEffects },
}

/// What a launcher's commit has come to.
#[derive(Debug, PartialEq, Eq)]
pub enum CommitStage {
    /// The launcher commits the placement of its launch.
    Requested { token: PendingLaunchToken, pane: HostPaneId },
    /// The session of the launch is on its way to stand.
    Standing(StandStage),
}

/// What a launcher's commit needs next.
#[derive(Debug, PartialEq, Eq)]
pub enum CommitNext {
    /// The launcher is answered; the launch waits for its UI.
    Acknowledge,
    /// The host is asked whether it captures input.
    AskCaptures { session: UiSessionId },
    /// What the session needs on its way to stand. Where it is announced, the launcher is answered
    /// too.
    Standing(StandNext),
    /// The launcher is refused.
    Refuse { error: BrokerError },
}

/// Why a capture is given up that came too late.
pub open spec fn late_capture_text(session: UiSessionId) -> Seq<char> {
    "UI session "@ + session.text() + " detached during capture start"@
}

impl BrokerModel {
    /// `after` and the rest are what comes of a capture that the host gave for a session.
    pub open spec fn captures(
        self,
        session: UiSessionId,
        capture: CaptureLease,
        now: Instant,
        limit: nat,
        after: Self,
        r: Result<(), BrokerError>,
        effect: CleanupEffect,
    ) -> bool {
        match lookup(self.sessions, session@) {
            Some(record) => {
                &&& after == BrokerModel {
                    sessions: self.sessions.insert(
                        session@,
                        SessionRecord { capture: Some(capture), ..record },
                    ),
                    ..self
                }
                &&& r == Ok::<(), BrokerError>(())
                &&& effect == CleanupEffect::Nothing
            },
            None => {
                &&& r == Err::<(), BrokerError>(BrokerError::UnknownSession(session))
                &&& exists|primary: String| #[trigger]
                    is_truncation(late_capture_text(session), limit, primary@) && ({
                        let (cleanup, signal) = self.cleanup.enqueue_capture(
                            capture,
                            CaptureReleaseReason::UiDismissed,
                            Some(primary),
                            now,
                            false,
                        );
                        after == BrokerModel { cleanup, ..self } && effect == signal
                    })
            },
        }
    }

    /// `after` and `next` are what comes of a session that cannot stand after all.
    pub open spec fn stand_falls(
        self,
        session: UiSessionId,
        error: BrokerError,
        cleanup: CleanupEffect,
        now: Instant,
        after: Self,
        next: StandNext,
    ) -> bool {
        &&& next matches StandNext::Refuse { detached, .. }
        &&& next == StandNext::Refuse { error, cleanup, detached }
        &&& self.detaches(session, CaptureReleaseReason::UiDismissed, now, after, detached)
    }

    /// The menu that the UI of a session is shown.
    pub open spec fn shown_root(self, session: UiSessionId, has_view: bool) -> Result<
        MenuId,
        BrokerError,
    > {
        match lookup(self.sessions, session@) {
            None => Err(BrokerError::UnknownSession(session)),
            Some(record) => if has_view {
                Ok(record.root)
            } else {
                Err(BrokerError::UnknownMenu(record.root))
            },
        }
    }

    /// `after` and `next` are what comes of a session whose input is captured, or whose host has
    /// no captures.
    pub open spec fn stand_answers(
        self,
        session: UiSessionId,
        has_view: bool,
        now: Instant,
        after: Self,
        next: StandNext,
    ) -> bool {
        match self.shown_root(session, has_view) {
            Ok(root) => after == self && next == StandNext::Announce { session, root },
            Err(error) => self.stand_falls(
                session,
                error,
                CleanupEffect::Nothing,
                now,
                after,
                next,
            ),
        }
    }

    /// `after` and `next` are what one stage of the way of a session to stand leads to.
    pub open spec fn stands(
        self,
        stage: StandStage,
        now: Instant,
        limit: nat,
        after: Self,
        next: StandNext,
    ) -> bool {
        match stage {
            StandStage::HostAsked { session, captures, has_view } => match captures {
                Err(error) => self.stand_falls(
                    session,
                    BrokerError::Adapter(error),
                    CleanupEffect::Nothing,
                    now,
                    after,
                    next,
                ),
                Ok(false) => self.stand_answers(session, has_view, now, after, next),
                Ok(true) => match lookup(self.sessions, session@) {
                    Some(record) => after == self && next == StandNext::BeginCapture {
                        session,
                        scope: record.scope,
                    },
                    None => self.stand_falls(
                        session,
                        BrokerError::UnknownSession(session),
                        CleanupEffect::Nothing,
                        now,
                        after,
                        next,
                    ),
                },
            },
            StandStage::CaptureBegun { session, capture, has_view } => match capture {
                Err(error) => self.stand_falls(
                    session,
                    BrokerError::Adapter(error),
                    CleanupEffect::Nothing,
                    now,
                    after,
                    next,
                ),
                Ok(capture) => exists|taken: Self, r: Result<(), BrokerError>, effect: CleanupEffect|
                    {
                        &&& #[trigger] self.captures(
                            session,
                            capture,
                            now,
                            limit,
                            taken,
                            r,
                            effect,
                        )
                        &&& match r {
                            Ok(()) => taken.stand_answers(session, has_view, now, after, next),
                            Err(error) => taken.stand_falls(
                                session,
                                error,
                                effect,
                                now,
                                after,
                                next,
                            ),
                        }
                    },
            },
        }
    }

    /// `after` and `next` are what one stage of a launcher's commit leads to.
    pub open spec fn commits(
        self,
        stage: CommitStage,
        now: Instant,
        limit: nat,
        after: Self,
        next: CommitNext,
    ) -> bool {
        match stage {
            CommitStage::Requested { token, pane } => {
                let (placed, r) = self.commit(token@, pane@);
                &&& after == placed
                &&& next == match r {
                    Ok(None) => CommitNext::Acknowledge,
                    Ok(Some(session)) => CommitNext::AskCaptures { session },
                    Err(error) => CommitNext::Refuse { error },
                }
            },
            CommitStage::Standing(stage) => {
                &&& next matches CommitNext::Standing(next)
                &&& self.stands(stage, now, limit, after, next)
            },
        }
    }
}

impl Broker {
    /// The scope in which the input of a session is captured.
    pub fn capture_scope(&self, session: &UiSessionId) -> (r: Result<ModalScopeId, BrokerError>)
        ensures
            r == (match lookup(self@.sessions, session@) {
                Some(record) => Ok::<ModalScopeId, BrokerError>(record.scope),
                None => Err(BrokerError::UnknownSession(*session)),
            }),
    {
        match self.sessions.get(session) {
            Some(record) => Ok(record.scope.clone()),
            None => Err(BrokerError::UnknownSession(session.clone())),
        }
    }

    /// Installs the capture that the host gave for a session. Where the session went meanwhile,
    /// the capture goes on the backlog at once.
    pub fn capture_acquired(
        &mut self,
        session: &UiSessionId,
        capture: CaptureLease,
        now: Instant,
        limit: usize,
    ) -> (r: (Result<(), BrokerError>, CleanupEffect))
        ensures
            old(self)@.captures(*session, capture, now, limit as nat, final(self)@, r.0, r.1),
    {
        match self.sessions.remove(session) {
            Some(mut record) => {
                record.capture = Some(capture);
                self.sessions.insert(session.clone(), record);
                assert(self.sessions@ =~= old(self).sessions@.insert(session@, record));
                (Ok(()), CleanupEffect::Nothing)
            },
            None => {
                assert(self@ =~= old(self)@);
                let name = session.message();
                let text = "UI session ".to_owned().concat(name.as_str()).concat(
                    " detached during capture start",
                );
                let primary = truncate_utf8(text.as_str(), limit);
                let effect = self.cleanup.enqueue_capture(
                    &capture,
                    CaptureReleaseReason::UiDismissed,
                    Some(primary),
                    now,
                    false,
                );
                assert(is_truncation(
                    late_capture_text(*session),
                    limit as nat,
                    primary@,
                ));
                (Err(BrokerError::UnknownSession(session.clone())), effect)
            },
        }
    }

    /// The root menu of an attached session.
    pub fn attached_root(&self, session: &UiSessionId) -> (r: Result<MenuId, BrokerError>)
        ensures
            r == (match lookup(self@.sessions, session@) {
                Some(record) => Ok::<MenuId, BrokerError>(record.root),
                None => Err(BrokerError::UnknownSession(*session)),
            }),
    {
        match self.sessions.get(session) {
            Some(record) => Ok(record.root.clone()),
            None => Err(BrokerError::UnknownSession(session.clone())),
        }
    }

    /// Takes down a session that cannot stand after all.
    fn stand_fall(
        &mut self,
        session: UiSessionId,
        error: BrokerError,
        cleanup: CleanupEffect,
        now: Instant,
    ) -> (r: StandNext)
        ensures
            old(self)@.stand_falls(session, error, cleanup, now, final(self)@, r),
    {
        let detached = self.detach(&session, CaptureReleaseReason::UiDismissed, now);
        StandNext::Refuse { error, cleanup, detached }
    }

    /// Announces a session whose input is captured, or whose host has no captures.
    fn stand_answer(&mut self, session: UiSessionId, has_view: bool, now: Instant) -> (r: StandNext)
        ensures
            old(self)@.stand_answers(session, has_view, now, final(self)@, r),
    {
        match self.attached_root(&session) {
            Ok(root) => if has_view {
                StandNext::Announce { session, root }
            } else {
                self.stand_fall(
                    session,
                    BrokerError::UnknownMenu(root),
                    CleanupEffect::Nothing,
                    now,
                )
            },
            Err(error) => self.stand_fall(session, error, CleanupEffect::Nothing, now),
        }
    }

    /// Takes the way of a session to stand from one stage to the next.
    pub fn stand(&mut self, stage: StandStage, now: Instant, limit: usize) -> (r: StandNext)
        ensures
            old(self)@.stands(stage, now, limit as nat, final(self)@, r),
    {
        match stage {
            StandStage::HostAsked { session, captures, has_view } => match captures {
                Err(error) => self.stand_fall(
                    session,
                    BrokerError::Adapter(error),
                    CleanupEffect::Nothing,
                    now,
                ),
                Ok(false) => self.stand_answer(session, has_view, now),
                Ok(true) => match self.capture_scope(&session) {
                    Ok(scope) => StandNext::BeginCapture { session, scope },
                    Err(error) => self.stand_fall(session, error, CleanupEffect::Nothing, now),
                },
            },
            StandStage::CaptureBegun { session, capture, has_view } => match capture {
                Err(error) => self.stand_fall(
                    session,
                    BrokerError::Adapter(error),
                    CleanupEffect::Nothing,
                    now,
                ),
                Ok(capture) => {
                    let (outcome, effect) = self.capture_acquired(&session, capture, now, limit);
                    match outcome {
                        Ok(()) => self.stand_answer(session, has_view, now),
                        Err(error) => self.stand_fall(session, error, effect, now),
                    }
                },
            },
        }
    }

    /// Takes a launcher's commit from one stage to the next.
    pub fn commit(&mut self, stage: CommitStage, now: Instant, limit: usize) -> (r: CommitNext)
        ensures
            old(self)@.commits(stage, now, limit as nat, final(self)@, r),
    {
        match stage {
            CommitStage::Requested { token, pane } => match self.commit_placement(token, &pane) {
                Ok(None) => CommitNext::Acknowledge,
                Ok(Some(session)) => CommitNext::AskCaptures { session },
                Err(error) => CommitNext::Refuse { error },
            },
            CommitStage::Standing(stage) => CommitNext::Standing(self.stand(stage, now, limit)),
        }
    }
}

} // verus!
