use muxe_broker::gate::{
    token_of_draw, AttachDisposition, GateError, LaunchGate, OsTokenSource, RegisteredPane,
    ScopeOwner, TokenSource,
};
use muxe_broker::host::PendingPaneLease;
use muxe_broker::ids::{
    HostPaneId, HostTabId, ModalScopeId, PendingLaunchToken, PendingPaneLeaseId, UiSessionId,
};
use muxe_broker::menu::MenuId;
use muxe_broker::time::{Duration, Instant};

struct FixedTokens(Vec<PendingLaunchToken>);

impl TokenSource for FixedTokens {
    fn pending_launch_token(&mut self) -> Result<PendingLaunchToken, GateError> {
        self.0.pop().ok_or(GateError::EntropyUnavailable)
    }
}

fn now() -> Instant {
    Instant::from_nanos(1_000_000_000)
}

fn scope(name: &str) -> ModalScopeId {
    ModalScopeId::new(name)
}

fn ui(name: &str) -> UiSessionId {
    UiSessionId::new(name)
}

#[test]
fn pending_launch_waits_for_exact_pane_commit_and_releases_on_abort() {
    let now = now();
    let mut tokens = FixedTokens(vec![PendingLaunchToken([1; 16])]);
    let mut gate = LaunchGate::default();
    let prepared = gate
        .prepare(
            &mut tokens,
            scope("scope"),
            MenuId::new("root"),
            now,
            Duration::from_secs(1),
        )
        .unwrap();
    let pane = RegisteredPane {
        pane: HostPaneId::new("pending-pane"),
        temporary_tab: Some(HostTabId::new("temporary-tab")),
        lease: None,
    };
    gate.register_pending_pane(prepared.pending.token, pane.clone())
        .unwrap();
    assert_eq!(
        gate.attach(
            ui("ui"),
            scope("scope"),
            pane.pane.clone(),
            Some(prepared.pending.token),
        )
        .unwrap(),
        AttachDisposition::WaitingForCommit {
            token: prepared.pending.token
        }
    );
    assert!(!gate
        .publish_attached(prepared.pending.token, &ui("ui"))
        .unwrap());
    assert_eq!(
        gate.commit(prepared.pending.token, &pane.pane).unwrap(),
        Some(ui("ui"))
    );
    assert!(matches!(
        gate.owner(&scope("scope")),
        Some(ScopeOwner::Ready(_))
    ));
    gate.detach(&ui("ui"));
    assert!(gate.owner(&scope("scope")).is_none());
}

#[test]
fn commit_before_attach_remains_pending_until_attachment() {
    let now = now();
    let mut tokens = FixedTokens(vec![PendingLaunchToken([3; 16])]);
    let mut gate = LaunchGate::default();
    let prepared = gate
        .prepare(
            &mut tokens,
            scope("scope"),
            MenuId::new("root"),
            now,
            Duration::from_secs(1),
        )
        .unwrap();
    let pane = RegisteredPane {
        pane: HostPaneId::new("pane"),
        temporary_tab: None,
        lease: None,
    };
    gate.register_pending_pane(prepared.pending.token, pane.clone())
        .unwrap();
    assert_eq!(
        gate.commit(prepared.pending.token, &pane.pane).unwrap(),
        None
    );
    assert!(matches!(
        gate.owner(&scope("scope")),
        Some(ScopeOwner::Pending(token)) if *token == prepared.pending.token
    ));
    assert_eq!(
        gate.attach(
            ui("ui"),
            scope("scope"),
            pane.pane.clone(),
            Some(prepared.pending.token),
        )
        .unwrap(),
        AttachDisposition::WaitingForCommit {
            token: prepared.pending.token
        }
    );
    assert!(gate
        .publish_attached(prepared.pending.token, &ui("ui"))
        .unwrap());
    assert!(matches!(
        gate.owner(&scope("scope")),
        Some(ScopeOwner::Ready(session)) if *session == ui("ui")
    ));
}

#[test]
fn disconnect_does_not_win_after_placement_commit() {
    let now = now();
    let mut tokens = FixedTokens(vec![PendingLaunchToken([9; 16])]);
    let mut gate = LaunchGate::default();
    let prepared = gate
        .prepare(
            &mut tokens,
            scope("scope"),
            MenuId::new("root"),
            now,
            Duration::from_secs(1),
        )
        .unwrap();
    let pane = RegisteredPane {
        pane: HostPaneId::new("pane"),
        temporary_tab: None,
        lease: None,
    };
    gate.register_pending_pane(prepared.pending.token, pane.clone())
        .unwrap();
    assert_eq!(
        gate.commit(prepared.pending.token, &pane.pane).unwrap(),
        None
    );
    assert_eq!(
        gate.abort_if_uncommitted(prepared.pending.token).unwrap(),
        None
    );
    assert!(matches!(
        gate.owner(&scope("scope")),
        Some(ScopeOwner::Pending(token)) if *token == prepared.pending.token
    ));
}

#[test]
fn expiry_releases_only_the_expired_scope() {
    let now = now();
    let mut tokens = FixedTokens(vec![
        PendingLaunchToken([2; 16]),
        PendingLaunchToken([1; 16]),
    ]);
    let mut gate = LaunchGate::default();
    let first = gate
        .prepare(
            &mut tokens,
            scope("one"),
            MenuId::new("root"),
            now,
            Duration::from_millis(1),
        )
        .unwrap();
    gate.prepare(
        &mut tokens,
        scope("two"),
        MenuId::new("root"),
        now,
        Duration::from_secs(1),
    )
    .unwrap();
    let expired = gate.expire(now.checked_add(Duration::from_millis(2)).unwrap());
    assert_eq!(expired.len(), 1);
    assert_eq!(expired[0].token, first.pending.token);
    assert!(gate.owner(&scope("one")).is_none());
    assert!(gate.owner(&scope("two")).is_some());
}

fn prepared(gate: &mut LaunchGate, byte: u8, name: &str) -> PendingLaunchToken {
    gate.prepare_drawn(
        Ok(PendingLaunchToken([byte; 16])),
        scope(name),
        MenuId::new("root"),
        now(),
        Duration::from_secs(1),
    )
    .unwrap()
    .pending
    .token
}

fn plain_pane(name: &str) -> RegisteredPane {
    RegisteredPane {
        pane: HostPaneId::new(name),
        temporary_tab: None,
        lease: None,
    }
}

#[test]
fn prepare_refuses_zero_leases_bad_tokens_and_overflow() {
    let mut gate = LaunchGate::default();
    let prepare = |gate: &mut LaunchGate, drawn, at, lease| {
        gate.prepare_drawn(drawn, scope("scope"), MenuId::new("root"), at, lease)
            .map(|_| ())
    };
    let token = PendingLaunchToken([7; 16]);
    assert_eq!(
        prepare(&mut gate, Ok(token), now(), Duration::from_millis(0)),
        Err(GateError::ZeroLease)
    );
    assert_eq!(
        prepare(
            &mut gate,
            Err(GateError::EntropyUnavailable),
            now(),
            Duration::from_secs(1)
        ),
        Err(GateError::EntropyUnavailable)
    );
    assert_eq!(
        prepare(
            &mut gate,
            Ok(PendingLaunchToken([0; 16])),
            now(),
            Duration::from_secs(1)
        ),
        Err(GateError::DuplicateToken)
    );
    assert_eq!(
        prepare(
            &mut gate,
            Ok(token),
            Instant::from_nanos(u128::MAX),
            Duration::from_secs(1)
        ),
        Err(GateError::LeaseOverflow)
    );
    assert_eq!(
        prepare(&mut gate, Ok(token), now(), Duration::from_secs(1)),
        Ok(())
    );
    assert_eq!(
        prepare(&mut gate, Ok(token), now(), Duration::from_secs(1)),
        Err(GateError::DuplicateToken)
    );
}

#[test]
fn a_new_launch_displaces_the_old_one_for_good() {
    let mut gate = LaunchGate::default();
    let old = prepared(&mut gate, 1, "scope");
    gate.register_pending_pane(old, plain_pane("pane")).unwrap();
    let next = gate
        .prepare_drawn(
            Ok(PendingLaunchToken([2; 16])),
            scope("scope"),
            MenuId::new("root"),
            now(),
            Duration::from_secs(1),
        )
        .unwrap();
    assert_eq!(next.replaced, Some(ScopeOwner::Pending(old)));
    assert_eq!(
        next.replaced_pending.unwrap().registered_pane,
        Some(plain_pane("pane"))
    );
    assert_eq!(
        gate.attach(ui("ui"), scope("scope"), HostPaneId::new("pane"), Some(old)),
        Err(GateError::UnknownToken)
    );
    assert_eq!(
        gate.commit(old, &HostPaneId::new("pane")),
        Err(GateError::UnknownToken)
    );
    assert_eq!(
        gate.pending_tokens_in_scope(&scope("scope")),
        vec![next.pending.token]
    );
}

#[test]
fn attachments_and_panes_must_match_the_launch() {
    let mut gate = LaunchGate::default();
    let token = prepared(&mut gate, 1, "scope");
    assert_eq!(
        gate.commit(token, &HostPaneId::new("pane")),
        Err(GateError::PaneMismatch)
    );
    assert_eq!(
        gate.attach(ui("ui"), scope("other"), HostPaneId::new("pane"), Some(token)),
        Err(GateError::ScopeMismatch)
    );
    gate.register_pending_pane(token, plain_pane("pane")).unwrap();
    gate.register_pending_pane(token, plain_pane("pane")).unwrap();
    assert_eq!(
        gate.register_pending_pane(token, plain_pane("other")),
        Err(GateError::PaneMismatch)
    );
    assert_eq!(
        gate.attach(ui("ui"), scope("scope"), HostPaneId::new("other"), Some(token)),
        Err(GateError::PaneMismatch)
    );
    gate.attach(ui("ui"), scope("scope"), HostPaneId::new("pane"), Some(token))
        .unwrap();
    assert_eq!(
        gate.attach(ui("ui"), scope("scope"), HostPaneId::new("pane"), Some(token)),
        Err(GateError::DuplicateSession)
    );
    assert_eq!(
        gate.attach(ui("late"), scope("scope"), HostPaneId::new("pane"), Some(token)),
        Err(GateError::TokenAlreadyAttached)
    );
    assert_eq!(
        gate.publish_attached(token, &ui("late")),
        Err(GateError::TokenAlreadyAttached)
    );
    assert_eq!(
        gate.attach(ui("free"), scope("scope"), HostPaneId::new("pane"), None),
        Err(GateError::ScopeOccupied)
    );
    assert_eq!(
        gate.attach(ui("free"), scope("free"), HostPaneId::new("pane"), None),
        Ok(AttachDisposition::Ready)
    );
}

#[test]
fn a_lease_binds_once_to_the_registered_pane() {
    let mut gate = LaunchGate::default();
    let token = prepared(&mut gate, 1, "scope");
    let lease = |id: &str| PendingPaneLease {
        id: PendingPaneLeaseId::new(id),
        ui_session: ui("ui"),
    };
    assert_eq!(
        gate.bind_pending_lease(token, lease("one")),
        Err(GateError::PaneMismatch)
    );
    gate.register_pending_pane(token, plain_pane("pane")).unwrap();
    assert_eq!(gate.bind_pending_lease(token, lease("one")), Ok(()));
    assert_eq!(gate.bind_pending_lease(token, lease("one")), Ok(()));
    assert_eq!(
        gate.bind_pending_lease(token, lease("two")),
        Err(GateError::PaneMismatch)
    );
    assert_eq!(
        gate.registered_pane(token).unwrap().unwrap().lease,
        Some(lease("one"))
    );
    assert_eq!(
        gate.registered_pane(PendingLaunchToken([5; 16])),
        Err(GateError::UnknownToken)
    );
}

#[test]
fn drain_and_release_leave_nothing_dangling() {
    let mut gate = LaunchGate::default();
    let token = prepared(&mut gate, 1, "scope");
    gate.register_pending_pane(token, plain_pane("pane")).unwrap();
    gate.attach(ui("ui"), scope("scope"), HostPaneId::new("pane"), Some(token))
        .unwrap();
    gate.publish_attached(token, &ui("ui")).unwrap();
    // The session goes before the commit, which then leaves an owner without a session.
    gate.detach(&ui("ui"));
    assert_eq!(
        gate.commit(token, &HostPaneId::new("pane")),
        Ok(Some(ui("ui")))
    );
    gate.release_dangling_owner(&scope("scope"));
    assert!(gate.owner(&scope("scope")).is_none());

    let fresh = prepared(&mut gate, 2, "scope");
    gate.release_dangling_owner(&scope("scope"));
    assert_eq!(gate.owner(&scope("scope")), Some(&ScopeOwner::Pending(fresh)));
    let drained = gate.drain();
    assert_eq!(drained.len(), 1);
    assert!(gate.pending(fresh).is_none());
    assert!(gate.owner(&scope("scope")).is_none());
    assert_eq!(gate.abort(fresh), Err(GateError::UnknownToken));
}

#[test]
fn a_lease_of_no_time_draws_no_token() {
    let mut gate = LaunchGate::default();
    let token = PendingLaunchToken([7; 16]);
    let mut source = FixedTokens(vec![token]);
    let refused = gate.prepare(
        &mut source,
        scope("scope"),
        MenuId::new("root"),
        now(),
        Duration::from_millis(0),
    );
    assert_eq!(refused.map(|_| ()), Err(GateError::ZeroLease));
    assert_eq!(source.0, vec![token]);
    let prepared = gate
        .prepare(
            &mut source,
            scope("scope"),
            MenuId::new("root"),
            now(),
            Duration::from_millis(1),
        )
        .unwrap();
    assert_eq!(prepared.pending.token, token);
    assert!(source.0.is_empty());
}

#[test]
fn system_tokens_are_drawn_and_differ() {
    let mut source = OsTokenSource::default();
    let first = source.pending_launch_token().unwrap();
    let second = source.pending_launch_token().unwrap();
    assert!(!first.is_zero());
    assert_ne!(first, second);
    assert_eq!(token_of_draw(None), Err(GateError::EntropyUnavailable));
    assert_eq!(
        token_of_draw(Some([4; 16])),
        Ok(PendingLaunchToken([4; 16]))
    );
    assert_eq!(
        token_of_draw(Some([0; 16])),
        Err(GateError::DuplicateToken)
    );
}
