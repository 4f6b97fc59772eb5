use muxe_broker::cleanup::{
    bounded_adapter_error, bounded_cleanup_message, cleanup_retry_delay, CaptureStep,
    CaptureTaskAction, CleanupEffect, CleanupRegistry, CleanupTaskKey, PaneStep, PaneTaskAction,
    TaskEvent,
};
use muxe_broker::gate::RegisteredPane;
use muxe_broker::host::{CaptureLease, PendingPaneLease};
use muxe_broker::ids::{
    CaptureLeaseId, HostPaneId, ModalScopeId, PendingPaneLeaseId, UiSessionId,
};
use muxe_broker::protocol::{AdapterError, AdapterErrorKind, CaptureReleaseReason};
use muxe_broker::time::{Duration, Instant};

fn at(millis: u64) -> Instant {
    Instant::from_nanos(u128::from(millis) * 1_000_000)
}

fn session() -> UiSessionId {
    UiSessionId::new("ui-1")
}

fn lease() -> PendingPaneLeaseId {
    PendingPaneLeaseId::new("lease")
}

fn registered() -> RegisteredPane {
    RegisteredPane {
        pane: HostPaneId::new("p"),
        temporary_tab: None,
        lease: Some(PendingPaneLease {
            id: lease(),
            ui_session: session(),
        }),
    }
}

fn capture() -> CaptureLease {
    CaptureLease {
        id: CaptureLeaseId::new("c"),
        ui_session: session(),
        modal_scope: ModalScopeId::new("s"),
    }
}

fn failure(text: &str) -> AdapterError {
    AdapterError {
        kind: AdapterErrorKind::Unavailable,
        message: text.to_owned(),
    }
}

#[test]
fn retries_slow_down_to_a_second() {
    let delays: Vec<u128> = (0..9).map(|n| cleanup_retry_delay(n).as_millis()).collect();
    assert_eq!(delays[..5], [0, 25, 100, 500, 1000]);
    assert!(delays[5..].iter().all(|delay| *delay == 1000));
    assert_eq!(cleanup_retry_delay(u32::MAX).as_millis(), 1000);
}

#[test]
fn a_pane_without_a_lease_leaves_nothing_to_do() {
    let mut registry = CleanupRegistry::new();
    let mut pane = registered();
    pane.lease = None;
    assert_eq!(
        registry.enqueue_pane(&session(), &pane, None, at(0), false),
        CleanupEffect::Nothing
    );
    assert!(registry.is_clear());
}

#[test]
fn a_cleanup_that_comes_again_wakes_its_task() {
    let mut registry = CleanupRegistry::new();
    let first = registry.enqueue_pane(&session(), &registered(), None, at(0), false);
    assert!(matches!(first, CleanupEffect::Spawn { claim: 1, .. }));
    assert_eq!(
        registry.enqueue_pane(&session(), &registered(), None, at(0), false),
        CleanupEffect::Wake
    );
    assert!(!registry.is_clear());
    assert!(registry.has_live_task(&CleanupTaskKey::PendingPane(lease()), false));
    assert!(!registry.has_live_task(&CleanupTaskKey::PendingPane(lease()), true));
}

#[test]
fn an_entry_that_comes_back_in_the_last_moment_keeps_its_task() {
    let mut registry = CleanupRegistry::new();
    registry.enqueue_pane(&session(), &registered(), None, at(0), false);
    let key = CleanupTaskKey::PendingPane(lease());
    assert!(matches!(registry.pane_step(&lease(), at(0)), PaneStep::Close { .. }));
    registry.pane_closed(&lease());
    assert!(registry.is_clear());
    assert_eq!(
        registry.enqueue_pane(&session(), &registered(), None, at(1), false),
        CleanupEffect::Wake
    );
    assert!(!registry.release_slot_unless_requeued(&key, 1));
    assert!(matches!(registry.pane_step(&lease(), at(1)), PaneStep::Close { .. }));
    registry.pane_closed(&lease());
    assert!(registry.release_slot_unless_requeued(&key, 1));
    assert!(!registry.has_live_task(&key, false));
    assert_eq!(registry.pane_step(&lease(), at(2)), PaneStep::Gone);
}

#[test]
fn an_ended_task_spares_its_successor() {
    let mut registry = CleanupRegistry::new();
    registry.enqueue_capture(&capture(), CaptureReleaseReason::UiDismissed, None, at(0), false);
    let key = CleanupTaskKey::Capture(CaptureLeaseId::new("c"));
    registry.remove_if_claim(&key, 7);
    assert!(registry.has_live_task(&key, false));
    registry.remove_if_claim(&key, 1);
    assert!(!registry.has_live_task(&key, false));
}

#[test]
fn a_capture_is_ended_until_the_host_confirms() {
    let mut registry = CleanupRegistry::new();
    let effect = registry.enqueue_capture(
        &capture(),
        CaptureReleaseReason::LeaseExpired,
        None,
        at(0),
        false,
    );
    let CleanupEffect::Spawn { claim, .. } = effect else {
        panic!("a task is started");
    };
    let id = CaptureLeaseId::new("c");
    let run = |registry: &mut CleanupRegistry, event, millis| {
        registry.run_capture_cleanup(&id, claim, event, at(millis), 100)
    };
    assert!(matches!(
        run(&mut registry, TaskEvent::Resumed, 0),
        CaptureTaskAction::End {
            reason: CaptureReleaseReason::LeaseExpired,
            ..
        }
    ));
    assert_eq!(
        run(&mut registry, TaskEvent::Failed(failure("busy")), 0),
        CaptureTaskAction::Sleep(Duration::from_millis(25))
    );
    assert!(registry.details().contains("c"));
    assert!(registry.details().contains("busy"));
    assert!(matches!(
        run(&mut registry, TaskEvent::Resumed, 25),
        CaptureTaskAction::End { .. }
    ));
    assert_eq!(
        run(&mut registry, TaskEvent::Confirmed, 26),
        CaptureTaskAction::Exit
    );
    assert!(registry.is_clear());
    assert_eq!(registry.capture_step(&id, at(52)), CaptureStep::Gone);
}

#[test]
fn a_failure_delays_the_next_attempt() {
    let mut registry = CleanupRegistry::new();
    registry.enqueue_pane(&session(), &registered(), Some("first".to_owned()), at(0), false);
    assert!(matches!(registry.pane_step(&lease(), at(0)), PaneStep::Close { .. }));
    assert_eq!(
        registry.pane_failed(&lease(), failure("busy"), at(0)),
        Some(Duration::from_millis(25))
    );
    assert_eq!(
        registry.pane_step(&lease(), at(5)),
        PaneStep::Wait(Duration::from_millis(20))
    );
    assert_eq!(
        registry.pane_failed(&PendingPaneLeaseId::new("other"), failure("busy"), at(0)),
        None
    );
    assert_eq!(
        registry.run_pending_pane_cleanup(&lease(), 1, TaskEvent::Resumed, at(5), 100),
        PaneTaskAction::Sleep(Duration::from_millis(20))
    );
    assert!(matches!(registry.pane_step(&lease(), at(24)), PaneStep::Wait(_)));
    assert!(matches!(registry.pane_step(&lease(), at(25)), PaneStep::Close { .. }));
}

#[test]
fn texts_are_cut_between_characters() {
    assert_eq!(
        bounded_cleanup_message(Some("a\u{e9}b".to_owned()), 2),
        Some("a".to_owned())
    );
    assert_eq!(bounded_cleanup_message(None, 2), None);
    assert_eq!(bounded_adapter_error(failure("abc"), 2), failure("ab"));
}
