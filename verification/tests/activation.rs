use muxe_broker::activation::recovery::{
    recovery_decision, RecoveryAck, RecoveryDecision, RecoveryNext, RecoveryStage, RecoveryWatch,
};
use muxe_broker::activation::{
    fresh_handoff, handoff_of_draw, target_readiness, ActivationBootstrap, ActivationController,
    ActivationReadiness, ActivationState, CompatibilityRecord, ControlNext, ControlOperation,
    ControlResult, ControlStage, LifecycleState, LiveServerIdentity, ReportKind, TargetReadiness,
};
use muxe_broker::ids::HandoffId;
use muxe_broker::protocol::{AdapterError, AdapterErrorKind, BrokerError, HostKind};
use muxe_broker::time::Duration;

fn identity() -> LiveServerIdentity {
    LiveServerIdentity {
        host: HostKind::Herdr,
        discovery_key: "owned-fake-host".to_owned(),
        server_id: "owned-fake-server".to_owned(),
    }
}

fn record() -> CompatibilityRecord {
    CompatibilityRecord {
        muxe_version: "test-0.0.0".to_owned(),
        target_triple: "test-triple".to_owned(),
        application_schema_fingerprint: "00".to_owned(),
        zellij: None,
        herdr: None,
    }
}

fn handoff() -> HandoffId {
    HandoffId([7; 16])
}

fn failure(kind: AdapterErrorKind) -> BrokerError {
    BrokerError::Adapter(AdapterError {
        kind,
        message: "lost".to_owned(),
    })
}

fn running() -> ActivationController {
    ActivationController::start(identity(), ActivationBootstrap::Running { current: record() })
        .unwrap()
}

fn gated() -> ActivationController {
    ActivationController::start(
        identity(),
        ActivationBootstrap::Target {
            current: record(),
            handoff: handoff(),
            live_server: identity(),
        },
    )
    .unwrap()
}

fn ask(controller: &mut ActivationController, operation: ControlOperation) -> ControlNext {
    controller.control(ControlStage::Requested {
        operation,
        fresh: Some(handoff()),
    })
}

fn prepared() -> ActivationController {
    let mut controller = running();
    assert_eq!(
        ask(&mut controller, ControlOperation::Prepare { target: record() }),
        ControlNext::Drain
    );
    assert_eq!(
        controller.control(ControlStage::Drained(Ok(()))),
        ControlNext::SuspendHost
    );
    assert_eq!(
        controller.control(ControlStage::HostSuspended(Ok(()))),
        ControlNext::DrainListener
    );
    assert_eq!(
        controller.control(ControlStage::ListenerDrained(Ok(()))),
        ControlNext::Report {
            kind: ReportKind::Prepared,
            reopen: false,
            stop: false
        }
    );
    controller
}

fn abort() -> ControlOperation {
    ControlOperation::Abort {
        handoff_id: handoff(),
    }
}

fn commit() -> ControlOperation {
    ControlOperation::Commit {
        handoff_id: handoff(),
    }
}

#[test]
fn prepare_suspends_after_the_drain_and_abort_resumes_before_the_rebind() {
    let mut controller = prepared();
    let status = controller
        .status(Err(failure(AdapterErrorKind::Unavailable)), None)
        .unwrap();
    assert_eq!(status.lifecycle, LifecycleState::Draining);
    assert_eq!(status.live_server, identity());
    assert_eq!(status.handoff_id, Some(handoff()));
    assert_eq!(status.target, Some(record()));
    assert!(!controller.asks_host());
    assert_eq!(ask(&mut controller, abort()), ControlNext::ResumeHost);
    assert_eq!(
        controller.control(ControlStage::HostResumed(Ok(()))),
        ControlNext::RebindListener
    );
    assert_eq!(
        controller.control(ControlStage::ListenerRebound(Ok(()))),
        ControlNext::Report {
            kind: ReportKind::Aborted,
            reopen: true,
            stop: false
        }
    );
    assert_eq!(controller, running());
}

#[test]
fn prepare_fails_closed_where_the_host_cannot_be_suspended() {
    let mut controller = running();
    ask(&mut controller, ControlOperation::Prepare { target: record() });
    controller.control(ControlStage::Drained(Ok(())));
    assert_eq!(
        controller.control(ControlStage::HostSuspended(Err(failure(
            AdapterErrorKind::Unsupported
        )))),
        ControlNext::Refuse {
            diagnostic: "host adapter cannot suspend for activation: host adapter failed: lost"
                .to_owned(),
            reopen: true
        }
    );
    assert_eq!(controller.state, ActivationState::Running);
}

#[test]
fn a_suspension_that_failed_midway_is_restored_or_stays_draining() {
    let mut controller = running();
    ask(&mut controller, ControlOperation::Prepare { target: record() });
    controller.control(ControlStage::Drained(Ok(())));
    let next = controller.control(ControlStage::HostSuspended(Err(failure(
        AdapterErrorKind::Unavailable,
    ))));
    let ControlNext::RestoreHost { suspend } = next else {
        panic!("the host is restored first, got {next:?}");
    };
    let next = controller.control(ControlStage::HostRestored {
        suspend,
        restore: Err(failure(AdapterErrorKind::Unavailable)),
    });
    assert_eq!(
        next,
        ControlNext::Refuse {
            diagnostic: "could not suspend host subscription for activation: host adapter failed: \
                lost; host restore also failed, adapter remains unhealthy: host adapter failed: lost"
                .to_owned(),
            reopen: false
        }
    );
    assert_eq!(ask(&mut controller, abort()), ControlNext::ResumeHost);

    let mut controller = running();
    ask(&mut controller, ControlOperation::Prepare { target: record() });
    let next = controller.control(ControlStage::HostRestored {
        suspend: failure(AdapterErrorKind::Unavailable),
        restore: Ok(()),
    });
    assert!(matches!(next, ControlNext::Refuse { reopen: true, .. }));
    assert_eq!(controller.state, ActivationState::Running);
}

#[test]
fn a_listener_that_stays_leaves_the_host_flag_true_to_the_host() {
    for restored in [true, false] {
        let mut controller = running();
        ask(&mut controller, ControlOperation::Prepare { target: record() });
        let next = controller.control(ControlStage::ListenerDrained(Err("busy".to_owned())));
        assert_eq!(
            next,
            ControlNext::RestoreAfterListener {
                listener: "busy".to_owned()
            }
        );
        let restore = if restored {
            Ok(())
        } else {
            Err(failure(AdapterErrorKind::Unavailable))
        };
        let next = controller.control(ControlStage::ListenerRestored {
            listener: "busy".to_owned(),
            restore,
        });
        let ControlNext::Refuse { diagnostic, reopen } = next else {
            panic!("the coordinator is told");
        };
        assert!(!reopen);
        assert!(diagnostic.starts_with(
            "could not drain broker listener for activation: busy; old endpoint remains drained"
        ));
        assert_eq!(diagnostic.contains("restore also failed"), !restored);
        let expected = if restored {
            ControlNext::RebindListener
        } else {
            ControlNext::ResumeHost
        };
        assert_eq!(ask(&mut controller, abort()), expected);
    }
}

#[test]
fn abort_keeps_the_endpoint_drained_where_the_resume_fails() {
    let mut controller = prepared();
    for _ in 0..2 {
        assert_eq!(ask(&mut controller, abort()), ControlNext::ResumeHost);
        assert_eq!(
            controller.control(ControlStage::HostResumed(Err(failure(
                AdapterErrorKind::Unavailable
            )))),
            ControlNext::Refuse {
                diagnostic: "could not resume host subscription after activation abort: host \
                    adapter failed: lost; old endpoint remains drained"
                    .to_owned(),
                reopen: false
            }
        );
    }
    assert_eq!(ask(&mut controller, abort()), ControlNext::ResumeHost);
    controller.control(ControlStage::HostResumed(Ok(())));
    let next = controller.control(ControlStage::ListenerRebound(Err("taken".to_owned())));
    assert_eq!(
        next,
        ControlNext::Refuse {
            diagnostic: "could not rebind old broker listener after activation abort: taken; old \
                endpoint remains drained"
                .to_owned(),
            reopen: false
        }
    );
    assert_eq!(ask(&mut controller, abort()), ControlNext::RebindListener);
}

#[test]
fn a_drain_that_fails_leaves_the_broker_running() {
    let mut controller = running();
    ask(&mut controller, ControlOperation::Prepare { target: record() });
    assert_eq!(
        controller.control(ControlStage::Drained(Err(BrokerError::StaleGeneration))),
        ControlNext::Refuse {
            diagnostic: "could not drain broker-owned UI state: binding belongs to a stale \
                configuration generation"
                .to_owned(),
            reopen: false
        }
    );
    assert!(controller.allows_ui());
}

#[test]
fn commit_ends_the_old_broker_and_opens_the_target() {
    let mut old = prepared();
    for _ in 0..2 {
        assert_eq!(
            ask(&mut old, commit()),
            ControlNext::Report {
                kind: ReportKind::Committed,
                reopen: false,
                stop: true
            }
        );
        assert_eq!(old.state, ActivationState::SupervisorOnly { handoff: handoff() });
    }
    let mut target = gated();
    assert!(!target.allows_ui());
    for _ in 0..2 {
        assert_eq!(
            ask(&mut target, commit()),
            ControlNext::Report {
                kind: ReportKind::Committed,
                reopen: false,
                stop: false
            }
        );
        assert!(target.allows_ui());
    }
}

#[test]
fn a_foreign_handoff_is_refused() {
    let other = HandoffId([8; 16]);
    let refusal = |text: &str| ControlNext::Refuse {
        diagnostic: text.to_owned(),
        reopen: false,
    };
    for mut controller in [running(), gated(), prepared()] {
        assert_eq!(
            ask(&mut controller, ControlOperation::Commit { handoff_id: other }),
            refusal("commit handoff does not match the prepared activation")
        );
        assert_eq!(
            ask(&mut controller, ControlOperation::Abort { handoff_id: other }),
            refusal("abort handoff does not match the prepared activation")
        );
    }
    let mut target = gated();
    assert!(matches!(
        ask(&mut target, ControlOperation::Status),
        ControlNext::Report { .. }
    ));
    assert_eq!(
        ask(&mut target, ControlOperation::Prepare { target: record() }),
        refusal("prepare is valid only for a running old broker")
    );
    assert_eq!(
        ask(&mut target, ControlOperation::Retire),
        refusal("retire is invalid while activation is in progress")
    );
    assert_eq!(
        running().control(ControlStage::Requested {
            operation: ControlOperation::Prepare { target: record() },
            fresh: None
        }),
        refusal("could not generate a nonzero activation handoff ID")
    );
}

#[test]
fn a_gated_target_that_is_aborted_ends() {
    let mut target = gated();
    let ended = || ControlNext::Report {
        kind: ReportKind::Aborted,
        reopen: false,
        stop: true,
    };
    assert_eq!(ask(&mut target, abort()), ended());
    assert_eq!(target.state, ActivationState::Retired);
    assert_eq!(ask(&mut target, abort()), ended());
}

#[test]
fn retiring_drains_first() {
    let mut controller = running();
    assert_eq!(
        ask(&mut controller, ControlOperation::Retire),
        ControlNext::DrainToRetire
    );
    assert_eq!(
        controller.control(ControlStage::RetireDrained(Ok(()))),
        ControlNext::Report {
            kind: ReportKind::Retired,
            reopen: false,
            stop: true
        }
    );
    assert!(matches!(
        controller.control(ControlStage::RetireDrained(Err(BrokerError::StaleGeneration))),
        ControlNext::Refuse { reopen: false, .. }
    ));
    let status = controller.status(Ok(identity()), None).unwrap();
    assert_eq!(status.lifecycle, LifecycleState::Retired);
}

#[test]
fn a_status_needs_the_server_that_was_there_at_the_start() {
    let controller = running();
    let mut other = identity();
    other.server_id = "another".to_owned();
    assert_eq!(
        controller.status(Ok(other.clone()), None),
        Err(format!(
            "live host identity changed during activation: expected {}, found {}",
            identity().message(),
            other.message()
        ))
    );
    assert_eq!(
        controller.status(Err(failure(AdapterErrorKind::Unavailable)), None),
        Err("host adapter failed: lost".to_owned())
    );
    assert_eq!(
        ActivationController::start(
            other,
            ActivationBootstrap::Target {
                current: record(),
                handoff: handoff(),
                live_server: identity()
            }
        ),
        Err(
            "target host identity changed before broker startup: expected LiveServerIdentity { \
             host: Herdr, discovery_key: \"owned-fake-host\", server_id: \
             ServerId(\"owned-fake-server\") }, found LiveServerIdentity { host: Herdr, \
             discovery_key: \"owned-fake-host\", server_id: ServerId(\"another\") }"
                .to_owned()
        )
    );
}

#[test]
fn readiness_is_told_as_it_is_and_never_opens_a_target() {
    let target = gated();
    assert_eq!(target.status(Ok(identity()), None).unwrap().ready, None);
    let ready = target_readiness(Ok(Some(ActivationReadiness {
        registered_clients: Vec::new(),
        member_clients: Vec::new(),
    })));
    let told = target.status(Ok(identity()), ready).unwrap();
    assert_eq!(
        told.ready,
        Some(TargetReadiness {
            registered_clients: Vec::new(),
            member_clients: 0,
            member_ids: Some(Vec::new()),
        })
    );
    assert_eq!(told.handoff_id, Some(handoff()));
    assert!(!target.allows_ui());
    assert_eq!(target_readiness(Ok(None)), None);
    assert_eq!(target_readiness(Err(BrokerError::StaleGeneration)), None);
    let two = target_readiness(Ok(Some(ActivationReadiness {
        registered_clients: vec!["a".to_owned()],
        member_clients: vec!["a".to_owned(), "b".to_owned()],
    })))
    .unwrap();
    assert_eq!(two.member_clients, 2);
}

#[test]
fn a_report_carries_the_status_or_its_failure() {
    let status = || running().status(Ok(identity()), None);
    assert!(matches!(
        ActivationController::status_result(ReportKind::Status, status()),
        ControlResult::Status(_)
    ));
    assert!(matches!(
        ActivationController::status_result(ReportKind::Prepared, status()),
        ControlResult::Prepared(_)
    ));
    assert!(matches!(
        ActivationController::status_result(ReportKind::Committed, status()),
        ControlResult::Committed(_)
    ));
    assert!(matches!(
        ActivationController::status_result(ReportKind::Aborted, status()),
        ControlResult::Aborted(_)
    ));
    assert!(matches!(
        ActivationController::status_result(ReportKind::Retired, status()),
        ControlResult::Retired(_)
    ));
    assert_eq!(
        ActivationController::status_result(ReportKind::Status, Err("gone".to_owned())),
        ControlResult::Error {
            diagnostic: "gone".to_owned()
        }
    );
}

#[test]
fn a_handoff_is_never_zero() {
    assert_eq!(handoff_of_draw(None), None);
    assert_eq!(handoff_of_draw(Some([0; 16])), None);
    assert_eq!(handoff_of_draw(Some([7; 16])), Some(handoff()));
    let drawn = fresh_handoff().expect("the operating system draws");
    assert!(!drawn.is_zero());
    assert_ne!(Some(drawn), fresh_handoff());
}

fn restore_old(millis: u64) -> RecoveryDecision {
    RecoveryDecision::RestoreOld {
        recover_after: Duration::from_millis(millis),
        permit: true,
    }
}

fn target_owns() -> RecoveryDecision {
    RecoveryDecision::TargetOwns {
        recover_after: Duration::from_millis(0),
        permit: false,
    }
}

#[test]
fn a_disconnect_restores_the_old_broker_where_no_journal_speaks() {
    let mut old = prepared();
    old.control_connected();
    old.control_connected();
    assert_eq!(old.control_disconnected(), None);
    let watch = old.control_disconnected().expect("the last one has gone");
    assert_eq!(
        watch,
        RecoveryWatch {
            handoff: handoff(),
            is_target: false
        }
    );
    let nothing = Duration::from_millis(0);
    assert_eq!(recovery_decision(None), RecoveryDecision::NoJournal);
    assert_eq!(
        old.recover_stage(&watch, RecoveryStage::Decided(recovery_decision(None))),
        RecoveryNext::LookAgain { delay: nothing }
    );
    assert_eq!(
        old.recover_stage(&watch, RecoveryStage::Waited),
        RecoveryNext::AskAgain
    );
    assert_eq!(
        old.recover_stage(
            &watch,
            RecoveryStage::DecidedAgain(RecoveryDecision::NoJournal)
        ),
        RecoveryNext::Restore {
            delay: nothing,
            permit: false
        }
    );
    assert_eq!(
        old.recover_stage(&watch, RecoveryStage::Restoring { permit: false }),
        RecoveryNext::ResumeHost { permit: false }
    );
    assert_eq!(
        old.recover_stage(
            &watch,
            RecoveryStage::HostResumed {
                outcome: Ok(()),
                permit: false
            }
        ),
        RecoveryNext::RebindListener { permit: false }
    );
    assert_eq!(
        old.recover_stage(
            &watch,
            RecoveryStage::ListenerRebound {
                outcome: Ok(()),
                permit: false
            }
        ),
        RecoveryNext::Restored { permit: false }
    );
    assert_eq!(old.state, ActivationState::Running);
    assert_eq!(old.control_disconnected(), None);
}

#[test]
fn a_disconnect_follows_the_owner_of_the_journal() {
    let watch = RecoveryWatch {
        handoff: handoff(),
        is_target: false,
    };
    let mut old = prepared();
    let preserve = RecoveryDecision::Preserve {
        reason: "inconsistent".to_owned(),
    };
    assert_eq!(
        old.recover_stage(&watch, RecoveryStage::Decided(preserve)),
        RecoveryNext::StandDown
    );
    assert_eq!(
        old.recover_stage(&watch, RecoveryStage::Decided(target_owns())),
        RecoveryNext::StandDown
    );
    assert_eq!(
        old.recover_stage(
            &watch,
            RecoveryStage::Decided(RecoveryDecision::Committed { permit: true })
        ),
        RecoveryNext::Acknowledge(RecoveryAck::Committed)
    );
    assert_eq!(
        old.recover_stage(&watch, RecoveryStage::Decided(restore_old(20))),
        RecoveryNext::LookAgain {
            delay: Duration::from_millis(20)
        }
    );
    assert_eq!(
        old.recover_stage(&watch, RecoveryStage::DecidedAgain(restore_old(20))),
        RecoveryNext::Restore {
            delay: Duration::from_millis(20),
            permit: true
        }
    );
    assert_eq!(old, prepared());
    old.control_connected();
    assert_eq!(
        old.recover_stage(&watch, RecoveryStage::Waited),
        RecoveryNext::StandDown
    );
}

#[test]
fn a_target_completes_or_ends() {
    let watch = RecoveryWatch {
        handoff: handoff(),
        is_target: true,
    };
    let mut target = gated();
    assert_eq!(target.control_disconnected(), Some(watch));
    assert_eq!(
        target.recover_stage(&watch, RecoveryStage::Decided(target_owns())),
        RecoveryNext::StandDown
    );
    assert_eq!(
        target.state,
        ActivationState::TargetCommitted { handoff: handoff() }
    );
    for (decision, permit) in [
        (RecoveryDecision::NoJournal, false),
        (restore_old(50), true),
    ] {
        let mut target = gated();
        assert_eq!(
            target.recover_stage(&watch, RecoveryStage::Decided(decision)),
            RecoveryNext::Retire { permit }
        );
        assert_eq!(target.state, ActivationState::Retired);
    }
    assert_eq!(
        target.recover_stage(&watch, RecoveryStage::DecidedAgain(restore_old(0))),
        RecoveryNext::StandDown
    );
    assert!(target.allows_ui());
}

#[test]
fn a_recovery_that_fails_stays_drained_and_never_undoes_a_commit() {
    let watch = RecoveryWatch {
        handoff: handoff(),
        is_target: false,
    };
    let mut old = prepared();
    let failed = || Err("lost".to_owned());
    assert_eq!(
        old.recover_stage(
            &watch,
            RecoveryStage::HostResumed {
                outcome: failed(),
                permit: true
            }
        ),
        RecoveryNext::StandDown
    );
    assert_eq!(old, prepared());
    assert_eq!(
        old.recover_stage(
            &watch,
            RecoveryStage::ListenerRebound {
                outcome: failed(),
                permit: true
            }
        ),
        RecoveryNext::StandDown
    );
    assert_eq!(ask(&mut old, abort()), ControlNext::RebindListener);
    ask(&mut old, commit());
    for stage in [
        RecoveryStage::Restoring { permit: true },
        RecoveryStage::HostResumed {
            outcome: Ok(()),
            permit: true,
        },
        RecoveryStage::ListenerRebound {
            outcome: Ok(()),
            permit: true,
        },
    ] {
        assert_eq!(old.recover_stage(&watch, stage), RecoveryNext::StandDown);
        assert_eq!(
            old.state,
            ActivationState::SupervisorOnly { handoff: handoff() }
        );
    }
}
