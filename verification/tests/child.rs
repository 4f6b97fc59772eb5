use muxe_broker::broker::child::{
    cancellation_reason, process_group_of, terminate_generic_child, ChildNext, ChildStage,
    SignalOutcome, StopSignal,
};
use muxe_broker::broker::lifecycle::{
    generic_cancel_outcome, generic_exit_outcome, ChildExit, GenericCancellation,
};
use muxe_broker::protocol::{BrokerError, DiagnosticCode, ExecutionOutcome, ProtocolDiagnostic};
use muxe_broker::time::Duration;

#[test]
fn a_group_is_asked_then_killed_then_reaped() {
    assert_eq!(
        terminate_generic_child(ChildStage::Begin, 7),
        ChildNext::Signal(StopSignal::Terminate)
    );
    assert_eq!(
        terminate_generic_child(ChildStage::TermSent(SignalOutcome::Sent), 7),
        ChildNext::Grace(Duration::from_secs(2))
    );
    assert_eq!(
        terminate_generic_child(ChildStage::GraceOver, 7),
        ChildNext::Signal(StopSignal::Kill)
    );
    for outcome in [SignalOutcome::Sent, SignalOutcome::NoSuchGroup] {
        assert_eq!(
            terminate_generic_child(ChildStage::KillSent(outcome), 7),
            ChildNext::Reap
        );
    }
    assert_eq!(
        terminate_generic_child(ChildStage::TermSent(SignalOutcome::NoSuchGroup), 7),
        ChildNext::Reap
    );
    assert_eq!(
        terminate_generic_child(ChildStage::Reaped(Ok(())), 7),
        ChildNext::Done(Ok(()))
    );
}

#[test]
fn what_the_system_refuses_is_reported() {
    let failed = || SignalOutcome::Failed("EPERM".to_owned());
    assert_eq!(
        terminate_generic_child(ChildStage::TermSent(failed()), 7),
        ChildNext::Done(Err(
            "could not send SIGTERM to generic command process group 7: EPERM".to_owned()
        ))
    );
    assert_eq!(
        terminate_generic_child(ChildStage::KillSent(failed()), -12),
        ChildNext::Done(Err(
            "could not send SIGKILL to generic command process group -12: EPERM".to_owned()
        ))
    );
    assert_eq!(
        terminate_generic_child(ChildStage::Reaped(Err("ECHILD".to_owned())), 7),
        ChildNext::Done(Err(
            "could not reap cancelled generic command: ECHILD".to_owned()
        ))
    );
}

#[test]
fn a_child_leads_its_group() {
    assert_eq!(process_group_of(Some(42)), Ok(42));
    assert_eq!(process_group_of(Some(i32::MAX as u32)), Ok(i32::MAX));
    let none = Err(BrokerError::GenericProcess(
        "spawned command has no valid process-group leader identity".to_owned(),
    ));
    assert_eq!(process_group_of(None), none);
    assert_eq!(process_group_of(Some(i32::MAX as u32 + 1)), none);
}

#[test]
fn a_stop_has_a_reason() {
    assert_eq!(
        cancellation_reason(Some(GenericCancellation::Timeout)),
        GenericCancellation::Timeout
    );
    assert_eq!(cancellation_reason(None), GenericCancellation::UserRequested);
}

#[test]
fn an_end_is_told_as_what_it_is() {
    let blocked = |text: &str| {
        Some(ProtocolDiagnostic {
            code: DiagnosticCode::ActionBlocked,
            message: text.to_owned(),
        })
    };
    assert_eq!(
        generic_exit_outcome(&ChildExit::Success, 100),
        (ExecutionOutcome::Succeeded, None)
    );
    assert_eq!(
        generic_exit_outcome(&ChildExit::Failure("exit status: 3".to_owned()), 100),
        (
            ExecutionOutcome::Failed,
            blocked("generic command exited with exit status: 3")
        )
    );
    assert_eq!(
        generic_exit_outcome(&ChildExit::WaitFailed("ECHILD".to_owned()), 100),
        (
            ExecutionOutcome::Failed,
            blocked("could not reap generic command: ECHILD")
        )
    );
    assert_eq!(
        generic_cancel_outcome(GenericCancellation::Timeout, &Ok(()), 100),
        (ExecutionOutcome::TimedOut, None)
    );
    assert_eq!(
        generic_cancel_outcome(GenericCancellation::UserRequested, &Ok(()), 100),
        (ExecutionOutcome::Cancelled, None)
    );
    assert_eq!(
        generic_cancel_outcome(GenericCancellation::Timeout, &Err("stuck".to_owned()), 100),
        (ExecutionOutcome::Failed, blocked("stuck"))
    );
}
