//! What an activation comes to, operation by operation: every operation that can go on does, each
//! failure is told with its cause, and the whole of a handover goes through.
use super::recovery::{RecoveryAck, RecoveryDecision, RecoveryNext, RecoveryStage, RecoveryWatch};
use super::{
    ActivationController, ActivationState, ActivationStatus, CompatibilityRecord, ControlNext,
    ControlOperation, ControlStage, LifecycleState, LiveServerIdentity, ReportKind, TargetReadiness,
};
use crate::ids::HandoffId;
use crate::protocol::{AdapterErrorKind, BrokerError};
use crate::time::Duration;
use vstd::prelude::*;

verus! {

/// Every broker that serves UIs can be prepared, one that was never handed over as much as a target
/// that was committed in its turn: it makes way for the target under the drawn handoff, its host not
/// yet suspended, and is drained first. A broker that does not serve is refused, and so is one for
/// which no handoff could be drawn; neither changes.
pub proof fn law_every_serving_broker_makes_way(
    broker: ActivationController,
    target: CompatibilityRecord,
    fresh: Option<HandoffId>,
    after: ActivationController,
    next: ControlNext,
)
    requires
        broker.controls(
            ControlStage::Requested { operation: ControlOperation::Prepare { target }, fresh },
            after,
            next,
        ),
    ensures
        (broker.state is Running || broker.state is TargetCommitted) && fresh is Some ==> next
            == ControlNext::Drain && after.state == (ActivationState::Draining {
            target,
            handoff: fresh->Some_0,
            host_suspended: false,
        }),
        !(broker.state is Running || broker.state is TargetCommitted) || fresh is None ==> next
            is Refuse && !next->Refuse_reopen && after.state == broker.state,
        after.current == broker.current,
        after.expected_live_server == broker.expected_live_server,
        after.connections == broker.connections,
{
}

/// A handover that goes well: the serving broker is drained, its host is suspended, its listener is
/// given up, and then it is prepared; the commit makes a supervisor of it and ends its service, and
/// the same commit makes its target serve.
pub proof fn law_a_handover_goes_through(
    old: ActivationController,
    target: ActivationController,
    record: CompatibilityRecord,
    handoff: HandoffId,
    draining: ActivationController,
    drain: ControlNext,
    drained: ActivationController,
    suspend: ControlNext,
    suspended: ActivationController,
    give_up: ControlNext,
    prepared: ActivationController,
    told: ControlNext,
    over: ActivationController,
    end: ControlNext,
    serving: ActivationController,
    committed: ControlNext,
    fresh: Option<HandoffId>,
)
    requires
        old.state is Running || old.state is TargetCommitted,
        target.state == (ActivationState::TargetGated { handoff }),
        old.controls(
            ControlStage::Requested {
                operation: ControlOperation::Prepare { target: record },
                fresh: Some(handoff),
            },
            draining,
            drain,
        ),
        draining.controls(ControlStage::Drained(Ok(())), drained, suspend),
        drained.controls(ControlStage::HostSuspended(Ok(())), suspended, give_up),
        suspended.controls(ControlStage::ListenerDrained(Ok(())), prepared, told),
        prepared.controls(
            ControlStage::Requested {
                operation: ControlOperation::Commit { handoff_id: handoff },
                fresh,
            },
            over,
            end,
        ),
        target.controls(
            ControlStage::Requested {
                operation: ControlOperation::Commit { handoff_id: handoff },
                fresh,
            },
            serving,
            committed,
        ),
    ensures
        drain == ControlNext::Drain,
        suspend == ControlNext::SuspendHost,
        give_up == ControlNext::DrainListener,
        told == (ControlNext::Report { kind: ReportKind::Prepared, reopen: false, stop: false }),
        prepared.state == (ActivationState::Draining {
            target: record,
            handoff,
            host_suspended: true,
        }),
        over.state == (ActivationState::SupervisorOnly { handoff }),
        end == (ControlNext::Report { kind: ReportKind::Committed, reopen: false, stop: true }),
        serving.state == (ActivationState::TargetCommitted { handoff }),
        committed == (ControlNext::Report {
            kind: ReportKind::Committed,
            reopen: false,
            stop: false,
        }),
        serving.current == target.current,
        over.current == old.current,
{
}

/// A commit concerns who has a part in its handoff: a broker that makes way ends as a supervisor, a
/// target serves, each whether for the first time or again. Anyone else is refused and stays as it is.
pub proof fn law_a_commit_settles_its_own_handoff(
    broker: ActivationController,
    handoff_id: HandoffId,
    fresh: Option<HandoffId>,
    after: ActivationController,
    next: ControlNext,
)
    requires
        broker.controls(
            ControlStage::Requested {
                operation: ControlOperation::Commit { handoff_id },
                fresh,
            },
            after,
            next,
        ),
    ensures
        match broker.state {
            ActivationState::Draining { handoff, .. } => handoff@ == handoff_id@ ==> after.state == (
            ActivationState::SupervisorOnly { handoff }) && next == (ControlNext::Report {
                kind: ReportKind::Committed,
                reopen: false,
                stop: true,
            }),
            ActivationState::SupervisorOnly { handoff } => handoff@ == handoff_id@ ==> after.state
                == broker.state && next == (ControlNext::Report {
                kind: ReportKind::Committed,
                reopen: false,
                stop: true,
            }),
            ActivationState::TargetGated { handoff } => handoff@ == handoff_id@ ==> after.state == (
            ActivationState::TargetCommitted { handoff }) && next == (ControlNext::Report {
                kind: ReportKind::Committed,
                reopen: false,
                stop: false,
            }),
            ActivationState::TargetCommitted { handoff } => handoff@ == handoff_id@ ==> after.state
                == broker.state && next == (ControlNext::Report {
                kind: ReportKind::Committed,
                reopen: false,
                stop: false,
            }),
            _ => next is Refuse && after == broker,
        },
        next is Refuse ==> after == broker && !next->Refuse_reopen,
        broker.state matches ActivationState::Draining { handoff, .. } && handoff@ != handoff_id@
            ==> next is Refuse,
        broker.state matches ActivationState::SupervisorOnly { handoff } && handoff@ != handoff_id@
            ==> next is Refuse,
        broker.state matches ActivationState::TargetGated { handoff } && handoff@ != handoff_id@
            ==> next is Refuse,
        broker.state matches ActivationState::TargetCommitted { handoff } && handoff@ != handoff_id@
            ==> next is Refuse,
{
}

/// An abort of its own handoff takes a broker back: the host is resumed first where it is suspended,
/// the listener is bound again, and the broker runs and admits. A target that was not committed ends.
/// A broker that has ended says so again. After a commit there is nothing to abort.
pub proof fn law_an_abort_takes_its_own_handoff_back(
    broker: ActivationController,
    handoff_id: HandoffId,
    fresh: Option<HandoffId>,
    after: ActivationController,
    next: ControlNext,
)
    requires
        broker.controls(
            ControlStage::Requested { operation: ControlOperation::Abort { handoff_id }, fresh },
            after,
            next,
        ),
    ensures
        broker.state matches ActivationState::Draining { handoff, host_suspended, .. } ==> after
            == broker && (if handoff@ != handoff_id@ {
            next is Refuse
        } else if host_suspended {
            next == ControlNext::ResumeHost
        } else {
            next == ControlNext::RebindListener
        }),
        broker.state matches ActivationState::TargetGated { handoff } ==> (if handoff@
            != handoff_id@ {
            next is Refuse && after == broker
        } else {
            next == (ControlNext::Report { kind: ReportKind::Aborted, reopen: false, stop: true })
                && after.state == ActivationState::Retired
        }),
        broker.state is Retired ==> after == broker && next == (ControlNext::Report {
            kind: ReportKind::Aborted,
            reopen: false,
            stop: true,
        }),
        broker.state is Running || broker.state is SupervisorOnly || broker.state is TargetCommitted
            ==> after == broker && next is Refuse,
        next is Refuse ==> !next->Refuse_reopen,
{
}

/// What is left of an abort once the broker is being taken back: a resumed host leads to the listener,
/// a listener that is bound leads to a broker that runs and admits; a failure leaves the broker
/// drained, with its host as it was found.
pub proof fn law_an_abort_ends_in_a_running_broker(
    broker: ActivationController,
    resumed: ActivationController,
    rebind: ControlNext,
    after: ActivationController,
    next: ControlNext,
    error: BrokerError,
    text: String,
    failed: ActivationController,
    refusal: ControlNext,
)
    ensures
        broker.controls(ControlStage::HostResumed(Ok(())), resumed, rebind) ==> resumed == broker
            && rebind == ControlNext::RebindListener,
        broker.controls(ControlStage::ListenerRebound(Ok(())), after, next) ==> after.state
            == ActivationState::Running && next == (ControlNext::Report {
            kind: ReportKind::Aborted,
            reopen: true,
            stop: false,
        }),
        broker.controls(ControlStage::HostResumed(Err(error)), failed, refusal) ==> failed == broker
            && (refusal matches ControlNext::Refuse { diagnostic, reopen } && !reopen && diagnostic@
            == "could not resume host subscription after activation abort: "@ + error.text()
            + "; old endpoint remains drained"@),
        broker.controls(ControlStage::ListenerRebound(Err(text)), failed, refusal) ==> !(
        failed.state is Running && !(broker.state is Running)) && (refusal matches
            ControlNext::Refuse { diagnostic, reopen } && !reopen && diagnostic@
            == "could not rebind old broker listener after activation abort: "@ + text@
            + "; old endpoint remains drained"@),
{
}

/// What fails on the way to a prepared broker: where nothing but the drain was tried, or where the host
/// cannot suspend at all, or was resumed, the broker runs again; a host that can suspend but failed to
/// is resumed, and so is one whose listener could not be given up; the listener's failure leaves the
/// broker drained. The coordinator is told the cause each time.
pub proof fn law_a_failed_preparation_is_told(
    broker: ActivationController,
    target: CompatibilityRecord,
    handoff: HandoffId,
    host_suspended: bool,
    error: BrokerError,
    restore: BrokerError,
    listener: String,
    after: ActivationController,
    next: ControlNext,
)
    requires
        broker.state == (ActivationState::Draining { target, handoff, host_suspended }),
    ensures
        broker.controls(ControlStage::Drained(Err(error)), after, next) ==> after.state
            == ActivationState::Running && (next matches ControlNext::Refuse { diagnostic, reopen }
            && !reopen && diagnostic@ == "could not drain broker-owned UI state: "@ + error.text()),
        broker.controls(ControlStage::HostSuspended(Err(error)), after, next) ==> (if error matches
            BrokerError::Adapter(adapter) && adapter.kind == AdapterErrorKind::Unsupported {
            &&& after.state == ActivationState::Running
            &&& next matches ControlNext::Refuse { diagnostic, reopen }
            &&& reopen
            &&& diagnostic@ == "host adapter cannot suspend for activation: "@ + error.text()
        } else {
            &&& after == broker
            &&& next == (ControlNext::RestoreHost { suspend: error })
        }),
        broker.controls(
            ControlStage::HostRestored { suspend: error, restore: Ok(()) },
            after,
            next,
        ) ==> after.state == ActivationState::Running && (next matches ControlNext::Refuse {
            diagnostic,
            reopen,
        } && reopen && diagnostic@ == "could not suspend host subscription for activation: "@
            + error.text()),
        broker.controls(
            ControlStage::HostRestored { suspend: error, restore: Err(restore) },
            after,
            next,
        ) ==> after.state == (ActivationState::Draining { target, handoff, host_suspended: true })
            && (next matches ControlNext::Refuse { diagnostic, reopen } && !reopen && diagnostic@
            == "could not suspend host subscription for activation: "@ + error.text()
            + "; host restore also failed, adapter remains unhealthy: "@ + restore.text()),
        broker.controls(ControlStage::ListenerDrained(Err(listener)), after, next) ==> after
            == broker && next == (ControlNext::RestoreAfterListener { listener }),
        broker.controls(
            ControlStage::ListenerRestored { listener, restore: Ok(()) },
            after,
            next,
        ) ==> after.state == (ActivationState::Draining { target, handoff, host_suspended: false })
            && (next matches ControlNext::Refuse { diagnostic, reopen } && !reopen && diagnostic@
            == "could not drain broker listener for activation: "@ + listener@
            + "; old endpoint remains drained"@),
        broker.controls(
            ControlStage::ListenerRestored { listener, restore: Err(restore) },
            after,
            next,
        ) ==> after.state == (ActivationState::Draining { target, handoff, host_suspended: true })
            && (next matches ControlNext::Refuse { diagnostic, reopen } && !reopen && diagnostic@
            == "could not drain broker listener for activation: "@ + listener@
            + "; old endpoint remains drained"@
            + "; host restore also failed, adapter remains unhealthy: "@ + restore.text()),
{
}

/// A broker that serves, or that has ended already, can be retired: it ends, is drained, and the
/// service stops. While a handover is in progress it is not.
pub proof fn law_a_serving_broker_can_be_retired(
    broker: ActivationController,
    fresh: Option<HandoffId>,
    after: ActivationController,
    next: ControlNext,
    drained: ActivationController,
    told: ControlNext,
    error: BrokerError,
)
    requires
        broker.controls(
            ControlStage::Requested { operation: ControlOperation::Retire, fresh },
            after,
            next,
        ),
    ensures
        broker.state is Running || broker.state is TargetCommitted || broker.state is Retired
            ==> after.state == ActivationState::Retired && next == ControlNext::DrainToRetire,
        broker.state is Draining || broker.state is SupervisorOnly || broker.state is TargetGated
            ==> after == broker && next is Refuse && !next->Refuse_reopen,
        after.controls(ControlStage::RetireDrained(Ok(())), drained, told) ==> drained == after
            && told == (ControlNext::Report {
            kind: ReportKind::Retired,
            reopen: false,
            stop: true,
        }),
        after.controls(ControlStage::RetireDrained(Err(error)), drained, told) ==> drained == after
            && (told matches ControlNext::Refuse { diagnostic, reopen } && !reopen && diagnostic@
            == "could not drain broker-owned UI state: "@ + error.text()),
{
}

/// Asking for the status changes nothing and is always answered with one.
pub proof fn law_a_status_changes_nothing(
    broker: ActivationController,
    fresh: Option<HandoffId>,
    after: ActivationController,
    next: ControlNext,
)
    requires
        broker.controls(
            ControlStage::Requested { operation: ControlOperation::Status, fresh },
            after,
            next,
        ),
    ensures
        after == broker,
        next == (ControlNext::Report { kind: ReportKind::Status, reopen: false, stop: false }),
{
}

/// A status names who the broker is and where it stands: a broker that makes way names whom for, and
/// every broker with a part in a handoff names it. Only a broker whose host is at work speaks for the
/// host's clients, and only as long as the host is the one it was made for.
pub proof fn law_a_status_tells_where_a_broker_stands(
    broker: ActivationController,
    actual: Result<LiveServerIdentity, BrokerError>,
    ready: Option<TargetReadiness>,
    r: Result<ActivationStatus, String>,
)
    requires
        broker.tells_status(actual, ready, r),
    ensures
        broker.state is Draining || broker.state is SupervisorOnly ==> (r matches Ok(status)
            && status.live_server == broker.expected_live_server && status.ready is None),
        !(broker.state is Draining || broker.state is SupervisorOnly) ==> (match actual {
            Err(error) => r matches Err(text) && text@ == error.text(),
            Ok(found) => if found@ == broker.expected_live_server@ {
                r matches Ok(status) && status.live_server == found && status.ready == ready
            } else {
                r is Err
            },
        }),
        r matches Ok(status) ==> status.current == broker.current && (match broker.state {
            ActivationState::Running => status.lifecycle == LifecycleState::Running && status.target
                is None && status.handoff_id is None,
            ActivationState::Draining { target, handoff, .. } => status.lifecycle
                == LifecycleState::Draining && status.target == Some(target) && status.handoff_id
                == Some(handoff),
            ActivationState::SupervisorOnly { handoff } => status.lifecycle
                == LifecycleState::SupervisorOnly && status.target is None && status.handoff_id
                == Some(handoff),
            ActivationState::TargetGated { handoff } => status.lifecycle == LifecycleState::Running
                && status.target is None && status.handoff_id == Some(handoff),
            ActivationState::TargetCommitted { handoff } => status.lifecycle
                == LifecycleState::Running && status.target is None && status.handoff_id == Some(
                handoff,
            ),
            ActivationState::Retired => status.lifecycle == LifecycleState::Retired && status.target
                is None && status.handoff_id is None,
        }),
{
}

/// Who looks after an activation whose last coordinator has gone: the old broker and the gated target,
/// each for its own handoff, and nobody else.
pub proof fn law_a_broker_in_a_handover_looks_after_it(broker: ActivationController)
    ensures
        match broker.state {
            ActivationState::Draining { handoff, .. } => broker.watch() == Some(
                RecoveryWatch { handoff, is_target: false },
            ),
            ActivationState::TargetGated { handoff } => broker.watch() == Some(
                RecoveryWatch { handoff, is_target: true },
            ),
            _ => broker.watch() is None,
        },
{
}

/// An old broker that is to be restored is: it looks again after the owner's delay, asks again where no
/// coordinator is back, waits once more, resumes its host where that is suspended, binds its listener,
/// and runs. What the owner is to be told goes along to the end.
pub proof fn law_an_old_broker_is_restored(
    broker: ActivationController,
    target: CompatibilityRecord,
    handoff: HandoffId,
    host_suspended: bool,
    recover_after: Duration,
    permit: bool,
)
    requires
        broker.state == (ActivationState::Draining { target, handoff, host_suspended }),
    ensures
        ({
            let watch = RecoveryWatch { handoff, is_target: false };
            let restore = RecoveryDecision::RestoreOld { recover_after, permit };
            &&& broker.recover(watch, RecoveryStage::Decided(restore)) == (
                broker,
                RecoveryNext::LookAgain { delay: recover_after },
            )
            &&& broker.recover(watch, RecoveryStage::Waited) == (
                broker,
                if broker.connections == 0 {
                    RecoveryNext::AskAgain
                } else {
                    RecoveryNext::StandDown
                },
            )
            &&& broker.recover(watch, RecoveryStage::DecidedAgain(restore)) == (
                broker,
                RecoveryNext::Restore { delay: recover_after, permit },
            )
            &&& broker.recover(watch, RecoveryStage::Restoring { permit }) == (
                broker,
                if host_suspended {
                    RecoveryNext::ResumeHost { permit }
                } else {
                    RecoveryNext::RebindListener { permit }
                },
            )
            &&& broker.recover(
                watch,
                RecoveryStage::HostResumed { outcome: Ok(()), permit },
            ) == (broker, RecoveryNext::RebindListener { permit })
            &&& broker.recover(watch, RecoveryStage::ListenerRebound { outcome: Ok(()), permit }).1
                == (RecoveryNext::Restored { permit })
            &&& broker.recover(
                watch,
                RecoveryStage::ListenerRebound { outcome: Ok(()), permit },
            ).0.state == ActivationState::Running
        }),
{
}

/// Without a journal nothing authorises a target: the old broker is restored without delay and reports
/// to nobody, the gated target ends.
pub proof fn law_without_a_journal_the_old_broker_serves(
    broker: ActivationController,
    target: CompatibilityRecord,
    handoff: HandoffId,
    host_suspended: bool,
    gated: ActivationController,
)
    requires
        broker.state == (ActivationState::Draining { target, handoff, host_suspended }),
        gated.state == (ActivationState::TargetGated { handoff }),
    ensures
        ({
            let old = RecoveryWatch { handoff, is_target: false };
            let new = RecoveryWatch { handoff, is_target: true };
            let (looked, look) = broker.recover(
                old,
                RecoveryStage::Decided(RecoveryDecision::NoJournal),
            );
            let (again, restore) = broker.recover(
                old,
                RecoveryStage::DecidedAgain(RecoveryDecision::NoJournal),
            );
            let (ended, retire) = gated.recover(
                new,
                RecoveryStage::Decided(RecoveryDecision::NoJournal),
            );
            &&& looked == broker
            &&& look matches RecoveryNext::LookAgain { delay } && delay@ == 0
            &&& again == broker
            &&& restore matches RecoveryNext::Restore { delay, permit } && delay@ == 0 && !permit
            &&& ended.state == ActivationState::Retired
            &&& retire == (RecoveryNext::Retire { permit: false })
        }),
{
}

/// A recovery that fails stays drained: a host that cannot be resumed, or a listener that cannot be
/// bound, leaves the broker making way in its handoff and nothing is reported.
pub proof fn law_a_failed_recovery_stays_drained(
    broker: ActivationController,
    target: CompatibilityRecord,
    handoff: HandoffId,
    host_suspended: bool,
    text: String,
    permit: bool,
)
    requires
        broker.state == (ActivationState::Draining { target, handoff, host_suspended }),
    ensures
        ({
            let watch = RecoveryWatch { handoff, is_target: false };
            let (unresumed, first) = broker.recover(
                watch,
                RecoveryStage::HostResumed { outcome: Err(text), permit },
            );
            let (unbound, second) = broker.recover(
                watch,
                RecoveryStage::ListenerRebound { outcome: Err(text), permit },
            );
            &&& unresumed == broker && first == RecoveryNext::StandDown
            &&& unbound.state == (ActivationState::Draining {
                target,
                handoff,
                host_suspended: false,
            })
            &&& second == RecoveryNext::StandDown
        }),
{
}

/// The owner's word on a target is followed: where the target owns the host it serves, where the old
/// broker is to be restored it ends, and where the owner decides by itself it waits. Who waits for a
/// report gets one.
pub proof fn law_a_target_follows_the_owner(
    gated: ActivationController,
    handoff: HandoffId,
    recover_after: Duration,
    permit: bool,
    reason: String,
)
    requires
        gated.state == (ActivationState::TargetGated { handoff }),
    ensures
        ({
            let watch = RecoveryWatch { handoff, is_target: true };
            let (serving, told) = gated.recover(
                watch,
                RecoveryStage::Decided(RecoveryDecision::TargetOwns { recover_after, permit }),
            );
            let (ended, retire) = gated.recover(
                watch,
                RecoveryStage::Decided(RecoveryDecision::RestoreOld { recover_after, permit }),
            );
            let (kept, wait) = gated.recover(
                watch,
                RecoveryStage::Decided(RecoveryDecision::Preserve { reason }),
            );
            let (done, over) = gated.recover(
                watch,
                RecoveryStage::Decided(RecoveryDecision::Committed { permit }),
            );
            &&& serving.state == (ActivationState::TargetCommitted { handoff })
            &&& told == if permit {
                RecoveryNext::Acknowledge(RecoveryAck::Committed)
            } else {
                RecoveryNext::StandDown
            }
            &&& ended.state == ActivationState::Retired
            &&& retire == (RecoveryNext::Retire { permit })
            &&& kept == gated && wait == RecoveryNext::StandDown
            &&& done == gated && over == told
        }),
{
}

/// An old broker whose host the target owns stays down, and so does one whose owner decides by itself;
/// it reports where a report is awaited.
pub proof fn law_an_old_broker_stays_down_for_its_target(
    broker: ActivationController,
    target: CompatibilityRecord,
    handoff: HandoffId,
    host_suspended: bool,
    recover_after: Duration,
    permit: bool,
    reason: String,
)
    requires
        broker.state == (ActivationState::Draining { target, handoff, host_suspended }),
    ensures
        ({
            let watch = RecoveryWatch { handoff, is_target: false };
            let owns = RecoveryDecision::TargetOwns { recover_after, permit };
            let keep = RecoveryDecision::Preserve { reason };
            let done = RecoveryDecision::Committed { permit };
            let report = if permit {
                RecoveryNext::Acknowledge(RecoveryAck::Committed)
            } else {
                RecoveryNext::StandDown
            };
            &&& broker.recover(watch, RecoveryStage::Decided(owns)) == (broker, report)
            &&& broker.recover(watch, RecoveryStage::DecidedAgain(owns)) == (broker, report)
            &&& broker.recover(watch, RecoveryStage::Decided(done)) == (broker, report)
            &&& broker.recover(watch, RecoveryStage::DecidedAgain(done)) == (broker, report)
            &&& broker.recover(watch, RecoveryStage::Decided(keep)) == (
                broker,
                RecoveryNext::StandDown,
            )
            &&& broker.recover(watch, RecoveryStage::DecidedAgain(keep)) == (
                broker,
                RecoveryNext::StandDown,
            )
        }),
{
}

/// An operation that is refused as soon as it is asked for is refused by its name, without anything
/// else: the diagnostic begins with the word for the operation, unless no handoff could be drawn.
pub proof fn law_a_refused_operation_is_named(
    broker: ActivationController,
    operation: ControlOperation,
    fresh: Option<HandoffId>,
    after: ActivationController,
    next: ControlNext,
)
    requires
        broker.controls(ControlStage::Requested { operation, fresh }, after, next),
    ensures
        next matches ControlNext::Refuse { diagnostic, reopen } ==> {
            &&& after == broker
            &&& !reopen
            &&& !(operation is Status)
            &&& operation is Prepare && fresh is Some ==> diagnostic@.take(7) == "prepare"@
            &&& operation is Prepare && fresh is None ==> diagnostic@.take(18)
                == "could not generate"@
            &&& operation is Commit ==> diagnostic@.take(6) == "commit"@
            &&& operation is Abort ==> diagnostic@.take(5) == "abort"@
            &&& operation is Retire ==> diagnostic@.take(6) == "retire"@
        },
{
    reveal_strlit("could not generate a nonzero activation handoff ID");
    reveal_strlit("prepare is valid only for a running old broker");
    reveal_strlit("commit handoff does not match the prepared activation");
    reveal_strlit("abort handoff does not match the prepared activation");
    reveal_strlit("retire is invalid while activation is in progress");
    reveal_strlit("prepare");
    reveal_strlit("could not generate");
    reveal_strlit("commit");
    reveal_strlit("abort");
    reveal_strlit("retire");
    if let ControlNext::Refuse { diagnostic, .. } = next {
        assert(operation is Prepare && fresh is Some ==> diagnostic@.take(7) =~= "prepare"@);
        assert(operation is Prepare && fresh is None ==> diagnostic@.take(18)
            =~= "could not generate"@);
        assert(operation is Commit ==> diagnostic@.take(6) =~= "commit"@);
        assert(operation is Abort ==> diagnostic@.take(5) =~= "abort"@);
        assert(operation is Retire ==> diagnostic@.take(6) =~= "retire"@);
    }
}

} // verus!
