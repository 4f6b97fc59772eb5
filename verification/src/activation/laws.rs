//! What an activation promises.
use super::recovery::{RecoveryDecision, RecoveryNext, RecoveryStage, RecoveryWatch};
use super::{
    ActivationController, CompatibilityRecord, ControlNext, ControlOperation,
    ControlStage, ReportKind,
};
use crate::ids::HandoffId;
use crate::protocol::BrokerError;
use vstd::prelude::*;

verus! {

/// A target serves no UI until it is committed: no operation lets it, other than a commit that names
/// its own handoff. Each operation is answered at once, so that no further stage follows it.
pub proof fn law_only_its_commit_opens_a_target(
    target: ActivationController,
    stage: ControlStage,
    after: ActivationController,
    next: ControlNext,
)
    requires
        target.state is TargetGated,
        stage is Requested,
        target.controls(stage, after, next),
    ensures
        after.state.allows_ui() <==> (stage->operation matches ControlOperation::Commit {
            handoff_id,
        } && target.state.is_for(handoff_id@)),
        after.state.allows_ui() ==> after.state.handoff() == target.state.handoff(),
        next is Report || next is Refuse,
{
}

/// Operations that name another handoff change nothing and are refused, unless the broker is retired.
pub proof fn law_a_foreign_handoff_changes_nothing(
    broker: ActivationController,
    handoff_id: HandoffId,
    fresh: Option<HandoffId>,
    after: ActivationController,
    next: ControlNext,
)
    requires
        !broker.state.is_for(handoff_id@),
    ensures
        broker.requested(ControlOperation::Commit { handoff_id }, fresh, after, next) ==> after
            == broker && next is Refuse,
        broker.requested(ControlOperation::Abort { handoff_id }, fresh, after, next)
            && !(broker.state is Retired) ==> after == broker && next is Refuse,
{
}

/// A commit that is sent again finds what the first one left, and is answered the same.
pub proof fn law_a_commit_can_be_repeated(
    broker: ActivationController,
    handoff_id: HandoffId,
    fresh: Option<HandoffId>,
    between: ActivationController,
    first: ControlNext,
    after: ActivationController,
    second: ControlNext,
)
    requires
        broker.state.is_for(handoff_id@),
        broker.requested(ControlOperation::Commit { handoff_id }, fresh, between, first),
        between.requested(ControlOperation::Commit { handoff_id }, fresh, after, second),
    ensures
        after == between,
        second == first,
{
}

/// A broker that prepares is drained, then its host is suspended, then its listener is given up: in
/// this order, and the coordinator is told that it is prepared only after all three.
pub proof fn law_prepare_goes_in_order(
    broker: ActivationController,
    stage: ControlStage,
    after: ActivationController,
    next: ControlNext,
)
    requires
        broker.controls(stage, after, next),
    ensures
        next is SuspendHost <==> (stage matches ControlStage::Drained(outcome) && outcome is Ok),
        next is DrainListener <==> (stage matches ControlStage::HostSuspended(outcome)
            && outcome is Ok),
        (next matches ControlNext::Report { kind, .. } && kind == ReportKind::Prepared) <==> (
        stage matches ControlStage::ListenerDrained(outcome) && outcome is Ok),
{
}

/// A broker that makes way says that it runs again only where that is so: its drain failed before
/// anything else was touched, the host cannot be suspended at all, the host was resumed before the
/// listener was given up, or the listener was bound again.
pub proof fn law_running_is_claimed_only_where_it_holds(
    broker: ActivationController,
    stage: ControlStage,
    after: ActivationController,
    next: ControlNext,
)
    requires
        broker.state is Draining,
        broker.controls(stage, after, next),
        after.state is Running,
    ensures
        match stage {
            ControlStage::Drained(Err(_)) => true,
            ControlStage::HostSuspended(Err(error)) => super::is_unsupported(error),
            ControlStage::HostRestored { restore, .. } => restore is Ok,
            ControlStage::ListenerRebound(outcome) => outcome is Ok,
            _ => false,
        },
{
}

/// Whatever fails while a broker makes way, it either runs again or still makes way in the same
/// handoff, so that the coordinator can abort; and it never ends.
pub proof fn law_a_failure_leaves_the_abort_open(
    broker: ActivationController,
    stage: ControlStage,
    after: ActivationController,
    next: ControlNext,
)
    requires
        broker.state is Draining,
        !(stage is Requested),
        broker.controls(stage, after, next),
        next is Refuse,
    ensures
        after.state is Running || (after.state is Draining && after.state.handoff()
            == broker.state.handoff() && after.state.target() == broker.state.target()),
{
}

/// The flag of the host is true to the host: a later abort asks to resume the host exactly where it
/// is left suspended.
pub proof fn law_the_host_is_resumed_only_where_it_is_suspended(
    broker: ActivationController,
    suspend: BrokerError,
    listener: String,
    restore: Result<(), BrokerError>,
    after: ActivationController,
    next: ControlNext,
)
    requires
        broker.state is Draining,
    ensures
        broker.controls(ControlStage::ListenerDrained(Ok(())), after, next)
            ==> after.state->host_suspended,
        broker.controls(ControlStage::HostRestored { suspend, restore }, after, next)
            && after.state is Draining ==> after.state->host_suspended && restore is Err,
        broker.controls(ControlStage::ListenerRestored { listener, restore }, after, next)
            ==> after.state->host_suspended == (restore is Err),
        broker.controls(ControlStage::ListenerRebound(Err(listener)), after, next)
            ==> !after.state->host_suspended,
{
}

/// An abort undoes a preparation: after both have gone through, the broker is as it was before, runs
/// again where it ran, and admits again.
pub proof fn law_an_abort_undoes_a_preparation(
    broker: ActivationController,
    target: CompatibilityRecord,
    handoff: HandoffId,
    draining: ActivationController,
    drained: ActivationController,
    suspended: ActivationController,
    prepared: ActivationController,
    aborting: ActivationController,
    resumed: ActivationController,
    after: ActivationController,
    next: ControlNext,
)
    requires
        broker.state is Running,
        broker.requested(
            ControlOperation::Prepare { target },
            Some(handoff),
            draining,
            ControlNext::Drain,
        ),
        draining.controls(ControlStage::Drained(Ok(())), drained, ControlNext::SuspendHost),
        drained.controls(
            ControlStage::HostSuspended(Ok(())),
            suspended,
            ControlNext::DrainListener,
        ),
        suspended.controls(
            ControlStage::ListenerDrained(Ok(())),
            prepared,
            ControlNext::Report { kind: ReportKind::Prepared, reopen: false, stop: false },
        ),
        prepared.requested(
            ControlOperation::Abort { handoff_id: handoff },
            None,
            aborting,
            ControlNext::ResumeHost,
        ),
        aborting.controls(ControlStage::HostResumed(Ok(())), resumed, ControlNext::RebindListener),
        resumed.controls(ControlStage::ListenerRebound(Ok(())), after, next),
    ensures
        prepared.state.lifecycle() == super::LifecycleState::Draining,
        prepared.state.handoff() == Some(handoff),
        after == broker,
        next == (ControlNext::Report { kind: ReportKind::Aborted, reopen: true, stop: false }),
{
}

/// Recovery touches a broker only in the handoff that it looks after, and never after a commit or an
/// end: a broker in any other state is left as it is.
pub proof fn law_recovery_touches_nothing_settled(
    broker: ActivationController,
    watch: RecoveryWatch,
    stage: RecoveryStage,
)
    requires
        !(broker.state.is_for(watch.handoff@) && (broker.state is Draining
            || broker.state is TargetGated)),
    ensures
        broker.recover(watch, stage).0 == broker,
{
}

/// Recovery lets an old broker run again only after its host was resumed, where it was suspended, and
/// its listener was bound again.
pub proof fn law_recovery_restores_in_order(
    broker: ActivationController,
    watch: RecoveryWatch,
    stage: RecoveryStage,
)
    requires
        broker.state is Draining,
    ensures
        ({
            let (after, next) = broker.recover(watch, stage);
            &&& after.state is Running <==> (stage matches RecoveryStage::ListenerRebound {
                outcome,
                ..
            } && outcome is Ok && broker.state.is_for(watch.handoff@))
            &&& next is Restored <==> after.state is Running
            &&& (stage is Restoring && next is RebindListener) ==> !broker.state->host_suspended
        }),
{
}

/// An old broker and a target that follow the same decisions on the same handoff do not both serve: the
/// target serves only where the old one stands down, and where the old one goes on to serve again the
/// target has ended. This holds of the first decision, after which the old one only looks again, and of
/// the second one, `again`, on which it restores itself.
pub proof fn law_one_of_the_two_serves(
    old: ActivationController,
    target: ActivationController,
    handoff: HandoffId,
    decision: RecoveryDecision,
    again: RecoveryDecision,
)
    requires
        old.state is Draining,
        old.state.is_for(handoff@),
        target.state is TargetGated,
        target.state.is_for(handoff@),
    ensures
        ({
            let of_old = RecoveryWatch { handoff, is_target: false };
            let of_target = RecoveryWatch { handoff, is_target: true };
            let (old_after, old_next) = old.recover(of_old, RecoveryStage::Decided(decision));
            let (target_after, _) = target.recover(of_target, RecoveryStage::Decided(decision));
            &&& old_after == old
            &&& target_after.state.allows_ui() ==> old_next is StandDown || old_next is Acknowledge
            &&& old_next is LookAgain ==> target_after.state is Retired
            &&& target_after.state is TargetGated ==> old_next is StandDown
                || old_next is Acknowledge
            &&& !(old_next is Restore)
        }),
        ({
            let of_old = RecoveryWatch { handoff, is_target: false };
            let of_target = RecoveryWatch { handoff, is_target: true };
            let (_, first_next) = old.recover(of_old, RecoveryStage::Decided(decision));
            let (old_after, old_next) = old.recover(of_old, RecoveryStage::DecidedAgain(again));
            let (after_first, _) = target.recover(of_target, RecoveryStage::Decided(decision));
            let (after_again, _) = target.recover(of_target, RecoveryStage::Decided(again));
            &&& old_after == old
            &&& old_next is Restore || old_next is StandDown || old_next is Acknowledge
            &&& old_next is Restore ==> after_again.state is Retired
            &&& first_next is LookAgain && old_next is Restore ==> after_first.state is Retired
            &&& after_again.state.allows_ui() ==> old_next is StandDown || old_next is Acknowledge
            &&& target.recover(of_target, RecoveryStage::DecidedAgain(again)).0 == after_again
        }),
{
}

/// An old broker looks again before it restores itself, and leaves the matter to a coordinator that
/// has come back.
pub proof fn law_a_returned_coordinator_owns_recovery(
    broker: ActivationController,
    watch: RecoveryWatch,
)
    requires
        broker.connections != 0,
    ensures
        broker.recover(watch, RecoveryStage::Waited) == (broker, RecoveryNext::StandDown),
{
}

} // verus!
