//! What a broker does where the last coordinator goes away in the middle of an activation.
use super::{ActivationController, ActivationState};
use crate::ids::HandoffId;
use crate::table::Key;
use crate::time::Duration;
use vstd::prelude::*;

verus! {

/// What a broker reports to the owner of the journal, once its own part is done.
#[derive(Clone, Copy, Debug, PartialEq, Eq, Structural)]
pub enum RecoveryAck {
    Resumed,
    TargetRetired,
    Committed,
}

/// What the owner of the journal decides. `permit` says whether it waits for a report.
#[derive(Debug, PartialEq, Eq)]
#[allow(inconsistent_fields)]
pub enum RecoveryDecision {
    /// Nothing authorises a target.
    NoJournal,
    /// The owner decides by itself.
    Preserve { reason: String },
    /// The target serves.
    TargetOwns { recover_after: Duration, permit: bool },
    /// The old broker serves again.
    RestoreOld { recover_after: Duration, permit: bool },
    /// It is over already.
    Committed { permit: bool },
}

/// The decision, where an owner of a journal is installed and where not.
pub fn recovery_decision(installed: Option<RecoveryDecision>) -> (r: RecoveryDecision)
    ensures
        r == (match installed {
            Some(decision) => decision,
            None => RecoveryDecision::NoJournal,
        }),
        installed matches Some(decision) ==> r == decision,
        installed is None ==> r is NoJournal,
{
    match installed {
        Some(decision) => decision,
        None => RecoveryDecision::NoJournal,
    }
}

/// A broker that looks after an activation by itself: which handoff, and whether as the target.
#[derive(Clone, Copy, Debug, PartialEq, Eq)]
pub struct RecoveryWatch {
    pub handoff: HandoffId,
    pub is_target: bool,
}

/// What a recovery has come to.
#[derive(Debug, PartialEq, Eq)]
#[allow(inconsistent_fields)]
pub enum RecoveryStage {
    /// The owner has decided.
    Decided(RecoveryDecision),
    /// It is time to look again.
    Waited,
    /// The owner has decided again.
    DecidedAgain(RecoveryDecision),
    /// It is time to restore the old broker.
    Restoring { permit: bool },
    /// The host was resumed, or could not be.
    HostResumed { outcome: Result<(), String>, permit: bool },
    /// The listener was bound again, or could not be.
    ListenerRebound { outcome: Result<(), String>, permit: bool },
}

/// What a recovery needs next.
#[derive(Debug, PartialEq, Eq)]
#[allow(inconsistent_fields)]
pub enum RecoveryNext {
    /// Nothing more.
    StandDown,
    /// A report.
    Acknowledge(RecoveryAck),
    /// The service ends; a report follows where the owner waits for one and the service has ended.
    Retire { permit: bool },
    /// It looks again after a while.
    LookAgain { delay: Duration },
    /// The owner is asked again.
    AskAgain,
    /// The old broker is restored after a while.
    Restore { delay: Duration, permit: bool },
    /// The host is resumed.
    ResumeHost { permit: bool },
    /// The listener is bound again.
    RebindListener { permit: bool },
    /// The old broker runs and admits again; a report follows where the owner waits for one.
    Restored { permit: bool },
}

/// No time at all.
pub open spec fn no_delay() -> Duration {
    Duration::of_millis(0)
}

/// A report, where the owner waits for one.
pub open spec fn acknowledged(permit: bool, ack: RecoveryAck) -> RecoveryNext {
    if permit {
        RecoveryNext::Acknowledge(ack)
    } else {
        RecoveryNext::StandDown
    }
}

impl ActivationController {
    /// The broker is a target that waits for this commit.
    pub open spec fn is_gated_for(self, handoff: Seq<u8>) -> bool {
        self.state is TargetGated && self.state.is_for(handoff)
    }

    /// The broker makes way in this handoff, and nothing is committed.
    pub open spec fn makes_way_for(self, handoff: Seq<u8>) -> bool {
        self.state is Draining && self.state.is_for(handoff)
    }

    /// What a target does that the owner lets serve.
    pub open spec fn completes_target(self, handoff: HandoffId, permit: bool) -> (
        Self,
        RecoveryNext,
    ) {
        if self.is_gated_for(handoff@) {
            (
                self.in_state(ActivationState::TargetCommitted { handoff }),
                acknowledged(permit, RecoveryAck::Committed),
            )
        } else {
            (self, RecoveryNext::StandDown)
        }
    }

    /// What a target does that is not to serve.
    pub open spec fn retires_target(self, handoff: HandoffId, permit: bool) -> (
        Self,
        RecoveryNext,
    ) {
        if self.is_gated_for(handoff@) {
            (self.in_state(ActivationState::Retired), RecoveryNext::Retire { permit })
        } else {
            (self, RecoveryNext::StandDown)
        }
    }

    /// What a decision leads to where it settles the matter for this broker.
    pub open spec fn settles(self, watch: RecoveryWatch, decision: RecoveryDecision) -> Option<
        (Self, RecoveryNext),
    > {
        match decision {
            RecoveryDecision::Preserve { .. } => Some((self, RecoveryNext::StandDown)),
            RecoveryDecision::Committed { permit } => Some(
                (self, acknowledged(permit, RecoveryAck::Committed)),
            ),
            RecoveryDecision::TargetOwns { permit, .. } => Some(
                if watch.is_target {
                    self.completes_target(watch.handoff, permit)
                } else {
                    (self, acknowledged(permit, RecoveryAck::Committed))
                },
            ),
            RecoveryDecision::NoJournal => if watch.is_target {
                Some(self.retires_target(watch.handoff, false))
            } else {
                None
            },
            RecoveryDecision::RestoreOld { permit, .. } => if watch.is_target {
                Some(self.retires_target(watch.handoff, permit))
            } else {
                None
            },
        }
    }

    /// What one stage of a recovery leads to.
    pub open spec fn recover(self, watch: RecoveryWatch, stage: RecoveryStage) -> (
        Self,
        RecoveryNext,
    ) {
        match stage {
            RecoveryStage::Decided(decision) => match self.settles(watch, decision) {
                Some(settled) => settled,
                None => (
                    self,
                    RecoveryNext::LookAgain {
                        delay: match decision {
                            RecoveryDecision::RestoreOld { recover_after, .. } => recover_after,
                            _ => no_delay(),
                        },
                    },
                ),
            },
            RecoveryStage::Waited => (
                self,
                if self.connections != 0 {
                    RecoveryNext::StandDown
                } else {
                    RecoveryNext::AskAgain
                },
            ),
            RecoveryStage::DecidedAgain(decision) => match self.settles(watch, decision) {
                Some(settled) => settled,
                None => (
                    self,
                    match decision {
                        RecoveryDecision::RestoreOld { recover_after, permit } => {
                            RecoveryNext::Restore { delay: recover_after, permit }
                        },
                        _ => RecoveryNext::Restore { delay: no_delay(), permit: false },
                    },
                ),
            },
            RecoveryStage::Restoring { permit } => (
                self,
                if !self.makes_way_for(watch.handoff@) {
                    RecoveryNext::StandDown
                } else if self.state->host_suspended {
                    RecoveryNext::ResumeHost { permit }
                } else {
                    RecoveryNext::RebindListener { permit }
                },
            ),
            RecoveryStage::HostResumed { outcome, permit } => (
                self,
                if self.makes_way_for(watch.handoff@) && outcome is Ok {
                    RecoveryNext::RebindListener { permit }
                } else {
                    RecoveryNext::StandDown
                },
            ),
            RecoveryStage::ListenerRebound { outcome, permit } => {
                if !self.makes_way_for(watch.handoff@) {
                    (self, RecoveryNext::StandDown)
                } else if outcome is Ok {
                    (self.in_state(ActivationState::Running), RecoveryNext::Restored { permit })
                } else {
                    (self.in_state(self.state.with_host(false)), RecoveryNext::StandDown)
                }
            },
        }
    }

    /// Who looks after an activation whose last coordinator has gone: an old broker that makes way,
    /// or a target that waits for its commit.
    pub open spec fn watch(self) -> Option<RecoveryWatch> {
        match self.state {
            ActivationState::Draining { handoff, .. } => Some(
                RecoveryWatch { handoff, is_target: false },
            ),
            ActivationState::TargetGated { handoff } => Some(
                RecoveryWatch { handoff, is_target: true },
            ),
            _ => None,
        }
    }

    /// A coordinator connects.
    pub fn control_connected(&mut self)
        requires
            old(self).connections < usize::MAX,
        ensures
            *final(self) == (ActivationController {
                connections: (old(self).connections + 1) as usize,
                ..*old(self)
            }),
            final(self).connections == old(self).connections + 1,
            final(self).state == old(self).state,
    {
        self.connections = self.connections + 1;
    }

    /// A coordinator goes. Where it was the last one, the broker looks after the activation by
    /// itself.
    pub fn control_disconnected(&mut self) -> (r: Option<RecoveryWatch>)
        ensures
            *final(self) == (ActivationController {
                connections: if old(self).connections == 0 {
                    0
                } else {
                    (old(self).connections - 1) as usize
                },
                ..*old(self)
            }),
            r == if old(self).connections <= 1 {
                old(self).watch()
            } else {
                None
            },
            final(self).connections > 0 ==> r is None && final(self).connections + 1 == old(
                self,
            ).connections,
            final(self).state == old(self).state,
            final(self).connections == 0 ==> (r is Some <==> old(self).state is Draining || old(
                self,
            ).state is TargetGated),
            r matches Some(watch) ==> (watch.is_target <==> old(self).state is TargetGated),
    {
        if self.connections > 0 {
            self.connections = self.connections - 1;
        }
        if self.connections != 0 {
            return None;
        }
        match &self.state {
            ActivationState::Draining { handoff, .. } => Some(
                RecoveryWatch { handoff: *handoff, is_target: false },
            ),
            ActivationState::TargetGated { handoff } => Some(
                RecoveryWatch { handoff: *handoff, is_target: true },
            ),
            _ => None,
        }
    }

    /// Whether the broker is a target that waits for this commit.
    fn waits_for(&self, handoff: &HandoffId) -> (r: bool)
        ensures
            r == self.is_gated_for(handoff@),
    {
        match &self.state {
            ActivationState::TargetGated { handoff: current } => current.same(handoff),
            _ => false,
        }
    }

    /// Whether the host is suspended, where the broker makes way in this handoff.
    fn host_suspended_for(&self, handoff: &HandoffId) -> (r: Option<bool>)
        ensures
            r == if self.makes_way_for(handoff@) {
                Some(self.state->host_suspended)
            } else {
                None
            },
    {
        match &self.state {
            ActivationState::Draining { handoff: current, host_suspended, .. } => {
                if current.same(handoff) {
                    Some(*host_suspended)
                } else {
                    None
                }
            },
            _ => None,
        }
    }

    /// Lets a target serve.
    fn complete_target(&mut self, handoff: HandoffId, permit: bool) -> (r: RecoveryNext)
        ensures
            (*final(self), r) == old(self).completes_target(handoff, permit),
    {
        if !self.waits_for(&handoff) {
            return RecoveryNext::StandDown;
        }
        self.state = ActivationState::TargetCommitted { handoff };
        acknowledge(permit, RecoveryAck::Committed)
    }

    /// Ends a target.
    fn retire_target(&mut self, handoff: HandoffId, permit: bool) -> (r: RecoveryNext)
        ensures
            (*final(self), r) == old(self).retires_target(handoff, permit),
    {
        if !self.waits_for(&handoff) {
            return RecoveryNext::StandDown;
        }
        self.state = ActivationState::Retired;
        RecoveryNext::Retire { permit }
    }

    /// Follows a decision where it settles the matter for this broker.
    fn settle(&mut self, watch: &RecoveryWatch, decision: &RecoveryDecision) -> (r: Option<
        RecoveryNext,
    >)
        ensures
            match old(self).settles(*watch, *decision) {
                Some(settled) => r matches Some(next) && (*final(self), next) == settled,
                None => r is None && *final(self) == *old(self),
            },
    {
        match decision {
            RecoveryDecision::Preserve { .. } => Some(RecoveryNext::StandDown),
            RecoveryDecision::Committed { permit } => Some(
                acknowledge(*permit, RecoveryAck::Committed),
            ),
            RecoveryDecision::TargetOwns { permit, .. } => {
                if watch.is_target {
                    Some(self.complete_target(watch.handoff, *permit))
                } else {
                    Some(acknowledge(*permit, RecoveryAck::Committed))
                }
            },
            RecoveryDecision::NoJournal => {
                if watch.is_target {
                    Some(self.retire_target(watch.handoff, false))
                } else {
                    None
                }
            },
            RecoveryDecision::RestoreOld { permit, .. } => {
                if watch.is_target {
                    Some(self.retire_target(watch.handoff, *permit))
                } else {
                    None
                }
            },
        }
    }

    /// Takes a recovery one stage on.
    pub fn recover_stage(&mut self, watch: &RecoveryWatch, stage: RecoveryStage) -> (r: RecoveryNext)
        ensures
            (*final(self), r) == old(self).recover(*watch, stage),
    {
        match stage {
            RecoveryStage::Decided(decision) => {
                match self.settle(watch, &decision) {
                    Some(next) => next,
                    None => RecoveryNext::LookAgain {
                        delay: match decision {
                            RecoveryDecision::RestoreOld { recover_after, .. } => recover_after,
                            _ => Duration::from_millis(0),
                        },
                    },
                }
            },
            RecoveryStage::Waited => if self.connections != 0 {
                RecoveryNext::StandDown
            } else {
                RecoveryNext::AskAgain
            },
            RecoveryStage::DecidedAgain(decision) => {
                match self.settle(watch, &decision) {
                    Some(next) => next,
                    None => match decision {
                        RecoveryDecision::RestoreOld { recover_after, permit } => {
                            RecoveryNext::Restore { delay: recover_after, permit }
                        },
                        _ => RecoveryNext::Restore {
                            delay: Duration::from_millis(0),
                            permit: false,
                        },
                    },
                }
            },
            RecoveryStage::Restoring { permit } => {
                match self.host_suspended_for(&watch.handoff) {
                    Some(true) => RecoveryNext::ResumeHost { permit },
                    Some(false) => RecoveryNext::RebindListener { permit },
                    None => RecoveryNext::StandDown,
                }
            },
            RecoveryStage::HostResumed { outcome, permit } => {
                if self.host_suspended_for(&watch.handoff).is_some() && outcome.is_ok() {
                    RecoveryNext::RebindListener { permit }
                } else {
                    RecoveryNext::StandDown
                }
            },
            RecoveryStage::ListenerRebound { outcome, permit } => {
                if self.host_suspended_for(&watch.handoff).is_none() {
                    return RecoveryNext::StandDown;
                }
                if outcome.is_ok() {
                    self.state = ActivationState::Running;
                    RecoveryNext::Restored { permit }
                } else {
                    self.set_host(false);
                    RecoveryNext::StandDown
                }
            },
        }
    }
}

/// A report, where the owner waits for one.
fn acknowledge(permit: bool, ack: RecoveryAck) -> (r: RecoveryNext)
    ensures
        r == acknowledged(permit, ack),
{
    if permit {
        RecoveryNext::Acknowledge(ack)
    } else {
        RecoveryNext::StandDown
    }
}

} // verus!
