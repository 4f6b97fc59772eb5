//! How the broker is emptied before another one takes its place.
use super::{Broker, BrokerModel, DetachEffects};
use crate::cleanup::{CleanupEffect, CleanupModel};
use crate::execution::{DrainPlan, ExecutionModel};
use crate::gate::{GateModel, PendingLaunch};
use crate::ids::UiSessionId;
use crate::protocol::{BrokerError, CaptureReleaseReason};
use crate::table::{enumerates, lists, lookup, views, Table};
use crate::time::{Duration, Instant};
use vstd::prelude::*;

verus! {

/// How long a drain waits for the host to confirm its cleanups, in milliseconds.
pub const DRAIN_CLEANUP_DEADLINE_MILLIS: u64 = 5000;

/// How often a drain looks whether the cleanups are confirmed, in milliseconds.
pub const DRAIN_CLEANUP_POLL_MILLIS: u64 = 10;

/// What a drain has come to.
#[derive(Debug, PartialEq, Eq)]
pub enum DrainStage {
    /// It starts, or an execution has moved on.
    Begin,
    /// Something that it asked for has failed.
    Failed(BrokerError),
    /// The host's executions have ended.
    HostSettled,
    /// The deferred executions have ended as well.
    Settled,
    /// It is time to look at the cleanups.
    Poll { deadline: Instant },
}

/// What a drain needs next.
#[derive(Debug, PartialEq, Eq)]
pub enum DrainNext {
    /// It waits until an execution moves on, then begins again.
    WaitForTransition,
    /// The host's executions are stopped and waited for.
    Stop(DrainPlan),
    /// The launches are gone and the sessions are detached; their UIs are told first that the
    /// broker retires.
    Detached {
        panes: Vec<CleanupEffect>,
        sessions: Vec<UiSessionId>,
        detached: Vec<DetachEffects>,
    },
    /// It looks again after the delay, until the deadline.
    Wait { delay: Duration, deadline: Instant },
    Done,
    /// It has failed, and admission is open again.
    Refuse(BrokerError),
}

/// Puts the panes of the launches that have a session on the backlog, one after the other.
pub open spec fn close_launches(
    backlog: CleanupModel,
    launches: Seq<PendingLaunch>,
    sessions: Map<Seq<u8>, UiSessionId>,
    now: Instant,
) -> (CleanupModel, Seq<CleanupEffect>)
    decreases launches.len(),
{
    if launches.len() == 0 {
        (backlog, Seq::empty())
    } else {
        let (before, effects) = close_launches(backlog, launches.drop_last(), sessions, now);
        let launch = launches.last();
        match (lookup(sessions, launch.token@), launch.registered_pane) {
            (Some(session), Some(registration)) => {
                let (after, effect) = before.enqueue_pane(session, registration, None, now, false);
                (after, effects.push(effect))
            },
            _ => (before, effects),
        }
    }
}

impl BrokerModel {
    /// Admission is open again.
    pub open spec fn reopened(self) -> Self {
        BrokerModel { executions: ExecutionModel { sealed: false, ..self.executions }, ..self }
    }

    /// Admission is closed.
    pub open spec fn sealed(self) -> Self {
        BrokerModel { executions: ExecutionModel { sealed: true, ..self.executions }, ..self }
    }

    /// `after` and `next` are what the start of a drain leads to.
    pub open spec fn drain_begins(self, after: Self, next: DrainNext) -> bool {
        if self.executions.has_open_reservation() {
            after == self.sealed() && next == DrainNext::WaitForTransition
        } else {
            match next {
                DrainNext::Stop(plan) => {
                    &&& after == self.sealed()
                    &&& forall|core: u64| !#[trigger] self.executions.blocks_drain(core)
                    &&& enumerates(views(plan.adapter@), self.executions.in_adapter())
                    &&& enumerates(views(plan.deferred@), self.executions.waiting_for_dismissal())
                },
                DrainNext::Refuse(BrokerError::ActivationDrainRefused(text)) => {
                    &&& after == self.reopened()
                    &&& exists|core: u64| #[trigger]
                        self.executions.blocks_drain(core) && text@
                            == crate::execution::drain_refusal(
                            core,
                            self.executions.executions[core],
                        )
                },
                _ => false,
            }
        }
    }

    /// `after` and the rest are what emptying the launches and the sessions leads to.
    /// `emptied` is the state once the launches are gone.
    pub open spec fn empties_through(
        self,
        now: Instant,
        launches: Seq<PendingLaunch>,
        emptied: Self,
        after: Self,
        panes: Seq<CleanupEffect>,
        sessions: Seq<UiSessionId>,
        detached: Seq<DetachEffects>,
    ) -> bool {
        let (cleanup, effects) = close_launches(
            self.cleanup,
            launches,
            self.pending_sessions,
            now,
        );
        &&& lists(launches, self.gate.pending)
        &&& panes == effects
        &&& emptied == BrokerModel {
            gate: GateModel::empty(),
            pending_sessions: Map::empty(),
            cleanup,
            ..self
        }
        &&& enumerates(views(sessions), self.sessions.dom())
        &&& emptied.detaches_all(
            sessions,
            CaptureReleaseReason::UiDismissed,
            now,
            after,
            detached,
        )
    }

    /// `after` and the rest are what emptying the launches and the sessions leads to.
    pub open spec fn empties(
        self,
        now: Instant,
        after: Self,
        panes: Seq<CleanupEffect>,
        sessions: Seq<UiSessionId>,
        detached: Seq<DetachEffects>,
    ) -> bool {
        exists|launches: Seq<PendingLaunch>, emptied: Self| #[trigger]
            self.empties_through(now, launches, emptied, after, panes, sessions, detached)
    }

    /// `after` and `next` are what a look at the cleanups leads to.
    pub open spec fn drain_polls(
        self,
        now: Instant,
        deadline: Instant,
        after: Self,
        next: DrainNext,
    ) -> bool {
        if self.cleanup.is_clear() {
            after == self && next == DrainNext::Done
        } else if deadline@ <= now@ {
            &&& after == self.reopened()
            &&& next matches DrainNext::Refuse(BrokerError::ActivationCleanupUnconfirmed(text))
                && self.cleanup.described_by(text@)
        } else {
            let left = deadline.time_left(now);
            let poll = Duration::of_millis(DRAIN_CLEANUP_POLL_MILLIS);
            &&& after == self
            &&& next == DrainNext::Wait {
                delay: if left@ <= poll@ {
                    left
                } else {
                    poll
                },
                deadline,
            }
        }
    }

    /// `after` and `next` are what one stage of a drain leads to.
    pub open spec fn drains(
        self,
        stage: DrainStage,
        now: Instant,
        after: Self,
        next: DrainNext,
    ) -> bool {
        match stage {
            DrainStage::Begin => self.drain_begins(after, next),
            DrainStage::Failed(error) => {
                after == self.reopened() && next == DrainNext::Refuse(error)
            },
            DrainStage::HostSettled => {
                &&& next matches DrainNext::Detached { panes, sessions, detached }
                &&& self.empties(now, after, panes@, sessions@, detached@)
            },
            DrainStage::Settled => self.drain_polls(
                now,
                now.later(Duration::of_millis(DRAIN_CLEANUP_DEADLINE_MILLIS))->Some_0,
                after,
                next,
            ),
            DrainStage::Poll { deadline } => self.drain_polls(now, deadline, after, next),
        }
    }
}

impl Broker {
    /// Opens admission again.
    pub fn reopen_dispatch(&mut self)
        ensures
            final(self)@ == old(self)@.reopened(),
    {
        self.executions.set_sealed(false);
    }

    fn drain_begin(&mut self) -> (r: DrainNext)
        ensures
            old(self)@.drain_begins(final(self)@, r),
    {
        let ghost before = self@;
        let reserved = self.executions.seal();
        assert(self@ =~= before.sealed());
        if reserved {
            return DrainNext::WaitForTransition;
        }
        let ghost sealed = self@;
        assert(sealed.executions.executions == before.executions.executions);
        match self.executions.plan_drain() {
            Ok(plan) => {
                assert forall|core: u64| !#[trigger] before.executions.blocks_drain(core) by {
                    assert(!sealed.executions.blocks_drain(core));
                }
                assert(sealed.executions.in_adapter() =~= before.executions.in_adapter());
                assert(sealed.executions.waiting_for_dismissal()
                    =~= before.executions.waiting_for_dismissal());
                DrainNext::Stop(plan)
            },
            Err(error) => {
                assert(self@ =~= before.reopened());
                proof {
                    let core = choose|core: u64| #[trigger]
                        sealed.executions.blocks_drain(core) && error->ActivationDrainRefused_0@
                            == crate::execution::drain_refusal(
                            core,
                            sealed.executions.executions[core],
                        );
                    assert(before.executions.blocks_drain(core));
                }
                DrainNext::Refuse(error)
            },
        }
    }

    fn drain_empty(&mut self, now: Instant) -> (r: (
        Vec<CleanupEffect>,
        Vec<UiSessionId>,
        Vec<DetachEffects>,
    ))
        ensures
            old(self)@.empties(now, final(self)@, r.0@, r.1@, r.2@),
    {
        let ghost before = self@;
        let launches = self.gate.drain();
        let mut waiting: Table<crate::ids::PendingLaunchToken, UiSessionId> = Table::new();
        std::mem::swap(&mut waiting, &mut self.pending_sessions);
        let ghost emptied = self@;
        let mut panes: Vec<CleanupEffect> = Vec::new();
        let mut i: usize = 0;
        assert(launches@.take(0) =~= Seq::empty());
        while i < launches.len()
            invariant
                i <= launches.len(),
                waiting@ == before.pending_sessions,
                self@ == (BrokerModel {
                    cleanup: close_launches(
                        before.cleanup,
                        launches@.take(i as int),
                        before.pending_sessions,
                        now,
                    ).0,
                    ..emptied
                }),
                panes@ == close_launches(
                    before.cleanup,
                    launches@.take(i as int),
                    before.pending_sessions,
                    now,
                ).1,
            decreases launches.len() - i,
        {
            assert(launches@.take(i + 1).drop_last() =~= launches@.take(i as int));
            if let Some(session) = waiting.get(&launches[i].token) {
                if let Some(registration) = &launches[i].registered_pane {
                    let effect = self.cleanup.enqueue_pane(session, registration, None, now, false);
                    panes.push(effect);
                }
            }
            i += 1;
        }
        assert(launches@.take(i as int) =~= launches@);
        let ghost closed = self@;
        let sessions = self.sessions.keys();
        let detached = self.detach_all(&sessions, CaptureReleaseReason::UiDismissed, now);
        assert(before.empties_through(
            now,
            launches@,
            closed,
            self@,
            panes@,
            sessions@,
            detached@,
        ));
        (panes, sessions, detached)
    }

    fn drain_poll(&mut self, now: Instant, deadline: Instant) -> (r: DrainNext)
        ensures
            old(self)@.drain_polls(now, deadline, final(self)@, r),
    {
        if self.cleanup.is_clear() {
            return DrainNext::Done;
        }
        if deadline.is_at_or_before(now) {
            let details = self.cleanup.details();
            self.executions.set_sealed(false);
            assert(self@ =~= old(self)@.reopened());
            return DrainNext::Refuse(BrokerError::ActivationCleanupUnconfirmed(details));
        }
        let left = deadline.until(now);
        let poll = Duration::from_millis(DRAIN_CLEANUP_POLL_MILLIS);
        let delay = if left.as_nanos() <= poll.as_nanos() {
            left
        } else {
            poll
        };
        DrainNext::Wait { delay, deadline }
    }

    /// Takes a drain from one stage to the next.
    pub fn drain_for_activation(&mut self, stage: DrainStage, now: Instant) -> (r: DrainNext)
        requires
            now@ + 5_000_000_000 <= u128::MAX,
        ensures
            old(self)@.drains(stage, now, final(self)@, r),
    {
        match stage {
            DrainStage::Begin => self.drain_begin(),
            DrainStage::Failed(error) => {
                self.executions.set_sealed(false);
                DrainNext::Refuse(error)
            },
            DrainStage::HostSettled => {
                let (panes, sessions, detached) = self.drain_empty(now);
                DrainNext::Detached { panes, sessions, detached }
            },
            DrainStage::Settled => {
                let wait = Duration::from_millis(DRAIN_CLEANUP_DEADLINE_MILLIS);
                match now.checked_add(wait) {
                    Some(deadline) => self.drain_poll(now, deadline),
                    None => self.drain_poll(now, now),
                }
            },
            DrainStage::Poll { deadline } => self.drain_poll(now, deadline),
        }
    }
}

} // verus!
