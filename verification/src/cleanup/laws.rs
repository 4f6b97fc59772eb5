//! What the backlog does with each cleanup: what is kept, when it is tried, and when it is over.
use super::{
    capture_detail, pane_detail, CaptureCleanup, CaptureTaskAction, CleanupEffect, CleanupModel, CleanupPhase,
    CleanupSlot, CleanupTaskKey, PaneTaskAction, PendingPaneCleanup, TaskEvent,
};
use crate::gate::RegisteredPane;
use crate::host::{CaptureLease, PendingPaneLease, PendingPaneRegistration};
use crate::ids::UiSessionId;
use crate::protocol::laws::ends_in;
use crate::protocol::{AdapterError, CaptureReleaseReason};
use crate::time::Instant;
use vstd::prelude::*;

verus! {

/// A pane that the host holds a lease for is put on the backlog with all that it takes to close it, due
/// at once, and a task is started for it, unless one is alive. A pane without a lease leaves nothing to
/// do. What is on the backlog already keeps what it was put there with, and the first reason given.
pub proof fn law_a_pane_is_put_on_the_backlog(
    backlog: CleanupModel,
    session: UiSessionId,
    registration: RegisteredPane,
    primary: Option<String>,
    now: Instant,
    finished: bool,
)
    ensures
        ({
            let (after, effect) = backlog.enqueue_pane(
                session,
                registration,
                primary,
                now,
                finished,
            );
            &&& registration.lease is None ==> after == backlog && effect == CleanupEffect::Nothing
            &&& registration.lease matches Some(lease) ==> {
                let slot = CleanupSlot::PendingPane(lease.id@);
                let entry = after.panes[lease.id@];
                let alive = backlog.tasks.contains_key(slot) && !finished;
                let old = backlog.panes[lease.id@];
                let known = backlog.panes.contains_key(lease.id@);
                &&& after.panes.contains_key(lease.id@)
                &&& after.captures == backlog.captures
                &&& entry.phase == CleanupPhase::InFlight
                &&& !known ==> entry == PendingPaneCleanup {
                    session,
                    registration,
                    phase: CleanupPhase::InFlight,
                    attempt: 0,
                    next_retry: now,
                    primary,
                    last_cleanup_error: None,
                }
                &&& known ==> entry.session == old.session && entry.registration == old.registration
                    && entry.attempt == old.attempt && entry.last_cleanup_error
                    == old.last_cleanup_error && entry.primary == (if old.primary is Some {
                    old.primary
                } else {
                    primary
                })
                &&& known && old.phase == CleanupPhase::InFlight ==> effect == CleanupEffect::Wake
                    && after.tasks == backlog.tasks && entry.next_retry == old.next_retry
                &&& !(known && old.phase == CleanupPhase::InFlight) ==> entry.next_retry == now
                    && effect == (if alive {
                    CleanupEffect::Wake
                } else {
                    CleanupEffect::Spawn {
                        key: CleanupTaskKey::PendingPane(lease.id),
                        claim: backlog.next_claim,
                    }
                })
                &&& effect is Spawn ==> after.tasks.contains_key(slot) && after.tasks[slot]
                    == backlog.next_claim && after.next_claim != backlog.next_claim
            }
        }),
{
}

/// A capture is put on the backlog with its reason, due at once, and a task is started for it, unless
/// one is alive. What is on the backlog already keeps what it was put there with.
pub proof fn law_a_capture_is_put_on_the_backlog(
    backlog: CleanupModel,
    lease: CaptureLease,
    reason: CaptureReleaseReason,
    primary: Option<String>,
    now: Instant,
    finished: bool,
)
    ensures
        ({
            let (after, effect) = backlog.enqueue_capture(lease, reason, primary, now, finished);
            let slot = CleanupSlot::Capture(lease.id@);
            let entry = after.captures[lease.id@];
            let alive = backlog.tasks.contains_key(slot) && !finished;
            let old = backlog.captures[lease.id@];
            let known = backlog.captures.contains_key(lease.id@);
            &&& after.captures.contains_key(lease.id@)
            &&& after.panes == backlog.panes
            &&& entry.phase == CleanupPhase::InFlight
            &&& !known ==> entry == CaptureCleanup {
                lease,
                reason,
                phase: CleanupPhase::InFlight,
                attempt: 0,
                next_retry: now,
                primary,
                last_cleanup_error: None,
            }
            &&& known ==> entry.lease == old.lease && entry.reason == old.reason && entry.attempt
                == old.attempt && entry.last_cleanup_error == old.last_cleanup_error
                && entry.primary == (if old.primary is Some {
                old.primary
            } else {
                primary
            })
            &&& known && old.phase == CleanupPhase::InFlight ==> effect == CleanupEffect::Wake
                && after.tasks == backlog.tasks
            &&& !(known && old.phase == CleanupPhase::InFlight) ==> entry.next_retry == now && effect
                == (if alive {
                CleanupEffect::Wake
            } else {
                CleanupEffect::Spawn {
                    key: CleanupTaskKey::Capture(lease.id),
                    claim: backlog.next_claim,
                }
            })
            &&& effect is Spawn ==> after.tasks.contains_key(slot) && after.tasks[slot]
                == backlog.next_claim && after.next_claim != backlog.next_claim
        }),
{
}

/// What is put on the backlog leaves everything else on it as it is.
pub proof fn law_the_backlog_keeps_everything_else(
    backlog: CleanupModel,
    session: UiSessionId,
    registration: RegisteredPane,
    capture: CaptureLease,
    reason: CaptureReleaseReason,
    primary: Option<String>,
    now: Instant,
    finished: bool,
    other: Seq<char>,
)
    ensures
        ({
            let after = backlog.enqueue_pane(session, registration, primary, now, finished).0;
            backlog.panes.contains_key(other) && !(registration.lease matches Some(lease)
                && lease.id@ == other) ==> after.panes.contains_key(other) && after.panes[other]
                == backlog.panes[other]
        }),
        ({
            let after = backlog.enqueue_capture(capture, reason, primary, now, finished).0;
            backlog.captures.contains_key(other) && capture.id@ != other
                ==> after.captures.contains_key(other) && after.captures[other]
                == backlog.captures[other]
        }),
{
}

/// A task that closes a pane asks the host to close exactly that pane, for its session and under its
/// lease, as soon as it is due; a failure is noted and tried again; a confirmation ends it, and nothing
/// is left of the pane.
pub proof fn law_a_pane_is_closed_by_its_task(
    backlog: CleanupModel,
    lease: Seq<char>,
    held: PendingPaneLease,
    claim: u64,
    error: AdapterError,
    now: Instant,
)
    requires
        backlog.panes.contains_key(lease),
        backlog.panes[lease].registration.lease == Some(held),
        now.nanos + 1_000_000_000 <= u128::MAX,
    ensures
        ({
            let entry = backlog.panes[lease];
            let (begun, ask) = backlog.pane_task(lease, claim, TaskEvent::Resumed, now);
            let (failed, wait) = backlog.pane_task(lease, claim, TaskEvent::Failed(error), now);
            let (closed, end) = backlog.pane_task(lease, claim, TaskEvent::Confirmed, now);
            let due = entry.phase == CleanupPhase::InFlight || entry.next_retry.nanos <= now.nanos;
            &&& due ==> ask == (PaneTaskAction::Close {
                request: PendingPaneRegistration {
                    ui_session: entry.session,
                    pane: entry.registration.pane,
                    temporary_tab: entry.registration.temporary_tab,
                },
                lease: held,
            }) && begun.panes.contains_key(lease) && begun.panes[lease].phase
                == CleanupPhase::InFlight
            &&& !due ==> (ask matches PaneTaskAction::Sleep(delay) && delay.nanos
                == entry.next_retry.nanos - now.nanos) && begun == backlog
            &&& wait matches PaneTaskAction::Sleep(delay)
            &&& failed.panes.contains_key(lease)
            &&& failed.panes[lease].attempt == if entry.attempt == u32::MAX {
                entry.attempt as int
            } else {
                entry.attempt + 1
            }
            &&& failed.panes[lease].last_cleanup_error == Some(error)
            &&& failed.panes[lease].phase == CleanupPhase::Ready
            &&& failed.panes[lease].next_retry.nanos == now.nanos + delay.nanos
            &&& delay.nanos == delay_nanos(failed.panes[lease].attempt)
            &&& failed.panes[lease].session == entry.session
            &&& failed.panes[lease].registration == entry.registration
            &&& end == PaneTaskAction::Exit
            &&& !closed.panes.contains_key(lease)
            &&& !(closed.tasks.contains_key(CleanupSlot::PendingPane(lease))
                && closed.tasks[CleanupSlot::PendingPane(lease)] == claim)
        }),
{
}

/// How long a cleanup waits after so many failed attempts: a fortieth of a second at first, then a
/// tenth, a half, and a second from the fourth on.
pub open spec fn delay_nanos(attempts: u32) -> int {
    if attempts >= 4 {
        1_000_000_000
    } else if attempts == 3 {
        500_000_000
    } else if attempts == 2 {
        100_000_000
    } else if attempts == 1 {
        25_000_000
    } else {
        0
    }
}

/// A task that ends a capture asks the host to end exactly that capture for its reason, as soon as it is
/// due; a failure is noted and tried again; a confirmation ends it, and nothing is left of the capture.
pub proof fn law_a_capture_is_ended_by_its_task(
    backlog: CleanupModel,
    lease: Seq<char>,
    claim: u64,
    error: AdapterError,
    now: Instant,
)
    requires
        backlog.captures.contains_key(lease),
        now.nanos + 1_000_000_000 <= u128::MAX,
    ensures
        ({
            let entry = backlog.captures[lease];
            let (begun, ask) = backlog.capture_task(lease, claim, TaskEvent::Resumed, now);
            let (failed, wait) = backlog.capture_task(lease, claim, TaskEvent::Failed(error), now);
            let (closed, end) = backlog.capture_task(lease, claim, TaskEvent::Confirmed, now);
            let due = entry.phase == CleanupPhase::InFlight || entry.next_retry.nanos <= now.nanos;
            &&& due ==> ask == (CaptureTaskAction::End {
                lease: entry.lease,
                reason: entry.reason,
            }) && begun.captures.contains_key(lease) && begun.captures[lease].phase
                == CleanupPhase::InFlight
            &&& !due ==> (ask matches CaptureTaskAction::Sleep(delay) && delay.nanos
                == entry.next_retry.nanos - now.nanos) && begun == backlog
            &&& wait matches CaptureTaskAction::Sleep(delay)
            &&& failed.captures.contains_key(lease)
            &&& failed.captures[lease].attempt == if entry.attempt == u32::MAX {
                entry.attempt as int
            } else {
                entry.attempt + 1
            }
            &&& failed.captures[lease].last_cleanup_error == Some(error)
            &&& failed.captures[lease].phase == CleanupPhase::Ready
            &&& failed.captures[lease].next_retry.nanos == now.nanos + delay.nanos
            &&& delay.nanos == delay_nanos(failed.captures[lease].attempt)
            &&& failed.captures[lease].lease == entry.lease
            &&& failed.captures[lease].reason == entry.reason
            &&& end == CaptureTaskAction::Exit
            &&& !closed.captures.contains_key(lease)
            &&& !(closed.tasks.contains_key(CleanupSlot::Capture(lease))
                && closed.tasks[CleanupSlot::Capture(lease)] == claim)
        }),
{
}

/// A task that finds nothing to do ends and gives its slot up; a turn of one task leaves the entries and
/// the tasks of all others alone.
pub proof fn law_a_task_minds_its_own_slot(
    backlog: CleanupModel,
    lease: Seq<char>,
    claim: u64,
    event: TaskEvent,
    now: Instant,
    other: Seq<char>,
    slot: CleanupSlot,
)
    ensures
        !backlog.panes.contains_key(lease) ==> backlog.pane_task(lease, claim, event, now).1
            == PaneTaskAction::Exit,
        !backlog.captures.contains_key(lease) ==> backlog.capture_task(lease, claim, event, now).1
            == CaptureTaskAction::Exit,
        ({
            let after = backlog.pane_task(lease, claim, event, now).0;
            &&& after.captures == backlog.captures
            &&& other != lease ==> (after.panes.contains_key(other)
                <==> backlog.panes.contains_key(other)) && (backlog.panes.contains_key(other)
                ==> after.panes[other] == backlog.panes[other])
            &&& slot != CleanupSlot::PendingPane(lease) ==> (after.tasks.contains_key(slot)
                <==> backlog.tasks.contains_key(slot))
        }),
        ({
            let after = backlog.capture_task(lease, claim, event, now).0;
            &&& after.panes == backlog.panes
            &&& other != lease ==> (after.captures.contains_key(other)
                <==> backlog.captures.contains_key(other)) && (backlog.captures.contains_key(other)
                ==> after.captures[other] == backlog.captures[other])
            &&& slot != CleanupSlot::Capture(lease) ==> (after.tasks.contains_key(slot)
                <==> backlog.tasks.contains_key(slot))
        }),
{
}

/// The backlog is clear exactly where no pane and no capture is on it.
pub proof fn law_a_clear_backlog_is_empty(backlog: CleanupModel)
    ensures
        backlog.is_clear() <==> (forall|lease: Seq<char>| !#[trigger] backlog.panes.contains_key(lease))
            && (forall|lease: Seq<char>| !#[trigger] backlog.captures.contains_key(lease)),
{
    if backlog.is_clear() {
        assert forall|lease: Seq<char>| !#[trigger] backlog.panes.contains_key(lease) by {
            assert(!backlog.panes.dom().contains(lease));
        }
        assert forall|lease: Seq<char>| !#[trigger] backlog.captures.contains_key(lease) by {
            assert(!backlog.captures.dom().contains(lease));
        }
    }
}

/// The line on a cleanup that is not confirmed says what it is about and how it last failed: a pane is
/// called a pending pane and a capture a capture, each by its lease, and the line ends in the words of
/// the last failure.
pub proof fn law_a_line_says_what_is_left_and_why(
    lease: Seq<char>,
    pane: PendingPaneCleanup,
    capture: CaptureCleanup,
)
    ensures
        pane_detail(lease, pane).subrange(13, 13 + lease.len() as int) == lease,
        capture_detail(lease, capture).subrange(8, 8 + lease.len() as int) == lease,
        pane_detail(lease, pane)[0] == 'p',
        capture_detail(lease, capture)[0] == 'c',
        pane.last_cleanup_error matches Some(error) ==> ends_in(
            pane_detail(lease, pane),
            error.message@,
        ),
        capture.last_cleanup_error matches Some(error) ==> ends_in(
            capture_detail(lease, capture),
            error.message@,
        ),
        pane.last_cleanup_error is None ==> ends_in(
            pane_detail(lease, pane),
            "awaiting first attempt"@,
        ),
        capture.last_cleanup_error is None ==> ends_in(
            capture_detail(lease, capture),
            "awaiting first attempt"@,
        ),
{
    reveal_strlit("pending pane ");
    reveal_strlit("capture ");
    let pane_end = match pane.last_cleanup_error {
        Some(error) => error.message@,
        None => "awaiting first attempt"@,
    };
    let capture_end = match capture.last_cleanup_error {
        Some(error) => error.message@,
        None => "awaiting first attempt"@,
    };
    let pane_text = pane_detail(lease, pane);
    let capture_text = capture_detail(lease, capture);
    assert(pane_text.subrange(13, 13 + lease.len() as int) =~= lease);
    assert(capture_text.subrange(8, 8 + lease.len() as int) =~= lease);
    assert(pane_text.skip(pane_text.len() - pane_end.len()) =~= pane_end);
    assert(capture_text.skip(capture_text.len() - capture_end.len()) =~= capture_end);
}

} // verus!
