//! The backlog of host cleanups: panes to close and captures to end, each kept until the host has
//! confirmed it, and the tasks that carry them out.
pub mod laws;

use crate::gate::RegisteredPane;
use crate::host::{clone_option, CaptureLease, PendingPaneLease, PendingPaneRegistration};
use crate::ids::{CaptureLeaseId, PendingPaneLeaseId, UiSessionId};
use crate::protocol::{AdapterError, CaptureReleaseReason};
use crate::table::{enumerates, lookup, views, Key, Table};
use crate::text::{
    decimal, decimal_text, is_sorted, is_truncation, join_all, joined, sort_texts, texts_of,
    truncate_utf8,
};
use crate::time::{Duration, Instant};
use vstd::prelude::*;
use vstd::string::StringExecFns;

verus! {

/// How long to wait before the next attempt: 0 ms, 25 ms, 100 ms, 500 ms, then 1 s each time.
pub open spec fn retry_millis(attempt: u32) -> u64 {
    if attempt == 0 {
        0
    } else if attempt == 1 {
        25
    } else if attempt == 2 {
        100
    } else if attempt == 3 {
        500
    } else {
        1000
    }
}

/// How long to wait before the next attempt.
pub fn cleanup_retry_delay(attempt: u32) -> (r: Duration)
    ensures
        r == Duration::of_millis(retry_millis(attempt)),
{
    match attempt {
        0 => Duration::from_millis(0),
        1 => Duration::from_millis(25),
        2 => Duration::from_millis(100),
        3 => Duration::from_millis(500),
        _ => Duration::from_millis(1000),
    }
}

/// A later attempt never waits for a shorter time, and none waits for longer than a second.
pub proof fn law_retry_delays_grow_to_a_second(earlier: u32, later: u32)
    requires
        earlier <= later,
    ensures
        Duration::of_millis(retry_millis(earlier))@ <= Duration::of_millis(retry_millis(later))@,
        Duration::of_millis(retry_millis(later))@ <= 1_000_000_000,
{
}

#[derive(Clone, Copy, Debug, PartialEq, Eq, Structural)]
pub enum CleanupPhase {
    Ready,
    InFlight,
}

/// A pane to close.
#[derive(Debug, PartialEq, Eq)]
pub struct PendingPaneCleanup {
    pub session: UiSessionId,
    pub registration: RegisteredPane,
    pub phase: CleanupPhase,
    pub attempt: u32,
    pub next_retry: Instant,
    /// Why the pane is to be closed, where that was a failure.
    pub primary: Option<String>,
    pub last_cleanup_error: Option<AdapterError>,
}

/// A capture to end.
#[derive(Debug, PartialEq, Eq)]
pub struct CaptureCleanup {
    pub lease: CaptureLease,
    pub reason: CaptureReleaseReason,
    pub phase: CleanupPhase,
    pub attempt: u32,
    pub next_retry: Instant,
    /// Why the capture is to be ended, where that was a failure.
    pub primary: Option<String>,
    pub last_cleanup_error: Option<AdapterError>,
}

/// What a cleanup task is for.
#[derive(Debug, PartialEq, Eq, Hash)]
pub enum CleanupTaskKey {
    PendingPane(PendingPaneLeaseId),
    Capture(CaptureLeaseId),
}

/// What a cleanup task is for, by the lease's name.
pub enum CleanupSlot {
    PendingPane(Seq<char>),
    Capture(Seq<char>),
}

impl View for CleanupTaskKey {
    type V = CleanupSlot;

    open spec fn view(&self) -> CleanupSlot {
        match self {
            CleanupTaskKey::PendingPane(lease) => CleanupSlot::PendingPane(lease@),
            CleanupTaskKey::Capture(lease) => CleanupSlot::Capture(lease@),
        }
    }
}

impl Clone for CleanupTaskKey {
    fn clone(&self) -> (r: Self)
        ensures
            r == *self,
    {
        match self {
            CleanupTaskKey::PendingPane(lease) => CleanupTaskKey::PendingPane(lease.clone()),
            CleanupTaskKey::Capture(lease) => CleanupTaskKey::Capture(lease.clone()),
        }
    }
}

impl Key for CleanupTaskKey {
    fn same(&self, other: &Self) -> (r: bool) {
        match (self, other) {
            (CleanupTaskKey::PendingPane(left), CleanupTaskKey::PendingPane(right)) => left.same(
                right,
            ),
            (CleanupTaskKey::Capture(left), CleanupTaskKey::Capture(right)) => left.same(right),
            _ => false,
        }
    }

    fn duplicate(&self) -> (r: Self) {
        self.clone()
    }
}

/// What the caller has to do after a cleanup was put on the backlog.
#[derive(Debug, PartialEq, Eq)]
pub enum CleanupEffect {
    /// There is nothing to clean up.
    Nothing,
    /// A task has it already and is woken.
    Wake,
    /// A task is started for it under a fresh claim.
    Spawn { key: CleanupTaskKey, claim: u64 },
}

/// The next step of a task that closes a pane.
#[derive(Debug, PartialEq, Eq)]
pub enum PaneStep {
    /// There is nothing left to close.
    Gone,
    /// The entry held no lease, so the host knows nothing of it; it has been dropped.
    Discarded,
    /// The next attempt is not due yet.
    Wait(Duration),
    /// The host is asked to close the pane.
    Close { request: PendingPaneRegistration, lease: PendingPaneLease },
}

/// The next step of a task that ends a capture.
#[derive(Debug, PartialEq, Eq)]
pub enum CaptureStep {
    /// There is nothing left to end.
    Gone,
    /// The next attempt is not due yet.
    Wait(Duration),
    /// The host is asked to end the capture.
    End { lease: CaptureLease, reason: CaptureReleaseReason },
}

/// What a cleanup task has learned.
#[derive(Debug, PartialEq, Eq)]
pub enum TaskEvent {
    /// The task starts, or its wait is over, or it was woken.
    Resumed,
    /// The host has confirmed the cleanup.
    Confirmed,
    /// The host has failed.
    Failed(AdapterError),
}

/// What a task that closes a pane does.
#[derive(Debug, PartialEq, Eq)]
pub enum PaneTaskAction {
    /// It asks the host to close the pane.
    Close { request: PendingPaneRegistration, lease: PendingPaneLease },
    /// It waits, or until it is woken.
    Sleep(Duration),
    /// It ends; its slot is free.
    Exit,
}

/// What a task that ends a capture does.
#[derive(Debug, PartialEq, Eq)]
pub enum CaptureTaskAction {
    /// It asks the host to end the capture.
    End { lease: CaptureLease, reason: CaptureReleaseReason },
    /// It waits, or until it is woken.
    Sleep(Duration),
    /// It ends; its slot is free.
    Exit,
}

/// What the backlog holds.
#[verifier::ext_equal]
pub struct CleanupModel {
    pub panes: Map<Seq<char>, PendingPaneCleanup>,
    pub captures: Map<Seq<char>, CaptureCleanup>,
    /// The claim of the task in each slot.
    pub tasks: Map<CleanupSlot, u64>,
    pub next_claim: u64,
}

/// An optional text cut to a limit.
pub open spec fn is_bounded(whole: Option<String>, limit: nat, part: Option<String>) -> bool {
    match (whole, part) {
        (Some(whole), Some(part)) => is_truncation(whole@, limit, part@),
        (None, None) => true,
        _ => false,
    }
}

/// A failure's text, cut to `limit` bytes.
pub fn bounded_cleanup_message(message: Option<String>, limit: usize) -> (r: Option<String>)
    ensures
        is_bounded(message, limit as nat, r),
{
    match message {
        Some(message) => Some(truncate_utf8(message.as_str(), limit)),
        None => None,
    }
}

/// The host's failure with its text cut to `limit` bytes.
pub fn bounded_adapter_error(error: AdapterError, limit: usize) -> (r: AdapterError)
    ensures
        r.kind == error.kind,
        is_truncation(error.message@, limit as nat, r.message@),
{
    AdapterError { kind: error.kind, message: truncate_utf8(error.message.as_str(), limit) }
}

/// The first text that is there.
pub open spec fn first_text(left: Option<String>, right: Option<String>) -> Option<String> {
    if left is Some {
        left
    } else {
        right
    }
}

/// The claim after this one.
pub open spec fn claim_after(claim: u64) -> u64 {
    if claim == u64::MAX {
        0
    } else {
        (claim + 1) as u64
    }
}

impl CleanupModel {
    pub open spec fn empty() -> Self {
        CleanupModel {
            panes: Map::empty(),
            captures: Map::empty(),
            tasks: Map::empty(),
            next_claim: 1,
        }
    }

    /// A task is started for a slot, unless one is alive in it.
    pub open spec fn start(self, key: CleanupTaskKey, finished: bool) -> (Self, CleanupEffect) {
        if self.tasks.contains_key(key@) && !finished {
            (self, CleanupEffect::Wake)
        } else {
            (
                CleanupModel {
                    tasks: self.tasks.insert(key@, self.next_claim),
                    next_claim: claim_after(self.next_claim),
                    ..self
                },
                CleanupEffect::Spawn { key, claim: self.next_claim },
            )
        }
    }

    /// A pane is put on the backlog, where the host has a lease on it. An entry that is there
    /// already stays; a task that is at work on it is woken.
    pub open spec fn enqueue_pane(
        self,
        session: UiSessionId,
        registration: RegisteredPane,
        primary: Option<String>,
        now: Instant,
        finished: bool,
    ) -> (Self, CleanupEffect) {
        match registration.lease {
            None => (self, CleanupEffect::Nothing),
            Some(lease) => {
                let entry = match lookup(self.panes, lease.id@) {
                    Some(entry) => PendingPaneCleanup {
                        primary: first_text(entry.primary, primary),
                        ..entry
                    },
                    None => PendingPaneCleanup {
                        session,
                        registration,
                        phase: CleanupPhase::Ready,
                        attempt: 0,
                        next_retry: now,
                        primary,
                        last_cleanup_error: None,
                    },
                };
                if entry.phase == CleanupPhase::InFlight {
                    (
                        CleanupModel { panes: self.panes.insert(lease.id@, entry), ..self },
                        CleanupEffect::Wake,
                    )
                } else {
                    let claimed = PendingPaneCleanup {
                        phase: CleanupPhase::InFlight,
                        next_retry: now,
                        ..entry
                    };
                    CleanupModel { panes: self.panes.insert(lease.id@, claimed), ..self }.start(
                        CleanupTaskKey::PendingPane(lease.id),
                        finished,
                    )
                }
            },
        }
    }

    /// A capture is put on the backlog. An entry that is there already stays; a task that is at
    /// work on it is woken.
    pub open spec fn enqueue_capture(
        self,
        lease: CaptureLease,
        reason: CaptureReleaseReason,
        primary: Option<String>,
        now: Instant,
        finished: bool,
    ) -> (Self, CleanupEffect) {
        let entry = match lookup(self.captures, lease.id@) {
            Some(entry) => CaptureCleanup {
                primary: first_text(entry.primary, primary),
                ..entry
            },
            None => CaptureCleanup {
                lease,
                reason,
                phase: CleanupPhase::Ready,
                attempt: 0,
                next_retry: now,
                primary,
                last_cleanup_error: None,
            },
        };
        if entry.phase == CleanupPhase::InFlight {
            (
                CleanupModel { captures: self.captures.insert(lease.id@, entry), ..self },
                CleanupEffect::Wake,
            )
        } else {
            let claimed = CaptureCleanup {
                phase: CleanupPhase::InFlight,
                next_retry: now,
                ..entry
            };
            CleanupModel { captures: self.captures.insert(lease.id@, claimed), ..self }.start(
                CleanupTaskKey::Capture(lease.id),
                finished,
            )
        }
    }

    /// The task of a pane asks what to do next.
    pub open spec fn pane_step(self, lease: Seq<char>, now: Instant) -> (Self, PaneStep) {
        match lookup(self.panes, lease) {
            None => (self, PaneStep::Gone),
            Some(entry) => if entry.phase == CleanupPhase::InFlight || entry.next_retry@ <= now@ {
                match entry.registration.lease {
                    None => (
                        CleanupModel { panes: self.panes.remove(lease), ..self },
                        PaneStep::Discarded,
                    ),
                    Some(held) => (
                        CleanupModel {
                            panes: self.panes.insert(
                                lease,
                                PendingPaneCleanup { phase: CleanupPhase::InFlight, ..entry },
                            ),
                            ..self
                        },
                        PaneStep::Close {
                            request: PendingPaneRegistration {
                                ui_session: entry.session,
                                pane: entry.registration.pane,
                                temporary_tab: entry.registration.temporary_tab,
                            },
                            lease: held,
                        },
                    ),
                }
            } else {
                (self, PaneStep::Wait(entry.next_retry.time_left(now)))
            },
        }
    }

    /// The task of a capture asks what to do next.
    pub open spec fn capture_step(self, lease: Seq<char>, now: Instant) -> (Self, CaptureStep) {
        match lookup(self.captures, lease) {
            None => (self, CaptureStep::Gone),
            Some(entry) => if entry.phase == CleanupPhase::InFlight || entry.next_retry@ <= now@ {
                (
                    CleanupModel {
                        captures: self.captures.insert(
                            lease,
                            CaptureCleanup { phase: CleanupPhase::InFlight, ..entry },
                        ),
                        ..self
                    },
                    CaptureStep::End { lease: entry.lease, reason: entry.reason },
                )
            } else {
                (self, CaptureStep::Wait(entry.next_retry.time_left(now)))
            },
        }
    }

    /// The number of attempts after one more.
    pub open spec fn attempts_after(attempt: u32) -> u32 {
        if attempt == u32::MAX {
            attempt
        } else {
            (attempt + 1) as u32
        }
    }

    /// The host failed to close a pane: the entry stays, with the failure and the time of the
    /// next attempt.
    pub open spec fn pane_failed(self, lease: Seq<char>, error: AdapterError, now: Instant) -> (
        Self,
        Option<Duration>,
    ) {
        match lookup(self.panes, lease) {
            None => (self, None),
            Some(entry) => {
                let attempt = Self::attempts_after(entry.attempt);
                let delay = Duration::of_millis(retry_millis(attempt));
                (
                    CleanupModel {
                        panes: self.panes.insert(
                            lease,
                            PendingPaneCleanup {
                                phase: CleanupPhase::Ready,
                                attempt,
                                next_retry: now.later(delay)->Some_0,
                                last_cleanup_error: Some(error),
                                ..entry
                            },
                        ),
                        ..self
                    },
                    Some(delay),
                )
            },
        }
    }

    /// The host failed to end a capture: the entry stays, with the failure and the time of the
    /// next attempt.
    pub open spec fn capture_failed(self, lease: Seq<char>, error: AdapterError, now: Instant) -> (
        Self,
        Option<Duration>,
    ) {
        match lookup(self.captures, lease) {
            None => (self, None),
            Some(entry) => {
                let attempt = Self::attempts_after(entry.attempt);
                let delay = Duration::of_millis(retry_millis(attempt));
                (
                    CleanupModel {
                        captures: self.captures.insert(
                            lease,
                            CaptureCleanup {
                                phase: CleanupPhase::Ready,
                                attempt,
                                next_retry: now.later(delay)->Some_0,
                                last_cleanup_error: Some(error),
                                ..entry
                            },
                        ),
                        ..self
                    },
                    Some(delay),
                )
            },
        }
    }

    /// Something is to be cleaned up in a slot.
    pub open spec fn has_entry(self, slot: CleanupSlot) -> bool {
        match slot {
            CleanupSlot::PendingPane(lease) => self.panes.contains_key(lease),
            CleanupSlot::Capture(lease) => self.captures.contains_key(lease),
        }
    }

    /// A task gives its slot up, unless it was taken by another one.
    pub open spec fn remove_if_claim(self, slot: CleanupSlot, claim: u64) -> Self {
        if lookup(self.tasks, slot) == Some(claim) {
            CleanupModel { tasks: self.tasks.remove(slot), ..self }
        } else {
            self
        }
    }

    /// A task ends, unless something was put on the backlog for it meanwhile.
    pub open spec fn release_slot_unless_requeued(self, slot: CleanupSlot, claim: u64) -> (
        Self,
        bool,
    ) {
        if self.has_entry(slot) {
            (self, false)
        } else {
            (self.remove_if_claim(slot, claim), true)
        }
    }

    /// The host has confirmed that a pane is closed.
    pub open spec fn pane_closed(self, lease: Seq<char>) -> Self {
        CleanupModel { panes: self.panes.remove(lease), ..self }
    }

    /// The host has confirmed that a capture is ended.
    pub open spec fn capture_ended(self, lease: Seq<char>) -> Self {
        CleanupModel { captures: self.captures.remove(lease), ..self }
    }

    /// One turn of a task that closes a pane.
    pub open spec fn pane_task(
        self,
        lease: Seq<char>,
        claim: u64,
        event: TaskEvent,
        now: Instant,
    ) -> (Self, PaneTaskAction) {
        let slot = CleanupSlot::PendingPane(lease);
        match event {
            TaskEvent::Resumed => match self.pane_step(lease, now) {
                (after, PaneStep::Close { request, lease }) => (
                    after,
                    PaneTaskAction::Close { request, lease },
                ),
                (after, PaneStep::Wait(delay)) => (after, PaneTaskAction::Sleep(delay)),
                (after, _) => (after.remove_if_claim(slot, claim), PaneTaskAction::Exit),
            },
            TaskEvent::Confirmed => (
                self.pane_closed(lease).remove_if_claim(slot, claim),
                PaneTaskAction::Exit,
            ),
            TaskEvent::Failed(error) => match self.pane_failed(lease, error, now) {
                (after, Some(delay)) => (after, PaneTaskAction::Sleep(delay)),
                (after, None) => (after.remove_if_claim(slot, claim), PaneTaskAction::Exit),
            },
        }
    }

    /// One turn of a task that ends a capture.
    pub open spec fn capture_task(
        self,
        lease: Seq<char>,
        claim: u64,
        event: TaskEvent,
        now: Instant,
    ) -> (Self, CaptureTaskAction) {
        let slot = CleanupSlot::Capture(lease);
        match event {
            TaskEvent::Resumed => match self.capture_step(lease, now) {
                (after, CaptureStep::End { lease, reason }) => (
                    after,
                    CaptureTaskAction::End { lease, reason },
                ),
                (after, CaptureStep::Wait(delay)) => (after, CaptureTaskAction::Sleep(delay)),
                (after, CaptureStep::Gone) => (
                    after.remove_if_claim(slot, claim),
                    CaptureTaskAction::Exit,
                ),
            },
            TaskEvent::Confirmed => (
                self.capture_ended(lease).remove_if_claim(slot, claim),
                CaptureTaskAction::Exit,
            ),
            TaskEvent::Failed(error) => match self.capture_failed(lease, error, now) {
                (after, Some(delay)) => (after, CaptureTaskAction::Sleep(delay)),
                (after, None) => (after.remove_if_claim(slot, claim), CaptureTaskAction::Exit),
            },
        }
    }

    /// A text that gives the line of each pane and each capture, in dictionary order.
    pub open spec fn described_in_order(
        self,
        text: Seq<char>,
        panes: Seq<Seq<char>>,
        captures: Seq<Seq<char>>,
        lines: Seq<Seq<char>>,
    ) -> bool {
        &&& enumerates(panes, self.panes.dom())
        &&& enumerates(captures, self.captures.dom())
        &&& lines.to_multiset() == (panes.map_values(
            |lease: Seq<char>| pane_detail(lease, self.panes[lease]),
        ) + captures.map_values(
            |lease: Seq<char>| capture_detail(lease, self.captures[lease]),
        )).to_multiset()
        &&& is_sorted(lines)
        &&& text == joined(lines, "; "@)
    }

    /// A text that gives one line on every cleanup that is not confirmed, in dictionary order.
    pub open spec fn described_by(self, text: Seq<char>) -> bool {
        exists|panes: Seq<Seq<char>>, captures: Seq<Seq<char>>, lines: Seq<Seq<char>>|
            self.described_in_order(text, panes, captures, lines)
    }

    /// Nothing is left to clean up.
    pub open spec fn is_clear(self) -> bool {
        self.panes.dom() =~= Set::empty() && self.captures.dom() =~= Set::empty()
    }
}

/// An event whose failure text, if there is one, is cut to a limit.
pub open spec fn is_bounded_event(whole: TaskEvent, limit: nat, part: TaskEvent) -> bool {
    match (whole, part) {
        (TaskEvent::Failed(whole), TaskEvent::Failed(part)) => part.kind == whole.kind
            && is_truncation(whole.message@, limit, part.message@),
        _ => whole == part,
    }
}

/// A failure's text, or that there was no attempt yet.
pub open spec fn failure_text(error: Option<AdapterError>) -> Seq<char> {
    match error {
        Some(error) => error.message@,
        None => "awaiting first attempt"@,
    }
}

/// The line on a pane that is not confirmed closed.
pub open spec fn pane_detail(lease: Seq<char>, entry: PendingPaneCleanup) -> Seq<char> {
    "pending pane "@ + lease + " attempt "@ + decimal(entry.attempt as nat) + ": "@ + failure_text(
        entry.last_cleanup_error,
    )
}

/// The line on a capture that is not confirmed ended.
pub open spec fn capture_detail(lease: Seq<char>, entry: CaptureCleanup) -> Seq<char> {
    "capture "@ + lease + " attempt "@ + decimal(entry.attempt as nat) + ": "@ + failure_text(
        entry.last_cleanup_error,
    )
}

fn detail_line(what: &str, lease: &str, attempt: u32, error: &Option<AdapterError>) -> (r: String)
    ensures
        r@ == what@ + lease@ + " attempt "@ + decimal(attempt as nat) + ": "@ + failure_text(
            *error,
        ),
{
    let number = decimal_text(attempt as u64);
    let failure = match error {
        Some(error) => error.message.as_str(),
        None => "awaiting first attempt",
    };
    what.to_owned().concat(lease).concat(" attempt ").concat(number.as_str()).concat(": ").concat(
        failure,
    )
}

/// The backlog of host cleanups with its tasks. A cleanup is taken off only once the host has
/// confirmed it, so that nobody who goes away in between can lose it.
pub struct CleanupRegistry {
    panes: Table<PendingPaneLeaseId, PendingPaneCleanup>,
    captures: Table<CaptureLeaseId, CaptureCleanup>,
    tasks: Table<CleanupTaskKey, u64>,
    next_claim: u64,
}

impl View for CleanupRegistry {
    type V = CleanupModel;

    closed spec fn view(&self) -> CleanupModel {
        CleanupModel {
            panes: self.panes@,
            captures: self.captures@,
            tasks: self.tasks@,
            next_claim: self.next_claim,
        }
    }
}

/// The longest retry delay in nanoseconds.
pub const LONGEST_DELAY_NANOS: u64 = 1_000_000_000;

impl CleanupRegistry {
    pub fn new() -> (r: Self)
        ensures
            r@ == CleanupModel::empty(),
    {
        CleanupRegistry {
            panes: Table::new(),
            captures: Table::new(),
            tasks: Table::new(),
            next_claim: 1,
        }
    }

    /// Whether a live task is in a slot, given whether the task that holds it has finished.
    pub fn has_live_task(&self, key: &CleanupTaskKey, finished: bool) -> (r: bool)
        ensures
            r == (self@.tasks.contains_key(key@) && !finished),
    {
        self.tasks.contains_key(key) && !finished
    }

    fn start(&mut self, key: CleanupTaskKey, finished: bool) -> (r: CleanupEffect)
        ensures
            (final(self)@, r) == old(self)@.start(key, finished),
    {
        if self.has_live_task(&key, finished) {
            return CleanupEffect::Wake;
        }
        let claim: u64 = self.next_claim;
        self.next_claim = if claim == u64::MAX {
            0
        } else {
            claim + 1
        };
        self.tasks.insert(key.clone(), claim);
        CleanupEffect::Spawn { key, claim }
    }

    /// Puts a pane on the backlog. `finished` says whether the task in the pane's slot, if there
    /// is one, has finished.
    pub fn enqueue_pane(
        &mut self,
        session: &UiSessionId,
        registration: &RegisteredPane,
        primary: Option<String>,
        now: Instant,
        finished: bool,
    ) -> (r: CleanupEffect)
        ensures
            (final(self)@, r) == old(self)@.enqueue_pane(
                *session,
                *registration,
                primary,
                now,
                finished,
            ),
    {
        let lease = match &registration.lease {
            Some(lease) => lease.id.clone(),
            None => return CleanupEffect::Nothing,
        };
        let mut entry = match self.panes.remove(&lease) {
            Some(mut entry) => {
                if entry.primary.is_none() {
                    entry.primary = primary;
                }
                entry
            },
            None => PendingPaneCleanup {
                session: session.clone(),
                registration: registration.clone(),
                phase: CleanupPhase::Ready,
                attempt: 0,
                next_retry: now,
                primary,
                last_cleanup_error: None,
            },
        };
        let started = entry.phase != CleanupPhase::InFlight;
        if started {
            entry.phase = CleanupPhase::InFlight;
            entry.next_retry = now;
        }
        self.panes.insert(lease.clone(), entry);
        assert(self.panes@ =~= old(self).panes@.insert(lease@, entry));
        if started {
            self.start(CleanupTaskKey::PendingPane(lease), finished)
        } else {
            CleanupEffect::Wake
        }
    }

    /// Puts a capture on the backlog. `finished` says whether the task in the capture's slot, if
    /// there is one, has finished.
    pub fn enqueue_capture(
        &mut self,
        lease: &CaptureLease,
        reason: CaptureReleaseReason,
        primary: Option<String>,
        now: Instant,
        finished: bool,
    ) -> (r: CleanupEffect)
        ensures
            (final(self)@, r) == old(self)@.enqueue_capture(*lease, reason, primary, now, finished),
    {
        let mut entry = match self.captures.remove(&lease.id) {
            Some(mut entry) => {
                if entry.primary.is_none() {
                    entry.primary = primary;
                }
                entry
            },
            None => CaptureCleanup {
                lease: lease.clone(),
                reason,
                phase: CleanupPhase::Ready,
                attempt: 0,
                next_retry: now,
                primary,
                last_cleanup_error: None,
            },
        };
        let started = entry.phase != CleanupPhase::InFlight;
        if started {
            entry.phase = CleanupPhase::InFlight;
            entry.next_retry = now;
        }
        self.captures.insert(lease.id.clone(), entry);
        assert(self.captures@ =~= old(self).captures@.insert(lease.id@, entry));
        if started {
            self.start(CleanupTaskKey::Capture(lease.id.clone()), finished)
        } else {
            CleanupEffect::Wake
        }
    }

    /// What the task of a pane does next.
    pub fn pane_step(&mut self, lease: &PendingPaneLeaseId, now: Instant) -> (r: PaneStep)
        ensures
            (final(self)@, r) == old(self)@.pane_step(lease@, now),
    {
        match self.panes.get(lease) {
            None => return PaneStep::Gone,
            Some(entry) => if entry.phase != CleanupPhase::InFlight
                && !entry.next_retry.is_at_or_before(now) {
                return PaneStep::Wait(entry.next_retry.until(now));
            },
        }
        match self.panes.remove(lease) {
            None => PaneStep::Gone,
            Some(mut entry) => {
                let held = match &entry.registration.lease {
                    Some(held) => held.clone(),
                    None => return PaneStep::Discarded,
                };
                let request = PendingPaneRegistration {
                    ui_session: entry.session.clone(),
                    pane: entry.registration.pane.clone(),
                    temporary_tab: clone_option(&entry.registration.temporary_tab),
                };
                entry.phase = CleanupPhase::InFlight;
                self.panes.insert(lease.clone(), entry);
                assert(self@ =~= old(self)@.pane_step(lease@, now).0);
                PaneStep::Close { request, lease: held }
            },
        }
    }

    /// What the task of a capture does next.
    pub fn capture_step(&mut self, lease: &CaptureLeaseId, now: Instant) -> (r: CaptureStep)
        ensures
            (final(self)@, r) == old(self)@.capture_step(lease@, now),
    {
        match self.captures.get(lease) {
            None => return CaptureStep::Gone,
            Some(entry) => if entry.phase != CleanupPhase::InFlight
                && !entry.next_retry.is_at_or_before(now) {
                return CaptureStep::Wait(entry.next_retry.until(now));
            },
        }
        match self.captures.remove(lease) {
            None => CaptureStep::Gone,
            Some(mut entry) => {
                let step = CaptureStep::End { lease: entry.lease.clone(), reason: entry.reason };
                entry.phase = CleanupPhase::InFlight;
                self.captures.insert(lease.clone(), entry);
                assert(self@ =~= old(self)@.capture_step(lease@, now).0);
                step
            },
        }
    }

    /// Takes a pane off the backlog: the host has closed it.
    pub fn pane_closed(&mut self, lease: &PendingPaneLeaseId)
        ensures
            final(self)@ == old(self)@.pane_closed(lease@),
    {
        self.panes.remove(lease);
    }

    /// Takes a capture off the backlog: the host has ended it.
    pub fn capture_ended(&mut self, lease: &CaptureLeaseId)
        ensures
            final(self)@ == old(self)@.capture_ended(lease@),
    {
        self.captures.remove(lease);
    }

    /// Keeps a pane that the host failed to close, and says how long to wait; nothing where the
    /// entry is gone.
    pub fn pane_failed(&mut self, lease: &PendingPaneLeaseId, error: AdapterError, now: Instant) -> (r:
        Option<Duration>)
        requires
            now@ + LONGEST_DELAY_NANOS <= u128::MAX,
        ensures
            (final(self)@, r) == old(self)@.pane_failed(lease@, error, now),
    {
        match self.panes.remove(lease) {
            None => {
                assert(self@ =~= old(self)@);
                None
            },
            Some(mut entry) => {
                entry.phase = CleanupPhase::Ready;
                entry.attempt = entry.attempt.saturating_add(1);
                let delay = cleanup_retry_delay(entry.attempt);
                proof {
                    law_retry_delays_grow_to_a_second(entry.attempt, entry.attempt);
                }
                if let Some(next_retry) = now.checked_add(delay) {
                    entry.next_retry = next_retry;
                }
                entry.last_cleanup_error = Some(error);
                self.panes.insert(lease.clone(), entry);
                assert(self@ =~= old(self)@.pane_failed(lease@, error, now).0);
                Some(delay)
            },
        }
    }

    /// Keeps a capture that the host failed to end, and says how long to wait; nothing where the
    /// entry is gone.
    pub fn capture_failed(&mut self, lease: &CaptureLeaseId, error: AdapterError, now: Instant) -> (r:
        Option<Duration>)
        requires
            now@ + LONGEST_DELAY_NANOS <= u128::MAX,
        ensures
            (final(self)@, r) == old(self)@.capture_failed(lease@, error, now),
    {
        match self.captures.remove(lease) {
            None => {
                assert(self@ =~= old(self)@);
                None
            },
            Some(mut entry) => {
                entry.phase = CleanupPhase::Ready;
                entry.attempt = entry.attempt.saturating_add(1);
                let delay = cleanup_retry_delay(entry.attempt);
                proof {
                    law_retry_delays_grow_to_a_second(entry.attempt, entry.attempt);
                }
                if let Some(next_retry) = now.checked_add(delay) {
                    entry.next_retry = next_retry;
                }
                entry.last_cleanup_error = Some(error);
                self.captures.insert(lease.clone(), entry);
                assert(self@ =~= old(self)@.capture_failed(lease@, error, now).0);
                Some(delay)
            },
        }
    }

    /// Gives up the slot of a task, unless another task has it.
    pub fn remove_if_claim(&mut self, key: &CleanupTaskKey, claim: u64)
        ensures
            final(self)@ == old(self)@.remove_if_claim(key@, claim),
    {
        let held = match self.tasks.get(key) {
            Some(holder) => *holder == claim,
            None => false,
        };
        if held {
            self.tasks.remove(key);
        }
    }

    /// Ends a task, unless something was put on the backlog for it meanwhile; then the task goes
    /// on.
    pub fn release_slot_unless_requeued(&mut self, key: &CleanupTaskKey, claim: u64) -> (r: bool)
        ensures
            (final(self)@, r) == old(self)@.release_slot_unless_requeued(key@, claim),
    {
        let requeued = match key {
            CleanupTaskKey::PendingPane(lease) => self.panes.contains_key(lease),
            CleanupTaskKey::Capture(lease) => self.captures.contains_key(lease),
        };
        if requeued {
            return false;
        }
        self.remove_if_claim(key, claim);
        true
    }

    /// Whether nothing is left to clean up.
    pub fn is_clear(&self) -> (r: bool)
        ensures
            r == self@.is_clear(),
    {
        let panes = self.panes.is_empty();
        let captures = self.captures.is_empty();
        panes && captures
    }

    /// One turn of the task that closes a pane under a claim.
    pub fn run_pending_pane_cleanup(
        &mut self,
        lease: &PendingPaneLeaseId,
        claim: u64,
        event: TaskEvent,
        now: Instant,
        limit: usize,
    ) -> (r: PaneTaskAction)
        requires
            now@ + LONGEST_DELAY_NANOS <= u128::MAX,
        ensures
            exists|bounded: TaskEvent| #[trigger]
                is_bounded_event(event, limit as nat, bounded) && (final(self)@, r) == old(
                    self,
                )@.pane_task(lease@, claim, bounded, now),
    {
        let key = CleanupTaskKey::PendingPane(lease.clone());
        match event {
            TaskEvent::Resumed => {
                assert(is_bounded_event(event, limit as nat, event));
                match self.pane_step(lease, now) {
                    PaneStep::Close { request, lease } => PaneTaskAction::Close { request, lease },
                    PaneStep::Wait(delay) => PaneTaskAction::Sleep(delay),
                    PaneStep::Gone | PaneStep::Discarded => {
                        self.release_slot_unless_requeued(&key, claim);
                        PaneTaskAction::Exit
                    },
                }
            },
            TaskEvent::Confirmed => {
                assert(is_bounded_event(event, limit as nat, event));
                self.pane_closed(lease);
                self.release_slot_unless_requeued(&key, claim);
                PaneTaskAction::Exit
            },
            TaskEvent::Failed(error) => {
                let bounded = bounded_adapter_error(error, limit);
                assert(is_bounded_event(event, limit as nat, TaskEvent::Failed(bounded)));
                match self.pane_failed(lease, bounded, now) {
                    Some(delay) => PaneTaskAction::Sleep(delay),
                    None => {
                        self.release_slot_unless_requeued(&key, claim);
                        PaneTaskAction::Exit
                    },
                }
            },
        }
    }

    /// One turn of the task that ends a capture under a claim.
    pub fn run_capture_cleanup(
        &mut self,
        lease: &CaptureLeaseId,
        claim: u64,
        event: TaskEvent,
        now: Instant,
        limit: usize,
    ) -> (r: CaptureTaskAction)
        requires
            now@ + LONGEST_DELAY_NANOS <= u128::MAX,
        ensures
            exists|bounded: TaskEvent| #[trigger]
                is_bounded_event(event, limit as nat, bounded) && (final(self)@, r) == old(
                    self,
                )@.capture_task(lease@, claim, bounded, now),
    {
        let key = CleanupTaskKey::Capture(lease.clone());
        match event {
            TaskEvent::Resumed => {
                assert(is_bounded_event(event, limit as nat, event));
                match self.capture_step(lease, now) {
                    CaptureStep::End { lease, reason } => CaptureTaskAction::End { lease, reason },
                    CaptureStep::Wait(delay) => CaptureTaskAction::Sleep(delay),
                    CaptureStep::Gone => {
                        self.release_slot_unless_requeued(&key, claim);
                        CaptureTaskAction::Exit
                    },
                }
            },
            TaskEvent::Confirmed => {
                assert(is_bounded_event(event, limit as nat, event));
                self.capture_ended(lease);
                self.release_slot_unless_requeued(&key, claim);
                CaptureTaskAction::Exit
            },
            TaskEvent::Failed(error) => {
                let bounded = bounded_adapter_error(error, limit);
                assert(is_bounded_event(event, limit as nat, TaskEvent::Failed(bounded)));
                match self.capture_failed(lease, bounded, now) {
                    Some(delay) => CaptureTaskAction::Sleep(delay),
                    None => {
                        self.release_slot_unless_requeued(&key, claim);
                        CaptureTaskAction::Exit
                    },
                }
            },
        }
    }

    /// One line on every cleanup that is not confirmed, in dictionary order.
    pub fn details(&self) -> (r: String)
        ensures
            self@.described_by(r@),
    {
        let pane_keys = self.panes.keys();
        let capture_keys = self.captures.keys();
        let mut lines: Vec<String> = Vec::new();
        let ghost pane_lines = views(pane_keys@).map_values(
            |lease: Seq<char>| pane_detail(lease, self@.panes[lease]),
        );
        let ghost capture_lines = views(capture_keys@).map_values(
            |lease: Seq<char>| capture_detail(lease, self@.captures[lease]),
        );
        let mut i: usize = 0;
        assert(texts_of(lines@) =~= pane_lines.take(0));
        while i < pane_keys.len()
            invariant
                i <= pane_keys.len(),
                enumerates(views(pane_keys@), self@.panes.dom()),
                pane_lines == views(pane_keys@).map_values(
                    |lease: Seq<char>| pane_detail(lease, self@.panes[lease]),
                ),
                texts_of(lines@) == pane_lines.take(i as int),
            decreases pane_keys.len() - i,
        {
            let ghost before = lines@;
            assert(views(pane_keys@).contains(views(pane_keys@)[i as int]));
            if let Some(entry) = self.panes.get(&pane_keys[i]) {
                let line = detail_line(
                    "pending pane ",
                    pane_keys[i].as_str(),
                    entry.attempt,
                    &entry.last_cleanup_error,
                );
                lines.push(line);
                assert(texts_of(lines@) =~= texts_of(before).push(line@));
            }
            i += 1;
            assert(texts_of(lines@) =~= pane_lines.take(i as int));
        }
        assert(pane_lines.take(i as int) =~= pane_lines);
        i = 0;
        assert(texts_of(lines@) =~= pane_lines + capture_lines.take(0));
        while i < capture_keys.len()
            invariant
                i <= capture_keys.len(),
                enumerates(views(capture_keys@), self@.captures.dom()),
                capture_lines == views(capture_keys@).map_values(
                    |lease: Seq<char>| capture_detail(lease, self@.captures[lease]),
                ),
                texts_of(lines@) == pane_lines + capture_lines.take(i as int),
            decreases capture_keys.len() - i,
        {
            let ghost before = lines@;
            assert(views(capture_keys@).contains(views(capture_keys@)[i as int]));
            if let Some(entry) = self.captures.get(&capture_keys[i]) {
                let line = detail_line(
                    "capture ",
                    capture_keys[i].as_str(),
                    entry.attempt,
                    &entry.last_cleanup_error,
                );
                lines.push(line);
                assert(texts_of(lines@) =~= texts_of(before).push(line@));
            }
            i += 1;
            assert(texts_of(lines@) =~= pane_lines + capture_lines.take(i as int));
        }
        assert(capture_lines.take(i as int) =~= capture_lines);
        let sorted = sort_texts(lines);
        let text = join_all(&sorted, "; ");
        assert(self@.described_in_order(
            text@,
            views(pane_keys@),
            views(capture_keys@),
            texts_of(sorted@),
        ));
        text
    }
}

impl CleanupModel {
    /// Every cleanup on the backlog has a task in its slot.
    pub open spec fn supervised(self) -> bool {
        forall|slot: CleanupSlot| #[trigger] self.has_entry(slot) ==> self.tasks.contains_key(slot)
    }

    /// Every pane on the backlog is held under the lease that it is found by.
    pub open spec fn panes_are_leased(self) -> bool {
        forall|lease: Seq<char>| #[trigger]
            self.panes.contains_key(lease) ==> (self.panes[lease].registration.lease matches Some(
                held,
            ) && held.id@ == lease)
    }

    /// No task holds a claim that is still to be given out.
    pub open spec fn claims_are_old(self) -> bool {
        forall|slot: CleanupSlot| #[trigger]
            self.tasks.contains_key(slot) ==> self.tasks[slot] < self.next_claim
    }
}

/// An empty backlog is supervised.
pub proof fn law_new_backlog_is_supervised()
    ensures
        CleanupModel::empty().supervised(),
        CleanupModel::empty().claims_are_old(),
        CleanupModel::empty().panes_are_leased(),
{
}

/// What is put on the backlog has a task in its slot at once, and nothing loses the task that it
/// has.
pub proof fn law_enqueued_cleanups_are_supervised(
    backlog: CleanupModel,
    session: UiSessionId,
    registration: RegisteredPane,
    lease: CaptureLease,
    reason: CaptureReleaseReason,
    primary: Option<String>,
    now: Instant,
    finished: bool,
)
    requires
        backlog.supervised(),
    ensures
        backlog.enqueue_pane(session, registration, primary, now, finished).0.supervised(),
        registration.lease matches Some(held) ==> backlog.enqueue_pane(
            session,
            registration,
            primary,
            now,
            finished,
        ).0.has_entry(CleanupSlot::PendingPane(held.id@)),
        backlog.enqueue_capture(lease, reason, primary, now, finished).0.supervised(),
        backlog.enqueue_capture(lease, reason, primary, now, finished).0.has_entry(
            CleanupSlot::Capture(lease.id@),
        ),
{
    let after = backlog.enqueue_pane(session, registration, primary, now, finished).0;
    assert forall|slot: CleanupSlot| #[trigger] after.has_entry(slot) implies after.tasks.contains_key(
        slot,
    ) by {
        if backlog.has_entry(slot) {
        } else {
            assert(slot == CleanupSlot::PendingPane(registration.lease->Some_0.id@));
        }
    }
    let after = backlog.enqueue_capture(lease, reason, primary, now, finished).0;
    assert forall|slot: CleanupSlot| #[trigger] after.has_entry(slot) implies after.tasks.contains_key(
        slot,
    ) by {
        if backlog.has_entry(slot) {
        } else {
            assert(slot == CleanupSlot::Capture(lease.id@));
        }
    }
}

/// Whatever is put on the backlog, and whatever its tasks do, every pane on it keeps the lease that it
/// is found by.
pub proof fn law_pending_panes_keep_their_leases(
    backlog: CleanupModel,
    session: UiSessionId,
    registration: RegisteredPane,
    capture: CaptureLease,
    reason: CaptureReleaseReason,
    primary: Option<String>,
    now: Instant,
    finished: bool,
    lease: Seq<char>,
    claim: u64,
    event: TaskEvent,
)
    requires
        backlog.panes_are_leased(),
    ensures
        backlog.enqueue_pane(session, registration, primary, now, finished).0.panes_are_leased(),
        backlog.enqueue_capture(capture, reason, primary, now, finished).0.panes_are_leased(),
        backlog.pane_task(lease, claim, event, now).0.panes_are_leased(),
        backlog.capture_task(lease, claim, event, now).0.panes_are_leased(),
{
}

/// A task's own steps keep the backlog supervised, and its end does too: it gives its slot up only
/// where nothing was put on the backlog for it meanwhile.
pub proof fn law_tasks_keep_supervision(
    backlog: CleanupModel,
    lease: Seq<char>,
    slot: CleanupSlot,
    claim: u64,
    error: AdapterError,
    now: Instant,
)
    requires
        backlog.supervised(),
    ensures
        backlog.pane_step(lease, now).0.supervised(),
        backlog.capture_step(lease, now).0.supervised(),
        backlog.pane_closed(lease).supervised(),
        backlog.capture_ended(lease).supervised(),
        backlog.pane_failed(lease, error, now).0.supervised(),
        backlog.capture_failed(lease, error, now).0.supervised(),
        backlog.release_slot_unless_requeued(slot, claim).0.supervised(),
        backlog.release_slot_unless_requeued(slot, claim).1 ==> !backlog.has_entry(slot) && lookup(
            backlog.release_slot_unless_requeued(slot, claim).0.tasks,
            slot,
        ) != Some(claim),
{
    assert forall|other: CleanupSlot| #[trigger]
        backlog.pane_step(lease, now).0.has_entry(other) implies backlog.has_entry(other) by {}
    assert forall|other: CleanupSlot| #[trigger]
        backlog.capture_step(lease, now).0.has_entry(other) implies backlog.has_entry(other) by {}
    assert forall|other: CleanupSlot| #[trigger]
        backlog.pane_closed(lease).has_entry(other) implies backlog.has_entry(other) by {}
    assert forall|other: CleanupSlot| #[trigger]
        backlog.capture_ended(lease).has_entry(other) implies backlog.has_entry(other) by {}
    assert forall|other: CleanupSlot| #[trigger]
        backlog.pane_failed(lease, error, now).0.has_entry(other) implies backlog.has_entry(other) by {}
    assert forall|other: CleanupSlot| #[trigger]
        backlog.capture_failed(lease, error, now).0.has_entry(other) implies backlog.has_entry(
        other,
    ) by {}
    let released = backlog.release_slot_unless_requeued(slot, claim).0;
    assert forall|other: CleanupSlot| #[trigger] released.has_entry(other) implies released.tasks.contains_key(
    other) by {
        assert(backlog.has_entry(other));
    }
}

/// A task that has ended cannot take the slot from the task that was started after it.
pub proof fn law_an_ended_task_spares_its_successor(
    backlog: CleanupModel,
    slot: CleanupSlot,
    claim: u64,
)
    requires
        lookup(backlog.tasks, slot) != Some(claim),
    ensures
        backlog.remove_if_claim(slot, claim) == backlog,
{
}

/// The claim of a started task is held by no other task, as long as claims have not run out.
pub proof fn law_claims_are_fresh(
    backlog: CleanupModel,
    key: CleanupTaskKey,
    finished: bool,
    slot: CleanupSlot,
)
    requires
        backlog.claims_are_old(),
        backlog.next_claim < u64::MAX,
    ensures
        backlog.start(key, finished).0.claims_are_old(),
        backlog.start(key, finished).1 matches CleanupEffect::Spawn { claim, .. } ==> lookup(
            backlog.tasks,
            slot,
        ) != Some(claim),
{
    let after = backlog.start(key, finished).0;
    assert forall|other: CleanupSlot| #[trigger] after.tasks.contains_key(other) implies
        after.tasks[other] < after.next_claim by {
        if backlog.tasks.contains_key(other) {
        }
    }
}

/// A cleanup leaves the backlog only once the host has confirmed it: a failed attempt keeps it with
/// all that is needed to try again, and so does putting it on the backlog once more.
pub proof fn law_unconfirmed_cleanups_stay(
    backlog: CleanupModel,
    pane: Seq<char>,
    capture: Seq<char>,
    error: AdapterError,
    now: Instant,
    session: UiSessionId,
    registration: RegisteredPane,
    primary: Option<String>,
    finished: bool,
)
    requires
        backlog.panes.contains_key(pane),
        backlog.captures.contains_key(capture),
    ensures
        lookup(backlog.pane_failed(pane, error, now).0.panes, pane) matches Some(entry)
            && entry.session == backlog.panes[pane].session && entry.registration
            == backlog.panes[pane].registration && entry.last_cleanup_error == Some(error),
        lookup(backlog.capture_failed(capture, error, now).0.captures, capture) matches Some(entry)
            && entry.lease == backlog.captures[capture].lease && entry.reason
            == backlog.captures[capture].reason && entry.last_cleanup_error == Some(error),
        lookup(
            backlog.enqueue_pane(session, registration, primary, now, finished).0.panes,
            pane,
        ) matches Some(entry) && entry.session == backlog.panes[pane].session
            && entry.registration == backlog.panes[pane].registration,
        lookup(backlog.capture_step(capture, now).0.captures, capture) matches Some(entry)
            && entry.lease == backlog.captures[capture].lease,
        backlog.panes[pane].registration.lease is Some ==> (lookup(
            backlog.pane_step(pane, now).0.panes,
            pane,
        ) matches Some(entry) && entry.registration == backlog.panes[pane].registration),
{
}

/// A cleanup that failed is tried again as soon as its delay is over, and not before: the end of a
/// capture, and the closing of a pane that the host holds a lease for.
pub proof fn law_failed_cleanups_are_tried_again(
    backlog: CleanupModel,
    lease: Seq<char>,
    error: AdapterError,
    now: Instant,
    later: Instant,
)
    requires
        now@ + LONGEST_DELAY_NANOS <= u128::MAX,
    ensures
        backlog.captures.contains_key(lease) ==> ({
            let (after, delay) = backlog.capture_failed(lease, error, now);
            &&& delay is Some
            &&& after.capture_step(lease, later).1 is End <==> later@ >= now@ + delay->Some_0@
            &&& after.capture_step(lease, later).1 is Wait <==> later@ < now@ + delay->Some_0@
        }),
        backlog.panes.contains_key(lease) ==> ({
            let (after, delay) = backlog.pane_failed(lease, error, now);
            &&& delay is Some
            &&& after.pane_step(lease, later).1 is Wait <==> later@ < now@ + delay->Some_0@
            &&& backlog.panes[lease].registration.lease is Some || backlog.panes_are_leased() ==> (
            after.pane_step(lease, later).1 is Close <==> later@ >= now@ + delay->Some_0@)
        }),
{
    let attempt = CleanupModel::attempts_after(backlog.captures[lease].attempt);
    law_retry_delays_grow_to_a_second(attempt, attempt);
    let attempt = CleanupModel::attempts_after(backlog.panes[lease].attempt);
    law_retry_delays_grow_to_a_second(attempt, attempt);
}

/// Every turn of a cleanup task keeps the backlog supervised: a task ends only where nothing is
/// left to do in its slot.
pub proof fn law_task_turns_keep_supervision(
    backlog: CleanupModel,
    lease: Seq<char>,
    claim: u64,
    event: TaskEvent,
    now: Instant,
)
    requires
        backlog.supervised(),
    ensures
        backlog.pane_task(lease, claim, event, now).0.supervised(),
        backlog.pane_task(lease, claim, event, now).1 is Exit ==> !backlog.pane_task(
            lease,
            claim,
            event,
            now,
        ).0.has_entry(CleanupSlot::PendingPane(lease)),
        backlog.capture_task(lease, claim, event, now).0.supervised(),
        backlog.capture_task(lease, claim, event, now).1 is Exit ==> !backlog.capture_task(
            lease,
            claim,
            event,
            now,
        ).0.has_entry(CleanupSlot::Capture(lease)),
{
    let after = backlog.pane_task(lease, claim, event, now).0;
    assert forall|slot: CleanupSlot| #[trigger] after.has_entry(slot) implies after.tasks.contains_key(
        slot,
    ) by {
        assert(backlog.has_entry(slot));
    }
    let after = backlog.capture_task(lease, claim, event, now).0;
    assert forall|slot: CleanupSlot| #[trigger] after.has_entry(slot) implies after.tasks.contains_key(
        slot,
    ) by {
        assert(backlog.has_entry(slot));
    }
}

} // verus!
