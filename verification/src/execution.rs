//! The registry of executions: everything that the broker has handed to the host or spawned.
pub mod laws;

use crate::ids::{CoreExecutionId, ExecutionId, HostPaneId, UiSessionId};
use crate::protocol::{
    BrokerDiagnostic, BrokerError, ExecutionOutcome, MenuControl,
    ProtocolDiagnostic,
};
use crate::table::{
    enumerates, is_some_of, lemma_enumerates_push, lookup, opt_view, views, Key, Table,
};
use crate::text::{decimal, decimal_text};
use crate::time::Duration;
use vstd::prelude::*;
use vstd::string::StringExecFns;

verus! {

/// Who carries an execution out.
#[derive(Clone, Copy, Debug, PartialEq, Eq, Structural)]
pub enum ExecutionOwner {
    Adapter,
    GenericProcess,
}

#[derive(Clone, Copy, Debug, PartialEq, Eq, Structural)]
pub enum ExecutionPhase {
    /// Admitted, and not yet handed to the host or spawned.
    Reserved,
    Adapter,
    Generic,
    Terminal,
}

/// What a menu control does to the execution that a UI waits for.
#[derive(Clone, Copy, Debug, PartialEq, Eq, Structural)]
pub enum MenuControlAction {
    Detach,
    Cancel,
}

/// What happens when an execution runs out of time.
#[derive(Clone, Copy, Debug, PartialEq, Eq, Structural)]
pub enum TimeoutAction {
    Detach,
    Cancel,
}

/// Whether a UI waits for an execution.
#[derive(Clone, Copy, Debug, PartialEq, Eq, Structural)]
pub enum ExecutionMode {
    Await,
    Detach,
}

/// How an execution is to be run.
#[derive(Clone, Copy, Debug, PartialEq, Eq, Structural)]
pub struct ExecutionPolicy {
    pub mode: ExecutionMode,
    pub timeout: Option<Duration>,
    pub on_timeout: TimeoutAction,
    pub on_menu_control: MenuControlAction,
}

/// Host work that waits until the UI's pane is gone.
#[derive(Debug, PartialEq, Eq)]
pub struct DeferredDispatch {
    pub ui_pane: HostPaneId,
}

impl Clone for DeferredDispatch {
    fn clone(&self) -> (r: Self)
        ensures
            r == *self,
    {
        DeferredDispatch { ui_pane: self.ui_pane.clone() }
    }
}

/// One execution that the broker owns.
#[derive(Debug, PartialEq, Eq)]
pub struct ExecutionRecord {
    pub wire: ExecutionId,
    pub core: CoreExecutionId,
    /// The UI that is told of the end. Detached work has none and stays owned.
    pub session: Option<UiSessionId>,
    pub awaiting: bool,
    pub cancellable: bool,
    pub on_menu_control: MenuControlAction,
    pub timeout: Option<Duration>,
    pub on_timeout: TimeoutAction,
    pub owner: ExecutionOwner,
    pub phase: ExecutionPhase,
    pub deferred: Option<DeferredDispatch>,
    pub pending_control: Option<MenuControl>,
    pub termination_requested: bool,
    pub deadline_scheduled: bool,
}

impl Clone for ExecutionRecord {
    fn clone(&self) -> (r: Self)
        ensures
            r == *self,
    {
        ExecutionRecord {
            wire: self.wire,
            core: self.core,
            session: match &self.session {
                Some(session) => Some(session.clone()),
                None => None,
            },
            awaiting: self.awaiting,
            cancellable: self.cancellable,
            on_menu_control: self.on_menu_control,
            timeout: self.timeout,
            on_timeout: self.on_timeout,
            owner: self.owner,
            phase: self.phase,
            deferred: match &self.deferred {
                Some(deferred) => Some(deferred.clone()),
                None => None,
            },
            pending_control: self.pending_control,
            termination_requested: self.termination_requested,
            deadline_scheduled: self.deadline_scheduled,
        }
    }
}

/// What the caller has to do once an owner is activated.
#[derive(Debug, PartialEq, Eq)]
pub struct Activation {
    /// The deadline to start, with what happens when it elapses.
    pub deadline: Option<(Duration, TimeoutAction)>,
    pub result: Result<(), BrokerError>,
}

/// Where a stop has to be sent.
#[derive(Clone, Copy, Debug, PartialEq, Eq, Structural)]
pub enum StopTarget {
    /// The host is asked to cancel.
    Adapter,
    /// The child's process group is signalled.
    GenericProcess,
    /// The child is signalled if there is one already; it may not have been spawned yet.
    GenericProcessIfSpawned,
}

/// An elapsed deadline: who is told, and who is stopped.
#[derive(Debug, PartialEq, Eq)]
pub struct DeadlineExpiry {
    pub stop: Option<ExecutionOwner>,
    pub session: Option<UiSessionId>,
    pub wire: ExecutionId,
    pub outcome: ExecutionOutcome,
}

/// What an ended execution leads to.
#[derive(Debug, PartialEq, Eq)]
pub enum Completion {
    /// Nobody is told.
    Silent,
    /// The log is told: the work had no UI left.
    Log(BrokerDiagnostic),
    /// The UI is told.
    Tell {
        session: UiSessionId,
        execution: ExecutionId,
        outcome: ExecutionOutcome,
        diagnostic: Option<ProtocolDiagnostic>,
    },
}

/// A menu control that was taken up.
#[derive(Debug, PartialEq, Eq)]
pub struct ControlStart {
    pub core: CoreExecutionId,
    pub wire: ExecutionId,
    pub step: ControlStep,
}

/// What a menu control asks of the execution.
#[derive(Clone, Copy, Debug, PartialEq, Eq, Structural)]
pub enum ControlStep {
    /// The UI leaves; the work goes on.
    Accept,
    /// The work is stopped first.
    Stop,
    /// The work cannot be stopped.
    Refuse,
}

/// Whom a drain has to stop.
#[derive(Debug, PartialEq, Eq)]
pub struct DrainPlan {
    /// The executions that the host carries out.
    pub adapter: Vec<CoreExecutionId>,
    /// The executions that wait for a pane to go.
    pub deferred: Vec<CoreExecutionId>,
}

/// What a detached session leaves to be done.
#[derive(Debug, PartialEq, Eq)]
pub struct SessionExit {
    /// The executions to stop.
    pub cancel: Vec<CoreExecutionId>,
    /// The executions to hand to the host now that the UI is gone.
    pub deferred: Vec<CoreExecutionId>,
}

/// An execution whose UI is told that it failed.
#[derive(Debug, PartialEq, Eq)]
pub struct FailedWait {
    pub core: CoreExecutionId,
    pub session: UiSessionId,
    pub wire: ExecutionId,
}

impl View for FailedWait {
    type V = u64;

    open spec fn view(&self) -> u64 {
        self.core@
    }
}

/// What the registry holds.
#[verifier::ext_equal]
pub struct ExecutionModel {
    pub executions: Map<u64, ExecutionRecord>,
    /// The execution that each waiting UI waits for.
    pub awaiting: Map<Seq<char>, CoreExecutionId>,
    pub sealed: bool,
}

impl ExecutionModel {
    pub open spec fn empty() -> Self {
        ExecutionModel { executions: Map::empty(), awaiting: Map::empty(), sealed: false }
    }

    pub open spec fn with_record(self, core: u64, record: ExecutionRecord) -> Self {
        ExecutionModel { executions: self.executions.insert(core, record), ..self }
    }

    /// The wait of a session ends where it is a wait for this execution.
    pub open spec fn without_wait(self, session: Option<UiSessionId>, core: u64) -> Self {
        match session {
            Some(session) if lookup(self.awaiting, session@) matches Some(waited) && waited@
                == core => ExecutionModel { awaiting: self.awaiting.remove(session@), ..self },
            _ => self,
        }
    }

    /// An execution is gone, and with it the wait of its UI.
    pub open spec fn without(self, core: u64) -> Self {
        let record = self.executions[core];
        ExecutionModel { executions: self.executions.remove(core), ..self }.without_wait(
            record.session,
            core,
        )
    }

    /// Ownership is taken before anything is dispatched or spawned.
    pub open spec fn reserve(
        self,
        session: UiSessionId,
        wire: ExecutionId,
        core: CoreExecutionId,
        owner: ExecutionOwner,
        deferred: Option<DeferredDispatch>,
        policy: ExecutionPolicy,
    ) -> (Self, Result<(), BrokerError>) {
        let awaiting = policy.mode == ExecutionMode::Await;
        if self.sealed {
            (self, Err(BrokerError::ActivationInProgress))
        } else if awaiting && self.awaiting.contains_key(session@) {
            (self, Err(BrokerError::PendingExecutionInFlight))
        } else {
            let record = ExecutionRecord {
                wire,
                core,
                session: Some(session),
                awaiting,
                cancellable: owner == ExecutionOwner::GenericProcess,
                on_menu_control: policy.on_menu_control,
                timeout: policy.timeout,
                on_timeout: policy.on_timeout,
                owner,
                phase: ExecutionPhase::Reserved,
                deferred,
                pending_control: None,
                termination_requested: false,
                deadline_scheduled: false,
            };
            (
                ExecutionModel {
                    executions: self.executions.insert(core@, record),
                    awaiting: if awaiting {
                        self.awaiting.insert(session@, core)
                    } else {
                        self.awaiting
                    },
                    ..self
                },
                Ok(()),
            )
        }
    }

    /// A reservation is given back: nothing was dispatched. Nothing else is ever given back.
    pub open spec fn release(self, core: u64) -> (Self, bool) {
        match lookup(self.executions, core) {
            Some(record) if record.phase == ExecutionPhase::Reserved => (self.without(core), true),
            _ => (self, false),
        }
    }

    /// The owner is known and running.
    pub open spec fn activate(self, core: u64, phase: ExecutionPhase, cancellable: bool) -> (
        Self,
        Activation,
    ) {
        let result = if self.sealed {
            Err(BrokerError::ActivationInProgress)
        } else {
            Ok(())
        };
        match lookup(self.executions, core) {
            None => (self, Activation { deadline: None, result }),
            Some(record) => {
                let deadline = match record.timeout {
                    Some(timeout) if !record.deadline_scheduled => Some(
                        (timeout, record.on_timeout),
                    ),
                    _ => None,
                };
                (
                    self.with_record(
                        core,
                        ExecutionRecord {
                            phase,
                            cancellable,
                            deadline_scheduled: record.deadline_scheduled || deadline is Some,
                            ..record
                        },
                    ),
                    Activation { deadline, result },
                )
            },
        }
    }

    /// A stop is requested; where one is already under way, nothing more is.
    pub open spec fn request_stop(self, core: u64) -> (Self, Option<StopTarget>) {
        match lookup(self.executions, core) {
            Some(record) if !record.termination_requested => (
                self.with_record(core, ExecutionRecord { termination_requested: true, ..record }),
                Some(
                    match record.owner {
                        ExecutionOwner::Adapter => StopTarget::Adapter,
                        ExecutionOwner::GenericProcess => if record.phase
                            == ExecutionPhase::Reserved {
                            StopTarget::GenericProcessIfSpawned
                        } else {
                            StopTarget::GenericProcess
                        },
                    },
                ),
            ),
            _ => (self, None),
        }
    }

    /// A stop that failed may be requested again.
    pub open spec fn stop_failed(self, core: u64) -> Self {
        match lookup(self.executions, core) {
            Some(record) if record.phase != ExecutionPhase::Terminal => self.with_record(
                core,
                ExecutionRecord { termination_requested: false, ..record },
            ),
            _ => self,
        }
    }

    /// The UI of an execution goes its own way; the work stays owned.
    pub open spec fn detach_ui(self, core: u64) -> Self {
        match lookup(self.executions, core) {
            None => self,
            Some(record) => self.with_record(
                core,
                ExecutionRecord { awaiting: false, session: None, ..record },
            ).without_wait(record.session, core),
        }
    }

    /// A deadline elapses. Reserved and ended work, and work that is being stopped, is left alone.
    pub open spec fn deadline_elapsed(self, core: u64, on_timeout: TimeoutAction) -> (
        Self,
        Option<DeadlineExpiry>,
    ) {
        match lookup(self.executions, core) {
            Some(record) if record.phase != ExecutionPhase::Reserved && record.phase
                != ExecutionPhase::Terminal && !record.termination_requested => {
                let cancel = on_timeout == TimeoutAction::Cancel;
                (
                    self.with_record(
                        core,
                        ExecutionRecord {
                            awaiting: false,
                            session: None,
                            termination_requested: cancel,
                            ..record
                        },
                    ).without_wait(record.session, core),
                    Some(
                        DeadlineExpiry {
                            stop: if cancel {
                                Some(record.owner)
                            } else {
                                None
                            },
                            session: record.session,
                            wire: record.wire,
                            outcome: if cancel {
                                ExecutionOutcome::TimedOut
                            } else {
                                ExecutionOutcome::Detached
                            },
                        },
                    ),
                )
            },
            _ => (self, None),
        }
    }

    /// The execution that an owner reports as ended.
    pub open spec fn ends(self, core: u64, owner: ExecutionOwner) -> Option<ExecutionRecord> {
        match lookup(self.executions, core) {
            Some(record) if record.owner == owner && (owner == ExecutionOwner::GenericProcess
                || record.phase == ExecutionPhase::Reserved || record.phase
                == ExecutionPhase::Adapter) => Some(record),
            _ => None,
        }
    }

    /// An execution ends and leaves the registry.
    pub open spec fn complete(
        self,
        core: u64,
        owner: ExecutionOwner,
        outcome: ExecutionOutcome,
        diagnostic: Option<ProtocolDiagnostic>,
    ) -> (Self, Option<Completion>) {
        match self.ends(core, owner) {
            None => (self, None),
            Some(record) => (
                self.without(core),
                Some(completion_of(record, outcome, diagnostic)),
            ),
        }
    }

    /// A UI controls the execution that it waits for.
    pub open spec fn begin_control(self, session: Seq<char>, control: MenuControl) -> (
        Self,
        Result<Option<ControlStart>, BrokerError>,
    ) {
        match lookup(self.awaiting, session) {
            None => (self, Ok(None)),
            Some(core) => match lookup(self.executions, core@) {
                None => (self, Ok(None)),
                Some(record) => if record.pending_control is Some {
                    (self, Err(BrokerError::PendingControlInFlight))
                } else {
                    (
                        self.with_record(
                            core@,
                            ExecutionRecord { pending_control: Some(control), ..record },
                        ),
                        Ok(
                            Some(
                                ControlStart {
                                    core: record.core,
                                    wire: record.wire,
                                    step: match record.on_menu_control {
                                        MenuControlAction::Detach => ControlStep::Accept,
                                        MenuControlAction::Cancel => if record.cancellable {
                                            ControlStep::Stop
                                        } else {
                                            ControlStep::Refuse
                                        },
                                    },
                                },
                            ),
                        ),
                    )
                },
            },
        }
    }

    /// A control that came to nothing is taken back, where it is still the one that is pending.
    pub open spec fn clear_control(self, session: Seq<char>, core: u64, control: MenuControl) -> (
        Self,
        bool,
    ) {
        let waits = lookup(self.awaiting, session) matches Some(waited) && waited@ == core;
        match lookup(self.executions, core) {
            Some(record) if waits && record.pending_control == Some(control) => (
                self.with_record(core, ExecutionRecord { pending_control: None, ..record }),
                true,
            ),
            _ => (self, false),
        }
    }

    /// Deferred work is taken for dispatch, once.
    pub open spec fn take_deferred(self, core: u64) -> (Self, Option<DeferredDispatch>) {
        match lookup(self.executions, core) {
            None => (self, None),
            Some(record) => (
                self.with_record(core, ExecutionRecord { deferred: None, ..record }),
                record.deferred,
            ),
        }
    }

    /// A command whose activation failed is forgotten, once its child is gone.
    pub open spec fn abandon(self, core: u64, session: UiSessionId) -> Self {
        ExecutionModel { executions: self.executions.remove(core), ..self }.without_wait(
            Some(session),
            core,
        )
    }

    /// What a record becomes when its session detaches.
    pub open spec fn record_detached(record: ExecutionRecord, session: Seq<char>) -> ExecutionRecord {
        if opt_view(record.session) == Some(session) {
            ExecutionRecord { awaiting: false, session: None, ..record }
        } else {
            record
        }
    }

    /// A session detaches: its executions lose their UI and stay owned.
    pub open spec fn detach_session(self, session: Seq<char>) -> Self {
        ExecutionModel {
            executions: self.executions.map_values(
                |record: ExecutionRecord| Self::record_detached(record, session),
            ),
            awaiting: self.awaiting.remove(session),
            ..self
        }
    }

    /// The executions of a session that its detaching stops.
    pub open spec fn cancelled_by_exit(self, session: Seq<char>) -> Set<u64> {
        Set::new(
            |core: u64|
                {
                    let record = self.executions[core];
                    &&& self.executions.contains_key(core)
                    &&& opt_view(record.session) == Some(session)
                    &&& record.pending_control is None
                    &&& record.on_menu_control == MenuControlAction::Cancel
                    &&& record.cancellable
                },
        )
    }

    /// The executions of a session that its detaching lets go to the host.
    pub open spec fn deferred_by_exit(self, session: Seq<char>) -> Set<u64> {
        Set::new(
            |core: u64|
                {
                    let record = self.executions[core];
                    &&& self.executions.contains_key(core)
                    &&& opt_view(record.session) == Some(session)
                    &&& record.deferred is Some
                },
        )
    }

    /// The host's executions whose waiting UI is among the sessions and has sent no control.
    pub open spec fn failing(self, sessions: Set<Seq<char>>) -> Set<u64> {
        Set::new(
            |core: u64|
                {
                    let record = self.executions[core];
                    &&& self.executions.contains_key(core)
                    &&& record.owner == ExecutionOwner::Adapter
                    &&& record.pending_control is None
                    &&& record.session matches Some(session) && sessions.contains(session@)
                },
        )
    }

    /// What is told of an execution is what its record says.
    pub open spec fn is_about(self, wait: FailedWait) -> bool {
        &&& self.executions.contains_key(wait.core@)
        &&& self.executions[wait.core@].session == Some(wait.session)
        &&& self.executions[wait.core@].wire == wait.wire
    }

    /// Some reservation may still reach the host or spawn a child.
    pub open spec fn has_open_reservation(self) -> bool {
        exists|core: u64| #[trigger]
            self.executions.contains_key(core) && self.executions[core].phase
                == ExecutionPhase::Reserved && self.executions[core].deferred is None
    }

    /// An execution that the host carries out and cannot cancel.
    pub open spec fn blocks_drain(self, core: u64) -> bool {
        self.executions.contains_key(core) && self.executions[core].phase
            == ExecutionPhase::Adapter && !self.executions[core].cancellable
    }

    /// The executions that the host carries out.
    pub open spec fn in_adapter(self) -> Set<u64> {
        Set::new(
            |core: u64|
                self.executions.contains_key(core) && self.executions[core].phase
                    == ExecutionPhase::Adapter,
        )
    }

    /// The executions that wait for a pane to go.
    pub open spec fn waiting_for_dismissal(self) -> Set<u64> {
        Set::new(
            |core: u64|
                self.executions.contains_key(core) && self.executions[core].deferred is Some,
        )
    }
}

/// Whom the end of an execution is told: its waiting UI, unless a control is pending there; the
/// log, where the UI is gone and the end is not a success.
pub open spec fn completion_of(
    record: ExecutionRecord,
    outcome: ExecutionOutcome,
    diagnostic: Option<ProtocolDiagnostic>,
) -> Completion {
    let controlled = record.pending_control is Some;
    if record.owner == ExecutionOwner::GenericProcess && controlled {
        Completion::Silent
    } else if !record.awaiting {
        match diagnostic {
            Some(diagnostic) => Completion::Log(
                BrokerDiagnostic { execution: record.wire, outcome, code: diagnostic.code },
            ),
            None => Completion::Silent,
        }
    } else {
        match record.session {
            Some(session) if !controlled => Completion::Tell {
                session,
                execution: record.wire,
                outcome,
                diagnostic,
            },
            _ => Completion::Silent,
        }
    }
}

/// The registry of executions, keyed by the broker's own identity and never by a UI.
pub struct ExecutionRegistry {
    executions: Table<CoreExecutionId, ExecutionRecord>,
    awaiting: Table<UiSessionId, CoreExecutionId>,
    sealed: bool,
}

impl View for ExecutionRegistry {
    type V = ExecutionModel;

    closed spec fn view(&self) -> ExecutionModel {
        ExecutionModel {
            executions: self.executions@,
            awaiting: self.awaiting@,
            sealed: self.sealed,
        }
    }
}

impl ExecutionRegistry {
    pub fn new() -> (r: Self)
        ensures
            r@ == ExecutionModel::empty(),
    {
        ExecutionRegistry { executions: Table::new(), awaiting: Table::new(), sealed: false }
    }

    /// Whether admission is closed.
    pub fn is_sealed(&self) -> (r: bool)
        ensures
            r == self@.sealed,
    {
        self.sealed
    }

    /// Opens or closes admission.
    pub fn set_sealed(&mut self, sealed: bool)
        ensures
            final(self)@ == (ExecutionModel { sealed, ..old(self)@ }),
    {
        self.sealed = sealed;
    }

    /// The record of an execution.
    pub fn get(&self, core: CoreExecutionId) -> (r: Option<&ExecutionRecord>)
        ensures
            r == (match lookup(self@.executions, core@) {
                Some(record) => Some(&record),
                None => None,
            }),
    {
        self.executions.get(&core)
    }

    fn drop_wait(&mut self, session: &Option<UiSessionId>, core: CoreExecutionId)
        ensures
            final(self)@ == old(self)@.without_wait(*session, core@),
    {
        if let Some(session) = session {
            let waits = match self.awaiting.get(session) {
                Some(waited) => waited.same(&core),
                None => false,
            };
            if waits {
                self.awaiting.remove(session);
            }
        }
    }

    /// Takes ownership before anything is dispatched or spawned, unless admission is closed or
    /// the UI already waits for something.
    pub fn reserve(
        &mut self,
        session: UiSessionId,
        wire: ExecutionId,
        core: CoreExecutionId,
        owner: ExecutionOwner,
        deferred: Option<DeferredDispatch>,
        policy: &ExecutionPolicy,
    ) -> (r: Result<(), BrokerError>)
        ensures
            (final(self)@, r) == old(self)@.reserve(session, wire, core, owner, deferred, *policy),
    {
        if self.sealed {
            return Err(BrokerError::ActivationInProgress);
        }
        let awaiting = policy.mode == ExecutionMode::Await;
        if awaiting && self.awaiting.contains_key(&session) {
            return Err(BrokerError::PendingExecutionInFlight);
        }
        self.executions.insert(
            core,
            ExecutionRecord {
                wire,
                core,
                session: Some(session.clone()),
                awaiting,
                cancellable: owner == ExecutionOwner::GenericProcess,
                on_menu_control: policy.on_menu_control,
                timeout: policy.timeout,
                on_timeout: policy.on_timeout,
                owner,
                phase: ExecutionPhase::Reserved,
                deferred,
                pending_control: None,
                termination_requested: false,
                deadline_scheduled: false,
            },
        );
        if awaiting {
            self.awaiting.insert(session, core);
        }
        Ok(())
    }

    /// Gives a reservation back: a refused dispatch or spawn is the one proof that no work exists.
    pub fn release(&mut self, core: CoreExecutionId) -> (r: bool)
        ensures
            (final(self)@, r) == old(self)@.release(core@),
    {
        let reserved = match self.executions.get(&core) {
            Some(record) => record.phase == ExecutionPhase::Reserved,
            None => false,
        };
        if reserved {
            if let Some(record) = self.executions.remove(&core) {
                self.drop_wait(&record.session, core);
            }
        }
        reserved
    }

    /// Records that the host has accepted the work, or that its child is supervised. Where
    /// admission was closed meanwhile the owner stays, and the caller learns of it.
    pub fn activate(&mut self, core: CoreExecutionId, phase: ExecutionPhase, cancellable: bool) -> (r:
        Activation)
        ensures
            (final(self)@, r) == old(self)@.activate(core@, phase, cancellable),
    {
        let result = if self.sealed {
            Err(BrokerError::ActivationInProgress)
        } else {
            Ok(())
        };
        match self.executions.remove(&core) {
            None => {
                assert(self@ =~= old(self)@);
                Activation { deadline: None, result }
            },
            Some(mut record) => {
                let deadline = match record.timeout {
                    Some(timeout) => if record.deadline_scheduled {
                        None
                    } else {
                        Some((timeout, record.on_timeout))
                    },
                    None => None,
                };
                record.phase = phase;
                record.cancellable = cancellable;
                record.deadline_scheduled = record.deadline_scheduled || deadline.is_some();
                self.executions.insert(core, record);
                assert(self@ =~= old(self)@.activate(core@, phase, cancellable).0);
                Activation { deadline, result }
            },
        }
    }

    /// Requests a stop once, and says where it has to be sent.
    pub fn request_stop(&mut self, core: CoreExecutionId) -> (r: Option<StopTarget>)
        ensures
            (final(self)@, r) == old(self)@.request_stop(core@),
    {
        let wanted = match self.executions.get(&core) {
            Some(record) => !record.termination_requested,
            None => false,
        };
        if !wanted {
            return None;
        }
        match self.executions.remove(&core) {
            None => None,
            Some(mut record) => {
                let target = match record.owner {
                    ExecutionOwner::Adapter => StopTarget::Adapter,
                    ExecutionOwner::GenericProcess => if record.phase == ExecutionPhase::Reserved {
                        StopTarget::GenericProcessIfSpawned
                    } else {
                        StopTarget::GenericProcess
                    },
                };
                record.termination_requested = true;
                self.executions.insert(core, record);
                assert(self@ =~= old(self)@.request_stop(core@).0);
                Some(target)
            },
        }
    }

    /// Lets a stop that failed be requested again.
    pub fn stop_failed(&mut self, core: CoreExecutionId)
        ensures
            final(self)@ == old(self)@.stop_failed(core@),
    {
        let live = match self.executions.get(&core) {
            Some(record) => record.phase != ExecutionPhase::Terminal,
            None => false,
        };
        if live {
            if let Some(mut record) = self.executions.remove(&core) {
                record.termination_requested = false;
                self.executions.insert(core, record);
                assert(self@ =~= old(self)@.stop_failed(core@));
            }
        }
    }

    /// Lets the UI of an execution go its own way; the work stays owned.
    pub fn detach_ui(&mut self, core: CoreExecutionId)
        ensures
            final(self)@ == old(self)@.detach_ui(core@),
    {
        match self.executions.remove(&core) {
            None => {
                assert(self@ =~= old(self)@);
            },
            Some(mut record) => {
                let mut session: Option<UiSessionId> = None;
                std::mem::swap(&mut session, &mut record.session);
                record.awaiting = false;
                self.executions.insert(core, record);
                assert(self@ =~= old(self)@.with_record(core@, record));
                self.drop_wait(&session, core);
            },
        }
    }

    /// Applies an elapsed deadline.
    pub fn deadline_elapsed(&mut self, core: CoreExecutionId, on_timeout: TimeoutAction) -> (r:
        Option<DeadlineExpiry>)
        ensures
            (final(self)@, r) == old(self)@.deadline_elapsed(core@, on_timeout),
    {
        let due = match self.executions.get(&core) {
            Some(record) => record.phase != ExecutionPhase::Reserved && record.phase
                != ExecutionPhase::Terminal && !record.termination_requested,
            None => false,
        };
        if !due {
            return None;
        }
        match self.executions.remove(&core) {
            None => None,
            Some(mut record) => {
                let cancel = on_timeout == TimeoutAction::Cancel;
                let mut session: Option<UiSessionId> = None;
                std::mem::swap(&mut session, &mut record.session);
                record.awaiting = false;
                record.termination_requested = cancel;
                let stop = if cancel {
                    Some(record.owner)
                } else {
                    None
                };
                let wire = record.wire;
                self.executions.insert(core, record);
                assert(self@ =~= old(self)@.with_record(core@, record));
                self.drop_wait(&session, core);
                let outcome = if cancel {
                    ExecutionOutcome::TimedOut
                } else {
                    ExecutionOutcome::Detached
                };
                Some(DeadlineExpiry { stop, session, wire, outcome })
            },
        }
    }

    /// Ends an execution that its owner reports as ended, and says whom to tell. A report on an
    /// execution that is not there, or that another owner carries out, changes nothing.
    pub fn complete(
        &mut self,
        core: CoreExecutionId,
        owner: ExecutionOwner,
        outcome: ExecutionOutcome,
        diagnostic: Option<ProtocolDiagnostic>,
    ) -> (r: Option<Completion>)
        ensures
            (final(self)@, r) == old(self)@.complete(core@, owner, outcome, diagnostic),
    {
        let ends = match self.executions.get(&core) {
            Some(record) => record.owner == owner && (owner == ExecutionOwner::GenericProcess
                || record.phase == ExecutionPhase::Reserved || record.phase
                == ExecutionPhase::Adapter),
            None => false,
        };
        if !ends {
            return None;
        }
        match self.executions.remove(&core) {
            None => None,
            Some(record) => {
                self.drop_wait(&record.session, core);
                Some(completion(record, outcome, diagnostic))
            },
        }
    }

    /// Takes up a menu control of a waiting UI. A UI that waits for nothing needs none.
    pub fn begin_control(&mut self, session: &UiSessionId, control: MenuControl) -> (r: Result<
        Option<ControlStart>,
        BrokerError,
    >)
        ensures
            (final(self)@, r) == old(self)@.begin_control(session@, control),
    {
        let core = match self.awaiting.get(session) {
            Some(core) => *core,
            None => return Ok(None),
        };
        match self.executions.get(&core) {
            None => return Ok(None),
            Some(record) => if record.pending_control.is_some() {
                return Err(BrokerError::PendingControlInFlight);
            },
        }
        match self.executions.remove(&core) {
            None => Ok(None),
            Some(mut record) => {
                let step = match record.on_menu_control {
                    MenuControlAction::Detach => ControlStep::Accept,
                    MenuControlAction::Cancel => if record.cancellable {
                        ControlStep::Stop
                    } else {
                        ControlStep::Refuse
                    },
                };
                let start = ControlStart { core: record.core, wire: record.wire, step };
                record.pending_control = Some(control);
                self.executions.insert(core, record);
                assert(self@ =~= old(self)@.begin_control(session@, control).0);
                Ok(Some(start))
            },
        }
    }

    /// Takes a control back, where it is still the one that is pending for this wait.
    pub fn clear_control(
        &mut self,
        session: &UiSessionId,
        core: CoreExecutionId,
        control: MenuControl,
    ) -> (r: bool)
        ensures
            (final(self)@, r) == old(self)@.clear_control(session@, core@, control),
    {
        let waits = match self.awaiting.get(session) {
            Some(waited) => waited.same(&core),
            None => false,
        };
        if !waits {
            return false;
        }
        let pending = match self.executions.get(&core) {
            Some(record) => match record.pending_control {
                Some(pending) => pending == control,
                None => false,
            },
            None => false,
        };
        if pending {
            if let Some(mut record) = self.executions.remove(&core) {
                record.pending_control = None;
                self.executions.insert(core, record);
                assert(self@ =~= old(self)@.clear_control(session@, core@, control).0);
            }
        }
        pending
    }

    /// Takes deferred work for dispatch.
    pub fn take_deferred(&mut self, core: CoreExecutionId) -> (r: Option<DeferredDispatch>)
        ensures
            (final(self)@, r) == old(self)@.take_deferred(core@),
    {
        match self.executions.remove(&core) {
            None => {
                assert(self@ =~= old(self)@);
                None
            },
            Some(mut record) => {
                let mut deferred: Option<DeferredDispatch> = None;
                std::mem::swap(&mut deferred, &mut record.deferred);
                self.executions.insert(core, record);
                assert(self@ =~= old(self)@.take_deferred(core@).0);
                deferred
            },
        }
    }

    /// Forgets a command whose activation failed, once its child is gone.
    pub fn abandon(&mut self, core: CoreExecutionId, session: UiSessionId)
        ensures
            final(self)@ == old(self)@.abandon(core@, session),
    {
        self.executions.remove(&core);
        let session = Some(session);
        self.drop_wait(&session, core);
    }

    /// Detaches a session: its executions lose their UI and stay owned. Says which of them to
    /// stop, and which may now go to the host.
    pub fn detach_session(&mut self, session: &UiSessionId) -> (r: SessionExit)
        ensures
            final(self)@ == old(self)@.detach_session(session@),
            enumerates(views(r.cancel@), old(self)@.cancelled_by_exit(session@)),
            enumerates(views(r.deferred@), old(self)@.deferred_by_exit(session@)),
    {
        let ghost before = self.executions;
        let ghost items = self.executions.items();
        let n: usize = self.executions.len();
        let ghost who = session@;
        let ghost model = self@;
        self.awaiting.remove(session);
        let mut cancel: Vec<CoreExecutionId> = Vec::new();
        let mut deferred: Vec<CoreExecutionId> = Vec::new();
        let ghost mut stopped: Set<u64> = Set::empty();
        let ghost mut released: Set<u64> = Set::empty();
        let mut i: usize = 0;
        while i < n
            invariant
                i <= n,
                n == items.len(),
                before.agrees(),
                before.items() == items,
                who == session@,
                model.executions == before@,
                self.sealed == old(self).sealed,
                self.awaiting@ == model.awaiting.remove(who),
                model == old(self)@,
                self.executions.items().len() == n,
                forall|j: int|
                    0 <= j < i ==> #[trigger] self.executions.items()[j] == (
                        items[j].0,
                        ExecutionModel::record_detached(items[j].1, who),
                    ),
                forall|j: int| i <= j < n ==> #[trigger] self.executions.items()[j] == items[j],
                enumerates(views(cancel@), stopped),
                enumerates(views(deferred@), released),
                forall|core: u64| #[trigger]
                    stopped.contains(core) <==> exists|j: int|
                        0 <= j < i && (#[trigger] items[j]).0@ == core
                            && model.cancelled_by_exit(who).contains(core),
                forall|core: u64| #[trigger]
                    released.contains(core) <==> exists|j: int|
                        0 <= j < i && (#[trigger] items[j]).0@ == core
                            && model.deferred_by_exit(who).contains(core),
            decreases n - i,
        {
            let item = self.executions.item_at(i);
            let core = item.0;
            assert(self.executions.items()[i as int] == items[i as int]);
            assert(before@.contains_key(items[i as int].0@));
            assert(before@[items[i as int].0@] == items[i as int].1);
            if is_some_of(&item.1.session, session) {
                let mut record = item.1.clone();
                if record.pending_control.is_none() && record.on_menu_control
                    == MenuControlAction::Cancel && record.cancellable {
                    proof {
                        assert(!stopped.contains(core@));
                        lemma_enumerates_push(views(cancel@), stopped, core@);
                        assert(views(cancel@.push(core)) =~= views(cancel@).push(core@));
                        stopped = stopped.insert(core@);
                    }
                    cancel.push(core);
                }
                if record.deferred.is_some() {
                    proof {
                        assert(!released.contains(core@));
                        lemma_enumerates_push(views(deferred@), released, core@);
                        assert(views(deferred@.push(core)) =~= views(deferred@).push(core@));
                        released = released.insert(core@);
                    }
                    deferred.push(core);
                }
                record.awaiting = false;
                record.session = None;
                self.executions.replace_at(i, record);
            }
            i += 1;
        }
        let count: usize = self.executions.len();
        proof {
            let after = self.executions;
            let wanted = model.detach_session(who).executions;
            assert forall|core: u64| #[trigger] after@.contains_key(core) implies
                wanted.contains_key(core) && after@[core] == wanted[core] by {
                let j = choose|j: int|
                    0 <= j < after.items().len() && (#[trigger] after.items()[j]).0@ == core;
                assert(items[j].0@ == core);
                assert(before@.contains_key(items[j].0@));
            }
            assert forall|core: u64| #[trigger] wanted.contains_key(core) implies
                after@.contains_key(core) by {
                assert(before@.contains_key(core));
                let j = choose|j: int| 0 <= j < items.len() && (#[trigger] items[j]).0@ == core;
                assert(after.items()[j].0@ == core);
            }
            assert(after@ =~= wanted);
            assert forall|core: u64|
                model.cancelled_by_exit(who).contains(core) implies stopped.contains(core) by {
                assert(before@.contains_key(core));
            }
            assert forall|core: u64|
                model.deferred_by_exit(who).contains(core) implies released.contains(core) by {
                assert(before@.contains_key(core));
            }
            assert(stopped =~= model.cancelled_by_exit(who));
            assert(released =~= model.deferred_by_exit(who));
        }
        SessionExit { cancel, deferred }
    }

    /// The host's executions whose waiting UI is among the sessions and has sent no control.
    pub(crate) fn failing(
        &self,
        sessions: &Vec<UiSessionId>,
        Ghost(members): Ghost<Set<Seq<char>>>,
    ) -> (r: Vec<FailedWait>)
        requires
            enumerates(views(sessions@), members),
        ensures
            enumerates(views(r@), self@.failing(members)),
            forall|i: int| 0 <= i < r@.len() ==> self@.is_about(#[trigger] r@[i]),
    {
        let n: usize = self.executions.len();
        let ghost items = self.executions.items();
        let ghost wanted = self@.failing(members);
        let mut found: Vec<FailedWait> = Vec::new();
        let ghost mut seen: Set<u64> = Set::empty();
        let mut i: usize = 0;
        while i < n
            invariant
                i <= n,
                n == items.len(),
                items == self.executions.items(),
                self.executions.agrees(),
                wanted == self@.failing(members),
                enumerates(views(sessions@), members),
                forall|j: int| 0 <= j < found@.len() ==> self@.is_about(#[trigger] found@[j]),
                enumerates(views(found@), seen),
                forall|core: u64| #[trigger]
                    seen.contains(core) <==> exists|j: int|
                        0 <= j < i && (#[trigger] items[j]).0@ == core && wanted.contains(core),
            decreases n - i,
        {
            let item = self.executions.item_at(i);
            let core = item.0;
            assert(self@.executions.contains_key(items[i as int].0@));
            assert(self@.executions[items[i as int].0@] == items[i as int].1);
            if let Some(session) = &item.1.session {
                let lost = holds(sessions, session);
                if item.1.owner == ExecutionOwner::Adapter && item.1.pending_control.is_none()
                    && lost {
                    let wait = FailedWait { core, session: session.clone(), wire: item.1.wire };
                    proof {
                        assert(!seen.contains(core@));
                        lemma_enumerates_push(views(found@), seen, core@);
                        assert(views(found@.push(wait)) =~= views(found@).push(core@));
                        seen = seen.insert(core@);
                    }
                    found.push(wait);
                }
            }
            i += 1;
        }
        proof {
            assert forall|core: u64| wanted.contains(core) implies seen.contains(core) by {
                assert(self@.executions.contains_key(core));
            }
            assert(seen =~= wanted);
        }
        found
    }

    /// Closes admission, and says whether some reservation may still reach the host.
    pub fn seal(&mut self) -> (r: bool)
        ensures
            final(self)@ == (ExecutionModel { sealed: true, ..old(self)@ }),
            r == old(self)@.has_open_reservation(),
    {
        self.sealed = true;
        let n: usize = self.executions.len();
        let mut i: usize = 0;
        while i < n
            invariant
                i <= n,
                n == self.executions.items().len(),
                self.executions.agrees(),
                self@ == (ExecutionModel { sealed: true, ..old(self)@ }),
                forall|j: int|
                    0 <= j < i ==> !((#[trigger] self.executions.items()[j]).1.phase
                        == ExecutionPhase::Reserved && self.executions.items()[j].1.deferred is None),
            decreases n - i,
        {
            let item = self.executions.item_at(i);
            if item.1.phase == ExecutionPhase::Reserved && item.1.deferred.is_none() {
                assert(self@.executions.contains_key(item.0@));
                assert(old(self)@.executions.contains_key(item.0@));
                return true;
            }
            i += 1;
        }
        assert forall|core: u64| #[trigger] old(self)@.executions.contains_key(core) implies !(
        old(self)@.executions[core].phase == ExecutionPhase::Reserved
            && old(self)@.executions[core].deferred is None) by {
            assert(self@.executions.contains_key(core));
            let j = choose|j: int|
                0 <= j < self.executions.items().len() && (#[trigger] self.executions.items()[j]).0@
                    == core;
            assert(self@.executions[core] == self.executions.items()[j].1);
        }
        false
    }

    /// Names what a drain has to stop. Where the host carries out something that it cannot
    /// cancel, the drain is refused and admission is open again.
    pub fn plan_drain(&mut self) -> (r: Result<DrainPlan, BrokerError>)
        ensures
            match r {
                Ok(plan) => {
                    &&& final(self)@ == old(self)@
                    &&& forall|core: u64| !#[trigger] old(self)@.blocks_drain(core)
                    &&& enumerates(views(plan.adapter@), old(self)@.in_adapter())
                    &&& enumerates(views(plan.deferred@), old(self)@.waiting_for_dismissal())
                },
                Err(error) => {
                    &&& final(self)@ == (ExecutionModel { sealed: false, ..old(self)@ })
                    &&& error matches BrokerError::ActivationDrainRefused(text)
                        && exists|core: u64| #[trigger]
                        old(self)@.blocks_drain(core) && text@ == drain_refusal(
                            core,
                            old(self)@.executions[core],
                        )
                },
            },
    {
        let n: usize = self.executions.len();
        let ghost items = self.executions.items();
        let mut adapter: Vec<CoreExecutionId> = Vec::new();
        let mut deferred: Vec<CoreExecutionId> = Vec::new();
        let ghost mut carried: Set<u64> = Set::empty();
        let ghost mut waiting: Set<u64> = Set::empty();
        let mut i: usize = 0;
        while i < n
            invariant
                i <= n,
                n == items.len(),
                items == self.executions.items(),
                self.executions.agrees(),
                self@ == old(self)@,
                enumerates(views(adapter@), carried),
                enumerates(views(deferred@), waiting),
                forall|j: int| 0 <= j < i ==> !self@.blocks_drain((#[trigger] items[j]).0@),
                forall|core: u64| #[trigger]
                    carried.contains(core) <==> exists|j: int|
                        0 <= j < i && (#[trigger] items[j]).0@ == core
                            && self@.in_adapter().contains(core),
                forall|core: u64| #[trigger]
                    waiting.contains(core) <==> exists|j: int|
                        0 <= j < i && (#[trigger] items[j]).0@ == core
                            && self@.waiting_for_dismissal().contains(core),
            decreases n - i,
        {
            let item = self.executions.item_at(i);
            let core = item.0;
            assert(self@.executions.contains_key(items[i as int].0@));
            assert(self@.executions[items[i as int].0@] == items[i as int].1);
            if item.1.phase == ExecutionPhase::Adapter {
                if !item.1.cancellable {
                    let text = refusal_text(core, &item.1);
                    assert(old(self)@.blocks_drain(core@));
                    self.sealed = false;
                    return Err(BrokerError::ActivationDrainRefused(text));
                }
                proof {
                    assert(!carried.contains(core@));
                    lemma_enumerates_push(views(adapter@), carried, core@);
                    assert(views(adapter@.push(core)) =~= views(adapter@).push(core@));
                    carried = carried.insert(core@);
                }
                adapter.push(core);
            }
            if item.1.deferred.is_some() {
                proof {
                    assert(!waiting.contains(core@));
                    lemma_enumerates_push(views(deferred@), waiting, core@);
                    assert(views(deferred@.push(core)) =~= views(deferred@).push(core@));
                    waiting = waiting.insert(core@);
                }
                deferred.push(core);
            }
            i += 1;
        }
        proof {
            assert forall|core: u64| !#[trigger] self@.blocks_drain(core) by {
                if self@.executions.contains_key(core) {
                    let j = choose|j: int| 0 <= j < items.len() && (#[trigger] items[j]).0@ == core;
                    assert(!self@.blocks_drain(items[j].0@));
                }
            }
            assert forall|core: u64|
                self@.in_adapter().contains(core) implies carried.contains(core) by {
                assert(self@.executions.contains_key(core));
            }
            assert forall|core: u64|
                self@.waiting_for_dismissal().contains(core) implies waiting.contains(core) by {
                assert(self@.executions.contains_key(core));
            }
            assert(carried =~= self@.in_adapter());
            assert(waiting =~= self@.waiting_for_dismissal());
        }
        Ok(DrainPlan { adapter, deferred })
    }
}

/// Whether a session is in a list.
fn holds(sessions: &Vec<UiSessionId>, session: &UiSessionId) -> (r: bool)
    ensures
        r == views(sessions@).contains(session@),
{
    let mut i: usize = 0;
    while i < sessions.len()
        invariant
            i <= sessions.len(),
            forall|j: int| 0 <= j < i ==> #[trigger] views(sessions@)[j] != session@,
        decreases sessions.len() - i,
    {
        assert(views(sessions@)[i as int] == sessions@[i as int]@);
        if sessions[i].same(session) {
            return true;
        }
        i += 1;
    }
    false
}

/// Why a drain is refused: who has what in flight.
pub open spec fn drain_refusal(core: u64, record: ExecutionRecord) -> Seq<char> {
    let owner = match record.session {
        Some(session) => session@,
        None => "detached"@,
    };
    owner + " host execution "@ + decimal(core as nat)
        + " is non-cancellable and still in flight"@
}

fn refusal_text(core: CoreExecutionId, record: &ExecutionRecord) -> (r: String)
    ensures
        r@ == drain_refusal(core@, *record),
{
    let owner = match &record.session {
        Some(session) => session.as_str(),
        None => "detached",
    };
    let number = decimal_text(core.0);
    owner.to_owned().concat(" host execution ").concat(number.as_str()).concat(
        " is non-cancellable and still in flight",
    )
}

/// Whom the end of an execution is told.
fn completion(
    record: ExecutionRecord,
    outcome: ExecutionOutcome,
    diagnostic: Option<ProtocolDiagnostic>,
) -> (r: Completion)
    ensures
        r == completion_of(record, outcome, diagnostic),
{
    let controlled = record.pending_control.is_some();
    if record.owner == ExecutionOwner::GenericProcess && controlled {
        return Completion::Silent;
    }
    if !record.awaiting {
        return match diagnostic {
            Some(diagnostic) => Completion::Log(
                BrokerDiagnostic { execution: record.wire, outcome, code: diagnostic.code },
            ),
            None => Completion::Silent,
        };
    }
    match record.session {
        Some(session) => if controlled {
            Completion::Silent
        } else {
            Completion::Tell { session, execution: record.wire, outcome, diagnostic }
        },
        None => Completion::Silent,
    }
}

impl ExecutionModel {
    /// A record is kept under its own identity, and is awaited by the UI that waits for it.
    pub open spec fn record_fits(self, core: u64) -> bool {
        let record = self.executions[core];
        &&& record.core@ == core
        &&& record.awaiting ==> record.session is Some && lookup(
            self.awaiting,
            record.session->Some_0@,
        ) == Some(CoreExecutionId(core))
    }

    /// A wait is for a record that is awaited by the waiting UI.
    pub open spec fn wait_fits(self, session: Seq<char>) -> bool {
        let core = self.awaiting[session]@;
        &&& self.executions.contains_key(core)
        &&& self.executions[core].awaiting
        &&& opt_view(self.executions[core].session) == Some(session)
    }

    /// Records and waits name each other.
    pub open spec fn consistent(self) -> bool {
        &&& forall|core: u64| #[trigger]
            self.executions.contains_key(core) ==> self.record_fits(core)
        &&& forall|session: Seq<char>| #[trigger]
            self.awaiting.contains_key(session) ==> self.wait_fits(session)
    }
}

/// A new registry is consistent.
pub proof fn law_new_registry_is_consistent()
    ensures
        ExecutionModel::empty().consistent(),
{
}

/// Reserving a fresh identity keeps the registry consistent.
pub proof fn law_reserve_keeps_consistency(
    registry: ExecutionModel,
    session: UiSessionId,
    wire: ExecutionId,
    core: CoreExecutionId,
    owner: ExecutionOwner,
    deferred: Option<DeferredDispatch>,
    policy: ExecutionPolicy,
)
    requires
        registry.consistent(),
        !registry.executions.contains_key(core@),
    ensures
        registry.reserve(session, wire, core, owner, deferred, policy).0.consistent(),
{
    let after = registry.reserve(session, wire, core, owner, deferred, policy).0;
    assert forall|other: Seq<char>| #[trigger] after.awaiting.contains_key(other) implies
        after.wait_fits(other) by {
        if registry.awaiting.contains_key(other) && other != session@ {
            assert(registry.executions.contains_key(registry.awaiting[other]@));
        } else if after != registry && registry.awaiting.contains_key(other) {
            assert(registry.executions.contains_key(registry.awaiting[other]@));
        }
    }
}

/// A record that loses its UI, with the wait for it, leaves the registry consistent.
proof fn lemma_unawaited_consistent(registry: ExecutionModel, core: u64, record: ExecutionRecord)
    requires
        registry.consistent(),
        registry.executions.contains_key(core),
        record.core@ == core,
        !record.awaiting,
    ensures
        registry.with_record(core, record).without_wait(
            registry.executions[core].session,
            core,
        ).consistent(),
{
    let session = registry.executions[core].session;
    let after = registry.with_record(core, record).without_wait(session, core);
    lemma_wait_ends(registry, core);
    assert forall|other: u64| #[trigger] after.executions.contains_key(other) implies
        after.record_fits(other) by {
        assert(registry.executions.contains_key(other));
    }
    assert forall|other: Seq<char>| #[trigger] after.awaiting.contains_key(other) implies
        after.wait_fits(other) by {
        assert(registry.awaiting.contains_key(other));
    }
}

/// No UI waits for an execution but the one that its record names.
proof fn lemma_wait_ends(registry: ExecutionModel, core: u64)
    requires
        registry.consistent(),
        registry.executions.contains_key(core),
    ensures
        forall|session: Seq<char>| #[trigger]
            registry.awaiting.contains_key(session) && registry.awaiting[session]@ == core
                ==> opt_view(registry.executions[core].session) == Some(session),
{
}

/// Taking an execution out keeps the registry consistent.
proof fn lemma_without_consistent(registry: ExecutionModel, core: u64)
    requires
        registry.consistent(),
        registry.executions.contains_key(core),
    ensures
        registry.without(core).consistent(),
{
    let after = registry.without(core);
    lemma_wait_ends(registry, core);
    assert forall|other: u64| #[trigger] after.executions.contains_key(other) implies
        after.record_fits(other) by {
        assert(registry.executions.contains_key(other));
    }
    assert forall|other: Seq<char>| #[trigger] after.awaiting.contains_key(other) implies
        after.wait_fits(other) by {
        assert(registry.awaiting.contains_key(other));
    }
}

/// A record that changes in what concerns no UI leaves the registry consistent.
proof fn lemma_same_ui_consistent(registry: ExecutionModel, core: u64, record: ExecutionRecord)
    requires
        registry.consistent(),
        registry.executions.contains_key(core),
        record.core == registry.executions[core].core,
        record.awaiting == registry.executions[core].awaiting,
        record.session == registry.executions[core].session,
    ensures
        registry.with_record(core, record).consistent(),
{
    let after = registry.with_record(core, record);
    assert forall|other: u64| #[trigger] after.executions.contains_key(other) implies
        after.record_fits(other) by {
        assert(registry.executions.contains_key(other));
    }
    assert forall|other: Seq<char>| #[trigger] after.awaiting.contains_key(other) implies
        after.wait_fits(other) by {
        assert(registry.awaiting.contains_key(other));
    }
}

/// Whatever happens to one execution keeps the registry consistent.
pub proof fn law_steps_keep_consistency(
    registry: ExecutionModel,
    core: u64,
    phase: ExecutionPhase,
    cancellable: bool,
    on_timeout: TimeoutAction,
    owner: ExecutionOwner,
    outcome: ExecutionOutcome,
    diagnostic: Option<ProtocolDiagnostic>,
    session: Seq<char>,
    control: MenuControl,
)
    requires
        registry.consistent(),
    ensures
        registry.release(core).0.consistent(),
        registry.activate(core, phase, cancellable).0.consistent(),
        registry.request_stop(core).0.consistent(),
        registry.stop_failed(core).consistent(),
        registry.detach_ui(core).consistent(),
        registry.deadline_elapsed(core, on_timeout).0.consistent(),
        registry.complete(core, owner, outcome, diagnostic).0.consistent(),
        registry.begin_control(session, control).0.consistent(),
        registry.clear_control(session, core, control).0.consistent(),
        registry.take_deferred(core).0.consistent(),
        registry.detach_session(session).consistent(),
{
    if registry.executions.contains_key(core) {
        let record = registry.executions[core];
        lemma_without_consistent(registry, core);
        lemma_same_ui_consistent(
            registry,
            core,
            registry.activate(core, phase, cancellable).0.executions[core],
        );
        lemma_same_ui_consistent(
            registry,
            core,
            ExecutionRecord { termination_requested: true, ..record },
        );
        lemma_same_ui_consistent(
            registry,
            core,
            ExecutionRecord { termination_requested: false, ..record },
        );
        lemma_same_ui_consistent(registry, core, ExecutionRecord { pending_control: None, ..record });
        lemma_same_ui_consistent(registry, core, ExecutionRecord { deferred: None, ..record });
        lemma_unawaited_consistent(
            registry,
            core,
            ExecutionRecord { awaiting: false, session: None, ..record },
        );
        lemma_unawaited_consistent(
            registry,
            core,
            ExecutionRecord {
                awaiting: false,
                session: None,
                termination_requested: on_timeout == TimeoutAction::Cancel,
                ..record
            },
        );
    }
    if registry.awaiting.contains_key(session) {
        let waited = registry.awaiting[session]@;
        lemma_same_ui_consistent(
            registry,
            waited,
            ExecutionRecord { pending_control: Some(control), ..registry.executions[waited] },
        );
    }
    let after = registry.detach_session(session);
    assert forall|other: u64| #[trigger] after.executions.contains_key(other) implies
        after.record_fits(other) by {
        assert(registry.executions.contains_key(other));
    }
    assert forall|other: Seq<char>| #[trigger] after.awaiting.contains_key(other) implies
        after.wait_fits(other) by {
        assert(registry.awaiting.contains_key(other));
        assert(registry.executions.contains_key(registry.awaiting[other]@));
    }
}

/// Forgetting a command keeps the registry consistent, where it is forgotten with the session that
/// it was reserved for.
pub proof fn law_abandon_keeps_consistency(
    registry: ExecutionModel,
    core: u64,
    session: UiSessionId,
)
    requires
        registry.consistent(),
        lookup(registry.executions, core) matches Some(record) ==> (record.session matches Some(
            owner,
        ) ==> owner@ == session@),
    ensures
        registry.abandon(core, session).consistent(),
{
    let after = registry.abandon(core, session);
    assert forall|other: u64| #[trigger] after.executions.contains_key(other) implies
        after.record_fits(other) by {
        assert(registry.executions.contains_key(other));
        assert(registry.record_fits(other));
    }
    assert forall|other: Seq<char>| #[trigger] after.awaiting.contains_key(other) implies
        after.wait_fits(other) by {
        assert(registry.awaiting.contains_key(other));
        assert(registry.wait_fits(other));
    }
}

/// A UI waits for at most one execution.
pub proof fn law_one_awaited_execution_per_session(registry: ExecutionModel, first: u64, second: u64)
    requires
        registry.consistent(),
        registry.executions.contains_key(first),
        registry.executions.contains_key(second),
        registry.executions[first].awaiting,
        registry.executions[second].awaiting,
        opt_view(registry.executions[first].session) == opt_view(
            registry.executions[second].session,
        ),
    ensures
        first == second,
{
}

/// Closed admission admits nothing: no reservation is made, whoever asks.
pub proof fn law_sealed_registry_admits_nothing(
    registry: ExecutionModel,
    session: UiSessionId,
    wire: ExecutionId,
    core: CoreExecutionId,
    owner: ExecutionOwner,
    deferred: Option<DeferredDispatch>,
    policy: ExecutionPolicy,
)
    requires
        registry.sealed,
    ensures
        registry.reserve(session, wire, core, owner, deferred, policy) == (
            registry,
            Err::<(), BrokerError>(BrokerError::ActivationInProgress),
        ),
{
}

/// A UI that waits is refused a second awaited execution, and no other kind.
pub proof fn law_a_waiting_ui_may_only_detach(
    registry: ExecutionModel,
    session: UiSessionId,
    wire: ExecutionId,
    core: CoreExecutionId,
    owner: ExecutionOwner,
    deferred: Option<DeferredDispatch>,
    policy: ExecutionPolicy,
)
    requires
        !registry.sealed,
        registry.awaiting.contains_key(session@),
    ensures
        policy.mode == ExecutionMode::Await ==> registry.reserve(
            session,
            wire,
            core,
            owner,
            deferred,
            policy,
        ) == (registry, Err::<(), BrokerError>(BrokerError::PendingExecutionInFlight)),
        policy.mode == ExecutionMode::Detach ==> registry.reserve(
            session,
            wire,
            core,
            owner,
            deferred,
            policy,
        ).1 is Ok && registry.reserve(session, wire, core, owner, deferred, policy).0.awaiting
            == registry.awaiting,
{
}

/// Once work has reached the host or a child, its ownership cannot be given back.
pub proof fn law_only_reservations_are_released(registry: ExecutionModel, core: u64)
    requires
        lookup(registry.executions, core) matches Some(record) && record.phase
            != ExecutionPhase::Reserved,
    ensures
        registry.release(core) == (registry, false),
{
}

/// A stop is sent once: a second request sends nothing until the first one has failed.
pub proof fn law_a_stop_is_sent_once(registry: ExecutionModel, core: u64)
    requires
        registry.request_stop(core).1 is Some,
    ensures
        registry.request_stop(core).0.request_stop(core).1 is None,
        registry.executions[core].phase != ExecutionPhase::Terminal ==> registry.request_stop(
            core,
        ).0.stop_failed(core).request_stop(core).1 == registry.request_stop(core).1,
{
}

/// Detaching a session ends no execution and leaves none with that UI, nor any wait of it.
pub proof fn law_detached_work_stays_owned(registry: ExecutionModel, session: Seq<char>)
    ensures
        registry.detach_session(session).executions.dom() == registry.executions.dom(),
        !registry.detach_session(session).awaiting.contains_key(session),
        forall|core: u64| #[trigger]
            registry.detach_session(session).executions.contains_key(core) ==> opt_view(
                registry.detach_session(session).executions[core].session,
            ) != Some(session),
{
    assert(registry.detach_session(session).executions.dom() =~= registry.executions.dom());
}

/// The end of one execution leaves every other one as it was, and happens once.
pub proof fn law_an_end_concerns_one_execution(
    registry: ExecutionModel,
    core: u64,
    owner: ExecutionOwner,
    outcome: ExecutionOutcome,
    diagnostic: Option<ProtocolDiagnostic>,
    other: u64,
)
    requires
        other != core,
    ensures
        ({
            let after = registry.complete(core, owner, outcome, diagnostic).0;
            &&& lookup(after.executions, other) == lookup(registry.executions, other)
            &&& registry.complete(core, owner, outcome, diagnostic).1 is Some ==> after.complete(
                core,
                owner,
                outcome,
                diagnostic,
            ).1 is None
        }),
{
}

/// A UI whose execution ran out of time may wait for another one; the timed-out work stays owned.
pub proof fn law_a_deadline_frees_the_ui(
    registry: ExecutionModel,
    core: u64,
    on_timeout: TimeoutAction,
)
    requires
        registry.consistent(),
        registry.deadline_elapsed(core, on_timeout).1 is Some,
    ensures
        registry.executions[core].session matches Some(session) && registry.executions[core].awaiting
            ==> !registry.deadline_elapsed(core, on_timeout).0.awaiting.contains_key(
            registry.executions[core].session->Some_0@,
        ),
        registry.deadline_elapsed(core, on_timeout).0.executions.contains_key(core),
        on_timeout == TimeoutAction::Cancel ==> registry.deadline_elapsed(
            core,
            on_timeout,
        ).0.request_stop(core).1 is None,
{
}

} // verus!
