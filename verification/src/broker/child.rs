//! How a command's child is stopped: its whole process group, politely first, and its leader is waited
//! for last.
pub mod laws;

use super::lifecycle::GenericCancellation;
use crate::protocol::BrokerError;
use crate::text::{decimal, decimal_text};
use crate::time::Duration;
use vstd::prelude::*;
use vstd::string::StringExecFns;

verus! {

/// How long a process group may take to end by itself, in milliseconds.
pub const GENERIC_CANCEL_GRACE_MILLIS: u64 = 2000;

/// A signal to a process group.
#[derive(Clone, Copy, Debug, PartialEq, Eq, Structural)]
pub enum StopSignal {
    Terminate,
    Kill,
}

impl StopSignal {
    /// The signal's name.
    pub open spec fn text(self) -> Seq<char> {
        match self {
            StopSignal::Terminate => "SIGTERM"@,
            StopSignal::Kill => "SIGKILL"@,
        }
    }
}

/// What became of a signal.
#[derive(Debug, PartialEq, Eq)]
pub enum SignalOutcome {
    Sent,
    /// There is no such process group any more.
    NoSuchGroup,
    /// The operating system refused; its text is given.
    Failed(String),
}

/// What the stopping of a child has come to.
#[derive(Debug, PartialEq, Eq)]
pub enum ChildStage {
    /// It is to be stopped.
    Begin,
    /// The polite signal was sent, or could not be.
    TermSent(SignalOutcome),
    /// The time to end by itself is over.
    GraceOver,
    /// The other signal was sent, or could not be.
    KillSent(SignalOutcome),
    /// The leader was waited for, or could not be; the operating system's text is given then.
    Reaped(Result<(), String>),
}

/// What the stopping of a child needs next.
#[derive(Debug, PartialEq, Eq)]
pub enum ChildNext {
    Signal(StopSignal),
    /// The group gets time to end by itself. Its leader is not waited for meanwhile, so that the number
    /// of the group stays its own.
    Grace(Duration),
    /// The leader is waited for.
    Reap,
    /// It is over.
    Done(Result<(), String>),
}

/// A number in decimal, with its sign.
pub open spec fn signed_decimal(value: int) -> Seq<char> {
    if value < 0 {
        "-"@ + decimal((-value) as nat)
    } else {
        decimal(value as nat)
    }
}

/// What is said of a signal that could not be sent.
pub open spec fn signal_failure(signal: StopSignal, process_group: i32, error: Seq<char>) -> Seq<
    char,
> {
    "could not send "@ + signal.text() + " to generic command process group "@ + signed_decimal(
        process_group as int,
    ) + ": "@ + error
}

/// `next` is what one stage of the stopping leads to.
pub open spec fn terminates(stage: ChildStage, process_group: i32, next: ChildNext) -> bool {
    match stage {
        ChildStage::Begin => next == ChildNext::Signal(StopSignal::Terminate),
        ChildStage::TermSent(SignalOutcome::Sent) => next == ChildNext::Grace(
            Duration::of_millis(GENERIC_CANCEL_GRACE_MILLIS),
        ),
        ChildStage::TermSent(SignalOutcome::NoSuchGroup) => next == ChildNext::Reap,
        ChildStage::TermSent(SignalOutcome::Failed(error)) => next matches ChildNext::Done(
            Err(text),
        ) && text@ == signal_failure(StopSignal::Terminate, process_group, error@),
        ChildStage::GraceOver => next == ChildNext::Signal(StopSignal::Kill),
        ChildStage::KillSent(SignalOutcome::Failed(error)) => next matches ChildNext::Done(
            Err(text),
        ) && text@ == signal_failure(StopSignal::Kill, process_group, error@),
        ChildStage::KillSent(_) => next == ChildNext::Reap,
        ChildStage::Reaped(Ok(())) => next == ChildNext::Done(Ok(())),
        ChildStage::Reaped(Err(error)) => next matches ChildNext::Done(Err(text)) && text@
            == "could not reap cancelled generic command: "@ + error@,
    }
}

fn failed_signal(name: &str, process_group: i32, error: &str) -> (r: ChildNext)
    ensures
        r matches ChildNext::Done(Err(text)) && text@ == "could not send "@ + name@
            + " to generic command process group "@ + signed_decimal(process_group as int) + ": "@
            + error@,
{
    let wide: i64 = process_group as i64;
    let number = if wide < 0 {
        let digits = decimal_text((0 - wide) as u64);
        "-".to_owned().concat(digits.as_str())
    } else {
        decimal_text(wide as u64)
    };
    ChildNext::Done(
        Err(
            "could not send ".to_owned().concat(name).concat(
                " to generic command process group ",
            ).concat(number.as_str()).concat(": ").concat(error),
        ),
    )
}

/// Takes the stopping of a child one stage on.
pub fn terminate_generic_child(stage: ChildStage, process_group: i32) -> (r: ChildNext)
    ensures
        terminates(stage, process_group, r),
{
    match stage {
        ChildStage::Begin => ChildNext::Signal(StopSignal::Terminate),
        ChildStage::TermSent(SignalOutcome::Sent) => ChildNext::Grace(
            Duration::from_millis(GENERIC_CANCEL_GRACE_MILLIS),
        ),
        ChildStage::TermSent(SignalOutcome::NoSuchGroup) => ChildNext::Reap,
        ChildStage::TermSent(SignalOutcome::Failed(error)) => failed_signal(
            "SIGTERM",
            process_group,
            error.as_str(),
        ),
        ChildStage::GraceOver => ChildNext::Signal(StopSignal::Kill),
        ChildStage::KillSent(SignalOutcome::Failed(error)) => failed_signal(
            "SIGKILL",
            process_group,
            error.as_str(),
        ),
        ChildStage::KillSent(_) => ChildNext::Reap,
        ChildStage::Reaped(Ok(())) => ChildNext::Done(Ok(())),
        ChildStage::Reaped(Err(error)) => ChildNext::Done(
            Err(
                "could not reap cancelled generic command: ".to_owned().concat(error.as_str()),
            ),
        ),
    }
}

/// Why a child is stopped, from what was last said; where nobody is left to say, the user is.
pub fn cancellation_reason(said: Option<GenericCancellation>) -> (r: GenericCancellation)
    ensures
        r == (match said {
            Some(reason) => reason,
            None => GenericCancellation::UserRequested,
        }),
        said matches Some(reason) ==> r == reason,
        said is None ==> r is UserRequested,
{
    match said {
        Some(reason) => reason,
        None => GenericCancellation::UserRequested,
    }
}

/// The process group of a spawned child: its leader is the child. A child without a number, or with one
/// that no process group can have, is an error.
pub fn process_group_of(id: Option<u32>) -> (r: Result<i32, BrokerError>)
    ensures
        match id {
            Some(id) if id <= i32::MAX => r == Ok::<i32, BrokerError>(id as i32),
            _ => r matches Err(BrokerError::GenericProcess(text)) && text@
                == "spawned command has no valid process-group leader identity"@,
        },
        r matches Ok(group) ==> group >= 0 && id is Some && id->Some_0 == group,
        r is Err <==> id is None || id->Some_0 > 0x7fff_ffff,
{
    match id {
        Some(id) => {
            if id <= 2147483647 {
                return Ok(id as i32);
            }
        },
        None => {},
    }
    Err(
        BrokerError::GenericProcess(
            "spawned command has no valid process-group leader identity".to_owned(),
        ),
    )
}

/// The leader is waited for only when nothing of its group is left to be signalled: the group was gone,
/// or it was killed after its time was over. So no member that ignores the polite signal outlives the
/// stopping, and no other group can have taken the number.
pub proof fn law_the_leader_is_reaped_last(stage: ChildStage, process_group: i32, next: ChildNext)
    requires
        terminates(stage, process_group, next),
        next is Reap,
    ensures
        stage == ChildStage::TermSent(SignalOutcome::NoSuchGroup) || stage is KillSent,
{
}

} // verus!
