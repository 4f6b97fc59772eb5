//! How the stopping of a child runs, from its beginning to its end.
use super::{
    signal_failure, terminates, ChildNext, ChildStage, SignalOutcome, StopSignal,
    GENERIC_CANCEL_GRACE_MILLIS,
};
use vstd::prelude::*;

verus! {

/// A group is asked politely first, then gets its time, is killed when that is over, and its leader is
/// waited for then; a group that is gone already needs no more than that its leader is waited for.
pub proof fn law_a_group_is_asked_first_and_killed_after_its_time(
    process_group: i32,
    begun: ChildNext,
    asked: ChildNext,
    gone: ChildNext,
    over: ChildNext,
    killed: ChildNext,
    vanished: ChildNext,
    reaped: ChildNext,
)
    requires
        terminates(ChildStage::Begin, process_group, begun),
        terminates(ChildStage::TermSent(SignalOutcome::Sent), process_group, asked),
        terminates(ChildStage::TermSent(SignalOutcome::NoSuchGroup), process_group, gone),
        terminates(ChildStage::GraceOver, process_group, over),
        terminates(ChildStage::KillSent(SignalOutcome::Sent), process_group, killed),
        terminates(ChildStage::KillSent(SignalOutcome::NoSuchGroup), process_group, vanished),
        terminates(ChildStage::Reaped(Ok(())), process_group, reaped),
    ensures
        begun == ChildNext::Signal(StopSignal::Terminate),
        asked matches ChildNext::Grace(span) && span@ == 2_000_000_000,
        GENERIC_CANCEL_GRACE_MILLIS == 2000,
        gone is Reap,
        over == ChildNext::Signal(StopSignal::Kill),
        killed is Reap,
        vanished is Reap,
        reaped == ChildNext::Done(Ok(())),
{
}

/// The stopping fails exactly where a signal was refused or the leader could not be waited for, and what
/// is said then ends in the operating system's own words.
pub proof fn law_a_failed_stop_is_told(stage: ChildStage, process_group: i32, next: ChildNext)
    requires
        terminates(stage, process_group, next),
    ensures
        (next matches ChildNext::Done(Err(_))) <==> (stage matches ChildStage::TermSent(
            SignalOutcome::Failed(_),
        )) || (stage matches ChildStage::KillSent(SignalOutcome::Failed(_))) || (stage
            matches ChildStage::Reaped(Err(_))),
        stage matches ChildStage::TermSent(SignalOutcome::Failed(error)) ==> next->Done_0->Err_0@.len()
            >= error@.len() && next->Done_0->Err_0@.skip(
            next->Done_0->Err_0@.len() - error@.len(),
        ) == error@,
        stage matches ChildStage::KillSent(SignalOutcome::Failed(error)) ==> next->Done_0->Err_0@.len()
            >= error@.len() && next->Done_0->Err_0@.skip(
            next->Done_0->Err_0@.len() - error@.len(),
        ) == error@,
        stage matches ChildStage::Reaped(Err(error)) ==> next->Done_0->Err_0@.len() >= error@.len()
            && next->Done_0->Err_0@.skip(next->Done_0->Err_0@.len() - error@.len()) == error@,
        (next matches ChildNext::Done(Ok(_))) <==> (stage matches ChildStage::Reaped(Ok(_))),
{
    if let ChildStage::TermSent(SignalOutcome::Failed(error)) = stage {
        let text = next->Done_0->Err_0@;
        assert(text.skip(text.len() - error@.len()) =~= error@);
    }
    if let ChildStage::KillSent(SignalOutcome::Failed(error)) = stage {
        let text = next->Done_0->Err_0@;
        assert(text.skip(text.len() - error@.len()) =~= error@);
    }
    if let ChildStage::Reaped(Err(error)) = stage {
        let text = next->Done_0->Err_0@;
        assert(text.skip(text.len() - error@.len()) =~= error@);
    }
}

/// A group is killed only when its time is over, and gets that time only after it was asked.
pub proof fn law_nothing_is_killed_before_its_time(
    stage: ChildStage,
    process_group: i32,
    next: ChildNext,
)
    requires
        terminates(stage, process_group, next),
    ensures
        next == ChildNext::Signal(StopSignal::Kill) <==> stage is GraceOver,
        next is Grace <==> stage == ChildStage::TermSent(SignalOutcome::Sent),
        next == ChildNext::Signal(StopSignal::Terminate) <==> stage is Begin,
{
}

/// The text on a signal that could not be sent names the signal, and the two signals have different
/// names.
pub proof fn law_a_failed_signal_is_named(
    signal: StopSignal,
    process_group: i32,
    error: Seq<char>,
)
    ensures
        signal_failure(signal, process_group, error).subrange(15, 22) == match signal {
            StopSignal::Terminate => "SIGTERM"@,
            StopSignal::Kill => "SIGKILL"@,
        },
        StopSignal::Terminate.text() != StopSignal::Kill.text(),
{
    reveal_strlit("could not send ");
    reveal_strlit("SIGTERM");
    reveal_strlit("SIGKILL");
    let text = signal_failure(signal, process_group, error);
    assert(signal.text().len() == 7);
    assert(text.subrange(15, 22) =~= signal.text());
    assert("SIGTERM"@[3] == 'T' && "SIGKILL"@[3] == 'K');
}

} // verus!
