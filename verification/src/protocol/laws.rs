//! What the texts of errors and diagnostics tell.
use super::{tells, BrokerError, DiagnosticCode, PeerRole, ProtocolDiagnostic};
use vstd::prelude::*;
use vstd::utf8::encode_utf8;

verus! {

/// A text ends in another one.
pub open spec fn ends_in(text: Seq<char>, end: Seq<char>) -> bool {
    text.len() >= end.len() && text.skip(text.len() - end.len()) == end
}

proof fn lemma_ends_in(start: Seq<char>, end: Seq<char>)
    ensures
        ends_in(start + end, end),
{
    assert((start + end).skip(start.len() as int) =~= end);
}

/// An error that has a cause tells it: its text ends in the words of the cause.
pub proof fn law_an_error_tells_its_cause(error: BrokerError)
    ensures
        error matches BrokerError::Configuration(text) ==> ends_in(error.text(), text@),
        error matches BrokerError::Adapter(cause) ==> ends_in(error.text(), cause.message@),
        error matches BrokerError::ActivationDrainRefused(text) ==> ends_in(error.text(), text@),
        error matches BrokerError::ActivationCleanupUnconfirmed(text) ==> ends_in(
            error.text(),
            text@,
        ),
        error matches BrokerError::UnknownSession(session) ==> ends_in(error.text(), session.text()),
        error matches BrokerError::GenericProcess(text) ==> ends_in(error.text(), text@),
        error matches BrokerError::Gate(cause) ==> ends_in(error.text(), cause.text()),
        error matches BrokerError::UnknownMenu(menu) ==> ends_in(error.text(), menu.text()),
        error matches BrokerError::PortableResolution { message, .. } ==> ends_in(
            error.text(),
            message@,
        ),
        error matches BrokerError::Role { expected, actual } ==> ends_in(
            error.text(),
            expected.text(),
        ) && error.text().subrange(10, 10 + actual.text().len() as int) == actual.text(),
{
    reveal_strlit("peer role ");
    match error {
        BrokerError::Configuration(text) => {
            lemma_ends_in("configuration failed: "@, text@);
        },
        BrokerError::Adapter(cause) => {
            lemma_ends_in("host adapter failed: "@, cause.message@);
        },
        BrokerError::ActivationDrainRefused(text) => {
            lemma_ends_in(
                "activation drain refused with a non-cancellable host execution in flight: "@,
                text@,
            );
        },
        BrokerError::ActivationCleanupUnconfirmed(text) => {
            lemma_ends_in(
                "activation drain timed out waiting for broker-owned host cleanup: "@,
                text@,
            );
        },
        BrokerError::UnknownSession(session) => {
            lemma_ends_in("unknown UI session: "@, session.text());
        },
        BrokerError::GenericProcess(text) => {
            lemma_ends_in("generic command supervision failed: "@, text@);
        },
        BrokerError::Gate(cause) => {
            lemma_ends_in("launch gate rejected request: "@, cause.text());
        },
        BrokerError::UnknownMenu(menu) => {
            lemma_ends_in("requested root menu does not exist: "@, menu.text());
        },
        BrokerError::PortableResolution { parameter, message } => {
            lemma_ends_in(
                "portable action parameter "@ + crate::text::debug_form(parameter@)
                    + " is invalid after origin resolution: "@,
                message@,
            );
        },
        BrokerError::Role { expected, actual } => {
            let start = "peer role "@ + actual.text() + " cannot make this request; expected "@;
            lemma_ends_in(start, expected.text());
            assert(error.text().subrange(10, 10 + actual.text().len() as int) =~= actual.text());
        },
        _ => {},
    }
}

/// Each role has its own name.
pub proof fn law_role_names_differ(left: PeerRole, right: PeerRole)
    requires
        left.text() == right.text(),
    ensures
        left == right,
{
    reveal_strlit("Launcher");
    reveal_strlit("Ui");
    reveal_strlit("Broker");
    reveal_strlit("ActivationCoordinator");
    assert("Launcher"@.len() == 8);
    assert("Ui"@.len() == 2);
    assert("Broker"@.len() == 6);
    assert("ActivationCoordinator"@.len() == 21);
}

/// A diagnostic carries its code and its text, which is whole where it fits and otherwise a beginning
/// that does.
pub proof fn law_a_diagnostic_carries_its_text(
    diagnostic: ProtocolDiagnostic,
    code: DiagnosticCode,
    text: Seq<char>,
    limit: nat,
)
    requires
        tells(diagnostic, code, text, limit),
    ensures
        diagnostic.code == code,
        encode_utf8(diagnostic.message@).len() <= limit,
        diagnostic.message@.is_prefix_of(text),
        encode_utf8(text).len() <= limit ==> diagnostic.message@ == text,
{
    assert(text.take(text.len() as int) =~= text);
    crate::text::laws::law_a_truncation_keeps_what_fits(text, limit, diagnostic.message@);
}

} // verus!
