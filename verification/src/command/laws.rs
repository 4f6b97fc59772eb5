//! Which commands are ready, where they run, and which actions wait for the UI.
use super::{
    command_fault, cwd_components, cwd_fault, plans, reads_cwd_from_context, takes_focus,
    waits_for_dismissal, CommandAction, CommandPlan, Fault, PortableAction, ScalarValue,
};
use crate::path::{is_rooted, path_components, root_component};
use crate::protocol::laws::ends_in;
use crate::protocol::BrokerError;
use std::path::PathBuf;
use vstd::prelude::*;

verus! {

/// A command that is spelled out is ready: its program is a text that is not empty, its arguments and
/// what it sets in the environment are texts, and it is known where it runs.
pub proof fn law_a_command_that_is_spelled_out_is_ready(
    command: CommandAction,
    pane_cwd: Option<PathBuf>,
    from_context: bool,
)
    requires
        command.program matches ScalarValue::Text(program) && program@.len() > 0,
        forall|i: int| 0 <= i < command.args@.len() ==> (#[trigger] command.args@[i]) is Text,
        forall|i: int| 0 <= i < command.env@.len() ==> (#[trigger] command.env@[i]).1 is Text,
        ({
            let known = pane_cwd is Some && is_rooted(path_components(pane_cwd->Some_0));
            ||| command.cwd is None && known
            ||| command.cwd matches Some(ScalarValue::Text(text)) && text@.len() > 0 && text@[0]
                == '/'
            ||| command.cwd matches Some(ScalarValue::Text(_)) && known && !from_context
        }),
    ensures
        command_fault(command, pane_cwd, from_context) is None,
{
}

/// A command that is not spelled out is refused for the first thing that is missing: the program, then
/// an argument, then the directory, then the environment.
pub proof fn law_a_command_is_refused_for_its_first_fault(
    command: CommandAction,
    pane_cwd: Option<PathBuf>,
    from_context: bool,
    i: int,
    j: int,
)
    ensures
        ({
            let fault = command_fault(command, pane_cwd, from_context);
            let directory = cwd_fault(pane_cwd, command.cwd, from_context);
            let has_program = command.program matches ScalarValue::Text(program) && program@.len()
                > 0;
            let has_arguments = forall|k: int|
                0 <= k < command.args@.len() ==> (#[trigger] command.args@[k]) is Text;
            &&& !(command.program is Text) ==> fault == Some(Fault::NotText("command program"@))
            &&& (command.program matches ScalarValue::Text(program) && program@.len() == 0)
                ==> fault is Some && fault->Some_0 is EmptyProgram
            &&& has_program && 0 <= i < command.args@.len() && !(command.args@[i] is Text) ==> fault
                == Some(Fault::NotText("command argument"@))
            &&& has_program && has_arguments && directory is Some ==> fault == directory
            &&& has_program && has_arguments && directory is None && 0 <= j < command.env@.len()
                && !(command.env@[j].1 is Text) ==> fault == Some(
                Fault::NotText("command environment value"@),
            )
        }),
{
}

/// A directory that cannot be found is told by its reason: it is no text, the origin gave one that does
/// not start at the root, or it would stand below a pane's directory that is not known.
pub proof fn law_a_directory_is_refused_for_its_reason(
    pane_cwd: Option<PathBuf>,
    configured: Option<ScalarValue>,
    from_context: bool,
)
    ensures
        ({
            let fault = cwd_fault(pane_cwd, configured, from_context);
            let known = pane_cwd is Some && is_rooted(path_components(pane_cwd->Some_0));
            let absolute = configured matches Some(ScalarValue::Text(text)) && text@.len() > 0
                && text@[0] == '/';
            let relative = (configured matches Some(ScalarValue::Text(_))) && !absolute;
            &&& absolute ==> fault is None
            &&& configured is Some && !(configured->Some_0 is Text) ==> fault == Some(
                Fault::NotText("command cwd"@),
            )
            &&& relative && from_context ==> fault is Some && fault->Some_0 is RelativeContext
            &&& relative && !from_context && !known ==> fault is Some && fault->Some_0 is NoContext
            &&& configured is None && !known ==> fault is Some && fault->Some_0 is NoContext
            &&& known && (configured is None || (relative && !from_context)) ==> fault is None
        }),
{
}

/// A command runs in a directory that starts at the root: the configured one where that does, and
/// otherwise one below the pane's directory, or that directory itself.
pub proof fn law_a_command_runs_from_the_root(
    pane_cwd: Option<PathBuf>,
    configured: Option<ScalarValue>,
    from_context: bool,
)
    requires
        cwd_fault(pane_cwd, configured, from_context) is None,
    ensures
        ({
            let cwd = cwd_components(pane_cwd, configured);
            let absolute = configured matches Some(ScalarValue::Text(text)) && text@.len() > 0
                && text@[0] == '/';
            &&& is_rooted(cwd)
            &&& cwd[0] == root_component()
            &&& !absolute ==> pane_cwd is Some && path_components(
                pane_cwd->Some_0,
            ).is_prefix_of(cwd)
            &&& configured is None ==> cwd == path_components(pane_cwd->Some_0)
            &&& absolute ==> forall|other: Option<PathBuf>| #[trigger]
                cwd_components(other, configured) == cwd
        }),
{
    let cwd = cwd_components(pane_cwd, configured);
    if pane_cwd is Some {
        let pane = path_components(pane_cwd->Some_0);
        assert(is_rooted(pane) ==> cwd.subrange(0, 0) =~= pane.subrange(0, 0));
    }
    if let Some(ScalarValue::Text(text)) = configured {
        if text@.len() > 0 && text@[0] == '/' {
            crate::path::lemma_rooted_texts_start_with_a_slash(text@);
        } else {
            let pane = path_components(pane_cwd->Some_0);
            assert(pane.len() > 0);
            assert(cwd.subrange(0, pane.len() as int) =~= pane);
            assert(cwd[0] == pane[0]);
        }
    }
}

/// A plan spells one command: two commands that have the same plan have the same program, the same
/// arguments in the same order, and set the same names to the same values.
pub proof fn law_a_plan_spells_one_command(
    plan: CommandPlan,
    first: CommandAction,
    second: CommandAction,
    pane_cwd: Option<PathBuf>,
    from_context: bool,
    i: int,
)
    requires
        plans(plan, first, pane_cwd),
        plans(plan, second, pane_cwd),
        command_fault(first, pane_cwd, from_context) is None,
        command_fault(second, pane_cwd, from_context) is None,
    ensures
        first.program->Text_0@ == second.program->Text_0@,
        first.args@.len() == second.args@.len(),
        first.env@.len() == second.env@.len(),
        0 <= i < first.args@.len() ==> first.args@[i]->Text_0@ == second.args@[i]->Text_0@,
        0 <= i < first.env@.len() ==> first.env@[i].0 == second.env@[i].0
            && first.env@[i].1->Text_0@ == second.env@[i].1->Text_0@,
        cwd_components(pane_cwd, first.cwd) == cwd_components(pane_cwd, second.cwd),
{
    if 0 <= i < first.args@.len() {
        assert(plan.args@[i]@ == first.args@[i]->Text_0@);
        assert(plan.args@[i]@ == second.args@[i]->Text_0@);
    }
    if 0 <= i < first.env@.len() {
        assert(plan.env@[i].1@ == first.env@[i].1->Text_0@);
        assert(plan.env@[i].1@ == second.env@[i].1->Text_0@);
    }
}

/// A new tab or pane takes the focus unless it is told otherwise, and then waits until the UI is gone;
/// one that leaves the focus alone does not wait, and neither does any other action.
pub proof fn law_what_moves_the_focus_waits(action: PortableAction, focus: Option<ScalarValue>)
    ensures
        takes_focus(None),
        takes_focus(Some(ScalarValue::Boolean(true))),
        !takes_focus(Some(ScalarValue::Boolean(false))),
        takes_focus(focus) ==> waits_for_dismissal(PortableAction::CreateTab { focus })
            && waits_for_dismissal(PortableAction::SplitPane { focus }),
        focus matches Some(ScalarValue::Boolean(wanted)) ==> waits_for_dismissal(
            PortableAction::CreateTab { focus },
        ) == wanted && waits_for_dismissal(PortableAction::SplitPane { focus }) == wanted,
        focus is Some && !(focus->Some_0 is Boolean) ==> !takes_focus(focus),
        waits_for_dismissal(action) ==> action is CreateTab || action is SplitPane,
{
}

/// Only a command whose directory was written as a value of the origin reads it off the origin.
pub proof fn law_only_a_value_of_the_origin_is_read_off_it(action: PortableAction)
    ensures
        reads_cwd_from_context(action) <==> action is Command && action->Command_0.cwd is Some
            && action->Command_0.cwd->Some_0 is Context,
{
}

/// A fault is reported as what it is: a directory that the origin does not give as a context that is not
/// there, and anything else as a failure of the command, in which a parameter that is no text is named
/// first.
pub proof fn law_a_fault_is_reported_as_what_it_is(fault: Fault, error: BrokerError)
    requires
        fault.is_reported_by(error),
    ensures
        fault is NoContext <==> error is ContextUnavailable,
        !(fault is NoContext) ==> error is GenericProcess,
        fault matches Fault::NotText(parameter) ==> parameter.is_prefix_of(error->GenericProcess_0@)
            && ends_in(error->GenericProcess_0@, "must be a resolved string"@),
        fault is EmptyProgram ==> ends_in(error->GenericProcess_0@, "program must not be empty"@),
        fault is RelativeContext ==> ends_in(
            error->GenericProcess_0@,
            "must resolve to an absolute path"@,
        ),
{
    reveal_strlit(" must be a resolved string");
    reveal_strlit("must be a resolved string");
    reveal_strlit("command program must not be empty");
    reveal_strlit("program must not be empty");
    reveal_strlit("origin-derived command cwd must resolve to an absolute path");
    reveal_strlit("must resolve to an absolute path");
    match fault {
        Fault::NotText(parameter) => {
            let text = error->GenericProcess_0@;
            assert(text.skip(parameter.len() as int + 1) =~= "must be a resolved string"@);
            assert(text.subrange(0, parameter.len() as int) =~= parameter);
        },
        Fault::EmptyProgram => {
            assert(error->GenericProcess_0@.skip(8) =~= "program must not be empty"@);
        },
        Fault::RelativeContext => {
            assert(error->GenericProcess_0@.skip(27) =~= "must resolve to an absolute path"@);
        },
        Fault::NoContext => {},
    }
}

} // verus!
