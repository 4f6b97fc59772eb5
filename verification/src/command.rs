//! Actions as the broker reads them, and how a command is made ready to be spawned.
pub mod laws;

use crate::path::{
    clone_path, is_rooted, join_path, joined_components, lemma_rooted_texts_start_with_a_slash,
    path_components, path_is_absolute, path_of, text_components,
};
use crate::protocol::BrokerError;
use std::path::PathBuf;
use vstd::prelude::*;
use vstd::string::StringExecFns;

verus! {

/// A parameter of an action.
#[derive(Debug, PartialEq, Eq)]
pub enum ScalarValue {
    Text(String),
    Boolean(bool),
    Integer(i64),
    /// A value that is read off the origin of the menu, by its name there.
    Context(String),
    Other,
}

/// A command to run.
#[derive(Debug, PartialEq, Eq)]
pub struct CommandAction {
    pub program: ScalarValue,
    pub args: Vec<ScalarValue>,
    pub cwd: Option<ScalarValue>,
    pub env: Vec<(String, ScalarValue)>,
}

/// An action that every host has.
#[derive(Debug, PartialEq, Eq)]
pub enum PortableAction {
    /// The configuration is read again.
    Reload,
    /// The menu is left.
    Quit,
    /// Something that the UI does by itself.
    Menu,
    CreateTab { focus: Option<ScalarValue> },
    SplitPane { focus: Option<ScalarValue> },
    Command(CommandAction),
    /// Something else that the host does.
    Other,
}

/// Whether new work takes the focus: it does unless it is told not to.
pub open spec fn takes_focus(focus: Option<ScalarValue>) -> bool {
    focus matches Some(focus) ==> focus == ScalarValue::Boolean(true)
}

/// Whether an action has to wait until the UI's pane is gone, since it moves the focus.
pub open spec fn waits_for_dismissal(action: PortableAction) -> bool {
    match action {
        PortableAction::CreateTab { focus } | PortableAction::SplitPane { focus } => takes_focus(
            focus,
        ),
        _ => false,
    }
}

/// Whether an action has to wait until the UI's pane is gone.
pub fn requires_post_dismissal(action: &PortableAction) -> (r: bool)
    ensures
        r == waits_for_dismissal(*action),
{
    match action {
        PortableAction::CreateTab { focus } | PortableAction::SplitPane { focus } => match focus {
            None => true,
            Some(ScalarValue::Boolean(value)) => *value,
            Some(_) => false,
        },
        _ => false,
    }
}

/// Whether a command reads its directory off the origin of the menu.
pub open spec fn reads_cwd_from_context(action: PortableAction) -> bool {
    action matches PortableAction::Command(command) && command.cwd matches Some(
        ScalarValue::Context(_),
    )
}

/// Whether a command reads its directory off the origin of the menu.
pub fn command_cwd_from_context(action: &PortableAction) -> (r: bool)
    ensures
        r == reads_cwd_from_context(*action),
{
    match action {
        PortableAction::Command(command) => match &command.cwd {
            Some(ScalarValue::Context(_)) => true,
            _ => false,
        },
        _ => false,
    }
}

/// What keeps a command from being made ready.
pub enum Fault {
    /// A parameter is no text.
    NotText(Seq<char>),
    EmptyProgram,
    /// The origin of the menu has no directory.
    NoContext,
    /// The directory read off the origin does not start at the root.
    RelativeContext,
}

impl Fault {
    /// The error that reports a fault.
    pub open spec fn is_reported_by(self, error: BrokerError) -> bool {
        match self {
            Fault::NotText(parameter) => error matches BrokerError::GenericProcess(text) && text@
                == parameter + " must be a resolved string"@,
            Fault::EmptyProgram => error matches BrokerError::GenericProcess(text) && text@
                == "command program must not be empty"@,
            Fault::NoContext => error == BrokerError::ContextUnavailable,
            Fault::RelativeContext => error matches BrokerError::GenericProcess(text) && text@
                == "origin-derived command cwd must resolve to an absolute path"@,
        }
    }
}

/// The text of a parameter.
pub fn command_string<'a>(scalar: &'a ScalarValue, parameter: &str) -> (r: Result<
    &'a str,
    BrokerError,
>)
    ensures
        match *scalar {
            ScalarValue::Text(text) => r matches Ok(found) && found@ == text@,
            _ => r matches Err(error) && Fault::NotText(parameter@).is_reported_by(error),
        },
{
    match scalar {
        ScalarValue::Text(text) => Ok(text.as_str()),
        _ => Err(
            BrokerError::GenericProcess(parameter.to_owned().concat(" must be a resolved string")),
        ),
    }
}

/// The directory of the pane that the menu was called up in, where the host knows one that starts
/// at the root.
pub open spec fn captured_cwd(pane_cwd: Option<PathBuf>) -> Option<PathBuf> {
    match pane_cwd {
        Some(cwd) if is_rooted(path_components(cwd)) => Some(cwd),
        _ => None,
    }
}

/// A text that names a place by the way from the root.
pub open spec fn is_absolute_text(text: Seq<char>) -> bool {
    text.len() > 0 && text[0] == '/'
}

/// What keeps the directory of a command from being found.
pub open spec fn cwd_fault(
    pane_cwd: Option<PathBuf>,
    configured: Option<ScalarValue>,
    from_context: bool,
) -> Option<Fault> {
    match configured {
        None => if captured_cwd(pane_cwd) is Some {
            None
        } else {
            Some(Fault::NoContext)
        },
        Some(ScalarValue::Text(text)) => {
            if is_absolute_text(text@) {
                None
            } else if from_context {
                Some(Fault::RelativeContext)
            } else if captured_cwd(pane_cwd) is Some {
                None
            } else {
                Some(Fault::NoContext)
            }
        },
        Some(_) => Some(Fault::NotText("command cwd"@)),
    }
}

/// The components of a command's directory, where it is found.
pub open spec fn cwd_components(
    pane_cwd: Option<PathBuf>,
    configured: Option<ScalarValue>,
) -> Seq<Seq<u8>> {
    match configured {
        Some(ScalarValue::Text(text)) => if is_absolute_text(text@) {
            text_components(text@)
        } else {
            joined_components(path_components(pane_cwd->Some_0), text@)
        },
        _ => path_components(pane_cwd->Some_0),
    }
}

/// Finds the directory of a command: the configured one where it starts at the root, else the
/// configured one below the pane's, else the pane's.
pub fn resolve_command_cwd(
    pane_cwd: &Option<PathBuf>,
    configured: Option<&ScalarValue>,
    configured_from_context: bool,
) -> (r: Result<PathBuf, BrokerError>)
    ensures
        ({
            let value = match configured {
                Some(value) => Some(*value),
                None => None,
            };
            match cwd_fault(*pane_cwd, value, configured_from_context) {
                None => r matches Ok(cwd) && path_components(cwd) == cwd_components(
                    *pane_cwd,
                    value,
                ),
                Some(fault) => r matches Err(error) && fault.is_reported_by(error),
            }
        }),
{
    match configured {
        None => captured(pane_cwd),
        Some(value) => {
            let text = match command_string(value, "command cwd") {
                Ok(text) => text,
                Err(error) => return Err(error),
            };
            let configured = path_of(text);
            proof {
                lemma_rooted_texts_start_with_a_slash(text@);
            }
            if path_is_absolute(&configured) {
                Ok(configured)
            } else if configured_from_context {
                Err(
                    BrokerError::GenericProcess(
                        "origin-derived command cwd must resolve to an absolute path".to_owned(),
                    ),
                )
            } else {
                match captured(pane_cwd) {
                    Ok(directory) => Ok(join_path(&directory, text)),
                    Err(error) => Err(error),
                }
            }
        },
    }
}

/// The directory of the pane, where it is known and starts at the root.
fn captured(pane_cwd: &Option<PathBuf>) -> (r: Result<PathBuf, BrokerError>)
    ensures
        r == (match captured_cwd(*pane_cwd) {
            Some(cwd) => Ok::<PathBuf, BrokerError>(cwd),
            None => Err(BrokerError::ContextUnavailable),
        }),
{
    match pane_cwd {
        Some(cwd) => if path_is_absolute(cwd) {
            Ok(clone_path(cwd))
        } else {
            Err(BrokerError::ContextUnavailable)
        },
        None => Err(BrokerError::ContextUnavailable),
    }
}

/// A command that can be spawned.
#[derive(Debug, PartialEq, Eq)]
pub struct CommandPlan {
    pub program: String,
    pub args: Vec<String>,
    pub cwd: PathBuf,
    pub env: Vec<(String, String)>,
}

/// What keeps a command from being made ready, the program first, then the arguments, the
/// directory and the environment.
pub open spec fn command_fault(
    command: CommandAction,
    pane_cwd: Option<PathBuf>,
    from_context: bool,
) -> Option<Fault> {
    if command.program !is Text {
        Some(Fault::NotText("command program"@))
    } else if command.program->Text_0@.len() == 0 {
        Some(Fault::EmptyProgram)
    } else if exists|i: int| 0 <= i < command.args@.len() && (#[trigger] command.args@[i]) !is Text {
        Some(Fault::NotText("command argument"@))
    } else if cwd_fault(pane_cwd, command.cwd, from_context) is Some {
        cwd_fault(pane_cwd, command.cwd, from_context)
    } else if exists|i: int| 0 <= i < command.env@.len() && (#[trigger] command.env@[i]).1 !is Text {
        Some(Fault::NotText("command environment value"@))
    } else {
        None
    }
}

/// A plan that spells a command out.
pub open spec fn plans(plan: CommandPlan, command: CommandAction, pane_cwd: Option<PathBuf>) -> bool {
    &&& plan.program@ == command.program->Text_0@
    &&& plan.args@.len() == command.args@.len()
    &&& forall|i: int|
        0 <= i < plan.args@.len() ==> (#[trigger] plan.args@[i])@ == command.args@[i]->Text_0@
    &&& path_components(plan.cwd) == cwd_components(pane_cwd, command.cwd)
    &&& plan.env@.len() == command.env@.len()
    &&& forall|i: int|
        0 <= i < plan.env@.len() ==> (#[trigger] plan.env@[i]).0 == command.env@[i].0
            && plan.env@[i].1@ == command.env@[i].1->Text_0@
}

/// Makes a command ready to be spawned.
pub fn plan_command(command: &CommandAction, pane_cwd: &Option<PathBuf>, from_context: bool) -> (r:
    Result<CommandPlan, BrokerError>)
    ensures
        match command_fault(*command, *pane_cwd, from_context) {
            None => r matches Ok(plan) && plans(plan, *command, *pane_cwd),
            Some(fault) => r matches Err(error) && fault.is_reported_by(error),
        },
{
    let program = match command_string(&command.program, "command program") {
        Ok(program) => program,
        Err(error) => return Err(error),
    };
    if program.is_empty() {
        return Err(BrokerError::GenericProcess("command program must not be empty".to_owned()));
    }
    let mut args: Vec<String> = Vec::new();
    let mut i: usize = 0;
    while i < command.args.len()
        invariant
            i <= command.args@.len(),
            args@.len() == i,
            command.program is Text,
            command.program->Text_0@.len() > 0,
            forall|j: int|
                0 <= j < i ==> (#[trigger] command.args@[j]) is Text && args@[j]@
                    == command.args@[j]->Text_0@,
        decreases command.args@.len() - i,
    {
        match command_string(&command.args[i], "command argument") {
            Ok(text) => args.push(text.to_owned()),
            Err(error) => {
                assert(command.args@[i as int] !is Text);
                return Err(error);
            },
        }
        i += 1;
    }
    let configured = match &command.cwd {
        Some(cwd) => Some(cwd),
        None => None,
    };
    let cwd = match resolve_command_cwd(pane_cwd, configured, from_context) {
        Ok(cwd) => cwd,
        Err(error) => return Err(error),
    };
    let mut env: Vec<(String, String)> = Vec::new();
    i = 0;
    while i < command.env.len()
        invariant
            i <= command.env@.len(),
            env@.len() == i,
            command.program is Text,
            command.program->Text_0@.len() > 0,
            forall|j: int| 0 <= j < command.args@.len() ==> (#[trigger] command.args@[j]) is Text,
            cwd_fault(*pane_cwd, command.cwd, from_context) is None,
            forall|j: int|
                0 <= j < i ==> (#[trigger] command.env@[j]).1 is Text && env@[j].0
                    == command.env@[j].0 && env@[j].1@ == command.env@[j].1->Text_0@,
        decreases command.env@.len() - i,
    {
        match command_string(&command.env[i].1, "command environment value") {
            Ok(text) => env.push((command.env[i].0.clone(), text.to_owned())),
            Err(error) => {
                assert(command.env@[i as int].1 !is Text);
                return Err(error);
            },
        }
        i += 1;
    }
    let plan = CommandPlan { program: program.to_owned(), args, cwd, env };
    assert forall|j: int| 0 <= j < plan.args@.len() implies (#[trigger] plan.args@[j])@
        == command.args@[j]->Text_0@ by {
        assert(command.args@[j] is Text);
    }
    assert forall|j: int| 0 <= j < plan.env@.len() implies (#[trigger] plan.env@[j]).0
        == command.env@[j].0 && plan.env@[j].1@ == command.env@[j].1->Text_0@ by {
        assert(command.env@[j].1 is Text);
    }
    Ok(plan)
}

} // verus!
