use muxe_broker::command::{
    command_cwd_from_context, command_string, plan_command, requires_post_dismissal,
    resolve_command_cwd, CommandAction, PortableAction, ScalarValue,
};
use muxe_broker::protocol::BrokerError;
use std::path::PathBuf;

fn text(value: &str) -> ScalarValue {
    ScalarValue::Text(value.to_owned())
}

fn captured(path: &str) -> Option<PathBuf> {
    Some(PathBuf::from(path))
}

#[test]
fn command_cwd_resolves_only_from_the_captured_origin() {
    let origin = captured("/captured");
    assert_eq!(
        resolve_command_cwd(&origin, None, false).unwrap(),
        PathBuf::from("/captured")
    );
    let relative = text("child");
    assert_eq!(
        resolve_command_cwd(&origin, Some(&relative), false).unwrap(),
        PathBuf::from("/captured/child")
    );
    assert!(matches!(
        resolve_command_cwd(&origin, Some(&relative), true),
        Err(BrokerError::GenericProcess(_))
    ));
    assert!(matches!(
        resolve_command_cwd(&None, None, false),
        Err(BrokerError::ContextUnavailable)
    ));
    assert!(matches!(
        resolve_command_cwd(&captured("not-absolute"), Some(&relative), false),
        Err(BrokerError::ContextUnavailable)
    ));
}

#[test]
fn a_configured_directory_from_the_root_needs_no_origin() {
    let absolute = text("/elsewhere");
    for from_context in [false, true] {
        assert_eq!(
            resolve_command_cwd(&None, Some(&absolute), from_context).unwrap(),
            PathBuf::from("/elsewhere")
        );
    }
    assert_eq!(
        resolve_command_cwd(&captured("/captured"), Some(&ScalarValue::Integer(1)), false),
        Err(BrokerError::GenericProcess(
            "command cwd must be a resolved string".to_owned()
        ))
    );
}

fn command() -> CommandAction {
    CommandAction {
        program: text("printf"),
        args: vec![text("%s"), text("x")],
        cwd: None,
        env: vec![("NAME".to_owned(), text("value"))],
    }
}

#[test]
fn a_command_is_spelled_out() {
    let plan = plan_command(&command(), &captured("/here"), false).unwrap();
    assert_eq!(plan.program, "printf");
    assert_eq!(plan.args, vec!["%s".to_owned(), "x".to_owned()]);
    assert_eq!(plan.cwd, PathBuf::from("/here"));
    assert_eq!(plan.env, vec![("NAME".to_owned(), "value".to_owned())]);
}

#[test]
fn a_command_that_is_not_spelled_out_is_refused_in_order() {
    let mut wrong = command();
    wrong.env = vec![("NAME".to_owned(), ScalarValue::Other)];
    assert_eq!(
        plan_command(&wrong, &captured("/here"), false),
        Err(BrokerError::GenericProcess(
            "command environment value must be a resolved string".to_owned()
        ))
    );
    assert_eq!(
        plan_command(&wrong, &None, false),
        Err(BrokerError::ContextUnavailable)
    );
    wrong.args.push(ScalarValue::Boolean(true));
    assert_eq!(
        plan_command(&wrong, &None, false),
        Err(BrokerError::GenericProcess(
            "command argument must be a resolved string".to_owned()
        ))
    );
    wrong.program = text("");
    assert_eq!(
        plan_command(&wrong, &None, false),
        Err(BrokerError::GenericProcess(
            "command program must not be empty".to_owned()
        ))
    );
    assert_eq!(
        command_string(&ScalarValue::Other, "command program"),
        Err(BrokerError::GenericProcess(
            "command program must be a resolved string".to_owned()
        ))
    );
}

#[test]
fn focused_creation_waits_for_the_pane_to_go() {
    let tab = |focus| PortableAction::CreateTab { focus };
    let split = |focus| PortableAction::SplitPane { focus };
    assert!(requires_post_dismissal(&tab(None)));
    assert!(requires_post_dismissal(&split(Some(ScalarValue::Boolean(true)))));
    assert!(!requires_post_dismissal(&tab(Some(ScalarValue::Boolean(false)))));
    assert!(!requires_post_dismissal(&split(Some(text("true")))));
    assert!(!requires_post_dismissal(&PortableAction::Quit));
}

#[test]
fn only_a_directory_read_off_the_origin_counts_as_such() {
    let mut read = command();
    assert!(!command_cwd_from_context(&PortableAction::Command(command())));
    read.cwd = Some(ScalarValue::Context("pane.cwd".to_owned()));
    assert!(command_cwd_from_context(&PortableAction::Command(read)));
    assert!(!command_cwd_from_context(&PortableAction::Reload));
}
