use muxe_broker::condition::{evaluate, ConditionEvaluationError, ConditionIr, PagesContext};
use muxe_broker::config::KeyCapabilities;
use muxe_broker::connection::BindingId;
use muxe_broker::execution::{ExecutionMode, ExecutionPolicy, MenuControlAction, TimeoutAction};
use muxe_broker::menu::MenuId;
use muxe_broker::protocol::MenuControl;
use muxe_broker::textmap::TextMap;
use muxe_broker::time::Duration;
use muxe_broker::wire::{
    attachment, condition_to_wire, core_menu_id_to_wire, wire_menu_id_to_core, AfterAction,
    BindingConditions, BindingState, ColorScheme, CompiledTheme, ConditionIrWire, KeyboardProfile,
    KeyboardProfileWire, LayoutPadding, LayoutSettings, LocalMenuAction, LocalMenuActionWire,
    MenuIdWire, MenuView, MenuViewBinding, MenuViewMenu, Style, ThemeSection, UiAttachmentView,
    ViewBindingSettings,
};

fn named(name: &str) -> MenuId {
    MenuId::new(name)
}

fn inline(parent: &str, ordinal: u32) -> MenuId {
    MenuId::Inline {
        parent: parent.to_owned(),
        ordinal,
    }
}

fn layout() -> LayoutSettings {
    LayoutSettings {
        padding: LayoutPadding {
            left: 1,
            right: 2,
            top: 3,
            bottom: 4,
            between_rows: 5,
            between_columns: 6,
        },
        max_item_title_length: 40,
    }
}

fn binding(ordinal: u32, key: &str, action: Option<LocalMenuAction>) -> MenuViewBinding {
    MenuViewBinding {
        id: BindingId {
            generation: 9,
            ordinal,
        },
        key: key.to_owned(),
        label: "tools".to_owned(),
        hidden: false,
        state: BindingState {
            included: true,
            enabled: true,
            shown: true,
            blocked: false,
        },
        settings: ViewBindingSettings {
            after_action: AfterAction::Stay,
            execution: ExecutionPolicy {
                mode: ExecutionMode::Await,
                timeout: Some(Duration::from_millis(1500)),
                on_timeout: TimeoutAction::Cancel,
                on_menu_control: MenuControlAction::Detach,
            },
            repeat: true,
        },
        conditions: BindingConditions {
            included: None,
            enable: Some(ConditionIr::PagesCount),
            show: None,
        },
        local_menu_action: action,
    }
}

fn section() -> ThemeSection {
    let mut styles = TextMap::new();
    styles.insert(
        "title".to_owned(),
        Style {
            foreground: Some("red".to_owned()),
            background: None,
            bold: Some(true),
            dim: None,
            italic: None,
            underline: Some(false),
            strikethrough: None,
        },
    );
    ThemeSection {
        styles,
        templates: TextMap::new(),
    }
}

fn view() -> UiAttachmentView {
    let mut settings = TextMap::new();
    settings.insert("b".to_owned(), "2".to_owned());
    settings.insert("a".to_owned(), "1".to_owned());
    settings.insert("b".to_owned(), "3".to_owned());
    UiAttachmentView {
        menu: MenuView {
            generation: 9,
            root: named("my menu"),
            menus: vec![
                MenuViewMenu {
                    id: named("my menu"),
                    title: None,
                    layout: layout(),
                    bindings: vec![binding(
                        0,
                        "x",
                        Some(LocalMenuAction::Open {
                            target: inline("my menu", 0),
                        }),
                    )],
                },
                MenuViewMenu {
                    id: inline("my menu", 0),
                    title: Some("inner".to_owned()),
                    layout: layout(),
                    bindings: vec![binding(
                        1,
                        "q",
                        Some(LocalMenuAction::Control(MenuControl::Quit)),
                    )],
                },
            ],
        },
        keyboard: KeyboardProfile::Vt100 {
            escape_timeout: Duration::from_millis(25),
        },
        inactivity_timeout: Some(Duration::from_nanos(u128::MAX)),
        theme: CompiledTheme {
            common: section(),
            menu: section(),
            settings,
            scheme: ColorScheme {
                title: Some("dark".to_owned()),
                palette: TextMap::new(),
                colors: TextMap::new(),
            },
        },
    }
}

#[test]
fn whitespace_compiled_view_passes_wire_validation_and_round_trips() {
    let view = view();
    let root = named("my menu");
    assert_eq!(view.menu.root, root);
    let wire_view = attachment(&view);
    let back_root = wire_menu_id_to_core(&wire_view.menu.root, true).expect("root converts back");
    assert_eq!(back_root, root);
    let inner = view
        .menu
        .menus
        .iter()
        .map(|menu| menu.id.clone())
        .find(|id| matches!(id, MenuId::Inline { .. }))
        .expect("compiled inline submenu");
    let wire_inline = core_menu_id_to_wire(&inner);
    let back_inline = wire_menu_id_to_core(&wire_inline, true).expect("inline converts back");
    assert_eq!(back_inline, inner);
    assert_ne!(back_inline, named("my menu#0"));
    assert_eq!(wire_menu_id_to_core(&wire_inline, false), None);
}

#[test]
fn everything_that_a_ui_is_shown_is_sent() {
    let wire = attachment(&view());
    assert_eq!(wire.menu.generation, 9);
    assert_eq!(wire.menu.menus.len(), 2);
    assert_eq!(
        wire.menu.menus[1].id,
        MenuIdWire::Inline {
            parent: "my menu".to_owned(),
            ordinal: 0
        }
    );
    assert_eq!(wire.menu.menus[1].title, Some("inner".to_owned()));
    assert_eq!(wire.menu.menus[0].layout, layout());
    let first = &wire.menu.menus[0].bindings[0];
    assert_eq!(first.key, "x");
    assert_eq!(first.settings.execution.timeout_millis, Some(1500));
    assert_eq!(first.settings.after_action, AfterAction::Stay);
    assert_eq!(first.conditions.enable, Some(ConditionIrWire::PagesCount));
    assert_eq!(first.conditions.included, None);
    assert_eq!(first.diagnostic, None);
    assert_eq!(
        first.local_menu_action,
        Some(LocalMenuActionWire::Open {
            target: MenuIdWire::Inline {
                parent: "my menu".to_owned(),
                ordinal: 0
            }
        })
    );
    assert_eq!(
        wire.menu.menus[1].bindings[0].local_menu_action,
        Some(LocalMenuActionWire::Control(MenuControl::Quit))
    );
    assert_eq!(
        wire.keyboard,
        KeyboardProfileWire::Vt100 {
            escape_timeout_millis: 25
        }
    );
    assert_eq!(wire.inactivity_timeout_millis, Some(u64::MAX));
    let names: Vec<(&str, &str)> = wire
        .theme
        .settings
        .iter()
        .map(|entry| (entry.name.as_str(), entry.value.as_str()))
        .collect();
    assert_eq!(names, vec![("a", "1"), ("b", "3")]);
    assert_eq!(wire.theme.common.styles[0].name, "title");
    assert_eq!(wire.theme.common.styles[0].style.bold, Some(true));
    assert_eq!(wire.theme.scheme.title, Some("dark".to_owned()));
}

#[test]
fn a_capable_keyboard_is_sent_as_it_is() {
    let mut shown = view();
    let capabilities = KeyCapabilities {
        event_types: true,
        alternate_keys: false,
        all_keys_as_escape_codes: true,
    };
    shown.keyboard = KeyboardProfile::Kitty(capabilities);
    shown.inactivity_timeout = None;
    let wire = attachment(&shown);
    assert_eq!(wire.keyboard, KeyboardProfileWire::Kitty(capabilities));
    assert_eq!(wire.inactivity_timeout_millis, None);
}

fn boxed(condition: ConditionIr) -> Box<ConditionIr> {
    Box::new(condition)
}

#[test]
fn a_sent_condition_decides_like_its_source() {
    let condition = ConditionIr::Conditional(
        boxed(ConditionIr::Equal(
            boxed(ConditionIr::Modulo(
                boxed(ConditionIr::PagesCurrent),
                boxed(ConditionIr::Integer(2)),
            )),
            boxed(ConditionIr::Integer(0)),
        )),
        boxed(ConditionIr::Less(
            boxed(ConditionIr::Negate(boxed(ConditionIr::PagesCurrent))),
            boxed(ConditionIr::PagesCount),
        )),
        boxed(ConditionIr::Greater(
            boxed(ConditionIr::Divide(
                boxed(ConditionIr::Integer(1)),
                boxed(ConditionIr::Subtract(
                    boxed(ConditionIr::PagesCurrent),
                    boxed(ConditionIr::Integer(1)),
                )),
            )),
            boxed(ConditionIr::Integer(0)),
        )),
    );
    let wire = condition_to_wire(&condition);
    for current in 1..5 {
        let pages = PagesContext { count: 4, current };
        assert_eq!(evaluate(&wire, pages), evaluate(&condition, pages));
    }
    let first = PagesContext { count: 4, current: 1 };
    assert_eq!(
        evaluate(&wire, first),
        Err(ConditionEvaluationError::DivisionByZero)
    );
    let second = PagesContext { count: 4, current: 2 };
    assert_eq!(evaluate(&wire, second), Ok(true));
}
