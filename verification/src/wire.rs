//! What a UI is sent when it attaches: its menus with their bindings, the keyboard and the theme.
pub mod laws;

use crate::condition::{decision, ConditionIr, ConditionNode, NodeRef, PagesContext};
use crate::config::KeyCapabilities;
use crate::connection::BindingId;
use crate::execution::{ExecutionMode, ExecutionPolicy, MenuControlAction, TimeoutAction};
use crate::menu::MenuId;
use crate::protocol::{clone_text, MenuControl};
use crate::textmap::TextMap;
use crate::time::{duration_millis, Duration};
use vstd::prelude::*;

verus! {

/// A condition, as it is sent. It stands for the same tree, variant for variant.
#[derive(Debug, PartialEq, Eq)]
pub enum ConditionIrWire {
    Bool(bool),
    Integer(i64),
    PagesCount,
    PagesCurrent,
    Not(Box<ConditionIrWire>),
    And(Box<ConditionIrWire>, Box<ConditionIrWire>),
    Or(Box<ConditionIrWire>, Box<ConditionIrWire>),
    Equal(Box<ConditionIrWire>, Box<ConditionIrWire>),
    NotEqual(Box<ConditionIrWire>, Box<ConditionIrWire>),
    Less(Box<ConditionIrWire>, Box<ConditionIrWire>),
    LessEqual(Box<ConditionIrWire>, Box<ConditionIrWire>),
    Greater(Box<ConditionIrWire>, Box<ConditionIrWire>),
    GreaterEqual(Box<ConditionIrWire>, Box<ConditionIrWire>),
    Add(Box<ConditionIrWire>, Box<ConditionIrWire>),
    Subtract(Box<ConditionIrWire>, Box<ConditionIrWire>),
    Multiply(Box<ConditionIrWire>, Box<ConditionIrWire>),
    Divide(Box<ConditionIrWire>, Box<ConditionIrWire>),
    Modulo(Box<ConditionIrWire>, Box<ConditionIrWire>),
    Negate(Box<ConditionIrWire>),
    Conditional(Box<ConditionIrWire>, Box<ConditionIrWire>, Box<ConditionIrWire>),
}

impl ConditionIrWire {
    /// The condition that this one stands for.
    pub open spec fn stands_for(self) -> ConditionIr
        decreases self,
    {
        match self {
            ConditionIrWire::Bool(value) => ConditionIr::Bool(value),
            ConditionIrWire::Integer(value) => ConditionIr::Integer(value),
            ConditionIrWire::PagesCount => ConditionIr::PagesCount,
            ConditionIrWire::PagesCurrent => ConditionIr::PagesCurrent,
            ConditionIrWire::Not(value) => ConditionIr::Not(
                Box::new(value.stands_for()),
            ),
            ConditionIrWire::And(left, right) => ConditionIr::And(
                Box::new(left.stands_for()),
                Box::new(right.stands_for()),
            ),
            ConditionIrWire::Or(left, right) => ConditionIr::Or(
                Box::new(left.stands_for()),
                Box::new(right.stands_for()),
            ),
            ConditionIrWire::Equal(left, right) => ConditionIr::Equal(
                Box::new(left.stands_for()),
                Box::new(right.stands_for()),
            ),
            ConditionIrWire::NotEqual(left, right) => ConditionIr::NotEqual(
                Box::new(left.stands_for()),
                Box::new(right.stands_for()),
            ),
            ConditionIrWire::Less(left, right) => ConditionIr::Less(
                Box::new(left.stands_for()),
                Box::new(right.stands_for()),
            ),
            ConditionIrWire::LessEqual(left, right) => ConditionIr::LessEqual(
                Box::new(left.stands_for()),
                Box::new(right.stands_for()),
            ),
            ConditionIrWire::Greater(left, right) => ConditionIr::Greater(
                Box::new(left.stands_for()),
                Box::new(right.stands_for()),
            ),
            ConditionIrWire::GreaterEqual(left, right) => ConditionIr::GreaterEqual(
                Box::new(left.stands_for()),
                Box::new(right.stands_for()),
            ),
            ConditionIrWire::Add(left, right) => ConditionIr::Add(
                Box::new(left.stands_for()),
                Box::new(right.stands_for()),
            ),
            ConditionIrWire::Subtract(left, right) => ConditionIr::Subtract(
                Box::new(left.stands_for()),
                Box::new(right.stands_for()),
            ),
            ConditionIrWire::Multiply(left, right) => ConditionIr::Multiply(
                Box::new(left.stands_for()),
                Box::new(right.stands_for()),
            ),
            ConditionIrWire::Divide(left, right) => ConditionIr::Divide(
                Box::new(left.stands_for()),
                Box::new(right.stands_for()),
            ),
            ConditionIrWire::Modulo(left, right) => ConditionIr::Modulo(
                Box::new(left.stands_for()),
                Box::new(right.stands_for()),
            ),
            ConditionIrWire::Negate(value) => ConditionIr::Negate(
                Box::new(value.stands_for()),
            ),
            ConditionIrWire::Conditional(gate, yes, no) => ConditionIr::Conditional(
                Box::new(gate.stands_for()),
                Box::new(yes.stands_for()),
                Box::new(no.stands_for()),
            ),
        }
    }
}

impl ConditionNode for ConditionIrWire {
    open spec fn tree(&self) -> ConditionIr {
        self.stands_for()
    }

    fn view(&self) -> (r: NodeRef<'_, Self>) {
        match self {
            ConditionIrWire::Bool(value) => NodeRef::Bool(*value),
            ConditionIrWire::Integer(value) => NodeRef::Integer(*value),
            ConditionIrWire::PagesCount => NodeRef::PagesCount,
            ConditionIrWire::PagesCurrent => NodeRef::PagesCurrent,
            ConditionIrWire::Not(value) => NodeRef::Not(&**value),
            ConditionIrWire::And(left, right) => NodeRef::And(&**left, &**right),
            ConditionIrWire::Or(left, right) => NodeRef::Or(&**left, &**right),
            ConditionIrWire::Equal(left, right) => NodeRef::Equal(&**left, &**right),
            ConditionIrWire::NotEqual(left, right) => NodeRef::NotEqual(&**left, &**right),
            ConditionIrWire::Less(left, right) => NodeRef::Less(&**left, &**right),
            ConditionIrWire::LessEqual(left, right) => NodeRef::LessEqual(&**left, &**right),
            ConditionIrWire::Greater(left, right) => NodeRef::Greater(&**left, &**right),
            ConditionIrWire::GreaterEqual(left, right) => NodeRef::GreaterEqual(&**left, &**right),
            ConditionIrWire::Add(left, right) => NodeRef::Add(&**left, &**right),
            ConditionIrWire::Subtract(left, right) => NodeRef::Subtract(&**left, &**right),
            ConditionIrWire::Multiply(left, right) => NodeRef::Multiply(&**left, &**right),
            ConditionIrWire::Divide(left, right) => NodeRef::Divide(&**left, &**right),
            ConditionIrWire::Modulo(left, right) => NodeRef::Modulo(&**left, &**right),
            ConditionIrWire::Negate(value) => NodeRef::Negate(&**value),
            ConditionIrWire::Conditional(gate, yes, no) => NodeRef::Conditional(&**gate, &**yes, &**no),
        }
    }
}

/// A condition, to be sent.
pub fn condition_to_wire(condition: &ConditionIr) -> (r: ConditionIrWire)
    ensures
        r.tree() == *condition,
    decreases condition,
{
    match condition {
        ConditionIr::Bool(value) => ConditionIrWire::Bool(*value),
        ConditionIr::Integer(value) => ConditionIrWire::Integer(*value),
        ConditionIr::PagesCount => ConditionIrWire::PagesCount,
        ConditionIr::PagesCurrent => ConditionIrWire::PagesCurrent,
        ConditionIr::Not(value) => ConditionIrWire::Not(
            Box::new(condition_to_wire(&**value)),
        ),
        ConditionIr::And(left, right) => ConditionIrWire::And(
            Box::new(condition_to_wire(&**left)),
            Box::new(condition_to_wire(&**right)),
        ),
        ConditionIr::Or(left, right) => ConditionIrWire::Or(
            Box::new(condition_to_wire(&**left)),
            Box::new(condition_to_wire(&**right)),
        ),
        ConditionIr::Equal(left, right) => ConditionIrWire::Equal(
            Box::new(condition_to_wire(&**left)),
            Box::new(condition_to_wire(&**right)),
        ),
        ConditionIr::NotEqual(left, right) => ConditionIrWire::NotEqual(
            Box::new(condition_to_wire(&**left)),
            Box::new(condition_to_wire(&**right)),
        ),
        ConditionIr::Less(left, right) => ConditionIrWire::Less(
            Box::new(condition_to_wire(&**left)),
            Box::new(condition_to_wire(&**right)),
        ),
        ConditionIr::LessEqual(left, right) => ConditionIrWire::LessEqual(
            Box::new(condition_to_wire(&**left)),
            Box::new(condition_to_wire(&**right)),
        ),
        ConditionIr::Greater(left, right) => ConditionIrWire::Greater(
            Box::new(condition_to_wire(&**left)),
            Box::new(condition_to_wire(&**right)),
        ),
        ConditionIr::GreaterEqual(left, right) => ConditionIrWire::GreaterEqual(
            Box::new(condition_to_wire(&**left)),
            Box::new(condition_to_wire(&**right)),
        ),
        ConditionIr::Add(left, right) => ConditionIrWire::Add(
            Box::new(condition_to_wire(&**left)),
            Box::new(condition_to_wire(&**right)),
        ),
        ConditionIr::Subtract(left, right) => ConditionIrWire::Subtract(
            Box::new(condition_to_wire(&**left)),
            Box::new(condition_to_wire(&**right)),
        ),
        ConditionIr::Multiply(left, right) => ConditionIrWire::Multiply(
            Box::new(condition_to_wire(&**left)),
            Box::new(condition_to_wire(&**right)),
        ),
        ConditionIr::Divide(left, right) => ConditionIrWire::Divide(
            Box::new(condition_to_wire(&**left)),
            Box::new(condition_to_wire(&**right)),
        ),
        ConditionIr::Modulo(left, right) => ConditionIrWire::Modulo(
            Box::new(condition_to_wire(&**left)),
            Box::new(condition_to_wire(&**right)),
        ),
        ConditionIr::Negate(value) => ConditionIrWire::Negate(
            Box::new(condition_to_wire(&**value)),
        ),
        ConditionIr::Conditional(gate, yes, no) => ConditionIrWire::Conditional(
            Box::new(condition_to_wire(&**gate)),
            Box::new(condition_to_wire(&**yes)),
            Box::new(condition_to_wire(&**no)),
        ),
    }
}

/// A menu, as it is sent: one with a name of its own, or one written in place inside a named menu.
#[derive(Debug, PartialEq, Eq)]
pub enum MenuIdWire {
    Named(String),
    Inline { parent: String, ordinal: u32 },
}

impl MenuIdWire {
    /// The menu that is named.
    pub open spec fn names(self) -> MenuId {
        match self {
            MenuIdWire::Named(name) => MenuId::Named(name),
            MenuIdWire::Inline { parent, ordinal } => MenuId::Inline { parent, ordinal },
        }
    }
}

/// A menu, to be sent. It stays of the kind that it is.
pub fn core_menu_id_to_wire(value: &MenuId) -> (r: MenuIdWire)
    ensures
        r.names() == *value,
{
    match value {
        MenuId::Named(name) => MenuIdWire::Named(name.clone()),
        MenuId::Inline { parent, ordinal } => MenuIdWire::Inline {
            parent: parent.clone(),
            ordinal: *ordinal,
        },
    }
}

/// A menu that was sent. `accepted` says whether its name, or that of the menu that it is written in,
/// is one that a menu can have; there is no menu otherwise.
pub fn wire_menu_id_to_core(value: &MenuIdWire, accepted: bool) -> (r: Option<MenuId>)
    ensures
        r == if accepted {
            Some(value.names())
        } else {
            None
        },
{
    if !accepted {
        return None;
    }
    match value {
        MenuIdWire::Named(name) => Some(MenuId::Named(name.clone())),
        MenuIdWire::Inline { parent, ordinal } => Some(
            MenuId::Inline { parent: parent.clone(), ordinal: *ordinal },
        ),
    }
}

/// The room around and between the items of a menu.
#[derive(Clone, Copy, Debug, PartialEq, Eq, Structural)]
pub struct LayoutPadding {
    pub left: u16,
    pub right: u16,
    pub top: u16,
    pub bottom: u16,
    pub between_rows: u16,
    pub between_columns: u16,
}

/// How a menu is laid out.
#[derive(Clone, Copy, Debug, PartialEq, Eq, Structural)]
pub struct LayoutSettings {
    pub padding: LayoutPadding,
    pub max_item_title_length: u16,
}

/// What becomes of a binding under its conditions.
#[derive(Clone, Copy, Debug, PartialEq, Eq, Structural)]
pub struct BindingState {
    pub included: bool,
    pub enabled: bool,
    pub shown: bool,
    pub blocked: bool,
}

/// What a UI does after an action.
#[derive(Clone, Copy, Debug, PartialEq, Eq, Structural)]
pub enum AfterAction {
    Quit,
    Return,
    Stay,
}

/// How a binding is carried out.
#[derive(Clone, Copy, Debug, PartialEq, Eq, Structural)]
pub struct ViewBindingSettings {
    pub after_action: AfterAction,
    pub execution: ExecutionPolicy,
    pub repeat: bool,
}

/// Under which conditions a binding is there, can be used and is shown.
#[derive(Debug, PartialEq, Eq)]
pub struct BindingConditions {
    pub included: Option<ConditionIr>,
    pub enable: Option<ConditionIr>,
    pub show: Option<ConditionIr>,
}

/// What a UI does by itself.
#[derive(Debug, PartialEq, Eq)]
#[allow(inconsistent_fields)]
pub enum LocalMenuAction {
    Open { target: MenuId },
    Control(MenuControl),
    PagePrevious,
    PageNext,
}

/// A binding of a menu.
#[derive(Debug, PartialEq, Eq)]
pub struct MenuViewBinding {
    pub id: BindingId,
    /// The key, as it is written.
    pub key: String,
    pub label: String,
    pub hidden: bool,
    pub state: BindingState,
    pub settings: ViewBindingSettings,
    pub conditions: BindingConditions,
    pub local_menu_action: Option<LocalMenuAction>,
}

/// A menu with its bindings.
#[derive(Debug, PartialEq, Eq)]
pub struct MenuViewMenu {
    pub id: MenuId,
    pub title: Option<String>,
    pub layout: LayoutSettings,
    pub bindings: Vec<MenuViewBinding>,
}

/// The menus that a UI can reach.
#[derive(Debug, PartialEq, Eq)]
pub struct MenuView {
    pub generation: u64,
    pub root: MenuId,
    pub menus: Vec<MenuViewMenu>,
}

/// How keys are read.
#[derive(Clone, Copy, Debug, PartialEq, Eq, Structural)]
#[allow(inconsistent_fields)]
pub enum KeyboardProfile {
    Vt100 { escape_timeout: Duration },
    Kitty(KeyCapabilities),
}

/// How something looks.
#[derive(Debug, PartialEq, Eq)]
pub struct Style {
    pub foreground: Option<String>,
    pub background: Option<String>,
    pub bold: Option<bool>,
    pub dim: Option<bool>,
    pub italic: Option<bool>,
    pub underline: Option<bool>,
    pub strikethrough: Option<bool>,
}

impl Clone for Style {
    fn clone(&self) -> (r: Self)
        ensures
            r == *self,
    {
        Style {
            foreground: clone_text(&self.foreground),
            background: clone_text(&self.background),
            bold: self.bold,
            dim: self.dim,
            italic: self.italic,
            underline: self.underline,
            strikethrough: self.strikethrough,
        }
    }
}

/// A part of a theme.
#[derive(Debug)]
pub struct ThemeSection {
    pub styles: TextMap<Style>,
    pub templates: TextMap<String>,
}

/// The colours of a theme.
#[derive(Debug)]
pub struct ColorScheme {
    pub title: Option<String>,
    pub palette: TextMap<String>,
    pub colors: TextMap<String>,
}

/// A theme with its colours.
#[derive(Debug)]
pub struct CompiledTheme {
    pub common: ThemeSection,
    pub menu: ThemeSection,
    pub settings: TextMap<String>,
    pub scheme: ColorScheme,
}

/// What a UI is shown.
#[derive(Debug)]
pub struct UiAttachmentView {
    pub menu: MenuView,
    pub keyboard: KeyboardProfile,
    pub inactivity_timeout: Option<Duration>,
    pub theme: CompiledTheme,
}

/// How an execution is run, as it is sent.
#[derive(Clone, Copy, Debug, PartialEq, Eq, Structural)]
pub struct ExecutionPolicyWire {
    pub mode: ExecutionMode,
    pub timeout_millis: Option<u64>,
    pub on_timeout: TimeoutAction,
    pub on_menu_control: MenuControlAction,
}

/// How a binding is carried out, as it is sent.
#[derive(Clone, Copy, Debug, PartialEq, Eq, Structural)]
pub struct BindingSettingsWire {
    pub after_action: AfterAction,
    pub execution: ExecutionPolicyWire,
    pub repeat: bool,
}

/// The conditions of a binding, as they are sent.
#[derive(Debug, PartialEq, Eq)]
pub struct BindingConditionsWire {
    pub included: Option<ConditionIrWire>,
    pub enable: Option<ConditionIrWire>,
    pub show: Option<ConditionIrWire>,
}

/// What a UI does by itself, as it is sent.
#[derive(Debug, PartialEq, Eq)]
#[allow(inconsistent_fields)]
pub enum LocalMenuActionWire {
    Open { target: MenuIdWire },
    Control(MenuControl),
    PagePrevious,
    PageNext,
}

/// A binding, as it is sent.
#[derive(Debug, PartialEq, Eq)]
pub struct BindingViewWire {
    pub id: BindingId,
    pub key: String,
    pub label: String,
    pub hidden: bool,
    pub state: BindingState,
    pub settings: BindingSettingsWire,
    pub conditions: BindingConditionsWire,
    pub local_menu_action: Option<LocalMenuActionWire>,
    pub diagnostic: Option<String>,
}

/// A menu with its bindings, as it is sent.
#[derive(Debug, PartialEq, Eq)]
pub struct MenuViewMenuWire {
    pub id: MenuIdWire,
    pub title: Option<String>,
    pub layout: LayoutSettings,
    pub bindings: Vec<BindingViewWire>,
}

/// The menus that a UI can reach, as they are sent.
#[derive(Debug, PartialEq, Eq)]
pub struct MenuViewWire {
    pub generation: u64,
    pub root: MenuIdWire,
    pub menus: Vec<MenuViewMenuWire>,
}

/// How keys are read, as it is sent.
#[derive(Clone, Copy, Debug, PartialEq, Eq, Structural)]
#[allow(inconsistent_fields)]
pub enum KeyboardProfileWire {
    Vt100 { escape_timeout_millis: u64 },
    Kitty(KeyCapabilities),
}

/// A text under a name.
#[derive(Debug, PartialEq, Eq)]
pub struct NamedStringWire {
    pub name: String,
    pub value: String,
}

/// A style under a name.
#[derive(Debug, PartialEq, Eq)]
pub struct NamedStyleWire {
    pub name: String,
    pub style: Style,
}

/// A part of a theme, as it is sent.
#[derive(Debug, PartialEq, Eq)]
pub struct ThemeSectionWire {
    pub styles: Vec<NamedStyleWire>,
    pub templates: Vec<NamedStringWire>,
}

/// The colours of a theme, as they are sent.
#[derive(Debug, PartialEq, Eq)]
pub struct ColorSchemeWire {
    pub title: Option<String>,
    pub palette: Vec<NamedStringWire>,
    pub colors: Vec<NamedStringWire>,
}

/// A theme with its colours, as it is sent.
#[derive(Debug, PartialEq, Eq)]
pub struct CompiledThemeWire {
    pub common: ThemeSectionWire,
    pub menu: ThemeSectionWire,
    pub settings: Vec<NamedStringWire>,
    pub scheme: ColorSchemeWire,
}

/// What a UI is sent when it attaches.
#[derive(Debug, PartialEq, Eq)]
pub struct UiAttachmentWire {
    pub menu: MenuViewWire,
    pub keyboard: KeyboardProfileWire,
    pub inactivity_timeout_millis: Option<u64>,
    pub theme: CompiledThemeWire,
}

/// A span in milliseconds, as far as it fits.
pub open spec fn millis_of(span: Duration) -> u64 {
    if span@ / 1_000_000 <= u64::MAX {
        (span@ / 1_000_000) as u64
    } else {
        u64::MAX
    }
}

/// An optional span in milliseconds, as far as it fits.
pub open spec fn optional_millis(span: Option<Duration>) -> Option<u64> {
    match span {
        Some(span) => Some(millis_of(span)),
        None => None,
    }
}

fn send_millis(span: Option<Duration>) -> (r: Option<u64>)
    ensures
        r == optional_millis(span),
{
    match span {
        Some(span) => Some(duration_millis(span)),
        None => None,
    }
}

/// What is sent of how a binding is carried out.
pub open spec fn settings_wire(settings: ViewBindingSettings) -> BindingSettingsWire {
    BindingSettingsWire {
        after_action: settings.after_action,
        execution: ExecutionPolicyWire {
            mode: settings.execution.mode,
            timeout_millis: optional_millis(settings.execution.timeout),
            on_timeout: settings.execution.on_timeout,
            on_menu_control: settings.execution.on_menu_control,
        },
        repeat: settings.repeat,
    }
}

/// A condition is sent as one that stands for it.
pub open spec fn condition_is_sent(
    condition: Option<ConditionIr>,
    wire: Option<ConditionIrWire>,
) -> bool {
    match (condition, wire) {
        (Some(condition), Some(wire)) => wire.tree() == condition,
        (None, None) => true,
        _ => false,
    }
}

/// A binding's conditions are sent as ones that stand for them.
pub open spec fn conditions_are_sent(
    conditions: BindingConditions,
    wire: BindingConditionsWire,
) -> bool {
    &&& condition_is_sent(conditions.included, wire.included)
    &&& condition_is_sent(conditions.enable, wire.enable)
    &&& condition_is_sent(conditions.show, wire.show)
}

/// What a UI does by itself is sent as it is.
pub open spec fn action_is_sent(
    action: Option<LocalMenuAction>,
    wire: Option<LocalMenuActionWire>,
) -> bool {
    match (action, wire) {
        (None, None) => true,
        (
            Some(LocalMenuAction::Open { target }),
            Some(LocalMenuActionWire::Open { target: sent }),
        ) => sent.names() == target,
        (Some(LocalMenuAction::Control(control)), Some(LocalMenuActionWire::Control(sent))) => {
            sent == control
        },
        (Some(LocalMenuAction::PagePrevious), Some(LocalMenuActionWire::PagePrevious)) => true,
        (Some(LocalMenuAction::PageNext), Some(LocalMenuActionWire::PageNext)) => true,
        _ => false,
    }
}

/// A binding is sent whole, without a diagnostic.
pub open spec fn binding_is_sent(binding: MenuViewBinding, wire: BindingViewWire) -> bool {
    &&& wire.id == binding.id
    &&& wire.key == binding.key
    &&& wire.label == binding.label
    &&& wire.hidden == binding.hidden
    &&& wire.state == binding.state
    &&& wire.settings == settings_wire(binding.settings)
    &&& conditions_are_sent(binding.conditions, wire.conditions)
    &&& action_is_sent(binding.local_menu_action, wire.local_menu_action)
    &&& wire.diagnostic is None
}

/// A menu is sent whole, its bindings in order.
pub open spec fn menu_is_sent(menu: MenuViewMenu, wire: MenuViewMenuWire) -> bool {
    &&& wire.id.names() == menu.id
    &&& wire.title == menu.title
    &&& wire.layout == menu.layout
    &&& wire.bindings@.len() == menu.bindings@.len()
    &&& forall|i: int|
        0 <= i < menu.bindings@.len() ==> binding_is_sent(
            #[trigger] menu.bindings@[i],
            wire.bindings@[i],
        )
}

/// The menus are sent whole, in order.
pub open spec fn menus_are_sent(view: MenuView, wire: MenuViewWire) -> bool {
    &&& wire.generation == view.generation
    &&& wire.root.names() == view.root
    &&& wire.menus@.len() == view.menus@.len()
    &&& forall|i: int|
        0 <= i < view.menus@.len() ==> menu_is_sent(#[trigger] view.menus@[i], wire.menus@[i])
}

/// What is sent of how keys are read.
pub open spec fn keyboard_wire(profile: KeyboardProfile) -> KeyboardProfileWire {
    match profile {
        KeyboardProfile::Vt100 { escape_timeout } => KeyboardProfileWire::Vt100 {
            escape_timeout_millis: millis_of(escape_timeout),
        },
        KeyboardProfile::Kitty(capabilities) => KeyboardProfileWire::Kitty(capabilities),
    }
}

/// The texts of a map are sent in dictionary order of their names.
pub open spec fn texts_are_sent(map: TextMap<String>, wire: Seq<NamedStringWire>) -> bool {
    wire == map.items().map_values(
        |entry: (String, String)| NamedStringWire { name: entry.0, value: entry.1 },
    )
}

/// A part of a theme is sent whole, in dictionary order.
pub open spec fn section_is_sent(section: ThemeSection, wire: ThemeSectionWire) -> bool {
    &&& wire.styles@ == section.styles.items().map_values(
        |entry: (String, Style)| NamedStyleWire { name: entry.0, style: entry.1 },
    )
    &&& texts_are_sent(section.templates, wire.templates@)
}

/// A theme is sent whole.
pub open spec fn theme_is_sent(theme: CompiledTheme, wire: CompiledThemeWire) -> bool {
    &&& section_is_sent(theme.common, wire.common)
    &&& section_is_sent(theme.menu, wire.menu)
    &&& texts_are_sent(theme.settings, wire.settings@)
    &&& wire.scheme.title == theme.scheme.title
    &&& texts_are_sent(theme.scheme.palette, wire.scheme.palette@)
    &&& texts_are_sent(theme.scheme.colors, wire.scheme.colors@)
}

fn conditions(value: &BindingConditions) -> (r: BindingConditionsWire)
    ensures
        conditions_are_sent(*value, r),
{
    BindingConditionsWire {
        included: send_condition(&value.included),
        enable: send_condition(&value.enable),
        show: send_condition(&value.show),
    }
}

fn send_condition(condition: &Option<ConditionIr>) -> (r: Option<ConditionIrWire>)
    ensures
        condition_is_sent(*condition, r),
{
    match condition {
        Some(condition) => Some(condition_to_wire(condition)),
        None => None,
    }
}

fn settings(value: &ViewBindingSettings) -> (r: BindingSettingsWire)
    ensures
        r == settings_wire(*value),
{
    BindingSettingsWire {
        after_action: value.after_action,
        execution: ExecutionPolicyWire {
            mode: value.execution.mode,
            timeout_millis: send_millis(value.execution.timeout),
            on_timeout: value.execution.on_timeout,
            on_menu_control: value.execution.on_menu_control,
        },
        repeat: value.repeat,
    }
}

fn local_action(action: &Option<LocalMenuAction>) -> (r: Option<LocalMenuActionWire>)
    ensures
        action_is_sent(*action, r),
{
    match action {
        None => None,
        Some(LocalMenuAction::Open { target }) => Some(
            LocalMenuActionWire::Open { target: core_menu_id_to_wire(target) },
        ),
        Some(LocalMenuAction::Control(control)) => Some(LocalMenuActionWire::Control(*control)),
        Some(LocalMenuAction::PagePrevious) => Some(LocalMenuActionWire::PagePrevious),
        Some(LocalMenuAction::PageNext) => Some(LocalMenuActionWire::PageNext),
    }
}

fn binding(value: &MenuViewBinding) -> (r: BindingViewWire)
    ensures
        binding_is_sent(*value, r),
{
    BindingViewWire {
        id: value.id,
        key: value.key.clone(),
        label: value.label.clone(),
        hidden: value.hidden,
        state: value.state,
        settings: settings(&value.settings),
        conditions: conditions(&value.conditions),
        local_menu_action: local_action(&value.local_menu_action),
        diagnostic: None,
    }
}

fn menu(value: &MenuViewMenu) -> (r: MenuViewMenuWire)
    ensures
        menu_is_sent(*value, r),
{
    let mut bindings: Vec<BindingViewWire> = Vec::new();
    let mut i: usize = 0;
    while i < value.bindings.len()
        invariant
            i <= value.bindings@.len(),
            bindings@.len() == i,
            forall|j: int|
                0 <= j < i ==> binding_is_sent(#[trigger] value.bindings@[j], bindings@[j]),
        decreases value.bindings@.len() - i,
    {
        bindings.push(binding(&value.bindings[i]));
        i = i + 1;
    }
    MenuViewMenuWire {
        id: core_menu_id_to_wire(&value.id),
        title: clone_text(&value.title),
        layout: value.layout,
        bindings,
    }
}

fn menu_view(view: &MenuView) -> (r: MenuViewWire)
    ensures
        menus_are_sent(*view, r),
{
    let mut menus: Vec<MenuViewMenuWire> = Vec::new();
    let mut i: usize = 0;
    while i < view.menus.len()
        invariant
            i <= view.menus@.len(),
            menus@.len() == i,
            forall|j: int| 0 <= j < i ==> menu_is_sent(#[trigger] view.menus@[j], menus@[j]),
        decreases view.menus@.len() - i,
    {
        menus.push(menu(&view.menus[i]));
        i = i + 1;
    }
    MenuViewWire { generation: view.generation, root: core_menu_id_to_wire(&view.root), menus }
}

fn keyboard(profile: &KeyboardProfile) -> (r: KeyboardProfileWire)
    ensures
        r == keyboard_wire(*profile),
{
    match profile {
        KeyboardProfile::Vt100 { escape_timeout } => KeyboardProfileWire::Vt100 {
            escape_timeout_millis: duration_millis(*escape_timeout),
        },
        KeyboardProfile::Kitty(capabilities) => KeyboardProfileWire::Kitty(*capabilities),
    }
}

fn strings(values: &TextMap<String>) -> (r: Vec<NamedStringWire>)
    ensures
        texts_are_sent(*values, r@),
{
    let n: usize = values.len();
    let mut named: Vec<NamedStringWire> = Vec::new();
    let mut i: usize = 0;
    while i < n
        invariant
            i <= n == values.items().len(),
            named@.len() == i,
            forall|j: int|
                0 <= j < i ==> #[trigger] named@[j] == (NamedStringWire {
                    name: values.items()[j].0,
                    value: values.items()[j].1,
                }),
        decreases n - i,
    {
        let entry = values.item_at(i);
        named.push(NamedStringWire { name: entry.0.clone(), value: entry.1.clone() });
        i = i + 1;
    }
    assert(named@ =~= values.items().map_values(
        |entry: (String, String)| NamedStringWire { name: entry.0, value: entry.1 },
    ));
    named
}

fn theme_section(section: &ThemeSection) -> (r: ThemeSectionWire)
    ensures
        section_is_sent(*section, r),
{
    let n: usize = section.styles.len();
    let mut styles: Vec<NamedStyleWire> = Vec::new();
    let mut i: usize = 0;
    while i < n
        invariant
            i <= n == section.styles.items().len(),
            styles@.len() == i,
            forall|j: int|
                0 <= j < i ==> #[trigger] styles@[j] == (NamedStyleWire {
                    name: section.styles.items()[j].0,
                    style: section.styles.items()[j].1,
                }),
        decreases n - i,
    {
        let entry = section.styles.item_at(i);
        styles.push(NamedStyleWire { name: entry.0.clone(), style: entry.1.clone() });
        i = i + 1;
    }
    assert(styles@ =~= section.styles.items().map_values(
        |entry: (String, Style)| NamedStyleWire { name: entry.0, style: entry.1 },
    ));
    ThemeSectionWire { styles, templates: strings(&section.templates) }
}

fn theme(value: &CompiledTheme) -> (r: CompiledThemeWire)
    ensures
        theme_is_sent(*value, r),
{
    CompiledThemeWire {
        common: theme_section(&value.common),
        menu: theme_section(&value.menu),
        settings: strings(&value.settings),
        scheme: ColorSchemeWire {
            title: clone_text(&value.scheme.title),
            palette: strings(&value.scheme.palette),
            colors: strings(&value.scheme.colors),
        },
    }
}

/// What a UI is sent when it attaches: all that it is shown, in the order in which it stands there.
pub fn attachment(view: &UiAttachmentView) -> (r: UiAttachmentWire)
    ensures
        menus_are_sent(view.menu, r.menu),
        r.keyboard == keyboard_wire(view.keyboard),
        r.inactivity_timeout_millis == optional_millis(view.inactivity_timeout),
        theme_is_sent(view.theme, r.theme),
{
    UiAttachmentWire {
        menu: menu_view(&view.menu),
        keyboard: keyboard(&view.keyboard),
        inactivity_timeout_millis: send_millis(view.inactivity_timeout),
        theme: theme(&view.theme),
    }
}

/// A condition that is sent decides as the one that it stands for, on every page, and fails where that
/// one fails.
pub proof fn law_sent_conditions_decide_alike(
    condition: ConditionIr,
    wire: ConditionIrWire,
    pages: PagesContext,
)
    requires
        condition_is_sent(Some(condition), Some(wire)),
    ensures
        decision(wire.tree(), pages) == decision(condition, pages),
{
}

/// A menu that is sent and read back is the same menu, of the same kind.
pub proof fn law_menus_come_back(menu: MenuId, sent: MenuIdWire, back: Option<MenuId>)
    requires
        sent.names() == menu,
        back == Some(sent.names()),
    ensures
        back == Some(menu),
        sent is Inline <==> menu is Inline,
{
}

/// Two menus that are sent as the same are the same: a menu written in place is never taken for one
/// with a name of its own.
pub proof fn law_menus_stay_apart(left: MenuId, right: MenuId, sent: MenuIdWire)
    requires
        sent.names() == left,
        sent.names() == right,
    ensures
        left == right,
{
}

} // verus!
