//! What is sent says what was meant: conditions, spans, bindings, menus and themes.
use super::{
    action_is_sent, binding_is_sent, condition_is_sent, keyboard_wire, menu_is_sent, menus_are_sent,
    millis_of, optional_millis, theme_is_sent, BindingViewWire, CompiledTheme, CompiledThemeWire,
    ConditionIrWire, KeyboardProfile, KeyboardProfileWire, LocalMenuAction, LocalMenuActionWire,
    MenuIdWire, MenuView, MenuViewBinding, MenuViewWire,
};
use crate::condition::laws::{is_the_integer, law_comparisons_are_those_of_the_integers};
use crate::condition::{
    decision, meaning, ConditionEvaluationError, ConditionIr, ConditionValue, Evaluated,
    PagesContext,
};
use crate::menu::MenuId;
use crate::time::Duration;
use vstd::prelude::*;

verus! {

/// A comparison that is sent decides, wherever it is read, how its two integers stand to each other.
pub proof fn law_a_sent_comparison_compares(
    left: Box<ConditionIrWire>,
    right: Box<ConditionIrWire>,
    pages: PagesContext,
    a: i64,
    b: i64,
)
    requires
        meaning(left.stands_for(), pages) == Evaluated::Ok(ConditionValue::Integer(a)),
        meaning(right.stands_for(), pages) == Evaluated::Ok(ConditionValue::Integer(b)),
    ensures
        decision(ConditionIrWire::Less(left, right).stands_for(), pages) == Ok::<
            bool,
            ConditionEvaluationError,
        >(a < b),
        decision(ConditionIrWire::LessEqual(left, right).stands_for(), pages) == Ok::<
            bool,
            ConditionEvaluationError,
        >(a < b || a == b),
        decision(ConditionIrWire::Greater(left, right).stands_for(), pages) == Ok::<
            bool,
            ConditionEvaluationError,
        >(b < a),
        decision(ConditionIrWire::GreaterEqual(left, right).stands_for(), pages) == Ok::<
            bool,
            ConditionEvaluationError,
        >(b < a || a == b),
        decision(ConditionIrWire::Equal(left, right).stands_for(), pages) == Ok::<
            bool,
            ConditionEvaluationError,
        >(a == b),
        decision(ConditionIrWire::NotEqual(left, right).stands_for(), pages) == Ok::<
            bool,
            ConditionEvaluationError,
        >(a != b),
{
    law_comparisons_are_those_of_the_integers(
        Box::new(left.stands_for()),
        Box::new(right.stands_for()),
        pages,
        a,
        b,
    );
}

/// Arithmetic that is sent is that of the integers, wherever it is read.
pub proof fn law_sent_arithmetic_is_that_of_the_integers(
    left: Box<ConditionIrWire>,
    right: Box<ConditionIrWire>,
    pages: PagesContext,
    a: i64,
    b: i64,
)
    requires
        meaning(left.stands_for(), pages) == Evaluated::Ok(ConditionValue::Integer(a)),
        meaning(right.stands_for(), pages) == Evaluated::Ok(ConditionValue::Integer(b)),
    ensures
        is_the_integer(meaning(ConditionIrWire::Add(left, right).stands_for(), pages), a + b),
        is_the_integer(meaning(ConditionIrWire::Subtract(left, right).stands_for(), pages), a - b),
        is_the_integer(meaning(ConditionIrWire::Multiply(left, right).stands_for(), pages), a * b),
        is_the_integer(meaning(ConditionIrWire::Negate(left).stands_for(), pages), 0 - a),
        meaning(ConditionIrWire::Divide(left, right).stands_for(), pages) == meaning(
            ConditionIr::Divide(Box::new(left.stands_for()), Box::new(right.stands_for())),
            pages,
        ),
        meaning(ConditionIrWire::Modulo(left, right).stands_for(), pages) == meaning(
            ConditionIr::Modulo(Box::new(left.stands_for()), Box::new(right.stands_for())),
            pages,
        ),
{
    crate::condition::laws::law_arithmetic_is_that_of_the_integers(
        Box::new(left.stands_for()),
        Box::new(right.stands_for()),
        pages,
        a,
        b,
    );
}

/// A sent condition that is made of decided ones decides what its word says, and a sent choice is made
/// by its condition; a literal and the pager's numbers are sent as themselves.
pub proof fn law_a_sent_connective_connects(
    left: Box<ConditionIrWire>,
    right: Box<ConditionIrWire>,
    chooser: Box<ConditionIrWire>,
    pages: PagesContext,
    a: bool,
    b: bool,
    value: i64,
)
    requires
        meaning(left.stands_for(), pages) == Evaluated::Ok(ConditionValue::Bool(a)),
        meaning(right.stands_for(), pages) == Evaluated::Ok(ConditionValue::Bool(b)),
        meaning(chooser.stands_for(), pages) is Ok,
    ensures
        meaning(ConditionIrWire::And(left, right).stands_for(), pages) == Evaluated::Ok(
            ConditionValue::Bool(a && b),
        ),
        meaning(ConditionIrWire::Or(left, right).stands_for(), pages) == Evaluated::Ok(
            ConditionValue::Bool(a || b),
        ),
        meaning(ConditionIrWire::Not(left).stands_for(), pages) == Evaluated::Ok(
            ConditionValue::Bool(!a),
        ),
        meaning(ConditionIrWire::Conditional(left, right, chooser).stands_for(), pages) == if a {
            meaning(right.stands_for(), pages)
        } else {
            meaning(chooser.stands_for(), pages)
        },
        meaning(ConditionIrWire::Bool(a).stands_for(), pages) == Evaluated::Ok(
            ConditionValue::Bool(a),
        ),
        meaning(ConditionIrWire::Integer(value).stands_for(), pages) == Evaluated::Ok(
            ConditionValue::Integer(value),
        ),
        meaning(ConditionIrWire::PagesCount.stands_for(), pages) == meaning(
            ConditionIr::PagesCount,
            pages,
        ),
        meaning(ConditionIrWire::PagesCurrent.stands_for(), pages) == meaning(
            ConditionIr::PagesCurrent,
            pages,
        ),
{
}

/// A condition is sent exactly where there is one.
pub proof fn law_a_missing_condition_stays_missing(
    condition: Option<ConditionIr>,
    wire: Option<ConditionIrWire>,
)
    requires
        condition_is_sent(condition, wire),
    ensures
        condition is Some <==> wire is Some,
        wire matches Some(wire) ==> wire.stands_for() == condition->Some_0,
{
}

/// A span is sent in whole milliseconds, rounded down, and a longer one than fits as the longest that
/// does; what was made of milliseconds comes back as it was.
pub proof fn law_a_span_is_sent_in_whole_milliseconds(span: Duration, millis: u64)
    ensures
        span@ < 18_446_744_073_709_551_616_000_000 ==> millis_of(span) * 1_000_000 <= span@
            && span@ < (millis_of(span) + 1) * 1_000_000,
        span@ >= 18_446_744_073_709_551_615_000_000 ==> millis_of(span) == u64::MAX,
        millis_of(Duration { nanos: (millis * 1_000_000) as u128 }) == millis,
        optional_millis(Some(span)) == Some(millis_of(span)),
        optional_millis(None) is None,
{
}

/// A binding that is sent says everything of the binding: which it is, what it shows, how it is carried
/// out and under which conditions; and nothing that is not the binding's.
pub proof fn law_a_sent_binding_says_everything(binding: MenuViewBinding, wire: BindingViewWire)
    requires
        binding_is_sent(binding, wire),
    ensures
        wire.id == binding.id,
        wire.key@ == binding.key@,
        wire.label@ == binding.label@,
        wire.hidden <==> binding.hidden,
        wire.state.included <==> binding.state.included,
        wire.state.enabled <==> binding.state.enabled,
        wire.state.shown <==> binding.state.shown,
        wire.state.blocked <==> binding.state.blocked,
        wire.settings.after_action == binding.settings.after_action,
        wire.settings.repeat <==> binding.settings.repeat,
        wire.settings.execution.mode == binding.settings.execution.mode,
        wire.settings.execution.on_timeout == binding.settings.execution.on_timeout,
        wire.settings.execution.on_menu_control == binding.settings.execution.on_menu_control,
        match binding.settings.execution.timeout {
            Some(span) => wire.settings.execution.timeout_millis == Some(millis_of(span)),
            None => wire.settings.execution.timeout_millis is None,
        },
        condition_is_sent(binding.conditions.included, wire.conditions.included),
        condition_is_sent(binding.conditions.enable, wire.conditions.enable),
        condition_is_sent(binding.conditions.show, wire.conditions.show),
        action_is_sent(binding.local_menu_action, wire.local_menu_action),
        wire.diagnostic is None,
{
}

/// What a UI does by itself is sent as the same deed, and two different deeds are never sent as one.
pub proof fn law_a_deed_is_sent_as_itself(
    action: Option<LocalMenuAction>,
    other: Option<LocalMenuAction>,
    wire: Option<LocalMenuActionWire>,
)
    requires
        action_is_sent(action, wire),
    ensures
        action is None <==> wire is None,
        action is Some ==> (action->Some_0 is PageNext <==> wire->Some_0 is PageNext),
        action is Some ==> (action->Some_0 is PagePrevious <==> wire->Some_0 is PagePrevious),
        action matches Some(LocalMenuAction::Control(control)) ==> wire == Some(
            LocalMenuActionWire::Control(control),
        ),
        action matches Some(LocalMenuAction::Open { target }) ==> (wire matches Some(
            LocalMenuActionWire::Open { target: sent },
        ) && sent.names() == target),
        action_is_sent(other, wire) ==> other == action,
{
}

/// A menu with a name is sent by it, and one that is written in place by where it is written.
pub proof fn law_a_menu_is_sent_by_what_it_is(menu: MenuId, wire: MenuIdWire)
    requires
        wire.names() == menu,
    ensures
        menu matches MenuId::Named(name) ==> wire == MenuIdWire::Named(name),
        menu matches MenuId::Inline { parent, ordinal } ==> wire == (MenuIdWire::Inline {
            parent,
            ordinal,
        }),
{
}

/// The menus are sent whole: of the same generation, from the same root, each with its title, its layout
/// and its bindings, all in order.
pub proof fn law_sent_menus_say_everything(
    view: MenuView,
    wire: MenuViewWire,
    i: int,
    j: int,
)
    requires
        menus_are_sent(view, wire),
    ensures
        wire.generation == view.generation,
        wire.root.names() == view.root,
        wire.menus@.len() == view.menus@.len(),
        0 <= i < view.menus@.len() ==> {
            let menu = view.menus@[i];
            let sent = wire.menus@[i];
            &&& sent.id.names() == menu.id
            &&& sent.title == menu.title
            &&& sent.layout == menu.layout
            &&& sent.bindings@.len() == menu.bindings@.len()
            &&& 0 <= j < menu.bindings@.len() ==> sent.bindings@[j].key@ == menu.bindings@[j].key@
                && sent.bindings@[j].id == menu.bindings@[j].id
        },
{
    if 0 <= i < view.menus@.len() {
        assert(menu_is_sent(view.menus@[i], wire.menus@[i]));
        if 0 <= j < view.menus@[i].bindings@.len() {
            assert(binding_is_sent(view.menus@[i].bindings@[j], wire.menus@[i].bindings@[j]));
        }
    }
}

/// How keys are read is sent as it is, the time that an escape may take in milliseconds.
pub proof fn law_a_keyboard_is_sent_as_it_is(profile: KeyboardProfile)
    ensures
        match profile {
            KeyboardProfile::Vt100 { escape_timeout } => (keyboard_wire(profile)
                matches KeyboardProfileWire::Vt100 { escape_timeout_millis }
                && escape_timeout_millis == millis_of(escape_timeout)),
            KeyboardProfile::Kitty(capabilities) => (keyboard_wire(profile)
                matches KeyboardProfileWire::Kitty(sent) && sent.event_types
                == capabilities.event_types && sent.alternate_keys == capabilities.alternate_keys
                && sent.all_keys_as_escape_codes == capabilities.all_keys_as_escape_codes),
        },
{
}

/// A theme is sent whole: every entry of its tables is sent in its place, under its name and with its
/// value, and nothing else is.
pub proof fn law_a_sent_theme_says_everything(
    theme: CompiledTheme,
    wire: CompiledThemeWire,
    i: int,
)
    requires
        theme_is_sent(theme, wire),
    ensures
        wire.scheme.title == theme.scheme.title,
        wire.settings@.len() == theme.settings.items().len(),
        wire.scheme.palette@.len() == theme.scheme.palette.items().len(),
        wire.scheme.colors@.len() == theme.scheme.colors.items().len(),
        wire.common.styles@.len() == theme.common.styles.items().len(),
        wire.common.templates@.len() == theme.common.templates.items().len(),
        wire.menu.styles@.len() == theme.menu.styles.items().len(),
        wire.menu.templates@.len() == theme.menu.templates.items().len(),
        0 <= i < wire.settings@.len() ==> (wire.settings@[i].name, wire.settings@[i].value)
            == theme.settings.items()[i],
        0 <= i < wire.scheme.palette@.len() ==> (
            wire.scheme.palette@[i].name,
            wire.scheme.palette@[i].value,
        ) == theme.scheme.palette.items()[i],
        0 <= i < wire.scheme.colors@.len() ==> (
            wire.scheme.colors@[i].name,
            wire.scheme.colors@[i].value,
        ) == theme.scheme.colors.items()[i],
        0 <= i < wire.common.styles@.len() ==> (
            wire.common.styles@[i].name,
            wire.common.styles@[i].style,
        ) == theme.common.styles.items()[i],
        0 <= i < wire.common.templates@.len() ==> (
            wire.common.templates@[i].name,
            wire.common.templates@[i].value,
        ) == theme.common.templates.items()[i],
        0 <= i < wire.menu.styles@.len() ==> (
            wire.menu.styles@[i].name,
            wire.menu.styles@[i].style,
        ) == theme.menu.styles.items()[i],
        0 <= i < wire.menu.templates@.len() ==> (
            wire.menu.templates@[i].name,
            wire.menu.templates@[i].value,
        ) == theme.menu.templates.items()[i],
{
}

} // verus!
