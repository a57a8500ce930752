//! What a configuration compiles to, stated over the mathematical
//! counterparts of the data. The contracts of the compiler in
//! [`crate::config`] say that it returns exactly what is defined here.

use crate::config::{
    FromKeyView, MappingView, ModifiersView, ProfileSettings, SimlayerView,
    SimpleModificationView, ToKeyView, UserConditionView, UserConfigView, UserMouseKey,
    UserRuleView,
};
use crate::json::json_integer;
use crate::karabiner::{
    ConditionView, FromEventView, FromKeyCodeView, FromModifiersView, FromSimultaneousView,
    ManipulatorParameters, ManipulatorView, MouseKey, RuleView, SetVariableView,
    SimpleModificationEntryView, SimpleModificationKeyView, SimultaneousKeyView,
    SimultaneousOptionsView, ToEventView, ToKeyCodeView, ToMouseKey, ToSetVariableView,
    ToShellCommandView,
};
use vstd::prelude::*;

verus! {

/// A plain key press with the given modifiers.
pub open spec fn key_event(key: Seq<char>, modifiers: Option<Seq<Seq<char>>>) -> ToEventView {
    ToEventView::KeyCode(ToKeyCodeView { key_code: key, modifiers, lazy: None, repeat: None })
}

/// The modifier list of a mapping, absent where the mapping names none.
pub open spec fn modifier_names(modifiers: Option<ModifiersView>) -> Option<Seq<Seq<char>>> {
    match modifiers {
        Some(m) => Some(m.names()),
        None => None,
    }
}

/// The daemon's pointer movement for a user's: the same fields, set or unset.
pub open spec fn mouse_event(mouse_key: UserMouseKey) -> ToEventView {
    ToEventView::MouseKey(
        ToMouseKey {
            mouse_key: MouseKey {
                x: mouse_key.x,
                y: mouse_key.y,
                vertical_wheel: mouse_key.vertical_wheel,
                horizontal_wheel: mouse_key.horizontal_wheel,
                speed_multiplier: mouse_key.speed_multiplier,
            },
        },
    )
}

/// The events that the daemon emits for a target, in order. A list gives
/// the events of its members one after another, at any depth of nesting.
pub open spec fn to_events(to: ToKeyView) -> Seq<ToEventView>
    decreases to,
{
    match to {
        ToKeyView::Simple(key) => seq![key_event(key, None)],
        ToKeyView::WithModifiers { key, modifiers } => seq![
            key_event(key, modifier_names(modifiers)),
        ],
        ToKeyView::Shell { shell } => seq![
            ToEventView::ShellCommand(ToShellCommandView { shell_command: shell }),
        ],
        ToKeyView::MouseKey { mouse_key } => seq![mouse_event(mouse_key)],
        ToKeyView::Multiple(keys) => events_in_order(keys),
    }
}

/// The events of each of `keys`, one target after another.
pub open spec fn events_in_order(keys: Seq<ToKeyView>) -> Seq<ToEventView>
    decreases keys,
{
    if keys.len() == 0 {
        Seq::empty()
    } else {
        events_in_order(keys.drop_last()) + to_events(keys.last())
    }
}

/// The events of an alternate target, absent where the mapping has none.
pub open spec fn optional_events(to: Option<ToKeyView>) -> Option<Seq<ToEventView>> {
    match to {
        Some(t) => Some(to_events(t)),
        None => None,
    }
}

/// The daemon's condition for a rule's condition.
pub open spec fn rule_condition(condition: UserConditionView) -> ConditionView {
    match condition {
        UserConditionView::App { app } => ConditionView::FrontmostAppIf {
            bundle_identifiers: Some(seq![app]),
            file_paths: None,
        },
        UserConditionView::Variable { variable, value } => ConditionView::VariableIf {
            name: variable,
            value,
        },
    }
}

/// The condition list that a rule's condition gives its manipulators: the
/// one condition, or no list at all.
pub open spec fn base_conditions(condition: Option<UserConditionView>) -> Option<
    Seq<ConditionView>,
> {
    match condition {
        Some(c) => Some(seq![rule_condition(c)]),
        None => None,
    }
}

/// The test that the variable of layer `name` is 1: the layer is active.
pub open spec fn layer_active(name: Seq<char>) -> ConditionView {
    ConditionView::VariableIf { name, value: json_integer(1) }
}

/// `base` with `added` at its end. Nothing of `base` is dropped.
pub open spec fn with_condition(base: Option<Seq<ConditionView>>, added: ConditionView) -> Option<
    Seq<ConditionView>,
> {
    match base {
        Some(conditions) => Some(conditions.push(added)),
        None => Some(seq![added]),
    }
}

/// The event that sets the variable `name` to the integer `n`.
pub open spec fn set_variable(name: Seq<char>, n: u32) -> ToEventView {
    ToEventView::SetVariable(
        ToSetVariableView { set_variable: SetVariableView { name, value: json_integer(n) } },
    )
}

/// No mandatory modifier, and any modifier allowed.
pub open spec fn any_optional() -> FromModifiersView {
    FromModifiersView { mandatory: None, optional: Some(seq!["any"@]) }
}

/// Chord detection that is never interrupted and ends when any key is
/// released, with the given press and release orders.
pub open spec fn chord_options(
    key_down_order: Seq<char>,
    key_up_order: Seq<char>,
    to_after_key_up: Option<Seq<ToEventView>>,
) -> SimultaneousOptionsView {
    SimultaneousOptionsView {
        detect_key_down_uninterruptedly: Some(true),
        key_down_order: Some(key_down_order),
        key_up_order: Some(key_up_order),
        key_up_when: Some("any"@),
        to_after_key_up,
    }
}

/// The keys of a chord, in the order given.
pub open spec fn chord_keys(keys: Seq<Seq<char>>) -> Seq<SimultaneousKeyView> {
    keys.map_values(|key: Seq<char>| SimultaneousKeyView { key_code: key })
}

/// The one manipulator of a mapping from a chord: either order of press and
/// release, the profile's `sim` as threshold, the rule's condition as it is.
pub open spec fn chord_manipulator(
    mapping: MappingView,
    keys: Seq<Seq<char>>,
    profile: ProfileSettings,
    condition: Option<UserConditionView>,
) -> ManipulatorView {
    ManipulatorView {
        manipulator_type: "basic"@,
        from: FromEventView::Simultaneous(
            FromSimultaneousView {
                simultaneous: chord_keys(keys),
                simultaneous_options: Some(chord_options("insensitive"@, "insensitive"@, None)),
                modifiers: Some(any_optional()),
            },
        ),
        to: Some(to_events(mapping.to)),
        to_if_alone: optional_events(mapping.to_if_alone),
        to_if_held_down: optional_events(mapping.to_if_held),
        to_after_key_up: None,
        conditions: base_conditions(condition),
        parameters: Some(ManipulatorParameters { simultaneous_threshold: Some(profile.sim) }),
    }
}

/// The one manipulator of a key mapping outside any layer.
pub open spec fn plain_manipulator(
    mapping: MappingView,
    key: Seq<char>,
    modifiers: Option<FromModifiersView>,
    condition: Option<UserConditionView>,
) -> ManipulatorView {
    ManipulatorView {
        manipulator_type: "basic"@,
        from: FromEventView::KeyCode(FromKeyCodeView { key_code: key, modifiers }),
        to: Some(to_events(mapping.to)),
        to_if_alone: optional_events(mapping.to_if_alone),
        to_if_held_down: optional_events(mapping.to_if_held),
        to_after_key_up: None,
        conditions: base_conditions(condition),
        parameters: None,
    }
}

/// The manipulator that serves a key while layer `layer_name` is active:
/// the mapping itself, live only under the rule's condition and while the
/// layer's variable is 1. A key without modifiers of its own allows any.
pub open spec fn layer_body(
    mapping: MappingView,
    key: Seq<char>,
    modifiers: Option<FromModifiersView>,
    layer_name: Seq<char>,
    condition: Option<UserConditionView>,
) -> ManipulatorView {
    ManipulatorView {
        manipulator_type: "basic"@,
        from: FromEventView::KeyCode(
            FromKeyCodeView {
                key_code: key,
                modifiers: match modifiers {
                    Some(m) => Some(m),
                    None => Some(any_optional()),
                },
            },
        ),
        to: Some(to_events(mapping.to)),
        to_if_alone: optional_events(mapping.to_if_alone),
        to_if_held_down: optional_events(mapping.to_if_held),
        to_after_key_up: None,
        conditions: with_condition(base_conditions(condition), layer_active(layer_name)),
        parameters: None,
    }
}

/// The threshold of a layer's trigger: the layer's own, else the profile's.
pub open spec fn layer_threshold(layer: SimlayerView, profile: ProfileSettings) -> u32 {
    match layer.threshold {
        Some(t) => t,
        None => profile.sim,
    }
}

/// The manipulator that activates layer `layer_name`: the chord of the
/// layer's key and the mapped key, the layer's key pressed first and
/// released last. It sets the layer's variable to 1 and emits the mapping's
/// events at once, and sets the variable back to 0 when a key is released.
/// It is always live.
pub open spec fn layer_trigger(
    mapping: MappingView,
    key: Seq<char>,
    layer_name: Seq<char>,
    layer: SimlayerView,
    profile: ProfileSettings,
) -> ManipulatorView {
    ManipulatorView {
        manipulator_type: "basic"@,
        from: FromEventView::Simultaneous(
            FromSimultaneousView {
                simultaneous: seq![
                    SimultaneousKeyView { key_code: layer.key },
                    SimultaneousKeyView { key_code: key },
                ],
                simultaneous_options: Some(
                    chord_options(
                        "strict"@,
                        "strict_inverse"@,
                        Some(seq![set_variable(layer_name, 0)]),
                    ),
                ),
                modifiers: Some(any_optional()),
            },
        ),
        to: Some(seq![set_variable(layer_name, 1)] + to_events(mapping.to)),
        to_if_alone: None,
        to_if_held_down: None,
        to_after_key_up: None,
        conditions: None,
        parameters: Some(
            ManipulatorParameters { simultaneous_threshold: Some(layer_threshold(layer, profile)) },
        ),
    }
}

/// The manipulators of a mapping from one key: the layer's body and trigger,
/// in that order, where the rule is bound to a layer, else the plain one.
pub open spec fn key_manipulators(
    mapping: MappingView,
    key: Seq<char>,
    modifiers: Option<FromModifiersView>,
    simlayer: Option<(Seq<char>, SimlayerView)>,
    profile: ProfileSettings,
    condition: Option<UserConditionView>,
) -> Seq<ManipulatorView> {
    match simlayer {
        Some((layer_name, layer)) => seq![
            layer_body(mapping, key, modifiers, layer_name, condition),
            layer_trigger(mapping, key, layer_name, layer, profile),
        ],
        None => seq![plain_manipulator(mapping, key, modifiers, condition)],
    }
}

/// The manipulators that one mapping compiles to, given the layer that its
/// rule resolved to (if any), the profile's thresholds and the rule's
/// condition.
pub open spec fn mapping_manipulators(
    mapping: MappingView,
    simlayer: Option<(Seq<char>, SimlayerView)>,
    profile: ProfileSettings,
    condition: Option<UserConditionView>,
) -> Seq<ManipulatorView> {
    match mapping.from {
        FromKeyView::Simultaneous(keys) => seq![
            chord_manipulator(mapping, keys, profile, condition),
        ],
        FromKeyView::Simple(key) => key_manipulators(
            mapping,
            key,
            None,
            simlayer,
            profile,
            condition,
        ),
        FromKeyView::WithModifiers { key, modifiers, optional } => key_manipulators(
            mapping,
            key,
            Some(FromModifiersView { mandatory: modifier_names(modifiers), optional }),
            simlayer,
            profile,
            condition,
        ),
    }
}

/// The manipulators of a rule's mappings, mapping after mapping.
pub open spec fn rule_manipulators(
    mappings: Seq<MappingView>,
    simlayer: Option<(Seq<char>, SimlayerView)>,
    profile: ProfileSettings,
    condition: Option<UserConditionView>,
) -> Seq<ManipulatorView> {
    mappings.map_values(
        |mapping: MappingView| mapping_manipulators(mapping, simlayer, profile, condition),
    ).flatten()
}

/// The daemon's rule for one rule of a configuration.
pub open spec fn compile_rule(rule: UserRuleView, config: UserConfigView) -> RuleView {
    RuleView {
        description: rule.description,
        manipulators: rule_manipulators(
            rule.mappings,
            config.resolve(rule.layer),
            config.profile,
            rule.condition,
        ),
    }
}

/// The daemon's rules for a configuration: one for each rule, in order.
pub open spec fn compile_rules(config: UserConfigView) -> Seq<RuleView> {
    config.rules.map_values(|rule: UserRuleView| compile_rule(rule, config))
}

/// The daemon's entry for one substitution.
pub open spec fn simple_entry(simple: SimpleModificationView) -> SimpleModificationEntryView {
    SimpleModificationEntryView {
        from: SimpleModificationKeyView { key_code: simple.from },
        to: seq![SimpleModificationKeyView { key_code: simple.to }],
    }
}

/// The daemon's entries for a list of substitutions: one for each, in order.
pub open spec fn simple_entries(simple: Seq<SimpleModificationView>) -> Seq<
    SimpleModificationEntryView,
> {
    simple.map_values(|s: SimpleModificationView| simple_entry(s))
}

} // verus!
