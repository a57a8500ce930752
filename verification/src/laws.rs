//! What holds of every compilation and of every merge.
//!
//! Each law is stated over the mathematical counterparts of the data, by
//! the same definitions that the contracts of the compiler and of the merge
//! use, so that it holds of whatever those functions return.

use crate::config::{
    MappingView, ProfileSettings, SimlayerView, SimpleModificationView, ToKeyView,
    UserConditionView, UserConfigView, UserRuleView,
};
use crate::expansion::{
    base_conditions, chord_keys, compile_rule, compile_rules, layer_active, layer_threshold,
    mapping_manipulators, optional_events, rule_condition, rule_manipulators, set_variable,
    simple_entries, to_events, with_condition,
};
use crate::karabiner::{
    FromEventView, KarabinerConfigView, ManipulatorParameters, RuleView,
    SimpleModificationEntryView, SimultaneousKeyView,
};
use vstd::prelude::*;

verus! {

/// Substitutions compile one to one: as many entries as substitutions, in
/// the same order, each from the substitution's `from` to a list of exactly
/// one key, the substitution's `to`.
pub proof fn lemma_simple_modifications_one_to_one(simple: Seq<SimpleModificationView>)
    ensures
        simple_entries(simple).len() == simple.len(),
        forall|i: int|
            0 <= i < simple.len() ==> {
                let entry = #[trigger] simple_entries(simple)[i];
                &&& entry.from.key_code == simple[i].from
                &&& entry.to.len() == 1
                &&& entry.to[0].key_code == simple[i].to
            },
{
}

/// A mapping from a chord compiles to exactly one manipulator, whatever the
/// layer of its rule. Its `from` is the chord of the mapping's keys, which
/// may be pressed and released in any order; its threshold is the profile's
/// `sim`; its condition list is the rule's.
pub proof fn lemma_chord_mapping(
    mapping: MappingView,
    simlayer: Option<(Seq<char>, SimlayerView)>,
    profile: ProfileSettings,
    condition: Option<UserConditionView>,
)
    requires
        mapping.from is Simultaneous,
    ensures
        ({
            let emitted = mapping_manipulators(mapping, simlayer, profile, condition);
            &&& emitted.len() == 1
            &&& emitted[0].from matches FromEventView::Simultaneous(chord)
            &&& chord.simultaneous == chord_keys(mapping.from->Simultaneous_0)
            &&& chord.simultaneous_options matches Some(options)
            &&& options.key_down_order == Some("insensitive"@)
            &&& options.key_up_order == Some("insensitive"@)
            &&& options.key_up_when == Some("any"@)
            &&& options.detect_key_down_uninterruptedly == Some(true)
            &&& emitted[0].parameters == Some(
                ManipulatorParameters { simultaneous_threshold: Some(profile.sim) },
            )
            &&& emitted[0].conditions == base_conditions(condition)
            &&& emitted[0].to == Some(to_events(mapping.to))
            &&& emitted[0].to_if_alone == optional_events(mapping.to_if_alone)
            &&& emitted[0].to_if_held_down == optional_events(mapping.to_if_held)
        }),
{
}

/// Outside a layer, a mapping under a rule with condition `c` compiles to
/// exactly one manipulator, and its condition list is exactly `[c]`: no
/// layer test is added.
pub proof fn lemma_plain_mapping_condition(
    mapping: MappingView,
    profile: ProfileSettings,
    c: UserConditionView,
)
    ensures
        ({
            let emitted = mapping_manipulators(mapping, None, profile, Some(c));
            &&& emitted.len() == 1
            &&& emitted[0].conditions == Some(seq![rule_condition(c)])
        }),
{
}

/// Outside a layer, a mapping under a rule without a condition compiles to
/// a manipulator without a condition list.
pub proof fn lemma_plain_mapping_unconditional(mapping: MappingView, profile: ProfileSettings)
    ensures
        ({
            let emitted = mapping_manipulators(mapping, None, profile, None);
            &&& emitted.len() == 1
            &&& emitted[0].conditions is None
        }),
{
}

/// A mapping from the key `key` in a rule bound to the layer `name`, whose
/// trigger key is `layer.key`, compiles to exactly two manipulators.
///
/// The first is the body: the mapping's own events behind the rule's
/// conditions followed by the test that the variable `name` is 1.
///
/// The second is the trigger: the chord of `layer.key` and `key`, in that
/// order, with `layer.key` pressed first and released last. It sets the
/// variable `name` to 1 and emits the mapping's events, sets the variable
/// back to 0 after key up, carries no condition, and waits for the layer's
/// threshold, or the profile's `sim` where the layer has none.
pub proof fn lemma_layer_mapping(
    mapping: MappingView,
    key: Seq<char>,
    name: Seq<char>,
    layer: SimlayerView,
    profile: ProfileSettings,
    condition: Option<UserConditionView>,
)
    requires
        mapping.from.key() == Some(key),
    ensures
        ({
            let emitted = mapping_manipulators(mapping, Some((name, layer)), profile, condition);
            let body = emitted[0];
            let trigger = emitted[1];
            &&& emitted.len() == 2
            &&& body.from matches FromEventView::KeyCode(pressed)
            &&& pressed.key_code == key
            &&& body.to == Some(to_events(mapping.to))
            &&& body.conditions == with_condition(base_conditions(condition), layer_active(name))
            &&& body.conditions matches Some(tests)
            &&& tests.contains(layer_active(name))
            &&& trigger.from matches FromEventView::Simultaneous(chord)
            &&& chord.simultaneous == seq![
                SimultaneousKeyView { key_code: layer.key },
                SimultaneousKeyView { key_code: key },
            ]
            &&& chord.simultaneous_options matches Some(options)
            &&& options.key_down_order == Some("strict"@)
            &&& options.key_up_order == Some("strict_inverse"@)
            &&& options.to_after_key_up == Some(seq![set_variable(name, 0)])
            &&& trigger.to == Some(seq![set_variable(name, 1)] + to_events(mapping.to))
            &&& trigger.conditions is None
            &&& trigger.parameters == Some(
                ManipulatorParameters {
                    simultaneous_threshold: Some(layer_threshold(layer, profile)),
                },
            )
        }),
{
    let emitted = mapping_manipulators(mapping, Some((name, layer)), profile, condition);
    let tests = emitted[0].conditions->0;
    assert(tests[tests.len() - 1] == layer_active(name));
}

/// The test of a layer is added to the conditions of a rule, never put in
/// their place: every condition of the rule is still there, in order, and
/// the layer's test comes last.
pub proof fn lemma_layer_test_is_appended(condition: Option<UserConditionView>, name: Seq<char>)
    ensures
        ({
            let tests = with_condition(base_conditions(condition), layer_active(name))->0;
            &&& with_condition(base_conditions(condition), layer_active(name)) is Some
            &&& tests.last() == layer_active(name)
            &&& match base_conditions(condition) {
                Some(base) => tests.drop_last() == base,
                None => tests.len() == 1,
            }
        }),
{
}

/// The events of a list of targets are the events of each target, one
/// after another.
pub proof fn lemma_events_of_list(keys: Seq<ToKeyView>)
    ensures
        to_events(ToKeyView::Multiple(keys)) == keys.map_values(
            |to: ToKeyView| to_events(to),
        ).flatten(),
    decreases keys.len(),
{
    let each = |to: ToKeyView| to_events(to);
    if keys.len() > 0 {
        lemma_events_of_list(keys.drop_last());
        assert(keys.map_values(each) =~= keys.drop_last().map_values(each).push(
            to_events(keys.last()),
        ));
        keys.drop_last().map_values(each).lemma_flatten_push(to_events(keys.last()));
    }
}

/// Every manipulator that a mapping compiles to is a `basic` one that emits
/// something on key down and nothing of its own after key up.
pub proof fn lemma_every_manipulator_is_basic(
    mapping: MappingView,
    simlayer: Option<(Seq<char>, SimlayerView)>,
    profile: ProfileSettings,
    condition: Option<UserConditionView>,
)
    ensures
        1 <= mapping_manipulators(mapping, simlayer, profile, condition).len() <= 2,
        forall|i: int|
            0 <= i < mapping_manipulators(mapping, simlayer, profile, condition).len() ==> {
                let m = #[trigger] mapping_manipulators(mapping, simlayer, profile, condition)[i];
                &&& m.manipulator_type == "basic"@
                &&& m.to is Some
                &&& m.to_after_key_up is None
            },
{
}

/// The manipulators of a rule keep the order of its mappings: those of
/// earlier mappings come before those of later ones.
pub proof fn lemma_mappings_keep_order(
    earlier: Seq<MappingView>,
    later: Seq<MappingView>,
    simlayer: Option<(Seq<char>, SimlayerView)>,
    profile: ProfileSettings,
    condition: Option<UserConditionView>,
)
    ensures
        rule_manipulators(earlier + later, simlayer, profile, condition) == rule_manipulators(
            earlier,
            simlayer,
            profile,
            condition,
        ) + rule_manipulators(later, simlayer, profile, condition),
{
    let each = |mapping: MappingView| mapping_manipulators(mapping, simlayer, profile, condition);
    assert((earlier + later).map_values(each) =~= earlier.map_values(each) + later.map_values(
        each,
    ));
    vstd::seq_lib::lemma_flatten_concat(earlier.map_values(each), later.map_values(each));
}

/// Rules compile one to one: as many rules as the configuration has, in the
/// same order, each with its description.
pub proof fn lemma_rules_keep_order(config: UserConfigView)
    ensures
        compile_rules(config).len() == config.rules.len(),
        forall|i: int|
            0 <= i < config.rules.len() ==> {
                let rule = #[trigger] compile_rules(config)[i];
                &&& rule == compile_rule(config.rules[i], config)
                &&& rule.description == config.rules[i].description
            },
{
}

/// A rule that names a layer which the table does not hold compiles as if
/// it named none.
pub proof fn lemma_unknown_layer_is_no_layer(rule: UserRuleView, config: UserConfigView)
    requires
        rule.layer matches Some(name) && !config.simlayers.contains_key(name),
    ensures
        compile_rule(rule, config) == compile_rule(UserRuleView { layer: None, ..rule }, config),
{
}

/// A rule that names a layer of the table compiles each of its mappings
/// with that layer, under the name that the rule gave.
pub proof fn lemma_known_layer_is_used(rule: UserRuleView, config: UserConfigView)
    requires
        rule.layer matches Some(name) && config.simlayers.contains_key(name),
    ensures
        compile_rule(rule, config).manipulators == rule_manipulators(
            rule.mappings,
            Some((rule.layer->0, config.simlayers[rule.layer->0])),
            config.profile,
            rule.condition,
        ),
{
}

/// What the search for a profile finds from `start` on: the least index at
/// or after `start` of a profile of that name, or nothing where no profile
/// from `start` on has the name.
pub proof fn lemma_profile_lookup(config: KarabinerConfigView, name: Seq<char>, start: int)
    requires
        0 <= start,
    ensures
        match config.profile_from(name, start) {
            Some(i) => {
                &&& start <= i < config.profiles.len()
                &&& config.profiles[i].name == name
                &&& forall|j: int| start <= j < i ==> config.profiles[j].name != name
            },
            None => forall|j: int|
                start <= j < config.profiles.len() ==> config.profiles[j].name != name,
        },
    decreases config.profiles.len() - start,
{
    if start < config.profiles.len() && config.profiles[start].name != name {
        lemma_profile_lookup(config, name, start + 1);
    }
}

/// A merge succeeds exactly where some profile has the name. It changes the
/// first such profile and nothing else: the number and order of profiles,
/// every other profile and the global settings stay, and in the profile
/// itself so do the name, the selection, the parameters and every field
/// that the library does not know.
pub proof fn lemma_merge_touches_one_profile(
    config: KarabinerConfigView,
    name: Seq<char>,
    rules: Seq<RuleView>,
    simple_modifications: Seq<SimpleModificationEntryView>,
)
    ensures
        config.merged(name, rules, simple_modifications) is Some <==> exists|j: int|
            0 <= j < config.profiles.len() && #[trigger] config.profiles[j].name == name,
        config.merged(name, rules, simple_modifications) matches Some(after) ==> {
            let i = config.profile_index(name)->0;
            &&& 0 <= i < config.profiles.len()
            &&& after.global == config.global
            &&& after.profiles.len() == config.profiles.len()
            &&& forall|j: int|
                0 <= j < config.profiles.len() && j != i ==> after.profiles[j]
                    == config.profiles[j]
            &&& after.profiles[i].name == name
            &&& after.profiles[i].selected == config.profiles[i].selected
            &&& after.profiles[i].other == config.profiles[i].other
            &&& after.profiles[i].complex_modifications.parameters
                == config.profiles[i].complex_modifications.parameters
            &&& after.profiles[i].complex_modifications.rules == rules
            &&& after.profiles[i].simple_modifications == if simple_modifications.len() > 0 {
                simple_modifications
            } else {
                config.profiles[i].simple_modifications
            }
        },
{
    lemma_profile_lookup(config, name, 0);
}

/// Merging the compilation of a configuration without rules and without
/// substitutions leaves the substitutions of the profile as they were and
/// leaves the profile without rules.
pub proof fn lemma_empty_configuration_merge(
    source: UserConfigView,
    config: KarabinerConfigView,
    name: Seq<char>,
)
    requires
        source.rules.len() == 0,
        source.simple.len() == 0,
        config.profile_index(name) is Some,
    ensures
        ({
            let i = config.profile_index(name)->0;
            let merged = config.merged(name, compile_rules(source), simple_entries(source.simple));
            &&& 0 <= i < config.profiles.len()
            &&& merged matches Some(after)
            &&& after.profiles[i].simple_modifications == config.profiles[i].simple_modifications
            &&& after.profiles[i].complex_modifications.rules == Seq::<RuleView>::empty()
        }),
{
    lemma_profile_lookup(config, name, 0);
}

} // verus!
