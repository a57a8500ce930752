//! The user-facing schema and the compiler from it to the daemon's rules.
//!
//! A configuration names simlayers, lists one-to-one substitutions, and
//! groups key mappings into rules. [`to_karabiner_rules`] turns the rules
//! into the daemon's manipulators and [`to_simple_modifications`] the
//! substitutions into the daemon's entries. Both keep the order of what they
//! are given, and neither looks at key names.

use crate::expansion::{
    any_optional, base_conditions, chord_keys, chord_options, compile_rule, compile_rules,
    events_in_order, key_manipulators, layer_active, mapping_manipulators, optional_events,
    set_variable, simple_entries, simple_entry, to_events,
};
use crate::json::integer_value;
use crate::karabiner::{
    Condition, FromEvent, FromKeyCode, FromModifiers, FromSimultaneous, Manipulator,
    ManipulatorParameters, MouseKey, Rule, SetVariable, SimpleModificationEntry,
    SimpleModificationKey, SimultaneousKey, SimultaneousKeyView, SimultaneousOptions, ToEvent,
    ToKeyCode, ToMouseKey, ToSetVariable, ToShellCommand,
};
use crate::simlayers::Simlayers;
use core::convert::Infallible;
use vstd::prelude::*;

verus! {

/// A whole user configuration: thresholds, the simlayers by name, the
/// one-to-one substitutions, and the rules.
#[derive(Debug, Clone)]
pub struct UserConfig {
    pub profile: ProfileSettings,
    pub simlayers: Simlayers,
    pub simple: Vec<SimpleModification>,
    pub rules: Vec<UserRule>,
}

/// The mathematical counterpart of [`UserConfig`].
#[verifier::ext_equal]
pub struct UserConfigView {
    pub profile: ProfileSettings,
    pub simlayers: Map<Seq<char>, SimlayerView>,
    pub simple: Seq<SimpleModificationView>,
    pub rules: Seq<UserRuleView>,
}

impl DeepView for UserConfig {
    type V = UserConfigView;

    open spec fn deep_view(&self) -> UserConfigView {
        UserConfigView {
            profile: self.profile,
            simlayers: self.simlayers.deep_view(),
            simple: self.simple.deep_view(),
            rules: self.rules.deep_view(),
        }
    }
}

/// A one-to-one key substitution, applied everywhere in the profile.
#[derive(Debug, Clone, PartialEq)]
pub struct SimpleModification {
    pub from: String,
    pub to: String,
}

/// The mathematical counterpart of [`SimpleModification`].
#[verifier::ext_equal]
pub struct SimpleModificationView {
    pub from: Seq<char>,
    pub to: Seq<char>,
}

impl DeepView for SimpleModification {
    type V = SimpleModificationView;

    open spec fn deep_view(&self) -> SimpleModificationView {
        SimpleModificationView { from: self.from@, to: self.to@ }
    }
}

/// Profile-wide thresholds in milliseconds: `alone` for a key tapped alone,
/// `sim` for keys pressed together.
#[derive(Debug, Clone, PartialEq)]
pub struct ProfileSettings {
    pub alone: u32,
    pub sim: u32,
}

impl DeepView for ProfileSettings {
    type V = ProfileSettings;

    open spec fn deep_view(&self) -> ProfileSettings {
        *self
    }
}

impl Default for ProfileSettings {
    fn default() -> (r: ProfileSettings)
        ensures
            r.alone == 80,
            r.sim == 200,
    {
        ProfileSettings { alone: default_alone(), sim: default_sim() }
    }
}

/// The fallback for `ProfileSettings::alone`, in milliseconds.
pub fn default_alone() -> (r: u32)
    ensures
        r == 80,
{
    80
}

/// The fallback for `ProfileSettings::sim`, in milliseconds.
pub fn default_sim() -> (r: u32)
    ensures
        r == 200,
{
    200
}

/// A momentary layer: held down, `key` gives other keys a second meaning.
/// `threshold` overrides the profile's `sim` for this layer.
#[derive(Debug, Clone, PartialEq)]
pub struct Simlayer {
    pub key: String,
    pub threshold: Option<u32>,
}

/// The mathematical counterpart of [`Simlayer`].
#[verifier::ext_equal]
pub struct SimlayerView {
    pub key: Seq<char>,
    pub threshold: Option<u32>,
}

impl DeepView for Simlayer {
    type V = SimlayerView;

    open spec fn deep_view(&self) -> SimlayerView {
        SimlayerView { key: self.key@, threshold: self.threshold }
    }
}

/// A described block of mappings, bound to a simlayer by name (`layer`) and
/// live only under `condition`, each of them optional.
#[derive(Debug, Clone, PartialEq)]
pub struct UserRule {
    pub description: String,
    pub layer: Option<String>,
    pub condition: Option<UserCondition>,
    pub mappings: Vec<Mapping>,
}

/// The mathematical counterpart of [`UserRule`].
#[verifier::ext_equal]
pub struct UserRuleView {
    pub description: Seq<char>,
    pub layer: Option<Seq<char>>,
    pub condition: Option<UserConditionView>,
    pub mappings: Seq<MappingView>,
}

impl DeepView for UserRule {
    type V = UserRuleView;

    open spec fn deep_view(&self) -> UserRuleView {
        UserRuleView {
            description: self.description@,
            layer: self.layer.deep_view(),
            condition: self.condition.deep_view(),
            mappings: self.mappings.deep_view(),
        }
    }
}

/// When a rule is live: in one application, or while a variable has a value.
#[derive(Debug, Clone, PartialEq)]
pub enum UserCondition {
    App { app: String },
    Variable { variable: String, value: serde_json::Value },
}

/// The mathematical counterpart of [`UserCondition`].
#[verifier::ext_equal]
pub enum UserConditionView {
    App { app: Seq<char> },
    Variable { variable: Seq<char>, value: serde_json::Value },
}

impl DeepView for UserCondition {
    type V = UserConditionView;

    open spec fn deep_view(&self) -> UserConditionView {
        match self {
            UserCondition::App { app } => UserConditionView::App { app: app@ },
            UserCondition::Variable { variable, value } => UserConditionView::Variable {
                variable: variable@,
                value: *value,
            },
        }
    }
}

/// One key mapping. `to_if_alone` and `to_if_held` are alternates for a key
/// tapped alone and for a key held down.
#[derive(Debug, Clone, PartialEq)]
pub struct Mapping {
    pub from: FromKey,
    pub to: ToKey,
    pub to_if_alone: Option<ToKey>,
    pub to_if_held: Option<ToKey>,
}

/// The mathematical counterpart of [`Mapping`].
#[verifier::ext_equal]
pub struct MappingView {
    pub from: FromKeyView,
    pub to: ToKeyView,
    pub to_if_alone: Option<ToKeyView>,
    pub to_if_held: Option<ToKeyView>,
}

impl DeepView for Mapping {
    type V = MappingView;

    open spec fn deep_view(&self) -> MappingView {
        MappingView {
            from: self.from.deep_view(),
            to: self.to.deep_view(),
            to_if_alone: self.to_if_alone.deep_view(),
            to_if_held: self.to_if_held.deep_view(),
        }
    }
}

/// What a mapping matches: a key, a key with modifiers, or a chord of keys.
#[derive(Debug, Clone, PartialEq)]
pub enum FromKey {
    Simple(String),
    WithModifiers { key: String, modifiers: Option<Modifiers>, optional: Option<Vec<String>> },
    Simultaneous(Vec<String>),
}

/// The mathematical counterpart of [`FromKey`].
#[verifier::ext_equal]
pub enum FromKeyView {
    Simple(Seq<char>),
    WithModifiers {
        key: Seq<char>,
        modifiers: Option<ModifiersView>,
        optional: Option<Seq<Seq<char>>>,
    },
    Simultaneous(Seq<Seq<char>>),
}

impl FromKeyView {
    /// The key of a mapping from a single key; a chord has none.
    pub open spec fn key(self) -> Option<Seq<char>> {
        match self {
            FromKeyView::Simple(key) => Some(key),
            FromKeyView::WithModifiers { key, modifiers, optional } => Some(key),
            FromKeyView::Simultaneous(keys) => None,
        }
    }
}

impl DeepView for FromKey {
    type V = FromKeyView;

    open spec fn deep_view(&self) -> FromKeyView {
        match self {
            FromKey::Simple(key) => FromKeyView::Simple(key@),
            FromKey::WithModifiers { key, modifiers, optional } => FromKeyView::WithModifiers {
                key: key@,
                modifiers: modifiers.deep_view(),
                optional: optional.deep_view(),
            },
            FromKey::Simultaneous(keys) => FromKeyView::Simultaneous(keys.deep_view()),
        }
    }
}

/// One modifier or several.
#[derive(Debug, PartialEq)]
pub enum Modifiers {
    Single(String),
    Multiple(Vec<String>),
}

/// The mathematical counterpart of [`Modifiers`].
#[verifier::ext_equal]
pub enum ModifiersView {
    Single(Seq<char>),
    Multiple(Seq<Seq<char>>),
}

impl ModifiersView {
    /// The modifiers as a list: a single one is a list of one.
    pub open spec fn names(self) -> Seq<Seq<char>> {
        match self {
            ModifiersView::Single(s) => seq![s],
            ModifiersView::Multiple(v) => v,
        }
    }
}

impl DeepView for Modifiers {
    type V = ModifiersView;

    open spec fn deep_view(&self) -> ModifiersView {
        match self {
            Modifiers::Single(s) => ModifiersView::Single(s@),
            Modifiers::Multiple(v) => ModifiersView::Multiple(v.deep_view()),
        }
    }
}

impl Clone for Modifiers {
    fn clone(&self) -> (r: Modifiers)
        ensures
            r.deep_view() == self.deep_view(),
    {
        match self {
            Modifiers::Single(s) => Modifiers::Single(s.clone()),
            Modifiers::Multiple(v) => Modifiers::Multiple(v.clone()),
        }
    }
}

impl Modifiers {
    /// The modifiers as a list: a single one becomes a list of one.
    pub fn to_vec(&self) -> (r: Vec<String>)
        ensures
            r.deep_view() == self.deep_view().names(),
    {
        match self {
            Modifiers::Single(s) => vec![s.clone()],
            Modifiers::Multiple(v) => v.clone(),
        }
    }
}

/// A pointer movement in a mapping's target. Only the fields that are set
/// reach the daemon. `speed_multiplier` is kept as the bit pattern of an
/// IEEE 754 double.
#[derive(Debug, Clone, PartialEq)]
pub struct UserMouseKey {
    pub x: Option<i32>,
    pub y: Option<i32>,
    pub vertical_wheel: Option<i32>,
    pub horizontal_wheel: Option<i32>,
    pub speed_multiplier: Option<u64>,
}

impl DeepView for UserMouseKey {
    type V = UserMouseKey;

    open spec fn deep_view(&self) -> UserMouseKey {
        *self
    }
}

/// What a mapping emits: a key, a key with modifiers, a shell command, a
/// pointer movement, or several of these one after another.
#[derive(Debug, PartialEq)]
pub enum ToKey {
    Simple(String),
    WithModifiers { key: String, modifiers: Option<Modifiers> },
    Shell { shell: String },
    MouseKey { mouse_key: UserMouseKey },
    Multiple(Vec<ToKey>),
}

/// The mathematical counterpart of [`ToKey`].
#[verifier::ext_equal]
pub enum ToKeyView {
    Simple(Seq<char>),
    WithModifiers { key: Seq<char>, modifiers: Option<ModifiersView> },
    Shell { shell: Seq<char> },
    MouseKey { mouse_key: UserMouseKey },
    Multiple(Seq<ToKeyView>),
}

/// The counterpart of a target: that of `Multiple` holds the counterparts of
/// its members, in order. (The bound on `i` is there to show that the
/// definition ends; no index outside it is ever looked at.)
pub open spec fn to_key_view(to: ToKey) -> ToKeyView
    decreases to,
{
    match to {
        ToKey::Simple(key) => ToKeyView::Simple(key@),
        ToKey::WithModifiers { key, modifiers } => ToKeyView::WithModifiers {
            key: key@,
            modifiers: modifiers.deep_view(),
        },
        ToKey::Shell { shell } => ToKeyView::Shell { shell: shell@ },
        ToKey::MouseKey { mouse_key } => ToKeyView::MouseKey { mouse_key },
        ToKey::Multiple(keys) => ToKeyView::Multiple(
            Seq::new(
                keys.len() as nat,
                |i: int|
                    if 0 <= i < keys.len() {
                        to_key_view(keys[i])
                    } else {
                        ToKeyView::Multiple(Seq::empty())
                    },
            ),
        ),
    }
}

impl DeepView for ToKey {
    type V = ToKeyView;

    open spec fn deep_view(&self) -> ToKeyView {
        to_key_view(*self)
    }
}

/// The counterpart of `Multiple(keys)` holds the counterpart of `keys`.
pub proof fn lemma_multiple_view(keys: Vec<ToKey>)
    ensures
        ToKey::Multiple(keys).deep_view() == ToKeyView::Multiple(keys.deep_view()),
{
    assert(to_key_view(ToKey::Multiple(keys))->Multiple_0 =~= keys.deep_view());
}

impl Clone for ToKey {
    fn clone(&self) -> (r: ToKey)
        ensures
            r.deep_view() == self.deep_view(),
        decreases self,
    {
        match self {
            ToKey::Simple(key) => ToKey::Simple(key.clone()),
            ToKey::WithModifiers { key, modifiers } => {
                let m = match modifiers {
                    Some(m) => Some(m.clone()),
                    None => None,
                };
                ToKey::WithModifiers { key: key.clone(), modifiers: m }
            },
            ToKey::Shell { shell } => ToKey::Shell { shell: shell.clone() },
            ToKey::MouseKey { mouse_key } => ToKey::MouseKey {
                mouse_key: UserMouseKey {
                    x: mouse_key.x,
                    y: mouse_key.y,
                    vertical_wheel: mouse_key.vertical_wheel,
                    horizontal_wheel: mouse_key.horizontal_wheel,
                    speed_multiplier: mouse_key.speed_multiplier,
                },
            },
            ToKey::Multiple(keys) => {
                let mut out: Vec<ToKey> = Vec::new();
                let mut i: usize = 0;
                while i < keys.len()
                    invariant
                        i <= keys.len(),
                        out.len() == i,
                        self->Multiple_0 == *keys,
                        self is Multiple,
                        forall|j: int| 0 <= j < i ==> out[j].deep_view() == keys[j].deep_view(),
                    decreases keys.len() - i,
                {
                    out.push(keys[i].clone());
                    i += 1;
                }
                proof {
                    lemma_multiple_view(out);
                    lemma_multiple_view(*keys);
                    assert(out.deep_view() =~= keys.deep_view());
                }
                ToKey::Multiple(out)
            },
        }
    }
}

/// Expands a target into the daemon's ordered event list.
pub fn convert_to_events(to: &ToKey) -> (r: Vec<ToEvent>)
    ensures
        r.deep_view() == to_events(to.deep_view()),
    decreases to,
{
    match to {
        ToKey::Simple(key) => vec![
            ToEvent::KeyCode(
                ToKeyCode { key_code: key.clone(), modifiers: None, lazy: None, repeat: None },
            ),
        ],
        ToKey::WithModifiers { key, modifiers } => {
            let names = match modifiers {
                Some(m) => Some(m.to_vec()),
                None => None,
            };
            vec![
                ToEvent::KeyCode(
                    ToKeyCode { key_code: key.clone(), modifiers: names, lazy: None, repeat: None },
                ),
            ]
        },
        ToKey::Shell { shell } => vec![
            ToEvent::ShellCommand(ToShellCommand { shell_command: shell.clone() }),
        ],
        ToKey::MouseKey { mouse_key } => vec![
            ToEvent::MouseKey(
                ToMouseKey {
                    mouse_key: MouseKey {
                        x: mouse_key.x,
                        y: mouse_key.y,
                        vertical_wheel: mouse_key.vertical_wheel,
                        horizontal_wheel: mouse_key.horizontal_wheel,
                        speed_multiplier: mouse_key.speed_multiplier,
                    },
                },
            ),
        ],
        ToKey::Multiple(keys) => {
            let mut out: Vec<ToEvent> = Vec::new();
            let mut i: usize = 0;
            while i < keys.len()
                invariant
                    i <= keys.len(),
                    to is Multiple,
                    to->Multiple_0 == *keys,
                    out.deep_view() == events_in_order(keys.deep_view().take(i as int)),
                decreases keys.len() - i,
            {
                let mut events = convert_to_events(&keys[i]);
                out.append(&mut events);
                proof {
                    let views = keys.deep_view();
                    assert(views.take(i + 1).drop_last() =~= views.take(i as int));
                }
                i += 1;
            }
            proof {
                lemma_multiple_view(*keys);
                assert(keys.deep_view().take(i as int) =~= keys.deep_view());
            }
            out
        },
    }
}

fn convert_optional(to: &Option<ToKey>) -> (r: Option<Vec<ToEvent>>)
    ensures
        r.deep_view() == optional_events(to.deep_view()),
{
    match to {
        Some(t) => Some(convert_to_events(t)),
        None => None,
    }
}

fn convert_condition(condition: &Option<UserCondition>) -> (r: Option<Vec<Condition>>)
    ensures
        r.deep_view() == base_conditions(condition.deep_view()),
{
    match condition {
        Some(UserCondition::App { app }) => {
            let apps = vec![app.clone()];
            assert(apps.deep_view() =~= seq![app@]);
            Some(
                vec![
                    Condition::FrontmostAppIf { bundle_identifiers: Some(apps), file_paths: None },
                ],
            )
        },
        Some(UserCondition::Variable { variable, value }) => {
            Some(vec![Condition::VariableIf { name: variable.clone(), value: value.clone() }])
        },
        None => None,
    }
}

fn set_variable_event(name: &String, n: u32) -> (r: ToEvent)
    ensures
        r.deep_view() == set_variable(name@, n),
{
    ToEvent::SetVariable(
        ToSetVariable { set_variable: SetVariable { name: name.clone(), value: integer_value(n) } },
    )
}

fn any_optional_modifiers() -> (r: FromModifiers)
    ensures
        r.deep_view() == any_optional(),
{
    FromModifiers { mandatory: None, optional: Some(vec!["any".to_string()]) }
}

fn detection(key_down_order: &str, key_up_order: &str, to_after_key_up: Option<Vec<ToEvent>>) -> (r:
    SimultaneousOptions)
    ensures
        r.deep_view() == chord_options(
            key_down_order@,
            key_up_order@,
            to_after_key_up.deep_view(),
        ),
{
    SimultaneousOptions {
        detect_key_down_uninterruptedly: Some(true),
        key_down_order: Some(key_down_order.to_string()),
        key_up_order: Some(key_up_order.to_string()),
        key_up_when: Some("any".to_string()),
        to_after_key_up,
    }
}

fn chord_of(keys: &Vec<String>) -> (r: Vec<SimultaneousKey>)
    ensures
        r.deep_view() == chord_keys(keys.deep_view()),
{
    let mut out: Vec<SimultaneousKey> = Vec::new();
    let mut i: usize = 0;
    while i < keys.len()
        invariant
            i <= keys.len(),
            out.len() == i,
            forall|j: int| 0 <= j < i ==> out[j].key_code@ == keys[j]@,
        decreases keys.len() - i,
    {
        out.push(SimultaneousKey { key_code: keys[i].clone() });
        i += 1;
    }
    out
}

/// Compiles a mapping from the single key `key`, whose modifiers are
/// `modifiers`, in a rule with the condition `condition`.
fn convert_key_mapping(
    mapping: &Mapping,
    key: &String,
    modifiers: Option<FromModifiers>,
    simlayer: Option<(&String, &Simlayer)>,
    profile: &ProfileSettings,
    condition: &Option<UserCondition>,
) -> (r: Vec<Manipulator>)
    ensures
        r.deep_view() == key_manipulators(
            mapping.deep_view(),
            key@,
            modifiers.deep_view(),
            simlayer.deep_view(),
            *profile,
            condition.deep_view(),
        ),
{
    let conditions = convert_condition(condition);
    match simlayer {
        Some((layer_name, layer)) => {
            // While the layer is active: the mapping itself.
            let active = Condition::VariableIf { name: layer_name.clone(), value: integer_value(1) };
            let body_conditions = match conditions {
                Some(mut list) => {
                    let ghost before = list.deep_view();
                    list.push(active);
                    assert(list.deep_view() =~= before.push(layer_active(layer_name@)));
                    list
                },
                None => {
                    let list = vec![active];
                    assert(list.deep_view() =~= seq![layer_active(layer_name@)]);
                    list
                },
            };
            let body_modifiers = match modifiers {
                Some(m) => m,
                None => any_optional_modifiers(),
            };
            let body = Manipulator {
                manipulator_type: "basic".to_string(),
                from: FromEvent::KeyCode(
                    FromKeyCode { key_code: key.clone(), modifiers: Some(body_modifiers) },
                ),
                to: Some(convert_to_events(&mapping.to)),
                to_if_alone: convert_optional(&mapping.to_if_alone),
                to_if_held_down: convert_optional(&mapping.to_if_held),
                to_after_key_up: None,
                conditions: Some(body_conditions),
                parameters: None,
            };

            // The chord that activates the layer and acts at once.
            let reset = vec![set_variable_event(layer_name, 0)];
            assert(reset.deep_view() =~= seq![set_variable(layer_name@, 0)]);
            let chord = vec![
                SimultaneousKey { key_code: layer.key.clone() },
                SimultaneousKey { key_code: key.clone() },
            ];
            assert(chord.deep_view() =~= seq![
                SimultaneousKeyView { key_code: layer.key@ },
                SimultaneousKeyView { key_code: key@ },
            ]);
            let mut to_events_list = vec![set_variable_event(layer_name, 1)];
            let mut mapped = convert_to_events(&mapping.to);
            let ghost mapped_view = mapped.deep_view();
            to_events_list.append(&mut mapped);
            assert(to_events_list.deep_view() =~= seq![set_variable(layer_name@, 1)]
                + mapped_view);
            let threshold = match layer.threshold {
                Some(t) => t,
                None => profile.sim,
            };
            let trigger = Manipulator {
                manipulator_type: "basic".to_string(),
                from: FromEvent::Simultaneous(
                    FromSimultaneous {
                        simultaneous: chord,
                        simultaneous_options: Some(
                            detection("strict", "strict_inverse", Some(reset)),
                        ),
                        modifiers: Some(any_optional_modifiers()),
                    },
                ),
                to: Some(to_events_list),
                to_if_alone: None,
                to_if_held_down: None,
                to_after_key_up: None,
                conditions: None,
                parameters: Some(ManipulatorParameters { simultaneous_threshold: Some(threshold) }),
            };
            vec![body, trigger]
        },
        None => {
            let plain = Manipulator {
                manipulator_type: "basic".to_string(),
                from: FromEvent::KeyCode(FromKeyCode { key_code: key.clone(), modifiers }),
                to: Some(convert_to_events(&mapping.to)),
                to_if_alone: convert_optional(&mapping.to_if_alone),
                to_if_held_down: convert_optional(&mapping.to_if_held),
                to_after_key_up: None,
                conditions,
                parameters: None,
            };
            vec![plain]
        },
    }
}

/// Compiles one mapping of a rule into the daemon's manipulators.
///
/// `simlayer` is the layer that the rule resolved to, with its name;
/// `condition` is the rule's condition. A mapping from a chord gives one
/// manipulator whatever the layer. A mapping from a key gives the layer's
/// body and trigger where there is a layer, and one plain manipulator where
/// there is none.
pub fn convert_mapping(
    mapping: &Mapping,
    simlayer: Option<(&String, &Simlayer)>,
    profile: &ProfileSettings,
    condition: &Option<UserCondition>,
) -> (r: Vec<Manipulator>)
    ensures
        r.deep_view() == mapping_manipulators(
            mapping.deep_view(),
            simlayer.deep_view(),
            *profile,
            condition.deep_view(),
        ),
{
    match &mapping.from {
        FromKey::Simultaneous(keys) => {
            let chord = Manipulator {
                manipulator_type: "basic".to_string(),
                from: FromEvent::Simultaneous(
                    FromSimultaneous {
                        simultaneous: chord_of(keys),
                        simultaneous_options: Some(detection("insensitive", "insensitive", None)),
                        modifiers: Some(any_optional_modifiers()),
                    },
                ),
                to: Some(convert_to_events(&mapping.to)),
                to_if_alone: convert_optional(&mapping.to_if_alone),
                to_if_held_down: convert_optional(&mapping.to_if_held),
                to_after_key_up: None,
                conditions: convert_condition(condition),
                parameters: Some(
                    ManipulatorParameters { simultaneous_threshold: Some(profile.sim) },
                ),
            };
            vec![chord]
        },
        FromKey::Simple(key) => convert_key_mapping(
            mapping,
            key,
            None,
            simlayer,
            profile,
            condition,
        ),
        FromKey::WithModifiers { key, modifiers, optional } => {
            let mandatory = match modifiers {
                Some(m) => Some(m.to_vec()),
                None => None,
            };
            let from_mods = FromModifiers { mandatory, optional: optional.clone() };
            convert_key_mapping(mapping, key, Some(from_mods), simlayer, profile, condition)
        },
    }
}

impl UserConfigView {
    /// The layer that a rule's `layer` resolves to, with its name. A rule
    /// that names no layer, or a layer that the table does not hold,
    /// resolves to none: an unknown name is no error.
    pub open spec fn resolve(self, layer: Option<Seq<char>>) -> Option<(Seq<char>, SimlayerView)> {
        match layer {
            Some(name) => if self.simlayers.contains_key(name) {
                Some((name, self.simlayers[name]))
            } else {
                None
            },
            None => None,
        }
    }
}

/// Compiles one rule of `config`: its description, and the manipulators of
/// its mappings in order. The rule's layer is looked up in `config`; a name
/// that is not there leaves the rule without a layer.
pub fn convert_rule(user_rule: &UserRule, config: &UserConfig) -> (r: Rule)
    ensures
        r.deep_view() == compile_rule(user_rule.deep_view(), config.deep_view()),
{
    let simlayer: Option<(&String, &Simlayer)> = match &user_rule.layer {
        Some(name) => match config.simlayers.get(name) {
            Some(layer) => Some((name, layer)),
            None => None,
        },
        None => None,
    };
    let ghost layer = simlayer.deep_view();
    let ghost condition = user_rule.condition.deep_view();
    let ghost mappings = user_rule.mappings.deep_view();
    let ghost each = |mapping: MappingView|
        mapping_manipulators(mapping, layer, config.profile, condition);
    let mut manipulators: Vec<Manipulator> = Vec::new();
    let mut i: usize = 0;
    while i < user_rule.mappings.len()
        invariant
            i <= user_rule.mappings.len(),
            mappings == user_rule.mappings.deep_view(),
            layer == simlayer.deep_view(),
            condition == user_rule.condition.deep_view(),
            each == |mapping: MappingView|
                mapping_manipulators(mapping, layer, config.profile, condition),
            manipulators.deep_view() == mappings.take(i as int).map_values(each).flatten(),
        decreases user_rule.mappings.len() - i,
    {
        let mut compiled = convert_mapping(
            &user_rule.mappings[i],
            simlayer,
            &config.profile,
            &user_rule.condition,
        );
        let ghost added = compiled.deep_view();
        manipulators.append(&mut compiled);
        proof {
            assert(mappings.take(i + 1).map_values(each) =~= mappings.take(i as int).map_values(
                each,
            ).push(added));
            mappings.take(i as int).map_values(each).lemma_flatten_push(added);
        }
        i += 1;
    }
    assert(mappings.take(i as int) =~= mappings);
    Rule { description: user_rule.description.clone(), manipulators }
}

/// Compiles the rules of a configuration into the daemon's rules, one for
/// each and in the same order. No configuration fails to compile.
pub fn to_karabiner_rules(config: &UserConfig) -> (r: Result<Vec<Rule>, Infallible>)
    ensures
        r matches Ok(rules) && rules.deep_view() == compile_rules(config.deep_view()),
{
    let mut rules: Vec<Rule> = Vec::new();
    let mut i: usize = 0;
    while i < config.rules.len()
        invariant
            i <= config.rules.len(),
            rules.len() == i,
            forall|j: int|
                0 <= j < i ==> rules[j].deep_view() == compile_rule(
                    config.rules[j].deep_view(),
                    config.deep_view(),
                ),
        decreases config.rules.len() - i,
    {
        let rule = convert_rule(&config.rules[i], config);
        rules.push(rule);
        i += 1;
    }
    Ok(rules)
}

/// Turns the substitutions of a configuration into the daemon's entries,
/// one for each and in the same order.
pub fn to_simple_modifications(config: &UserConfig) -> (r: Vec<SimpleModificationEntry>)
    ensures
        r.deep_view() == simple_entries(config.deep_view().simple),
{
    let mut entries: Vec<SimpleModificationEntry> = Vec::new();
    let mut i: usize = 0;
    while i < config.simple.len()
        invariant
            i <= config.simple.len(),
            entries.len() == i,
            forall|j: int|
                0 <= j < i ==> entries[j].deep_view() == simple_entry(config.simple[j].deep_view()),
        decreases config.simple.len() - i,
    {
        let simple = &config.simple[i];
        let to = vec![SimpleModificationKey { key_code: simple.to.clone() }];
        entries.push(
            SimpleModificationEntry {
                from: SimpleModificationKey { key_code: simple.from.clone() },
                to,
            },
        );
        i += 1;
    }
    entries
}

} // verus!
