//! The daemon's configuration schema, and the merge of compiled rules into
//! one of its profiles.
//!
//! Each type stands beside its mathematical counterpart (`…View`), in which
//! strings are `Seq<char>` and vectors are `Seq`. Types whose fields are
//! plain numbers and flags are their own counterpart.

use vstd::prelude::*;
use vstd::string::StringExecFns;

verus! {

/// The daemon's whole configuration document.
#[derive(Debug, PartialEq)]
pub struct KarabinerConfig {
    pub global: Option<Global>,
    pub profiles: Vec<Profile>,
}

/// The mathematical counterpart of [`KarabinerConfig`].
#[verifier::ext_equal]
pub struct KarabinerConfigView {
    pub global: Option<Global>,
    pub profiles: Seq<ProfileView>,
}

impl DeepView for KarabinerConfig {
    type V = KarabinerConfigView;

    open spec fn deep_view(&self) -> KarabinerConfigView {
        KarabinerConfigView { global: self.global, profiles: self.profiles.deep_view() }
    }
}

/// Settings of the daemon that belong to no profile.
#[derive(Debug, Clone, PartialEq)]
pub struct Global {
    pub check_for_updates_on_startup: Option<bool>,
    pub show_in_menu_bar: Option<bool>,
    pub show_profile_name_in_menu_bar: Option<bool>,
}

impl DeepView for Global {
    type V = Global;

    open spec fn deep_view(&self) -> Global {
        *self
    }
}

/// One named profile. `other` keeps every field of the profile that this
/// library does not know, so that it survives a merge untouched.
#[derive(Debug, PartialEq)]
pub struct Profile {
    pub name: String,
    pub selected: bool,
    pub simple_modifications: Vec<SimpleModificationEntry>,
    pub complex_modifications: ComplexModifications,
    pub other: serde_json::Map<String, serde_json::Value>,
}

/// The mathematical counterpart of [`Profile`].
#[verifier::ext_equal]
pub struct ProfileView {
    pub name: Seq<char>,
    pub selected: bool,
    pub simple_modifications: Seq<SimpleModificationEntryView>,
    pub complex_modifications: ComplexModificationsView,
    pub other: serde_json::Map<String, serde_json::Value>,
}

impl DeepView for Profile {
    type V = ProfileView;

    open spec fn deep_view(&self) -> ProfileView {
        ProfileView {
            name: self.name@,
            selected: self.selected,
            simple_modifications: self.simple_modifications.deep_view(),
            complex_modifications: self.complex_modifications.deep_view(),
            other: self.other,
        }
    }
}

/// A one-to-one key substitution as the daemon stores it.
#[derive(Debug, Clone, PartialEq)]
pub struct SimpleModificationEntry {
    pub from: SimpleModificationKey,
    pub to: Vec<SimpleModificationKey>,
}

/// The mathematical counterpart of [`SimpleModificationEntry`].
#[verifier::ext_equal]
pub struct SimpleModificationEntryView {
    pub from: SimpleModificationKeyView,
    pub to: Seq<SimpleModificationKeyView>,
}

impl DeepView for SimpleModificationEntry {
    type V = SimpleModificationEntryView;

    open spec fn deep_view(&self) -> SimpleModificationEntryView {
        SimpleModificationEntryView { from: self.from.deep_view(), to: self.to.deep_view() }
    }
}

/// A key of a substitution, by its key code.
#[derive(Debug, Clone, PartialEq)]
pub struct SimpleModificationKey {
    pub key_code: String,
}

/// The mathematical counterpart of [`SimpleModificationKey`].
#[verifier::ext_equal]
pub struct SimpleModificationKeyView {
    pub key_code: Seq<char>,
}

impl DeepView for SimpleModificationKey {
    type V = SimpleModificationKeyView;

    open spec fn deep_view(&self) -> SimpleModificationKeyView {
        SimpleModificationKeyView { key_code: self.key_code@ }
    }
}

/// The complex modifications of a profile: timing parameters and rules.
#[derive(Debug, Clone, PartialEq)]
pub struct ComplexModifications {
    pub parameters: Parameters,
    pub rules: Vec<Rule>,
}

/// The mathematical counterpart of [`ComplexModifications`].
#[verifier::ext_equal]
pub struct ComplexModificationsView {
    pub parameters: Parameters,
    pub rules: Seq<RuleView>,
}

impl DeepView for ComplexModifications {
    type V = ComplexModificationsView;

    open spec fn deep_view(&self) -> ComplexModificationsView {
        ComplexModificationsView { parameters: self.parameters, rules: self.rules.deep_view() }
    }
}

impl Default for ComplexModifications {
    fn default() -> (r: ComplexModifications)
        ensures
            r.parameters == Parameters::unset(),
            r.rules@ == Seq::<Rule>::empty(),
    {
        ComplexModifications { parameters: Parameters::default(), rules: Vec::new() }
    }
}

/// Profile-wide timing parameters, in milliseconds. An unset one leaves the
/// daemon's own default in force.
#[derive(Debug, Clone, PartialEq)]
pub struct Parameters {
    pub simultaneous_threshold: Option<u32>,
    pub to_if_alone_timeout: Option<u32>,
    pub to_if_held_down_threshold: Option<u32>,
    pub to_delayed_action_delay: Option<u32>,
}

impl Parameters {
    /// The parameters with nothing set.
    pub open spec fn unset() -> Parameters {
        Parameters {
            simultaneous_threshold: None,
            to_if_alone_timeout: None,
            to_if_held_down_threshold: None,
            to_delayed_action_delay: None,
        }
    }
}

impl DeepView for Parameters {
    type V = Parameters;

    open spec fn deep_view(&self) -> Parameters {
        *self
    }
}

impl Default for Parameters {
    fn default() -> (r: Parameters)
        ensures
            r == Parameters::unset(),
    {
        Parameters {
            simultaneous_threshold: None,
            to_if_alone_timeout: None,
            to_if_held_down_threshold: None,
            to_delayed_action_delay: None,
        }
    }
}

/// A described group of manipulators. Earlier manipulators win at match time.
#[derive(Debug, Clone, PartialEq)]
pub struct Rule {
    pub description: String,
    pub manipulators: Vec<Manipulator>,
}

/// The mathematical counterpart of [`Rule`].
#[verifier::ext_equal]
pub struct RuleView {
    pub description: Seq<char>,
    pub manipulators: Seq<ManipulatorView>,
}

impl DeepView for Rule {
    type V = RuleView;

    open spec fn deep_view(&self) -> RuleView {
        RuleView {
            description: self.description@,
            manipulators: self.manipulators.deep_view(),
        }
    }
}

/// One event matcher: what it matches (`from`), what it emits, and when it
/// is live (`conditions`, all of which must hold).
#[derive(Debug, Clone, PartialEq)]
pub struct Manipulator {
    pub manipulator_type: String,
    pub from: FromEvent,
    pub to: Option<Vec<ToEvent>>,
    pub to_if_alone: Option<Vec<ToEvent>>,
    pub to_if_held_down: Option<Vec<ToEvent>>,
    pub to_after_key_up: Option<Vec<ToEvent>>,
    pub conditions: Option<Vec<Condition>>,
    pub parameters: Option<ManipulatorParameters>,
}

/// The mathematical counterpart of [`Manipulator`].
#[verifier::ext_equal]
pub struct ManipulatorView {
    pub manipulator_type: Seq<char>,
    pub from: FromEventView,
    pub to: Option<Seq<ToEventView>>,
    pub to_if_alone: Option<Seq<ToEventView>>,
    pub to_if_held_down: Option<Seq<ToEventView>>,
    pub to_after_key_up: Option<Seq<ToEventView>>,
    pub conditions: Option<Seq<ConditionView>>,
    pub parameters: Option<ManipulatorParameters>,
}

impl DeepView for Manipulator {
    type V = ManipulatorView;

    open spec fn deep_view(&self) -> ManipulatorView {
        ManipulatorView {
            manipulator_type: self.manipulator_type@,
            from: self.from.deep_view(),
            to: self.to.deep_view(),
            to_if_alone: self.to_if_alone.deep_view(),
            to_if_held_down: self.to_if_held_down.deep_view(),
            to_after_key_up: self.to_after_key_up.deep_view(),
            conditions: self.conditions.deep_view(),
            parameters: self.parameters,
        }
    }
}

/// Timing parameters of a single manipulator, in milliseconds.
#[derive(Debug, Clone, PartialEq)]
pub struct ManipulatorParameters {
    pub simultaneous_threshold: Option<u32>,
}

impl DeepView for ManipulatorParameters {
    type V = ManipulatorParameters;

    open spec fn deep_view(&self) -> ManipulatorParameters {
        *self
    }
}

impl Default for ManipulatorParameters {
    fn default() -> (r: ManipulatorParameters)
        ensures
            r.simultaneous_threshold is None,
    {
        ManipulatorParameters { simultaneous_threshold: None }
    }
}

/// What a manipulator matches: one key, or several keys pressed together.
#[derive(Debug, Clone, PartialEq)]
pub enum FromEvent {
    KeyCode(FromKeyCode),
    Simultaneous(FromSimultaneous),
}

/// The mathematical counterpart of [`FromEvent`].
#[verifier::ext_equal]
pub enum FromEventView {
    KeyCode(FromKeyCodeView),
    Simultaneous(FromSimultaneousView),
}

impl DeepView for FromEvent {
    type V = FromEventView;

    open spec fn deep_view(&self) -> FromEventView {
        match self {
            FromEvent::KeyCode(k) => FromEventView::KeyCode(k.deep_view()),
            FromEvent::Simultaneous(s) => FromEventView::Simultaneous(s.deep_view()),
        }
    }
}

/// A single key, with the modifiers that must or may be held.
#[derive(Debug, Clone, PartialEq)]
pub struct FromKeyCode {
    pub key_code: String,
    pub modifiers: Option<FromModifiers>,
}

/// The mathematical counterpart of [`FromKeyCode`].
#[verifier::ext_equal]
pub struct FromKeyCodeView {
    pub key_code: Seq<char>,
    pub modifiers: Option<FromModifiersView>,
}

impl DeepView for FromKeyCode {
    type V = FromKeyCodeView;

    open spec fn deep_view(&self) -> FromKeyCodeView {
        FromKeyCodeView { key_code: self.key_code@, modifiers: self.modifiers.deep_view() }
    }
}

/// A chord: keys pressed together, and how the daemon detects them.
#[derive(Debug, Clone, PartialEq)]
pub struct FromSimultaneous {
    pub simultaneous: Vec<SimultaneousKey>,
    pub simultaneous_options: Option<SimultaneousOptions>,
    pub modifiers: Option<FromModifiers>,
}

/// The mathematical counterpart of [`FromSimultaneous`].
#[verifier::ext_equal]
pub struct FromSimultaneousView {
    pub simultaneous: Seq<SimultaneousKeyView>,
    pub simultaneous_options: Option<SimultaneousOptionsView>,
    pub modifiers: Option<FromModifiersView>,
}

impl DeepView for FromSimultaneous {
    type V = FromSimultaneousView;

    open spec fn deep_view(&self) -> FromSimultaneousView {
        FromSimultaneousView {
            simultaneous: self.simultaneous.deep_view(),
            simultaneous_options: self.simultaneous_options.deep_view(),
            modifiers: self.modifiers.deep_view(),
        }
    }
}

/// One key of a chord.
#[derive(Debug, Clone, PartialEq)]
pub struct SimultaneousKey {
    pub key_code: String,
}

/// The mathematical counterpart of [`SimultaneousKey`].
#[verifier::ext_equal]
pub struct SimultaneousKeyView {
    pub key_code: Seq<char>,
}

impl DeepView for SimultaneousKey {
    type V = SimultaneousKeyView;

    open spec fn deep_view(&self) -> SimultaneousKeyView {
        SimultaneousKeyView { key_code: self.key_code@ }
    }
}

/// How the daemon detects a chord.
#[derive(Debug, Clone, PartialEq)]
pub struct SimultaneousOptions {
    pub detect_key_down_uninterruptedly: Option<bool>,
    pub key_down_order: Option<String>,
    pub key_up_order: Option<String>,
    pub key_up_when: Option<String>,
    pub to_after_key_up: Option<Vec<ToEvent>>,
}

/// The mathematical counterpart of [`SimultaneousOptions`].
#[verifier::ext_equal]
pub struct SimultaneousOptionsView {
    pub detect_key_down_uninterruptedly: Option<bool>,
    pub key_down_order: Option<Seq<char>>,
    pub key_up_order: Option<Seq<char>>,
    pub key_up_when: Option<Seq<char>>,
    pub to_after_key_up: Option<Seq<ToEventView>>,
}

impl DeepView for SimultaneousOptions {
    type V = SimultaneousOptionsView;

    open spec fn deep_view(&self) -> SimultaneousOptionsView {
        SimultaneousOptionsView {
            detect_key_down_uninterruptedly: self.detect_key_down_uninterruptedly,
            key_down_order: self.key_down_order.deep_view(),
            key_up_order: self.key_up_order.deep_view(),
            key_up_when: self.key_up_when.deep_view(),
            to_after_key_up: self.to_after_key_up.deep_view(),
        }
    }
}

/// Modifiers that must be held (`mandatory`) and that may be (`optional`).
#[derive(Debug, Clone, PartialEq)]
pub struct FromModifiers {
    pub mandatory: Option<Vec<String>>,
    pub optional: Option<Vec<String>>,
}

/// The mathematical counterpart of [`FromModifiers`].
#[verifier::ext_equal]
pub struct FromModifiersView {
    pub mandatory: Option<Seq<Seq<char>>>,
    pub optional: Option<Seq<Seq<char>>>,
}

impl DeepView for FromModifiers {
    type V = FromModifiersView;

    open spec fn deep_view(&self) -> FromModifiersView {
        FromModifiersView {
            mandatory: self.mandatory.deep_view(),
            optional: self.optional.deep_view(),
        }
    }
}

impl Default for FromModifiers {
    fn default() -> (r: FromModifiers)
        ensures
            r.mandatory is None,
            r.optional is None,
    {
        FromModifiers { mandatory: None, optional: None }
    }
}

/// One thing that a manipulator emits.
#[derive(Debug, Clone, PartialEq)]
pub enum ToEvent {
    KeyCode(ToKeyCode),
    ConsumerKeyCode(ToConsumerKeyCode),
    PointingButton(ToPointingButton),
    ShellCommand(ToShellCommand),
    SetVariable(ToSetVariable),
    MouseKey(ToMouseKey),
}

/// The mathematical counterpart of [`ToEvent`].
#[verifier::ext_equal]
pub enum ToEventView {
    KeyCode(ToKeyCodeView),
    ConsumerKeyCode(ToConsumerKeyCodeView),
    PointingButton(ToPointingButtonView),
    ShellCommand(ToShellCommandView),
    SetVariable(ToSetVariableView),
    MouseKey(ToMouseKey),
}

impl DeepView for ToEvent {
    type V = ToEventView;

    open spec fn deep_view(&self) -> ToEventView {
        match self {
            ToEvent::KeyCode(e) => ToEventView::KeyCode(e.deep_view()),
            ToEvent::ConsumerKeyCode(e) => ToEventView::ConsumerKeyCode(e.deep_view()),
            ToEvent::PointingButton(e) => ToEventView::PointingButton(e.deep_view()),
            ToEvent::ShellCommand(e) => ToEventView::ShellCommand(e.deep_view()),
            ToEvent::SetVariable(e) => ToEventView::SetVariable(e.deep_view()),
            ToEvent::MouseKey(e) => ToEventView::MouseKey(*e),
        }
    }
}

/// A press of a pointing-device button.
#[derive(Debug, Clone, PartialEq)]
pub struct ToPointingButton {
    pub pointing_button: String,
    pub modifiers: Option<Vec<String>>,
}

/// The mathematical counterpart of [`ToPointingButton`].
#[verifier::ext_equal]
pub struct ToPointingButtonView {
    pub pointing_button: Seq<char>,
    pub modifiers: Option<Seq<Seq<char>>>,
}

impl DeepView for ToPointingButton {
    type V = ToPointingButtonView;

    open spec fn deep_view(&self) -> ToPointingButtonView {
        ToPointingButtonView {
            pointing_button: self.pointing_button@,
            modifiers: self.modifiers.deep_view(),
        }
    }
}

/// A press of a media key.
#[derive(Debug, Clone, PartialEq)]
pub struct ToConsumerKeyCode {
    pub consumer_key_code: String,
    pub modifiers: Option<Vec<String>>,
}

/// The mathematical counterpart of [`ToConsumerKeyCode`].
#[verifier::ext_equal]
pub struct ToConsumerKeyCodeView {
    pub consumer_key_code: Seq<char>,
    pub modifiers: Option<Seq<Seq<char>>>,
}

impl DeepView for ToConsumerKeyCode {
    type V = ToConsumerKeyCodeView;

    open spec fn deep_view(&self) -> ToConsumerKeyCodeView {
        ToConsumerKeyCodeView {
            consumer_key_code: self.consumer_key_code@,
            modifiers: self.modifiers.deep_view(),
        }
    }
}

/// A key press.
#[derive(Debug, Clone, PartialEq)]
pub struct ToKeyCode {
    pub key_code: String,
    pub modifiers: Option<Vec<String>>,
    pub lazy: Option<bool>,
    pub repeat: Option<bool>,
}

/// The mathematical counterpart of [`ToKeyCode`].
#[verifier::ext_equal]
pub struct ToKeyCodeView {
    pub key_code: Seq<char>,
    pub modifiers: Option<Seq<Seq<char>>>,
    pub lazy: Option<bool>,
    pub repeat: Option<bool>,
}

impl DeepView for ToKeyCode {
    type V = ToKeyCodeView;

    open spec fn deep_view(&self) -> ToKeyCodeView {
        ToKeyCodeView {
            key_code: self.key_code@,
            modifiers: self.modifiers.deep_view(),
            lazy: self.lazy,
            repeat: self.repeat,
        }
    }
}

/// A shell command to run.
#[derive(Debug, Clone, PartialEq)]
pub struct ToShellCommand {
    pub shell_command: String,
}

/// The mathematical counterpart of [`ToShellCommand`].
#[verifier::ext_equal]
pub struct ToShellCommandView {
    pub shell_command: Seq<char>,
}

impl DeepView for ToShellCommand {
    type V = ToShellCommandView;

    open spec fn deep_view(&self) -> ToShellCommandView {
        ToShellCommandView { shell_command: self.shell_command@ }
    }
}

/// An event that assigns to a variable.
#[derive(Debug, Clone, PartialEq)]
pub struct ToSetVariable {
    pub set_variable: SetVariable,
}

/// The mathematical counterpart of [`ToSetVariable`].
#[verifier::ext_equal]
pub struct ToSetVariableView {
    pub set_variable: SetVariableView,
}

impl DeepView for ToSetVariable {
    type V = ToSetVariableView;

    open spec fn deep_view(&self) -> ToSetVariableView {
        ToSetVariableView { set_variable: self.set_variable.deep_view() }
    }
}

/// An assignment to one of the daemon's named variables.
#[derive(Debug, Clone, PartialEq)]
pub struct SetVariable {
    pub name: String,
    pub value: serde_json::Value,
}

/// The mathematical counterpart of [`SetVariable`].
#[verifier::ext_equal]
pub struct SetVariableView {
    pub name: Seq<char>,
    pub value: serde_json::Value,
}

impl DeepView for SetVariable {
    type V = SetVariableView;

    open spec fn deep_view(&self) -> SetVariableView {
        SetVariableView { name: self.name@, value: self.value }
    }
}

/// An event that moves the pointer or the wheel.
#[derive(Debug, Clone, PartialEq)]
pub struct ToMouseKey {
    pub mouse_key: MouseKey,
}

impl DeepView for ToMouseKey {
    type V = ToMouseKey;

    open spec fn deep_view(&self) -> ToMouseKey {
        *self
    }
}

/// A pointer movement. An unset field is absent from the daemon's document.
/// `speed_multiplier` is kept as the bit pattern of an IEEE 754 double.
#[derive(Debug, Clone, PartialEq)]
pub struct MouseKey {
    pub x: Option<i32>,
    pub y: Option<i32>,
    pub vertical_wheel: Option<i32>,
    pub horizontal_wheel: Option<i32>,
    pub speed_multiplier: Option<u64>,
}

impl DeepView for MouseKey {
    type V = MouseKey;

    open spec fn deep_view(&self) -> MouseKey {
        *self
    }
}

/// When a manipulator is live.
#[derive(Debug, Clone, PartialEq)]
pub enum Condition {
    VariableIf { name: String, value: serde_json::Value },
    VariableUnless { name: String, value: serde_json::Value },
    FrontmostAppIf { bundle_identifiers: Option<Vec<String>>, file_paths: Option<Vec<String>> },
    FrontmostAppUnless { bundle_identifiers: Option<Vec<String>>, file_paths: Option<Vec<String>> },
}

/// The mathematical counterpart of [`Condition`].
#[verifier::ext_equal]
pub enum ConditionView {
    VariableIf { name: Seq<char>, value: serde_json::Value },
    VariableUnless { name: Seq<char>, value: serde_json::Value },
    FrontmostAppIf {
        bundle_identifiers: Option<Seq<Seq<char>>>,
        file_paths: Option<Seq<Seq<char>>>,
    },
    FrontmostAppUnless {
        bundle_identifiers: Option<Seq<Seq<char>>>,
        file_paths: Option<Seq<Seq<char>>>,
    },
}

impl DeepView for Condition {
    type V = ConditionView;

    open spec fn deep_view(&self) -> ConditionView {
        match self {
            Condition::VariableIf { name, value } => ConditionView::VariableIf {
                name: name@,
                value: *value,
            },
            Condition::VariableUnless { name, value } => ConditionView::VariableUnless {
                name: name@,
                value: *value,
            },
            Condition::FrontmostAppIf { bundle_identifiers, file_paths } => {
                ConditionView::FrontmostAppIf {
                    bundle_identifiers: bundle_identifiers.deep_view(),
                    file_paths: file_paths.deep_view(),
                }
            },
            Condition::FrontmostAppUnless { bundle_identifiers, file_paths } => {
                ConditionView::FrontmostAppUnless {
                    bundle_identifiers: bundle_identifiers.deep_view(),
                    file_paths: file_paths.deep_view(),
                }
            },
        }
    }
}

impl ProfileView {
    /// The profile after a merge: `rules` in place of its rules, and
    /// `simple_modifications` in place of its substitutions unless that list
    /// is empty. Every other field stays.
    pub open spec fn merged(
        self,
        rules: Seq<RuleView>,
        simple_modifications: Seq<SimpleModificationEntryView>,
    ) -> ProfileView {
        ProfileView {
            simple_modifications: if simple_modifications.len() > 0 {
                simple_modifications
            } else {
                self.simple_modifications
            },
            complex_modifications: ComplexModificationsView {
                rules,
                ..self.complex_modifications
            },
            ..self
        }
    }
}

impl KarabinerConfigView {
    /// The index of the first profile at or after `start` named `name`.
    pub open spec fn profile_from(self, name: Seq<char>, start: int) -> Option<int>
        decreases self.profiles.len() - start,
    {
        if start < 0 || start >= self.profiles.len() {
            None
        } else if self.profiles[start].name == name {
            Some(start)
        } else {
            self.profile_from(name, start + 1)
        }
    }

    /// The index of the first profile named `name`.
    pub open spec fn profile_index(self, name: Seq<char>) -> Option<int> {
        self.profile_from(name, 0)
    }

    /// The configuration after a merge into the first profile named `name`,
    /// or nothing where no profile has that name. Only that profile changes.
    pub open spec fn merged(
        self,
        name: Seq<char>,
        rules: Seq<RuleView>,
        simple_modifications: Seq<SimpleModificationEntryView>,
    ) -> Option<KarabinerConfigView> {
        match self.profile_index(name) {
            Some(i) => Some(
                KarabinerConfigView {
                    profiles: self.profiles.update(
                        i,
                        self.profiles[i].merged(rules, simple_modifications),
                    ),
                    ..self
                },
            ),
            None => None,
        }
    }
}

/// Why a merge was refused.
#[derive(Debug, Clone, PartialEq)]
pub enum UpdateError {
    /// The configuration has no profile of this name.
    ProfileNotFound { name: String },
}

impl UpdateError {
    /// The error in words.
    pub fn message(&self) -> (r: String)
        ensures
            match self {
                UpdateError::ProfileNotFound { name } => r@ == "Profile '"@ + name@
                    + "' not found"@,
            },
    {
        match self {
            UpdateError::ProfileNotFound { name } => {
                "Profile '".to_string().concat(name.as_str()).concat("' not found")
            },
        }
    }
}

/// Merges compiled rules into the first profile of `config` named
/// `profile_name`.
///
/// The profile's rules become `rules`. Its substitutions become
/// `simple_modifications` unless that list is empty, in which case they
/// stay. Nothing else in the configuration changes. Where no profile has the
/// name, the configuration is left as it was and the error says so.
pub fn update_profile(
    config: &mut KarabinerConfig,
    profile_name: &str,
    rules: Vec<Rule>,
    simple_modifications: Vec<SimpleModificationEntry>,
) -> (r: Result<(), UpdateError>)
    ensures
        match old(config).deep_view().merged(
            profile_name@,
            rules.deep_view(),
            simple_modifications.deep_view(),
        ) {
            Some(merged) => r is Ok && final(config).deep_view() == merged,
            None => {
                &&& r matches Err(UpdateError::ProfileNotFound { name })
                &&& name@ == profile_name@
                &&& *final(config) == *old(config)
            },
        },
{
    let wanted = profile_name.to_string();
    let ghost view = config.deep_view();
    let mut i: usize = 0;
    while i < config.profiles.len()
        invariant
            i <= config.profiles.len(),
            *config == *old(config),
            view == config.deep_view(),
            wanted@ == profile_name@,
            view.profile_index(profile_name@) == view.profile_from(profile_name@, i as int),
        decreases config.profiles.len() - i,
    {
        if config.profiles[i].name == wanted {
            let mut profile = config.profiles.remove(i);
            profile.complex_modifications.rules = rules;
            if !simple_modifications.is_empty() {
                profile.simple_modifications = simple_modifications;
            }
            config.profiles.insert(i, profile);
            return Ok(());
        }
        i += 1;
    }
    Err(UpdateError::ProfileNotFound { name: wanted })
}

} // verus!
