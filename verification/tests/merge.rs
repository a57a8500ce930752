use kar::config::{to_karabiner_rules, to_simple_modifications, ProfileSettings, UserConfig};
use kar::simlayers::Simlayers;
use kar::karabiner::{
    update_profile, ComplexModifications, FromEvent, FromKeyCode, FromModifiers, Global,
    KarabinerConfig, Manipulator, ManipulatorParameters, Parameters, Profile, Rule,
    SimpleModificationEntry, SimpleModificationKey, ToEvent, ToKeyCode, UpdateError,
};

fn s(text: &str) -> String {
    text.to_string()
}

fn entry(from: &str, to: &str) -> SimpleModificationEntry {
    SimpleModificationEntry {
        from: SimpleModificationKey { key_code: s(from) },
        to: vec![SimpleModificationKey { key_code: s(to) }],
    }
}

fn rule(description: &str, from: &str, to: &str) -> Rule {
    Rule {
        description: s(description),
        manipulators: vec![Manipulator {
            manipulator_type: s("basic"),
            from: FromEvent::KeyCode(FromKeyCode { key_code: s(from), modifiers: None }),
            to: Some(vec![ToEvent::KeyCode(ToKeyCode {
                key_code: s(to),
                modifiers: None,
                lazy: None,
                repeat: None,
            })]),
            to_if_alone: None,
            to_if_held_down: None,
            to_after_key_up: None,
            conditions: None,
            parameters: None,
        }],
    }
}

fn unknown_fields(marker: &str) -> serde_json::Map<String, serde_json::Value> {
    let mut other = serde_json::Map::new();
    other.insert(s("virtual_hid_keyboard"), serde_json::Value::String(s(marker)));
    other.insert(s("devices"), serde_json::Value::Array(vec![serde_json::Value::from(7)]));
    other
}

fn profile(name: &str, selected: bool, marker: &str) -> Profile {
    Profile {
        name: s(name),
        selected,
        simple_modifications: vec![entry("caps_lock", "escape")],
        complex_modifications: ComplexModifications {
            parameters: Parameters {
                simultaneous_threshold: Some(50),
                to_if_alone_timeout: None,
                to_if_held_down_threshold: Some(500),
                to_delayed_action_delay: None,
            },
            rules: vec![rule("old", "a", "b"), rule("older", "c", "d")],
        },
        other: unknown_fields(marker),
    }
}

fn daemon_config() -> KarabinerConfig {
    KarabinerConfig {
        global: Some(Global {
            check_for_updates_on_startup: Some(true),
            show_in_menu_bar: None,
            show_profile_name_in_menu_bar: Some(false),
        }),
        profiles: vec![
            profile("Default", true, "first"),
            profile("kar", false, "second"),
            profile("kar", false, "third"),
        ],
    }
}

#[test]
fn merge_replaces_rules_and_substitutions_of_the_named_profile() {
    let mut config = daemon_config();
    let rules = vec![rule("new", "x", "y")];
    let simple = vec![entry("tab", "escape"), entry("a", "b")];
    assert_eq!(update_profile(&mut config, "Default", rules, simple), Ok(()));
    let mut want = daemon_config();
    want.profiles[0].complex_modifications.rules = vec![rule("new", "x", "y")];
    want.profiles[0].simple_modifications = vec![entry("tab", "escape"), entry("a", "b")];
    assert_eq!(config, want);
}

#[test]
fn merge_with_no_substitutions_keeps_the_old_ones() {
    let mut config = daemon_config();
    assert_eq!(update_profile(&mut config, "Default", vec![rule("new", "x", "y")], vec![]), Ok(()));
    assert_eq!(config.profiles[0].simple_modifications, vec![entry("caps_lock", "escape")]);
    assert_eq!(config.profiles[0].complex_modifications.rules, vec![rule("new", "x", "y")]);
}

#[test]
fn merge_of_an_empty_configuration_clears_rules_and_keeps_substitutions() {
    let source =
        UserConfig { profile: ProfileSettings::default(), simlayers: Simlayers::new(), simple: vec![], rules: vec![] };
    let rules = to_karabiner_rules(&source).unwrap();
    let simple = to_simple_modifications(&source);
    let mut config = daemon_config();
    assert_eq!(update_profile(&mut config, "Default", rules, simple), Ok(()));
    let mut want = daemon_config();
    want.profiles[0].complex_modifications.rules = vec![];
    assert_eq!(config, want);
    assert_eq!(config.profiles[0].simple_modifications, vec![entry("caps_lock", "escape")]);
    assert!(config.profiles[0].complex_modifications.rules.is_empty());
}

#[test]
fn merge_into_a_missing_profile_fails_and_changes_nothing() {
    let mut config = daemon_config();
    let got = update_profile(&mut config, "work", vec![rule("new", "x", "y")], vec![entry("a", "b")]);
    assert_eq!(got, Err(UpdateError::ProfileNotFound { name: s("work") }));
    assert_eq!(config, daemon_config());
}

#[test]
fn merge_into_a_configuration_without_profiles_fails() {
    let mut config = KarabinerConfig { global: None, profiles: vec![] };
    let got = update_profile(&mut config, "kar", vec![], vec![]);
    assert_eq!(got, Err(UpdateError::ProfileNotFound { name: s("kar") }));
    assert_eq!(config, KarabinerConfig { global: None, profiles: vec![] });
}

#[test]
fn merge_matches_the_name_exactly() {
    let mut config = daemon_config();
    assert!(update_profile(&mut config, "default", vec![], vec![]).is_err());
    assert!(update_profile(&mut config, "Default ", vec![], vec![]).is_err());
    assert!(update_profile(&mut config, "", vec![], vec![]).is_err());
    assert_eq!(config, daemon_config());
}

#[test]
fn merge_changes_the_first_profile_of_the_name_only() {
    let mut config = daemon_config();
    assert_eq!(update_profile(&mut config, "kar", vec![rule("new", "x", "y")], vec![]), Ok(()));
    let mut want = daemon_config();
    want.profiles[1].complex_modifications.rules = vec![rule("new", "x", "y")];
    assert_eq!(config, want);
    assert_eq!(config.profiles[2], profile("kar", false, "third"));
}

#[test]
fn merge_passes_everything_else_through() {
    let mut config = daemon_config();
    let simple = vec![entry("a", "b")];
    assert_eq!(update_profile(&mut config, "kar", vec![], simple), Ok(()));
    let before = daemon_config();
    assert_eq!(config.global, before.global);
    assert_eq!(config.profiles.len(), 3);
    assert_eq!(config.profiles[0], before.profiles[0]);
    assert_eq!(config.profiles[2], before.profiles[2]);
    let merged = &config.profiles[1];
    assert_eq!(merged.name, "kar");
    assert_eq!(merged.selected, false);
    assert_eq!(merged.other, unknown_fields("second"));
    assert_eq!(
        merged.complex_modifications.parameters,
        before.profiles[1].complex_modifications.parameters
    );
    assert_eq!(merged.simple_modifications, vec![entry("a", "b")]);
    assert!(merged.complex_modifications.rules.is_empty());
}

#[test]
fn missing_profile_message_names_the_profile() {
    let error = UpdateError::ProfileNotFound { name: s("work") };
    assert_eq!(error.message(), "Profile 'work' not found");
    let empty = UpdateError::ProfileNotFound { name: s("") };
    assert_eq!(empty.message(), "Profile '' not found");
}

#[test]
fn defaults_leave_everything_unset() {
    assert_eq!(
        Parameters::default(),
        Parameters {
            simultaneous_threshold: None,
            to_if_alone_timeout: None,
            to_if_held_down_threshold: None,
            to_delayed_action_delay: None,
        }
    );
    assert_eq!(
        ComplexModifications::default(),
        ComplexModifications { parameters: Parameters::default(), rules: vec![] }
    );
    assert_eq!(ManipulatorParameters::default(), ManipulatorParameters { simultaneous_threshold: None });
    assert_eq!(FromModifiers::default(), FromModifiers { mandatory: None, optional: None });
}
