use kar::runtime::{detect_runtime, wrapper_script, Runtime};
use kar::watch::{next_action, WatchAction, WatchEvent, DEBOUNCE_NANOS};

#[test]
fn deno_is_preferred() {
    assert_eq!(detect_runtime(true, true), Some(Runtime::Deno));
    assert_eq!(detect_runtime(true, false), Some(Runtime::Deno));
}

#[test]
fn bun_is_the_fallback() {
    assert_eq!(detect_runtime(false, true), Some(Runtime::Bun));
}

#[test]
fn no_runtime_installed_gives_none() {
    assert_eq!(detect_runtime(false, false), None);
}

#[test]
fn runtime_programs_are_named() {
    assert_eq!(Runtime::Deno.program(), "deno");
    assert_eq!(Runtime::Bun.program(), "bun");
}

#[test]
fn deno_evaluates_with_the_typescript_flag() {
    assert_eq!(
        Runtime::Deno.arguments("x".to_string()),
        vec!["eval".to_string(), "--ext=ts".to_string(), "x".to_string()]
    );
}

#[test]
fn bun_evaluates_the_script_directly() {
    assert_eq!(
        Runtime::Bun.arguments("x".to_string()),
        vec!["eval".to_string(), "x".to_string()]
    );
}

#[test]
fn wrapper_script_imports_the_file_and_prints_json() {
    assert_eq!(
        wrapper_script("/home/me/.config/kar/config.ts"),
        "\nimport config from \"file:///home/me/.config/kar/config.ts\";\nconsole.log(JSON.stringify(config));\n"
    );
    assert_eq!(
        wrapper_script(""),
        "\nimport config from \"file://\";\nconsole.log(JSON.stringify(config));\n"
    );
}

#[test]
fn debounce_is_a_tenth_of_a_second() {
    assert_eq!(DEBOUNCE_NANOS, 100_000_000);
}

#[test]
fn config_change_after_the_window_rebuilds() {
    let event = WatchEvent::Changed { config_changed: true, nanos_since_build: 100_000_001 };
    assert_eq!(next_action(event), WatchAction::Rebuild);
    let late = WatchEvent::Changed { config_changed: true, nanos_since_build: u128::MAX };
    assert_eq!(next_action(late), WatchAction::Rebuild);
}

#[test]
fn config_change_inside_the_window_waits() {
    let edge = WatchEvent::Changed { config_changed: true, nanos_since_build: 100_000_000 };
    assert_eq!(next_action(edge), WatchAction::Wait);
    let early = WatchEvent::Changed { config_changed: true, nanos_since_build: 0 };
    assert_eq!(next_action(early), WatchAction::Wait);
}

#[test]
fn change_to_another_file_waits() {
    let event = WatchEvent::Changed { config_changed: false, nanos_since_build: 5_000_000_000 };
    assert_eq!(next_action(event), WatchAction::Wait);
}

#[test]
fn watcher_failure_is_reported_and_the_loop_goes_on() {
    assert_eq!(next_action(WatchEvent::Failed), WatchAction::Report);
}

#[test]
fn closed_watcher_stops_the_loop() {
    assert_eq!(next_action(WatchEvent::Closed), WatchAction::Stop);
}
