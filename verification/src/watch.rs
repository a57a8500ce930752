//! The decisions of the rebuild loop. The loop itself waits on the file
//! watcher and rebuilds; what it does with each report is decided here.

use vstd::prelude::*;

verus! {

/// How long after the start of a build further changes are passed over, in
/// nanoseconds: a tenth of a second.
pub const DEBOUNCE_NANOS: u128 = 100_000_000;

/// What the file watcher reports.
#[derive(Debug, Clone, Copy, PartialEq, Eq)]
pub enum WatchEvent {
    /// Files changed. `config_changed` says whether the configuration file
    /// is among them, `nanos_since_build` how long ago the last build began.
    Changed { config_changed: bool, nanos_since_build: u128 },
    /// The watcher failed to report.
    Failed,
    /// The watcher is gone.
    Closed,
}

/// What the loop does next.
#[derive(Debug, Clone, Copy, PartialEq, Eq)]
pub enum WatchAction {
    /// Build now, and count time from this build on.
    Rebuild,
    /// Wait for the next report.
    Wait,
    /// Report the watcher's failure and wait for the next report.
    Report,
    /// Leave the loop.
    Stop,
}

/// The action that a report calls for. A change to the configuration file
/// calls for a build unless the last build began no more than
/// `DEBOUNCE_NANOS` ago, so that a burst of changes gives one build.
pub open spec fn action_for(event: WatchEvent) -> WatchAction {
    match event {
        WatchEvent::Changed { config_changed, nanos_since_build } => {
            if config_changed && nanos_since_build > DEBOUNCE_NANOS {
                WatchAction::Rebuild
            } else {
                WatchAction::Wait
            }
        },
        WatchEvent::Failed => WatchAction::Report,
        WatchEvent::Closed => WatchAction::Stop,
    }
}

/// Decides what the loop does with one report of the watcher.
pub fn next_action(event: WatchEvent) -> (r: WatchAction)
    ensures
        r == action_for(event),
{
    match event {
        WatchEvent::Changed { config_changed, nanos_since_build } => {
            if config_changed && nanos_since_build > DEBOUNCE_NANOS {
                WatchAction::Rebuild
            } else {
                WatchAction::Wait
            }
        },
        WatchEvent::Failed => WatchAction::Report,
        WatchEvent::Closed => WatchAction::Stop,
    }
}

} // verus!
