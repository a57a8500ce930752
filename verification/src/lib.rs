//! Compiles a short, declarative keyboard-remapping configuration into the
//! complex-modification rules of a remapping daemon, and merges the outcome
//! into one profile of the daemon's configuration.
//!
//! [`config`] holds the user-facing schema and the compiler, [`simlayers`]
//! the table of layers by name, [`expansion`] what a configuration compiles
//! to, [`karabiner`] the daemon's schema and the profile merge, [`json`] the
//! JSON values that are carried through unopened, and [`laws`] what holds of
//! every compilation and merge. [`runtime`] and [`watch`] hold the decisions
//! of the program around the compiler: which script runtime to start, and
//! when to rebuild.
//!
//! Every type of the two schemas has a mathematical counterpart, reached by
//! `deep_view()`, and the contracts are stated over those counterparts.

pub mod config;
pub mod expansion;
pub mod json;
pub mod karabiner;
pub mod laws;
pub mod runtime;
pub mod simlayers;
pub mod watch;
