//! Which script runtime evaluates the user's configuration script, and what
//! it is asked to run. Finding the runtimes and starting one is the
//! caller's part; the choice and the command line are made here.

use vstd::prelude::*;
use vstd::string::StringExecFns;

verus! {

/// A runtime that can evaluate a TypeScript configuration.
#[derive(Debug, Clone, Copy, PartialEq, Eq)]
pub enum Runtime {
    Deno,
    Bun,
}

impl Runtime {
    /// The name of the runtime's program.
    pub open spec fn program_name(self) -> Seq<char> {
        match self {
            Runtime::Deno => "deno"@,
            Runtime::Bun => "bun"@,
        }
    }

    /// The arguments that make the runtime evaluate `script`.
    pub open spec fn evaluation(self, script: Seq<char>) -> Seq<Seq<char>> {
        match self {
            Runtime::Deno => seq!["eval"@, "--ext=ts"@, script],
            Runtime::Bun => seq!["eval"@, script],
        }
    }

    /// The name of the runtime's program.
    pub fn program(&self) -> (r: &'static str)
        ensures
            r@ == self.program_name(),
    {
        match self {
            Runtime::Deno => "deno",
            Runtime::Bun => "bun",
        }
    }

    /// The arguments that make the runtime evaluate `script`.
    pub fn arguments(&self, script: String) -> (r: Vec<String>)
        ensures
            r.deep_view() == self.evaluation(script@),
    {
        match self {
            Runtime::Deno => vec!["eval".to_string(), "--ext=ts".to_string(), script],
            Runtime::Bun => vec!["eval".to_string(), script],
        }
    }
}

/// Picks the runtime to use, given which ones are installed: Deno where it
/// is, else Bun, else none.
pub fn detect_runtime(deno_installed: bool, bun_installed: bool) -> (r: Option<Runtime>)
    ensures
        r == if deno_installed {
            Some(Runtime::Deno)
        } else if bun_installed {
            Some(Runtime::Bun)
        } else {
            None::<Runtime>
        },
{
    if deno_installed {
        Some(Runtime::Deno)
    } else if bun_installed {
        Some(Runtime::Bun)
    } else {
        None
    }
}

/// The script that prints the configuration at `config_path` as JSON.
pub open spec fn script_for(config_path: Seq<char>) -> Seq<char> {
    "\nimport config from \"file://"@ + config_path
        + "\";\nconsole.log(JSON.stringify(config));\n"@
}

/// The script that imports the configuration at `config_path`, an absolute
/// path, and prints it as JSON.
pub fn wrapper_script(config_path: &str) -> (r: String)
    ensures
        r@ == script_for(config_path@),
{
    "\nimport config from \"file://".to_string().concat(config_path).concat(
        "\";\nconsole.log(JSON.stringify(config));\n",
    )
}

} // verus!
