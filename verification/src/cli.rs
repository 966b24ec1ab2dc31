//! Data model of the companion command-line tool that maintains module
//! crates in a workspace.  The tool's file walking, argument parsing and
//! manifest editing are conventional I/O and live outside this crate; the
//! types that describe its requests are plain data and are kept here.

use vstd::prelude::*;
use vstd::string::*;

verus! {

/// What part of a workspace a command applies to: every module, or a single
/// module named without its `mod-` directory prefix.
#[derive(Debug, Clone, PartialEq, Eq)]
pub enum Scope {
    Workspace,
    Module(String),
}

/// Whether a module called `name` falls inside scope `s`.
pub open spec fn spec_selects(s: Scope, name: Seq<char>) -> bool {
    match s {
        Scope::Workspace => true,
        Scope::Module(m) => m@ == name,
    }
}

impl Scope {
    /// Whether a module called `name` falls inside this scope: a workspace
    /// scope selects every module, a module scope only its own name.
    pub fn selects(&self, name: &str) -> (r: bool)
        ensures
            r == spec_selects(*self, name@),
    {
        match self {
            Scope::Workspace => true,
            Scope::Module(m) => {
                let key: String = name.to_owned();
                *m == key
            },
        }
    }
}

/// Why a module's consumer-facing crate is regenerated.
#[derive(Clone, Copy, PartialEq, Eq, Structural, Debug)]
pub enum ProcessReason {
    /// Regeneration was forced.
    Force,
    /// The consumer crate does not exist yet.
    Missing,
    /// The module's sources are newer than the consumer crate.
    Modified,
}

/// A parsed command of the companion tool.
pub enum DyloCommand {
    /// Regenerate consumer crates in `scope`, unconditionally when `force`.
    Default { force: bool, scope: Scope },
    /// Add dependencies to a module, implementation-only when `is_impl`.
    Add { scope: Scope, is_impl: bool, deps: Vec<String> },
    /// Remove dependencies from a module.
    Rm { scope: Scope, deps: Vec<String> },
}

} // verus!
