//! The loader's failure taxonomy.  Every variant is process-fatal: nothing
//! inside one `load` call recovers from any of them, and callers blocked on
//! the same module observe the failure rather than retrying the work.

use crate::search::clone_strings;
use crate::trigger::{log_equiv, spec_render, BuildLog};
use vstd::prelude::*;
use vstd::string::*;

verus! {

/// Which rule a directory override broke.
#[derive(Clone, Copy, PartialEq, Eq, Structural, Debug)]
pub enum OverrideProblem {
    /// The override is set but is not an absolute path.
    NotAbsolute,
    /// The override is set but does not exist on disk.
    Missing,
}

/// Why a `load` call failed.  Each failure aborts the call; the slot the
/// call was filling becomes permanently failed, so later callers for the
/// same module observe the failure instead of re-running the work.
#[derive(Debug)]
pub enum LoadError {
    /// The module-directory override is set but invalid; raised before any
    /// other work, with no silent fallback.
    PathOverrideInvalid { dir: String, problem: OverrideProblem },
    /// No candidate directory held the module's binary and building was
    /// skipped; carries every directory searched, in priority order.
    ModuleNotFound { searched: Vec<String> },
    /// The external build command exited non-zero; carries the full
    /// interleaved output log.
    BuildFailure { log: BuildLog },
    /// The dynamic-loading call failed; carries the OS diagnostic text.
    LoadFailure { diagnostic: String },
    /// The library loaded but the fixed entry-point symbol is absent;
    /// carries the OS diagnostic text.
    SymbolResolutionFailure { diagnostic: String },
}

/// Whether two errors report the same failure: the same variant with the
/// same carried values.
pub open spec fn err_equiv(a: LoadError, b: LoadError) -> bool {
    match (a, b) {
        (
            LoadError::PathOverrideInvalid { dir: d1, problem: p1 },
            LoadError::PathOverrideInvalid { dir: d2, problem: p2 },
        ) => d1@ == d2@ && p1 == p2,
        (
            LoadError::ModuleNotFound { searched: s1 },
            LoadError::ModuleNotFound { searched: s2 },
        ) => s1.deep_view() == s2.deep_view(),
        (LoadError::BuildFailure { log: l1 }, LoadError::BuildFailure { log: l2 }) => log_equiv(
            l1,
            l2,
        ),
        (
            LoadError::LoadFailure { diagnostic: d1 },
            LoadError::LoadFailure { diagnostic: d2 },
        ) => d1@ == d2@,
        (
            LoadError::SymbolResolutionFailure { diagnostic: d1 },
            LoadError::SymbolResolutionFailure { diagnostic: d2 },
        ) => d1@ == d2@,
        _ => false,
    }
}

/// The searched directories as one indented line each.
pub open spec fn spec_dir_list(dirs: Seq<Seq<char>>) -> Seq<char>
    decreases dirs.len(),
{
    if dirs.len() == 0 {
        Seq::<char>::empty()
    } else {
        spec_dir_list(dirs.drop_last()) + "  "@ + dirs.last() + "\n"@
    }
}

/// The rendered diagnostic text of `e`.
pub open spec fn spec_message(e: LoadError) -> Seq<char> {
    match e {
        LoadError::PathOverrideInvalid { dir, problem } => (match problem {
            OverrideProblem::NotAbsolute => "module directory override must be an absolute path: "@,
            OverrideProblem::Missing => "module directory override does not exist: "@,
        }) + dir@,
        LoadError::ModuleNotFound { searched } => "module not found; searched:\n"@ + spec_dir_list(
            searched.deep_view(),
        ),
        LoadError::BuildFailure { log } => "build command failed:\n"@ + spec_render(log.lines@),
        LoadError::LoadFailure { diagnostic } => "failed to load dynamic library: "@ + diagnostic@,
        LoadError::SymbolResolutionFailure { diagnostic } => "entry-point symbol not found: "@
            + diagnostic@,
    }
}

fn dir_list(dirs: &Vec<String>) -> (r: String)
    ensures
        r@ == spec_dir_list(dirs.deep_view()),
{
    let mut s = String::new();
    let mut i: usize = 0;
    while i < dirs.len()
        invariant
            i <= dirs.len(),
            s@ == spec_dir_list(dirs.deep_view().take(i as int)),
        decreases dirs.len() - i,
    {
        s.append("  ");
        s.append(dirs[i].as_str());
        s.append("\n");
        proof {
            let t = dirs.deep_view().take(i as int + 1);
            assert(t.drop_last() =~= dirs.deep_view().take(i as int));
            assert(t.last() == dirs@[i as int]@);
            assert(s@ =~= spec_dir_list(t));
        }
        i = i + 1;
    }
    proof {
        assert(dirs.deep_view().take(dirs.deep_view().len() as int) =~= dirs.deep_view());
    }
    s
}

impl LoadError {
    /// An equivalent copy of the error, for handing the same failure to a
    /// second observer.
    pub fn duplicate(&self) -> (r: LoadError)
        ensures
            err_equiv(r, *self),
    {
        match self {
            LoadError::PathOverrideInvalid { dir, problem } => LoadError::PathOverrideInvalid {
                dir: dir.clone(),
                problem: *problem,
            },
            LoadError::ModuleNotFound { searched } => LoadError::ModuleNotFound {
                searched: clone_strings(searched),
            },
            LoadError::BuildFailure { log } => LoadError::BuildFailure { log: log.duplicate() },
            LoadError::LoadFailure { diagnostic } => LoadError::LoadFailure {
                diagnostic: diagnostic.clone(),
            },
            LoadError::SymbolResolutionFailure { diagnostic } => {
                LoadError::SymbolResolutionFailure { diagnostic: diagnostic.clone() }
            },
        }
    }

    /// The diagnostic text of the error, for the shell to report before it
    /// terminates the process.
    pub fn message(&self) -> (r: String)
        ensures
            r@ == spec_message(*self),
    {
        match self {
            LoadError::PathOverrideInvalid { dir, problem } => {
                let mut s: String = match problem {
                    OverrideProblem::NotAbsolute => {
                        "module directory override must be an absolute path: ".to_owned()
                    },
                    OverrideProblem::Missing => {
                        "module directory override does not exist: ".to_owned()
                    },
                };
                s.append(dir.as_str());
                s
            },
            LoadError::ModuleNotFound { searched } => {
                let mut s: String = "module not found; searched:\n".to_owned();
                s.append(dir_list(searched).as_str());
                s
            },
            LoadError::BuildFailure { log } => {
                let mut s: String = "build command failed:\n".to_owned();
                s.append(log.render().as_str());
                s
            },
            LoadError::LoadFailure { diagnostic } => {
                let mut s: String = "failed to load dynamic library: ".to_owned();
                s.append(diagnostic.as_str());
                s
            },
            LoadError::SymbolResolutionFailure { diagnostic } => {
                let mut s: String = "entry-point symbol not found: ".to_owned();
                s.append(diagnostic.as_str());
                s
            },
        }
    }
}

} // verus!
