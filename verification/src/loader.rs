//! The loader's control flow: what happens, in what order, when a module is
//! requested.
//!
//! The loader itself never blocks, spawns or opens libraries; those are the
//! shell's outside work.  Instead, each public function here takes the state
//! so far and decides the next step: return the cached handle, open a binary
//! at a resolved path, run a build command, or fail with one of the five
//! fatal errors.  The shell performs the step it is handed and feeds the
//! outcome back in, holding the module's slot lock across the whole
//! exchange.
//!
//! One policy is deliberate: a slot whose load failed is permanently
//! failed.  Every later caller for that name observes the failure; nothing
//! retries the build, which could otherwise run twice.  The build itself
//! runs only when no candidate directory holds the binary and the build
//! mode is not `skip`.

use crate::errors::{err_equiv, LoadError, OverrideProblem};
use crate::fsio::{copy_file, path_exists};
use crate::platform::{spec_lib_suffix, Extensions, Os};
use crate::registry::{CapabilityHandle, LoadSlot};
use crate::search::{
    is_absolute, join_path, module_file_name, spec_candidates, spec_is_absolute, spec_join,
    spec_module_file_name, SearchPaths,
};
use crate::trigger::{
    profile_dir, spec_build_args, spec_out_dir, spec_source_dir, BuildCommand, BuildLog, BuildMode,
    BuildProfile,
};
use vstd::prelude::*;
use vstd::string::*;

verus! {

/// The view of an optional string.
pub open spec fn opt_text(o: Option<String>) -> Option<Seq<char>> {
    match o {
        Some(s) => Some(s@),
        None => None,
    }
}

/// Everything the loader reads from its surroundings, gathered once by the
/// shell at the start of a load attempt: the target platform, the host's
/// own build profile, the parsed build mode, and the four optional
/// directories.  `exe_dir` is the directory of the running executable's
/// resolved location (symlink-canonicalized by the shell, falling back to
/// the unresolved path), `None` when even that could not be determined.
pub struct EnvSnapshot {
    pub os: Os,
    pub profile: BuildProfile,
    pub build_mode: BuildMode,
    pub mod_dir: Option<String>,
    pub exe_dir: Option<String>,
    pub out_dir: Option<String>,
    pub source_root: Option<String>,
}

/// Validates the module-directory override before any other work: when set,
/// it must be an absolute path and must exist on disk; violating either is
/// fatal, with no silent fallback.  An unset override always passes.  The
/// not-absolute error is raised exactly on relative overrides; an absolute
/// override passes, or fails as missing with that same directory, as the
/// disk reports it.
pub fn check_override(mod_dir: &Option<String>) -> (r: Result<(), LoadError>)
    ensures
        mod_dir is None ==> r is Ok,
        mod_dir matches Some(d) ==> (!spec_is_absolute(d@) ==> (r matches Err(e)
            && e matches LoadError::PathOverrideInvalid { dir, problem } && dir@ == d@ && problem
            == OverrideProblem::NotAbsolute)),
        r matches Err(e) ==> (mod_dir matches Some(d)
            && e matches LoadError::PathOverrideInvalid { dir, problem } && dir@ == d@ && (problem
            == OverrideProblem::Missing ==> spec_is_absolute(d@)) && (problem
            == OverrideProblem::NotAbsolute ==> !spec_is_absolute(d@))),
{
    match mod_dir {
        None => Ok(()),
        Some(d) => {
            if !is_absolute(d.as_str()) {
                Err(
                    LoadError::PathOverrideInvalid {
                        dir: d.clone(),
                        problem: OverrideProblem::NotAbsolute,
                    },
                )
            } else if !path_exists(d.as_str()) {
                Err(
                    LoadError::PathOverrideInvalid {
                        dir: d.clone(),
                        problem: OverrideProblem::Missing,
                    },
                )
            } else {
                Ok(())
            }
        },
    }
}

proof fn lemma_open_path_in_candidates(
    sp: SearchPaths,
    mod_name_v: Seq<char>,
    path_v: Seq<char>,
    mod_dir: Option<Seq<char>>,
    exe_dir: Option<Seq<char>>,
    os: Os,
)
    requires
        sp.paths.deep_view() == spec_candidates(mod_dir, exe_dir),
        sp.lib_ext@ == spec_lib_suffix(os),
        exists|i: int|
            0 <= i < sp.paths@.len() && path_v == spec_join(
                sp.paths@[i]@,
                spec_module_file_name(mod_name_v, sp.lib_ext@),
            ),
    ensures
        exists|i: int|
            0 <= i < spec_candidates(mod_dir, exe_dir).len() && path_v == spec_join(
                spec_candidates(mod_dir, exe_dir)[i],
                spec_module_file_name(mod_name_v, spec_lib_suffix(os)),
            ),
{
    let i = choose|i: int|
        0 <= i < sp.paths@.len() && path_v == spec_join(
            sp.paths@[i]@,
            spec_module_file_name(mod_name_v, sp.lib_ext@),
        );
    assert(sp.paths.deep_view().len() == sp.paths@.len());
    assert(sp.paths.deep_view()[i] == sp.paths@[i]@);
    assert(0 <= i < spec_candidates(mod_dir, exe_dir).len() && path_v == spec_join(
        spec_candidates(mod_dir, exe_dir)[i],
        spec_module_file_name(mod_name_v, spec_lib_suffix(os)),
    ));
}

/// The next thing the shell must do for a load request.
pub enum LoadStep {
    /// The module is already loaded: this is its handle, the same value
    /// every caller gets.
    Done { handle: CapabilityHandle },
    /// Open the shared library at `path` and resolve its entry point.
    Open { path: String },
    /// Run this build command, then report back with `after_build`.
    RunBuild { command: BuildCommand },
    /// The load failed; the module's slot is permanently failed.
    Fail { error: LoadError },
}

/// Begins a load request for `mod_name` against its slot, which the caller
/// holds exclusively.  A loaded slot answers from the cache with no further
/// work; a failed slot reports its failure; an empty slot enters the
/// loading phase and is taken through override validation and path
/// resolution to the first step of real work.
pub fn start_load(slot: &mut LoadSlot, mod_name: &str, env: &EnvSnapshot) -> (r: LoadStep)
    requires
        !(*old(slot) is Loading),
        env.os != Os::Unsupported,
    ensures
        *old(slot) matches LoadSlot::Loaded(h) ==> (r matches LoadStep::Done { handle } && handle
            == h && *final(slot) == *old(slot)),
        *old(slot) matches LoadSlot::Failed(e) ==> (r matches LoadStep::Fail { error }
            && err_equiv(error, e) && *final(slot) == *old(slot)),
        *old(slot) is Empty ==> !(r is Done),
        *old(slot) is Empty && (r is Open || r is RunBuild) ==> *final(slot) is Loading,
        *old(slot) is Empty ==> (r matches LoadStep::Fail { error } ==> (*final(slot)
            matches LoadSlot::Failed(e2) && err_equiv(e2, error)) && (error
            matches LoadError::PathOverrideInvalid { .. } || error
            matches LoadError::ModuleNotFound { .. })),
        *old(slot) is Empty ==> (env.mod_dir matches Some(d) ==> (!spec_is_absolute(d@) ==> (r
            matches LoadStep::Fail { error }
            && error matches LoadError::PathOverrideInvalid { dir, problem } && dir@ == d@
            && problem == OverrideProblem::NotAbsolute))),
        *old(slot) is Empty ==> (r matches LoadStep::Fail { error } ==> (error
            matches LoadError::PathOverrideInvalid { dir, problem } ==> (env.mod_dir
            matches Some(d) && dir@ == d@ && (problem == OverrideProblem::Missing
            ==> spec_is_absolute(d@)) && (problem == OverrideProblem::NotAbsolute
            ==> !spec_is_absolute(d@))))),
        *old(slot) is Empty ==> ((r is Open || r is RunBuild) ==> (env.mod_dir matches Some(d)
            ==> spec_is_absolute(d@))),
        *old(slot) is Empty ==> (r matches LoadStep::Fail { error } ==> (error
            matches LoadError::ModuleNotFound { searched } ==> env.build_mode == BuildMode::Skip
            && searched.deep_view() == spec_candidates(
            opt_text(env.mod_dir),
            opt_text(env.exe_dir),
        ))),
        *old(slot) is Empty ==> (r matches LoadStep::RunBuild { command } ==> env.build_mode
            != BuildMode::Skip && command.program@ == "cargo"@ && command.args.deep_view()
            == spec_build_args(env.profile) && command.current_dir@ == spec_source_dir(
            opt_text(env.source_root),
            mod_name@,
        ) && command.env_key@ == "CARGO_TARGET_DIR"@ && command.env_value@ == spec_out_dir(
            opt_text(env.out_dir),
        )),
        *old(slot) is Empty ==> (r matches LoadStep::Open { path } ==> exists|i: int|
            0 <= i < spec_candidates(opt_text(env.mod_dir), opt_text(env.exe_dir)).len() && path@
                == spec_join(
                spec_candidates(opt_text(env.mod_dir), opt_text(env.exe_dir))[i],
                spec_module_file_name(mod_name@, spec_lib_suffix(env.os)),
            )),
{
    if let Some(handle) = slot.current() {
        return LoadStep::Done { handle };
    }
    let prior: Option<LoadError> = match &*slot {
        LoadSlot::Failed(e) => Some(e.duplicate()),
        _ => None,
    };
    if let Some(error) = prior {
        return LoadStep::Fail { error };
    }
    let won = slot.try_begin();
    proof {
        assert(won);
    }
    if let Err(error) = check_override(&env.mod_dir) {
        slot.mark_failed(error.duplicate());
        return LoadStep::Fail { error };
    }
    let exts = match Extensions::get(env.os) {
        Some(x) => x,
        None => vstd::pervasive::unreached(),
    };
    let sp = SearchPaths::from_parts(env.mod_dir.as_ref(), env.exe_dir.as_ref(), exts.lib.as_str());
    match sp.find_module(mod_name) {
        Some(path) => {
            proof {
                lemma_open_path_in_candidates(
                    sp,
                    mod_name@,
                    path@,
                    opt_text(env.mod_dir),
                    opt_text(env.exe_dir),
                    env.os,
                );
            }
            LoadStep::Open { path }
        },
        None => {
            match env.build_mode {
                BuildMode::Skip => {
                    let error = LoadError::ModuleNotFound { searched: sp.searched() };
                    slot.mark_failed(error.duplicate());
                    LoadStep::Fail { error }
                },
                _ => LoadStep::RunBuild {
                    command: BuildCommand::for_module(
                        mod_name,
                        env.source_root.as_ref(),
                        env.out_dir.as_ref(),
                        env.profile,
                    ),
                },
            }
        },
    }
}

/// What follows a finished build.
pub enum PostBuild {
    /// The binary is in place: open the shared library at `path`.
    Open { path: String },
    /// The build failed, or its artifact still cannot be found.
    Fail { error: LoadError },
}

/// Interprets a finished build for `mod_name`.  A non-zero exit is fatal
/// and surfaces the entire captured log as the error payload.  On success
/// the freshly built binary (and, best effort, its debug-info companion)
/// is copied from the build-output directory to the highest-priority
/// search directory, and the candidates are re-resolved.
pub fn after_build(mod_name: &str, env: &EnvSnapshot, exit_code: i32, log: BuildLog) -> (r:
    PostBuild)
    requires
        env.os != Os::Unsupported,
    ensures
        exit_code != 0 ==> (r matches PostBuild::Fail { error }
            && error matches LoadError::BuildFailure { log: l } && l == log),
        exit_code == 0 ==> (r matches PostBuild::Fail { error } ==> (error
            matches LoadError::ModuleNotFound { searched } && searched.deep_view()
            == spec_candidates(opt_text(env.mod_dir), opt_text(env.exe_dir)))),
        r matches PostBuild::Open { path } ==> exit_code == 0 && exists|i: int|
            0 <= i < spec_candidates(opt_text(env.mod_dir), opt_text(env.exe_dir)).len() && path@
                == spec_join(
                spec_candidates(opt_text(env.mod_dir), opt_text(env.exe_dir))[i],
                spec_module_file_name(mod_name@, spec_lib_suffix(env.os)),
            ),
{
    if exit_code != 0 {
        return PostBuild::Fail { error: LoadError::BuildFailure { log } };
    }
    let exts = match Extensions::get(env.os) {
        Some(x) => x,
        None => vstd::pervasive::unreached(),
    };
    let file_name = module_file_name(mod_name, exts.lib.as_str());
    let out_root: String = match env.out_dir.as_ref() {
        Some(d) => d.clone(),
        None => "target".to_owned(),
    };
    let from_dir = join_path(out_root.as_str(), profile_dir(env.profile).as_str());
    let sp = SearchPaths::from_parts(env.mod_dir.as_ref(), env.exe_dir.as_ref(), exts.lib.as_str());
    if sp.paths.len() > 0 {
        let from = join_path(from_dir.as_str(), file_name.as_str());
        let dest = join_path(sp.paths[0].as_str(), file_name.as_str());
        let _copied: bool = copy_file(from.as_str(), dest.as_str());
        let mut dbg_name = file_name.clone();
        dbg_name.append(".");
        dbg_name.append(exts.dbg.as_str());
        let from_dbg = join_path(from_dir.as_str(), dbg_name.as_str());
        let dest_dbg = join_path(sp.paths[0].as_str(), dbg_name.as_str());
        let _copied_dbg: bool = copy_file(from_dbg.as_str(), dest_dbg.as_str());
    }
    match sp.find_module(mod_name) {
        Some(path) => {
            proof {
                lemma_open_path_in_candidates(
                    sp,
                    mod_name@,
                    path@,
                    opt_text(env.mod_dir),
                    opt_text(env.exe_dir),
                    env.os,
                );
            }
            PostBuild::Open { path }
        },
        None => PostBuild::Fail { error: LoadError::ModuleNotFound { searched: sp.searched() } },
    }
}

/// What the shell observed when it opened the resolved binary and looked up
/// the module's single contractual entry point.
pub enum OpenOutcome {
    /// The entry point ran and produced the module's handle.
    Entry { handle: CapabilityHandle },
    /// The dynamic-loading call itself failed; the OS diagnostic text.
    OpenFailed { diagnostic: String },
    /// The library opened but the entry-point symbol is absent; the OS
    /// diagnostic text.
    SymbolMissing { diagnostic: String },
}

/// Classifies what came back from the dynamic-library open: a produced
/// handle is the result; either failure becomes its error, carrying the OS
/// diagnostic unchanged.
pub fn after_open(outcome: OpenOutcome) -> (r: Result<CapabilityHandle, LoadError>)
    ensures
        outcome matches OpenOutcome::Entry { handle } ==> r == Ok::<
            CapabilityHandle,
            LoadError,
        >(handle),
        outcome matches OpenOutcome::OpenFailed { diagnostic } ==> r matches Err(e)
            && e matches LoadError::LoadFailure { diagnostic: d } && d == diagnostic,
        outcome matches OpenOutcome::SymbolMissing { diagnostic } ==> r matches Err(e)
            && e matches LoadError::SymbolResolutionFailure { diagnostic: d } && d == diagnostic,
{
    match outcome {
        OpenOutcome::Entry { handle } => Ok(handle),
        OpenOutcome::OpenFailed { diagnostic } => Err(LoadError::LoadFailure { diagnostic }),
        OpenOutcome::SymbolMissing { diagnostic } => Err(
            LoadError::SymbolResolutionFailure { diagnostic },
        ),
    }
}

/// Settles the slot once the load attempt is over: a produced handle is
/// stored (`Loading -> Loaded`) and returned; a failure permanently fails
/// the slot, and the caller keeps its own copy of the error to report.
pub fn finish_load(slot: &mut LoadSlot, result: &Result<CapabilityHandle, LoadError>) -> (r:
    Option<CapabilityHandle>)
    requires
        *old(slot) is Loading,
    ensures
        result matches Ok(h) ==> *final(slot) == LoadSlot::Loaded(*h) && r == Some(*h),
        result matches Err(e) ==> (*final(slot) matches LoadSlot::Failed(e2) && err_equiv(e2, *e))
            && r is None,
{
    match result {
        Ok(h) => {
            slot.complete(*h);
            Some(*h)
        },
        Err(e) => {
            slot.mark_failed(e.duplicate());
            None
        },
    }
}

} // verus!
