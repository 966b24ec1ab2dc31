use dylo_runtime::errors::{LoadError, OverrideProblem};
use dylo_runtime::loader::{
    after_build, after_open, check_override, finish_load, start_load, EnvSnapshot, LoadStep,
    OpenOutcome, PostBuild,
};
use dylo_runtime::platform::Os;
use dylo_runtime::registry::{CapabilityHandle, LoadSlot};
use dylo_runtime::trigger::{BuildLog, BuildMode, BuildProfile, StreamKind};

fn env_with(mod_dir: Option<String>, exe_dir: Option<String>, mode: BuildMode) -> EnvSnapshot {
    EnvSnapshot {
        os: Os::Linux,
        profile: BuildProfile::Debug,
        build_mode: mode,
        mod_dir,
        exe_dir,
        out_dir: None,
        source_root: None,
    }
}

/// Creates `rel` and returns its absolute, symlink-free path.
fn abs_dir(rel: &str) -> String {
    fs_err::create_dir_all(rel).unwrap();
    fs_err::canonicalize(rel)
        .unwrap()
        .to_str()
        .unwrap()
        .to_string()
}

#[test]
fn check_override_accepts_unset() {
    assert!(check_override(&None).is_ok());
}

#[test]
fn check_override_rejects_relative() {
    let r = check_override(&Some(String::from("relative/dir")));
    match r {
        Err(LoadError::PathOverrideInvalid { dir, problem }) => {
            assert_eq!(dir, "relative/dir");
            assert_eq!(problem, OverrideProblem::NotAbsolute);
        },
        _ => panic!("expected an invalid-override error"),
    }
}

#[test]
fn check_override_rejects_missing() {
    let r = check_override(&Some(String::from("/nonexistent_dylo_override_dir")));
    match r {
        Err(LoadError::PathOverrideInvalid { dir, problem }) => {
            assert_eq!(dir, "/nonexistent_dylo_override_dir");
            assert_eq!(problem, OverrideProblem::Missing);
        },
        _ => panic!("expected an invalid-override error"),
    }
}

#[test]
fn check_override_accepts_existing_absolute() {
    let dir = abs_dir("/tmp/dylo_loadertest/present");
    assert!(check_override(&Some(dir)).is_ok());
}

#[test]
fn bad_override_fails_before_any_build() {
    // A nonexistent override directory fails the load before any build
    // command is produced, whatever the build mode.
    let mut slot = LoadSlot::new();
    let env = env_with(
        Some(String::from("/nonexistent_dylo_override_dir")),
        Some(String::from("/nonexistent_exe_dir")),
        BuildMode::Quiet,
    );
    let step = start_load(&mut slot, "alpha", &env);
    match step {
        LoadStep::Fail { error: LoadError::PathOverrideInvalid { problem, .. } } => {
            assert_eq!(problem, OverrideProblem::Missing);
        },
        _ => panic!("expected the load to fail fast on the bad override"),
    }
    assert!(matches!(slot, LoadSlot::Failed(_)));
}

#[test]
fn relative_override_fails_before_any_build() {
    let mut slot = LoadSlot::new();
    let env = env_with(Some(String::from("not/absolute")), None, BuildMode::Quiet);
    let step = start_load(&mut slot, "alpha", &env);
    match step {
        LoadStep::Fail { error: LoadError::PathOverrideInvalid { dir, problem } } => {
            assert_eq!(dir, "not/absolute");
            assert_eq!(problem, OverrideProblem::NotAbsolute);
        },
        _ => panic!("expected the load to fail fast on the relative override"),
    }
}

#[test]
fn missing_binary_with_skip_reports_searched_dirs() {
    // Module "alpha" exists nowhere and building is skipped: the load fails
    // with the not-found error listing every searched directory, and no
    // build command is produced.
    let mut slot = LoadSlot::new();
    let env = env_with(None, Some(String::from("/nonexistent_exe_dir")), BuildMode::Skip);
    let step = start_load(&mut slot, "alpha", &env);
    match step {
        LoadStep::Fail { error: LoadError::ModuleNotFound { searched } } => {
            assert_eq!(
                searched,
                vec![
                    String::from("/nonexistent_exe_dir/../libexec"),
                    String::from("/nonexistent_exe_dir/../../libexec/release"),
                    String::from("/nonexistent_exe_dir"),
                ]
            );
        },
        _ => panic!("expected a module-not-found failure"),
    }
    assert!(matches!(slot, LoadSlot::Failed(_)));
}

#[test]
fn missing_binary_without_skip_requests_build() {
    let mut slot = LoadSlot::new();
    let env = env_with(None, Some(String::from("/nonexistent_exe_dir")), BuildMode::Quiet);
    let step = start_load(&mut slot, "alpha", &env);
    match step {
        LoadStep::RunBuild { command } => {
            assert_eq!(command.program, "cargo");
            assert_eq!(command.args, vec!["build", "--features", "impl"]);
            assert_eq!(command.current_dir, "mods/mod-alpha");
            assert_eq!(command.env_key, "CARGO_TARGET_DIR");
            assert_eq!(command.env_value, "target");
        },
        _ => panic!("expected a build request"),
    }
    assert!(matches!(slot, LoadSlot::Loading));
}

#[test]
fn binary_in_override_dir_loads_without_build() {
    // Module "beta" is present only in the override directory: the load
    // proceeds straight to opening it, without any build request.
    let dir = abs_dir("/tmp/dylo_loadertest/override_beta");
    fs_err::write(format!("{dir}/libbeta.so"), b"not really an object").unwrap();
    let mut slot = LoadSlot::new();
    let env = env_with(Some(dir.clone()), None, BuildMode::Quiet);
    let step = start_load(&mut slot, "beta", &env);
    match step {
        LoadStep::Open { path } => assert_eq!(path, format!("{dir}/libbeta.so")),
        _ => panic!("expected the binary to be found in the override directory"),
    }
    assert!(matches!(slot, LoadSlot::Loading));
}

#[test]
fn later_candidate_found_when_earlier_is_empty() {
    // The binary exists only in a lower-priority candidate directory: the
    // loader reports the hit from that directory, not the earlier empty one.
    let over = abs_dir("/tmp/dylo_loadertest/prio_empty");
    let exe = abs_dir("/tmp/dylo_loadertest/prio_exe");
    fs_err::write(format!("{exe}/libgamma.so"), b"stub").unwrap();
    let mut slot = LoadSlot::new();
    let env = env_with(Some(over), Some(exe.clone()), BuildMode::Skip);
    let step = start_load(&mut slot, "gamma", &env);
    match step {
        LoadStep::Open { path } => assert_eq!(path, format!("{exe}/libgamma.so")),
        _ => panic!("expected the binary to be found in the executable directory"),
    }
}

#[test]
fn valid_override_is_not_rejected() {
    // A set override that is absolute and exists passes validation: with the
    // binary absent the load moves on to a build request, never to an
    // override error.
    let dir = abs_dir("/tmp/dylo_loadertest/valid_override_empty");
    let mut slot = LoadSlot::new();
    let env = env_with(Some(dir), None, BuildMode::Quiet);
    let step = start_load(&mut slot, "eta", &env);
    assert!(matches!(step, LoadStep::RunBuild { .. }));
    assert!(matches!(slot, LoadSlot::Loading));
}

#[test]
fn cached_handle_returned_without_work() {
    let mut slot = LoadSlot::new();
    assert!(slot.try_begin());
    let h = CapabilityHandle { data: 11, vtable: 12 };
    slot.complete(h);
    // Even a broken environment is irrelevant: the cached handle answers.
    let env = env_with(Some(String::from("not/absolute")), None, BuildMode::Skip);
    let step = start_load(&mut slot, "beta", &env);
    match step {
        LoadStep::Done { handle } => assert_eq!(handle, h),
        _ => panic!("expected the cached handle"),
    }
}

#[test]
fn failed_slot_reports_failure_not_retry() {
    let mut slot = LoadSlot::new();
    assert!(slot.try_begin());
    slot.mark_failed(LoadError::LoadFailure { diagnostic: String::from("earlier failure") });
    let env = env_with(None, None, BuildMode::Quiet);
    let step = start_load(&mut slot, "beta", &env);
    match step {
        LoadStep::Fail { error } => {
            assert_eq!(error.message(), "failed to load dynamic library: earlier failure");
        },
        _ => panic!("expected the stored failure to be observed"),
    }
}

#[test]
fn failed_build_surfaces_full_log() {
    let mut log = BuildLog::new();
    log.push_line(StreamKind::Stdout, String::from("Compiling mod-alpha"));
    log.push_line(StreamKind::Stderr, String::from("error[E0308]: mismatched types"));
    let env = env_with(None, None, BuildMode::Quiet);
    let r = after_build("alpha", &env, 101, log);
    match r {
        PostBuild::Fail { error } => {
            let msg = error.message();
            assert!(msg.contains("Compiling mod-alpha"));
            assert!(msg.contains("error[E0308]: mismatched types"));
            assert_eq!(
                msg,
                "build command failed:\nout| Compiling mod-alpha\nerr| error[E0308]: mismatched types\n"
            );
        },
        _ => panic!("expected the build failure to surface"),
    }
}

#[test]
fn successful_build_copies_artifact_and_opens() {
    // The build "produced" an artifact in the output directory; the loader
    // copies it to the highest-priority search directory and opens it there.
    let out = abs_dir("/tmp/dylo_loadertest/out");
    abs_dir("/tmp/dylo_loadertest/out/debug");
    fs_err::write(format!("{out}/debug/libdelta.so"), b"artifact").unwrap();
    let dest = abs_dir("/tmp/dylo_loadertest/dest_delta");
    let env = EnvSnapshot {
        os: Os::Linux,
        profile: BuildProfile::Debug,
        build_mode: BuildMode::Quiet,
        mod_dir: Some(dest.clone()),
        exe_dir: None,
        out_dir: Some(out),
        source_root: None,
    };
    let r = after_build("delta", &env, 0, BuildLog::new());
    match r {
        PostBuild::Open { path } => assert_eq!(path, format!("{dest}/libdelta.so")),
        _ => panic!("expected the built binary to be found"),
    }
    assert!(fs_err::metadata(format!("{dest}/libdelta.so")).is_ok());
}

#[test]
fn successful_build_without_artifact_reports_not_found() {
    let dest = abs_dir("/tmp/dylo_loadertest/dest_missing");
    let env = env_with(Some(dest.clone()), None, BuildMode::Quiet);
    let r = after_build("epsilon", &env, 0, BuildLog::new());
    match r {
        PostBuild::Fail { error: LoadError::ModuleNotFound { searched } } => {
            assert_eq!(searched, vec![dest]);
        },
        _ => panic!("expected a module-not-found failure"),
    }
}

#[test]
fn after_open_classifies_outcomes() {
    let h = CapabilityHandle { data: 5, vtable: 6 };
    match after_open(OpenOutcome::Entry { handle: h }) {
        Ok(got) => assert_eq!(got, h),
        _ => panic!("expected the handle"),
    }
    match after_open(OpenOutcome::OpenFailed { diagnostic: String::from("bad header") }) {
        Err(LoadError::LoadFailure { diagnostic }) => assert_eq!(diagnostic, "bad header"),
        _ => panic!("expected a load failure"),
    }
    match after_open(OpenOutcome::SymbolMissing { diagnostic: String::from("no entry") }) {
        Err(LoadError::SymbolResolutionFailure { diagnostic }) => {
            assert_eq!(diagnostic, "no entry")
        },
        _ => panic!("expected a symbol-resolution failure"),
    }
}

#[test]
fn finish_load_stores_handle() {
    let mut slot = LoadSlot::new();
    assert!(slot.try_begin());
    let h = CapabilityHandle { data: 3, vtable: 4 };
    let r = finish_load(&mut slot, &Ok(h));
    assert_eq!(r, Some(h));
    assert_eq!(slot.current(), Some(h));
}

#[test]
fn finish_load_records_failure() {
    let mut slot = LoadSlot::new();
    assert!(slot.try_begin());
    let r = finish_load(
        &mut slot,
        &Err(LoadError::SymbolResolutionFailure { diagnostic: String::from("gone") }),
    );
    assert_eq!(r, None);
    assert!(matches!(slot, LoadSlot::Failed(_)));
}

#[test]
fn whole_load_sequence_and_cache() {
    // First request: nothing on disk, quiet mode asks for a build; the
    // build lands the artifact; re-resolution opens it; the entry point
    // yields a handle that is stored.  Second request: answered from the
    // cache with the identical handle.
    let dest = abs_dir("/tmp/dylo_loadertest/seq_dest");
    let out = abs_dir("/tmp/dylo_loadertest/seq_out");
    abs_dir("/tmp/dylo_loadertest/seq_out/debug");
    // A previous run may have left artifacts behind; start from nothing.
    let _ = fs_err::remove_file(format!("{dest}/libzeta.so"));
    let _ = fs_err::remove_file(format!("{out}/debug/libzeta.so"));
    let env = EnvSnapshot {
        os: Os::Linux,
        profile: BuildProfile::Debug,
        build_mode: BuildMode::Quiet,
        mod_dir: Some(dest.clone()),
        exe_dir: None,
        out_dir: Some(out.clone()),
        source_root: None,
    };
    let mut slot = LoadSlot::new();
    let step = start_load(&mut slot, "zeta", &env);
    assert!(matches!(step, LoadStep::RunBuild { .. }));
    // The "build" succeeds and leaves its artifact in the output directory.
    fs_err::write(format!("{out}/debug/libzeta.so"), b"artifact").unwrap();
    let r = after_build("zeta", &env, 0, BuildLog::new());
    let path = match r {
        PostBuild::Open { path } => path,
        _ => panic!("expected the built binary to be found"),
    };
    assert_eq!(path, format!("{dest}/libzeta.so"));
    let h = CapabilityHandle { data: 77, vtable: 78 };
    let got = finish_load(&mut slot, &after_open(OpenOutcome::Entry { handle: h }));
    assert_eq!(got, Some(h));
    // Second caller: cache answers, no resolver, no build.
    let step2 = start_load(&mut slot, "zeta", &env);
    match step2 {
        LoadStep::Done { handle } => assert_eq!(handle, h),
        _ => panic!("expected the cached handle"),
    }
}
