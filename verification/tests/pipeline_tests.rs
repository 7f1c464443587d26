use skia_safe::arguments::synthesize;
use skia_safe::binaries::{artifact_file_name, collect, expected_libraries, ArtifactProbe};
use skia_safe::config::resolve;
use skia_safe::errors::{PipelineError, ProcessExit, Tool};
use skia_safe::executor::{
    conclude_build, locate_toolchain, plan_execution, plan_generation, BuildOutcome,
    ToolchainPaths,
};
use skia_safe::platform::TargetOs;
use skia_safe::source::{
    resolve_source, source_location, DirectoryProbe, FinalBuildConfiguration,
};

fn features(names: &[&str]) -> Vec<String> {
    names.iter().map(|n| n.to_string()).collect()
}

fn resolved(names: &[&str]) -> skia_safe::config::BuildConfiguration {
    resolve("linux", "x86_64", "gnu", &features(names), true, false)
        .unwrap()
        .configuration
}

fn probes(present: &[&str]) -> Vec<ArtifactProbe> {
    present
        .iter()
        .map(|n| ArtifactProbe { name: n.to_string(), non_empty: true })
        .collect()
}

fn tools() -> ToolchainPaths {
    ToolchainPaths {
        generator: Some("/usr/bin/gn".to_string()),
        executor: Some("/usr/bin/ninja".to_string()),
    }
}

#[test]
fn source_location_prefers_offline_dir() {
    let (dir, offline) = source_location(&Some("/prefetched/skia".to_string()), "/work");
    assert_eq!(dir, "/prefetched/skia");
    assert!(offline);
    let (dir, offline) = source_location(&None, "/work");
    assert_eq!(dir, "/work/skia");
    assert!(!offline);
}

#[test]
fn offline_missing_directory_fails_before_any_subprocess() {
    let config = resolved(&[]);
    let (dir, offline) = source_location(&Some("/nope".to_string()), "/work");
    let e = resolve_source(
        config,
        dir,
        offline,
        DirectoryProbe { exists: false, non_empty: false },
        None,
    )
    .unwrap_err();
    match &e {
        PipelineError::SourceMissing { path } => assert_eq!(path, "/nope"),
        other => panic!("unexpected error: {:?}", other),
    }
    assert_eq!(e.message(), "source tree absent or empty: /nope");
}

#[test]
fn empty_source_directory_fails() {
    let config = resolved(&[]);
    let e = resolve_source(
        config,
        "/work/skia".to_string(),
        false,
        DirectoryProbe { exists: true, non_empty: false },
        None,
    )
    .unwrap_err();
    assert!(matches!(e, PipelineError::SourceMissing { .. }));
}

#[test]
fn locate_toolchain_prefers_explicit_paths() {
    let t = locate_toolchain(
        Some("/custom/gn".to_string()),
        Some("/path/gn".to_string()),
        None,
        Some("/path/ninja".to_string()),
    );
    assert_eq!(t.generator.as_deref(), Some("/custom/gn"));
    assert_eq!(t.executor.as_deref(), Some("/path/ninja"));
}

fn final_config(names: &[&str]) -> FinalBuildConfiguration {
    resolve_source(
        resolved(names),
        "/work/skia".to_string(),
        false,
        DirectoryProbe { exists: true, non_empty: true },
        None,
    )
    .unwrap()
}

#[test]
fn missing_generator_never_plans_a_subprocess() {
    let f = final_config(&[]);
    let args = synthesize(&f).unwrap();
    let missing = ToolchainPaths { generator: None, executor: Some("/usr/bin/ninja".to_string()) };
    match plan_generation(&f, &args, &missing) {
        Err(BuildOutcome::ToolMissing { tool }) => assert_eq!(tool, Tool::Generator),
        other => panic!("unexpected plan: {:?}", other),
    }
}

#[test]
fn missing_executor_never_plans_a_subprocess() {
    let f = final_config(&[]);
    let args = synthesize(&f).unwrap();
    let missing = ToolchainPaths { generator: Some("/usr/bin/gn".to_string()), executor: None };
    match plan_generation(&f, &args, &missing) {
        Err(BuildOutcome::ToolMissing { tool }) => assert_eq!(tool, Tool::Executor),
        other => panic!("unexpected plan: {:?}", other),
    }
}

#[test]
fn end_to_end_baseline_build_succeeds() {
    // Scenario: no optional capability, valid tools, valid source tree.
    let config = resolved(&[]);
    let (dir, offline) = source_location(&None, "/work");
    let f = resolve_source(
        config,
        dir,
        offline,
        DirectoryProbe { exists: true, non_empty: true },
        None,
    )
    .unwrap();
    let args = synthesize(&f).unwrap();
    let generation = plan_generation(&f, &args, &tools()).unwrap();
    assert_eq!(generation.program, "/usr/bin/gn");
    assert_eq!(generation.working_dir, "/work/skia");
    assert_eq!(generation.arguments[0], "gen");
    assert_eq!(generation.arguments[1], "/work/skia/out/Release");
    assert!(generation.arguments[2].starts_with("--args=is_debug=false "));
    let execution = plan_execution(&f, &tools(), ProcessExit::Exited(0)).unwrap();
    assert_eq!(execution.program, "/usr/bin/ninja");
    assert_eq!(
        execution.arguments,
        vec!["-C".to_string(), "/work/skia/out/Release".to_string()]
    );
    let outcome = conclude_build(&f, ProcessExit::Exited(0));
    let binaries = collect(
        outcome,
        &f.configuration,
        &probes(&["libskia.a"]),
        f.include_directory(),
    )
    .unwrap();
    assert_eq!(binaries.output_dir, "/work/skia/out/Release");
    assert_eq!(binaries.library_names, vec!["skia".to_string()]);
    assert_eq!(binaries.artifact_files, vec!["libskia.a".to_string()]);
    assert_eq!(binaries.include_dir, "/work/skia/include");
    assert_eq!(
        binaries.link_directives(),
        vec![
            "cargo:rustc-link-search=native=/work/skia/out/Release".to_string(),
            "cargo:rustc-link-lib=static=skia".to_string(),
            "cargo:include=/work/skia/include".to_string(),
        ]
    );
}

#[test]
fn end_to_end_invalid_backend_stops_before_any_subprocess() {
    // Scenario: a GPU backend that the target platform cannot build.
    let f = final_config(&["metal"]);
    let e = synthesize(&f).unwrap_err();
    let msg = e.message();
    assert!(msg.contains("capability metal is not supported on linux targets"));
    // No arguments exist, so nothing can be planned or spawned.
}

#[test]
fn end_to_end_generator_failure_never_reaches_executor() {
    // Scenario: the generator exits with status 1.
    let f = final_config(&[]);
    let args = synthesize(&f).unwrap();
    let generation = plan_generation(&f, &args, &tools()).unwrap();
    assert_eq!(generation.program, "/usr/bin/gn");
    let outcome = match plan_execution(&f, &tools(), ProcessExit::Exited(1)) {
        Err(o) => o,
        Ok(c) => panic!("executor planned after failed generation: {:?}", c),
    };
    match &outcome {
        BuildOutcome::GenerationFailed { exit } => assert_eq!(*exit, ProcessExit::Exited(1)),
        other => panic!("unexpected outcome: {:?}", other),
    }
    let e = collect(outcome, &f.configuration, &probes(&[]), f.include_directory()).unwrap_err();
    assert!(matches!(e, PipelineError::GenerationFailure { .. }));
    assert_eq!(
        e.message(),
        "the build generator reported an error while writing the build graph"
    );
}

#[test]
fn compile_failure_is_distinguished() {
    let f = final_config(&[]);
    let outcome = conclude_build(&f, ProcessExit::Exited(2));
    assert!(matches!(outcome, BuildOutcome::CompileFailed { .. }));
    let e = collect(outcome, &f.configuration, &probes(&[]), f.include_directory()).unwrap_err();
    assert!(matches!(e, PipelineError::CompileFailure { .. }));
}

#[test]
fn tool_missing_outcome_maps_to_toolchain_error() {
    let f = final_config(&[]);
    let e = collect(
        BuildOutcome::ToolMissing { tool: Tool::Generator },
        &f.configuration,
        &probes(&[]),
        f.include_directory(),
    )
    .unwrap_err();
    assert!(matches!(e, PipelineError::ToolchainMissing(Tool::Generator)));
    assert_eq!(
        e.message(),
        "the build generator was not found on the search path and no explicit path was supplied"
    );
}

#[test]
fn expected_artifacts_follow_capabilities() {
    let baseline = resolved(&[]);
    assert_eq!(expected_libraries(&baseline), vec!["skia".to_string()]);
    let shaped = resolved(&["textlayout", "animation"]);
    assert_eq!(
        expected_libraries(&shaped),
        vec![
            "skparagraph".to_string(),
            "skottie".to_string(),
            "skshaper".to_string(),
            "sksg".to_string(),
            "skia".to_string(),
        ]
    );
    assert_eq!(artifact_file_name(TargetOs::Linux, "skia"), "libskia.a");
    assert_eq!(artifact_file_name(TargetOs::Windows, "skia"), "skia.lib");
}

#[test]
fn one_missing_artifact_is_reported_exactly() {
    // Three artifacts expected; exactly the absent one is named.
    let config = resolved(&["textlayout"]);
    let f = resolve_source(
        config,
        "/work/skia".to_string(),
        false,
        DirectoryProbe { exists: true, non_empty: true },
        None,
    )
    .unwrap();
    let outcome = conclude_build(&f, ProcessExit::Exited(0));
    let e = collect(
        outcome,
        &f.configuration,
        &probes(&["libskparagraph.a", "libskia.a"]),
        f.include_directory(),
    )
    .unwrap_err();
    match &e {
        PipelineError::ArtifactMissing { files } => {
            assert_eq!(files, &vec!["libskshaper.a".to_string()]);
        }
        other => panic!("unexpected error: {:?}", other),
    }
    assert_eq!(
        e.message(),
        "expected build artifacts are absent or empty: libskshaper.a"
    );
}

#[test]
fn empty_artifact_counts_as_missing() {
    let config = resolved(&[]);
    let f = resolve_source(
        config,
        "/work/skia".to_string(),
        false,
        DirectoryProbe { exists: true, non_empty: true },
        None,
    )
    .unwrap();
    let outcome = conclude_build(&f, ProcessExit::Exited(0));
    let truncated = vec![ArtifactProbe { name: "libskia.a".to_string(), non_empty: false }];
    let e = collect(outcome, &f.configuration, &truncated, f.include_directory()).unwrap_err();
    match &e {
        PipelineError::ArtifactMissing { files } => {
            assert_eq!(files, &vec!["libskia.a".to_string()]);
        }
        other => panic!("unexpected error: {:?}", other),
    }
}

#[test]
fn debug_profile_has_its_own_output_directory() {
    let config = resolve("linux", "x86_64", "gnu", &features(&[]), false, true)
        .unwrap()
        .configuration;
    let f = resolve_source(
        config,
        "/work/skia".to_string(),
        false,
        DirectoryProbe { exists: true, non_empty: true },
        None,
    )
    .unwrap();
    assert_eq!(f.output_directory(), "/work/skia/out/Debug");
}

#[test]
fn configuration_error_keeps_its_message_through_the_pipeline() {
    let e = PipelineError::Configuration(skia_safe::errors::ConfigError::UnknownCapability {
        name: "sgv".to_string(),
    });
    assert_eq!(e.message(), "unknown capability name: sgv");
    let missing = PipelineError::ToolchainMissing(Tool::Executor);
    assert_eq!(
        missing.message(),
        "the build executor was not found on the search path and no explicit path was supplied"
    );
}

#[test]
fn terminated_process_is_a_failure() {
    let f = final_config(&[]);
    assert!(plan_execution(&f, &tools(), ProcessExit::Terminated).is_err());
    let outcome = conclude_build(&f, ProcessExit::Terminated);
    assert!(matches!(outcome, BuildOutcome::CompileFailed { .. }));
}
