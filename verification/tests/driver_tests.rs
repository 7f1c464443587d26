use skia_safe::binaries::ArtifactProbe;
use skia_safe::config::resolve;
use skia_safe::errors::{PipelineError, ProcessExit, Tool};
use skia_safe::executor::ToolchainPaths;
use skia_safe::pipeline::{Pipeline, PipelineAction, PipelineEvent};
use skia_safe::source::DirectoryProbe;

fn features(names: &[&str]) -> Vec<String> {
    names.iter().map(|n| n.to_string()).collect()
}

fn configuration(names: &[&str]) -> skia_safe::config::BuildConfiguration {
    resolve("linux", "x86_64", "gnu", &features(names), true, false)
        .unwrap()
        .configuration
}

fn tools() -> ToolchainPaths {
    ToolchainPaths {
        generator: Some("/usr/bin/gn".to_string()),
        executor: Some("/usr/bin/ninja".to_string()),
    }
}

fn good_probe() -> PipelineEvent {
    PipelineEvent::SourceProbed {
        probe: DirectoryProbe { exists: true, non_empty: true },
        sdk_root: None,
    }
}

#[test]
fn driver_walks_a_successful_pass() {
    let (pipeline, action) = Pipeline::start(configuration(&[]), None, "/work", tools());
    let path = match action {
        PipelineAction::ProbeSource { path } => path,
        other => panic!("unexpected action: {:?}", other),
    };
    assert_eq!(path, "/work/skia");
    let (pipeline, action) = pipeline.step(good_probe());
    let command = match action {
        PipelineAction::RunGenerator { command } => command,
        other => panic!("unexpected action: {:?}", other),
    };
    assert_eq!(command.program, "/usr/bin/gn");
    assert_eq!(command.working_dir, "/work/skia");
    assert_eq!(command.arguments[0], "gen");
    assert_eq!(command.arguments[1], "/work/skia/out/Release");
    let (pipeline, action) =
        pipeline.step(PipelineEvent::GeneratorExited { exit: ProcessExit::Exited(0) });
    let command = match action {
        PipelineAction::RunExecutor { command } => command,
        other => panic!("unexpected action: {:?}", other),
    };
    assert_eq!(command.program, "/usr/bin/ninja");
    assert_eq!(
        command.arguments,
        vec!["-C".to_string(), "/work/skia/out/Release".to_string()]
    );
    let (pipeline, action) =
        pipeline.step(PipelineEvent::ExecutorExited { exit: ProcessExit::Exited(0) });
    let path = match action {
        PipelineAction::InspectOutput { path } => path,
        other => panic!("unexpected action: {:?}", other),
    };
    assert_eq!(path, "/work/skia/out/Release");
    let (_, action) = pipeline.step(PipelineEvent::OutputInspected {
        files: vec![ArtifactProbe { name: "libskia.a".to_string(), non_empty: true }],
    });
    match action {
        PipelineAction::Finish { result } => {
            let binaries = result.unwrap();
            assert_eq!(binaries.library_names, vec!["skia".to_string()]);
        }
        other => panic!("unexpected action: {:?}", other),
    }
}

#[test]
fn driver_stops_on_missing_source_before_any_command() {
    let (pipeline, action) =
        Pipeline::start(configuration(&[]), Some("/nope".to_string()), "/work", tools());
    match action {
        PipelineAction::ProbeSource { path } => assert_eq!(path, "/nope"),
        other => panic!("unexpected action: {:?}", other),
    }
    let (_, action) = pipeline.step(PipelineEvent::SourceProbed {
        probe: DirectoryProbe { exists: false, non_empty: false },
        sdk_root: None,
    });
    match action {
        PipelineAction::Finish { result } => {
            assert!(matches!(
                result.unwrap_err(),
                PipelineError::SourceMissing { .. }
            ));
        }
        other => panic!("unexpected action: {:?}", other),
    }
}

#[test]
fn driver_stops_on_invalid_configuration_before_any_command() {
    let (pipeline, _) = Pipeline::start(configuration(&["metal"]), None, "/work", tools());
    let (_, action) = pipeline.step(good_probe());
    match action {
        PipelineAction::Finish { result } => {
            let e = result.unwrap_err();
            assert!(matches!(
                e,
                PipelineError::Configuration(skia_safe::errors::ConfigError::RulesViolated { .. })
            ));
        }
        other => panic!("unexpected action: {:?}", other),
    }
}

#[test]
fn driver_stops_on_missing_tool_before_any_command() {
    let toolchain = ToolchainPaths { generator: None, executor: None };
    let (pipeline, _) = Pipeline::start(configuration(&[]), None, "/work", toolchain);
    let (_, action) = pipeline.step(good_probe());
    match action {
        PipelineAction::Finish { result } => {
            assert!(matches!(
                result.unwrap_err(),
                PipelineError::ToolchainMissing(Tool::Generator)
            ));
        }
        other => panic!("unexpected action: {:?}", other),
    }
}

#[test]
fn driver_never_asks_for_the_executor_after_a_failed_generation() {
    let (pipeline, _) = Pipeline::start(configuration(&[]), None, "/work", tools());
    let (pipeline, action) = pipeline.step(good_probe());
    assert!(matches!(action, PipelineAction::RunGenerator { .. }));
    let (_, action) =
        pipeline.step(PipelineEvent::GeneratorExited { exit: ProcessExit::Exited(1) });
    match action {
        PipelineAction::Finish { result } => match result.unwrap_err() {
            PipelineError::GenerationFailure { exit } => {
                assert_eq!(exit, ProcessExit::Exited(1));
            }
            other => panic!("unexpected error: {:?}", other),
        },
        other => panic!("unexpected action: {:?}", other),
    }
}

#[test]
fn driver_reports_missing_artifacts_at_the_end() {
    let (pipeline, _) =
        Pipeline::start(configuration(&["textlayout"]), None, "/work", tools());
    let (pipeline, _) = pipeline.step(good_probe());
    let (pipeline, _) =
        pipeline.step(PipelineEvent::GeneratorExited { exit: ProcessExit::Exited(0) });
    let (pipeline, _) =
        pipeline.step(PipelineEvent::ExecutorExited { exit: ProcessExit::Exited(0) });
    let present = vec![
        ArtifactProbe { name: "libskparagraph.a".to_string(), non_empty: true },
        ArtifactProbe { name: "libskia.a".to_string(), non_empty: true },
    ];
    let (_, action) = pipeline.step(PipelineEvent::OutputInspected { files: present });
    match action {
        PipelineAction::Finish { result } => match result.unwrap_err() {
            PipelineError::ArtifactMissing { files } => {
                assert_eq!(files, vec!["libskshaper.a".to_string()]);
            }
            other => panic!("unexpected error: {:?}", other),
        },
        other => panic!("unexpected action: {:?}", other),
    }
}
