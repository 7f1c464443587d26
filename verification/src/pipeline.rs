//! The whole build as one forward pass. The pipeline is a state machine:
//! it hands the embedding code one action at a time — probe a directory,
//! run a planned command, list the output — and takes the plain result
//! back. Every decision between two actions is made here, so the order of
//! the pass is verified: nothing is run on a rejected configuration or an
//! unresolved toolchain, and the executor can only ever be asked for after
//! the generator exited successfully.

use vstd::prelude::*;
use crate::arguments::{spec_generator_args, spec_render_args, spec_violations, synthesize};
use crate::binaries::{
    collect, spec_artifact_files, spec_libraries, spec_missing, ArtifactProbe,
    BinariesConfiguration,
};
use crate::config::BuildConfiguration;
use crate::errors::{ConfigError, PipelineError, ProcessExit, Tool};
use crate::executor::{
    conclude_build, plan_execution, plan_generation, BuildOutcome, CommandSpec, ToolchainPaths,
};
use crate::source::{
    resolve_source, source_location, spec_include_directory, spec_output_directory,
    DirectoryProbe, FinalBuildConfiguration,
};
use crate::text::views_of;

verus! {

/// What the embedding code is asked to do next. Each action other than
/// `Finish` expects the matching event in return.
#[derive(Debug)]
pub enum PipelineAction {
    /// Probe this directory and report whether it exists and has entries.
    ProbeSource { path: String },
    /// Run the generator command, output forwarded live; report its exit.
    RunGenerator { command: CommandSpec },
    /// Run the executor command, output forwarded live; report its exit.
    RunExecutor { command: CommandSpec },
    /// List this directory and report each entry's name and whether it is
    /// non-empty.
    InspectOutput { path: String },
    /// The pass is over.
    Finish { result: Result<BinariesConfiguration, PipelineError> },
}

/// What the embedding code reports back for the action it was asked.
#[derive(Debug)]
pub enum PipelineEvent {
    SourceProbed { probe: DirectoryProbe, sdk_root: Option<String> },
    GeneratorExited { exit: ProcessExit },
    ExecutorExited { exit: ProcessExit },
    OutputInspected { files: Vec<ArtifactProbe> },
}

/// Where the pass stands.
#[derive(Debug)]
pub enum Phase {
    ProbingSource {
        configuration: BuildConfiguration,
        location: String,
        offline: bool,
        tools: ToolchainPaths,
    },
    Generating { f: FinalBuildConfiguration, tools: ToolchainPaths },
    Executing { f: FinalBuildConfiguration },
    Inspecting { f: FinalBuildConfiguration },
    Done,
}

/// One build invocation, stepped forward by events.
#[derive(Debug)]
pub struct Pipeline {
    pub phase: Phase,
}

impl Pipeline {
    /// Every configuration the pass still holds is well-formed.
    pub open spec fn wf(self) -> bool {
        match self.phase {
            Phase::ProbingSource { configuration, .. } => configuration.wf(),
            Phase::Generating { f, tools } => f.wf() && tools.generator is Some
                && tools.executor is Some,
            Phase::Executing { f } => f.wf(),
            Phase::Inspecting { f } => f.wf(),
            Phase::Done => true,
        }
    }

    /// Whether the event is the answer the current phase is waiting for.
    pub open spec fn expects(self, event: PipelineEvent) -> bool {
        match (self.phase, event) {
            (Phase::ProbingSource { .. }, PipelineEvent::SourceProbed { .. }) => true,
            (Phase::Generating { .. }, PipelineEvent::GeneratorExited { .. }) => true,
            (Phase::Executing { .. }, PipelineEvent::ExecutorExited { .. }) => true,
            (Phase::Inspecting { .. }, PipelineEvent::OutputInspected { .. }) => true,
            _ => false,
        }
    }

    /// Begins a pass: the first action probes the source tree, at the
    /// caller-supplied directory in offline mode or at the managed checkout
    /// in full mode.
    pub fn start(
        configuration: BuildConfiguration,
        offline_dir: Option<String>,
        work_dir: &str,
        tools: ToolchainPaths,
    ) -> (r: (Pipeline, PipelineAction))
        requires
            configuration.wf(),
        ensures
            r.0.wf(),
            r.0.phase matches Phase::ProbingSource { configuration: c, location, offline, .. }
                && c == configuration && location@ == crate::source::spec_source_location(
                match offline_dir {
                    Some(d) => Some(d@),
                    None => None,
                },
                work_dir@,
            ) && offline == (offline_dir is Some),
            r.1 matches PipelineAction::ProbeSource { path } && (r.0.phase matches
                Phase::ProbingSource { location, .. } && path@ == location@),
    {
        let (location, offline) = source_location(&offline_dir, work_dir);
        let path = location.clone();
        let pipeline = Pipeline {
            phase: Phase::ProbingSource { configuration, location, offline, tools },
        };
        (pipeline, PipelineAction::ProbeSource { path })
    }

    /// Takes the event the current phase waits for and decides the next
    /// action. The pass is a single forward run: a missing source tree, a
    /// rule violation or an unresolved tool finishes it before any command
    /// is handed out; the executor command is only ever handed out for a
    /// successful generator exit; and the artifact check decides the final
    /// result.
    pub fn step(self, event: PipelineEvent) -> (r: (Pipeline, PipelineAction))
        requires
            self.wf(),
            self.expects(event),
        ensures
            r.0.wf(),
            self.phase matches Phase::ProbingSource { configuration, location, offline, tools }
                ==> event matches PipelineEvent::SourceProbed { probe, sdk_root } ==> ({
                let f = FinalBuildConfiguration {
                    configuration,
                    source_dir: location,
                    offline,
                    sdk_root,
                };
                let vs = spec_violations(configuration.platform, configuration.capabilities);
                &&& !(probe.exists && probe.non_empty) ==> (r.1 matches PipelineAction::Finish {
                    result,
                } && (result matches Err(PipelineError::SourceMissing { path }) && path@
                    == location@) && r.0.phase is Done)
                &&& (probe.exists && probe.non_empty) && vs.len() > 0 ==> (r.1 matches
                    PipelineAction::Finish { result } && (result matches Err(
                    PipelineError::Configuration(ConfigError::RulesViolated { violations }),
                ) && violations@ == vs) && r.0.phase is Done)
                &&& (probe.exists && probe.non_empty) && vs.len() == 0 && tools.generator
                    is None ==> (r.1 matches PipelineAction::Finish { result } && result matches
                    Err(PipelineError::ToolchainMissing(Tool::Generator)) && r.0.phase is Done)
                &&& (probe.exists && probe.non_empty) && vs.len() == 0 && tools.generator
                    is Some && tools.executor is None ==> (r.1 matches PipelineAction::Finish {
                    result,
                } && result matches Err(PipelineError::ToolchainMissing(Tool::Executor))
                    && r.0.phase is Done)
                &&& (probe.exists && probe.non_empty) && vs.len() == 0 && tools.generator
                    is Some && tools.executor is Some ==> (r.1 matches
                    PipelineAction::RunGenerator { command } && (tools.generator matches Some(g)
                    && command.program@ == g@) && command.working_dir@ == location@ && views_of(
                    command.arguments@,
                ) == seq![
                    "gen"@,
                    spec_output_directory(f),
                    "--args="@ + spec_render_args(spec_generator_args(f)),
                ] && (r.0.phase matches Phase::Generating { f: f2, tools: t2 } && f2.configuration
                    == configuration && f2.source_dir@ == location@ && f2.offline == offline
                    && f2.sdk_root == sdk_root && t2 == tools))
            }),
            self.phase matches Phase::Generating { f, tools } ==> event matches
                PipelineEvent::GeneratorExited { exit } ==> ({
                &&& !exit.spec_success() ==> (r.1 matches PipelineAction::Finish { result }
                    && (result matches Err(PipelineError::GenerationFailure { exit: e }) && e
                    == exit) && r.0.phase is Done)
                &&& exit.spec_success() ==> (r.1 matches PipelineAction::RunExecutor { command }
                    && (tools.executor matches Some(x) && command.program@ == x@)
                    && command.working_dir@ == f.source_dir@ && views_of(command.arguments@)
                    == seq!["-C"@, spec_output_directory(f)] && (r.0.phase matches
                    Phase::Executing { f: f2 } && f2 == f))
            }),
            self.phase matches Phase::Executing { f } ==> event matches
                PipelineEvent::ExecutorExited { exit } ==> ({
                &&& !exit.spec_success() ==> (r.1 matches PipelineAction::Finish { result }
                    && (result matches Err(PipelineError::CompileFailure { exit: e }) && e == exit)
                    && r.0.phase is Done)
                &&& exit.spec_success() ==> (r.1 matches PipelineAction::InspectOutput { path }
                    && path@ == spec_output_directory(f) && (r.0.phase matches Phase::Inspecting {
                    f: f2,
                } && f2 == f))
            }),
            self.phase matches Phase::Inspecting { f } ==> event matches
                PipelineEvent::OutputInspected { files } ==> ({
                let missing = spec_missing(
                    spec_artifact_files(
                        f.configuration.platform.os,
                        spec_libraries(f.configuration.capabilities),
                    ),
                    files@,
                );
                &&& r.0.phase is Done
                &&& missing.len() == 0 ==> (r.1 matches PipelineAction::Finish { result } && (
                result matches Ok(b) && b.output_dir@ == spec_output_directory(f)
                    && b.include_dir@ == spec_include_directory(f) && views_of(
                    b.library_names@,
                ) == spec_libraries(f.configuration.capabilities) && views_of(b.artifact_files@)
                    == spec_artifact_files(
                    f.configuration.platform.os,
                    spec_libraries(f.configuration.capabilities),
                )))
                &&& missing.len() > 0 ==> (r.1 matches PipelineAction::Finish { result } && (
                result matches Err(PipelineError::ArtifactMissing { files: named }) && views_of(
                    named@,
                ) == missing))
            }),
    {
        match self.phase {
            Phase::ProbingSource { configuration, location, offline, tools } => {
                let event_data = match event {
                    PipelineEvent::SourceProbed { probe, sdk_root } => (probe, sdk_root),
                    _ => {
                        proof {
                            assert(false);
                        }
                        (DirectoryProbe { exists: false, non_empty: false }, None)
                    },
                };
                let (probe, sdk_root) = event_data;
                let f = match resolve_source(configuration, location, offline, probe, sdk_root) {
                    Ok(f) => f,
                    Err(e) => {
                        return (
                            Pipeline { phase: Phase::Done },
                            PipelineAction::Finish { result: Err(e) },
                        );
                    },
                };
                let args = match synthesize(&f) {
                    Ok(a) => a,
                    Err(e) => {
                        return (
                            Pipeline { phase: Phase::Done },
                            PipelineAction::Finish {
                                result: Err(PipelineError::Configuration(e)),
                            },
                        );
                    },
                };
                match plan_generation(&f, &args, &tools) {
                    Ok(command) => (
                        Pipeline { phase: Phase::Generating { f, tools } },
                        PipelineAction::RunGenerator { command },
                    ),
                    Err(BuildOutcome::ToolMissing { tool }) => (
                        Pipeline { phase: Phase::Done },
                        PipelineAction::Finish {
                            result: Err(PipelineError::ToolchainMissing(tool)),
                        },
                    ),
                    Err(_) => {
                        proof {
                            assert(false);
                        }
                        (
                            Pipeline { phase: Phase::Done },
                            PipelineAction::Finish {
                                result: Err(PipelineError::ToolchainMissing(Tool::Generator)),
                            },
                        )
                    },
                }
            },
            Phase::Generating { f, tools } => {
                let exit = match event {
                    PipelineEvent::GeneratorExited { exit } => exit,
                    _ => {
                        proof {
                            assert(false);
                        }
                        ProcessExit::Terminated
                    },
                };
                match plan_execution(&f, &tools, exit) {
                    Ok(command) => (
                        Pipeline { phase: Phase::Executing { f } },
                        PipelineAction::RunExecutor { command },
                    ),
                    Err(BuildOutcome::GenerationFailed { exit }) => (
                        Pipeline { phase: Phase::Done },
                        PipelineAction::Finish {
                            result: Err(PipelineError::GenerationFailure { exit }),
                        },
                    ),
                    Err(_) => {
                        proof {
                            assert(false);
                        }
                        (
                            Pipeline { phase: Phase::Done },
                            PipelineAction::Finish {
                                result: Err(PipelineError::GenerationFailure {
                                    exit: ProcessExit::Terminated,
                                }),
                            },
                        )
                    },
                }
            },
            Phase::Executing { f } => {
                let exit = match event {
                    PipelineEvent::ExecutorExited { exit } => exit,
                    _ => {
                        proof {
                            assert(false);
                        }
                        ProcessExit::Terminated
                    },
                };
                if exit.success() {
                    let path = f.output_directory();
                    (
                        Pipeline { phase: Phase::Inspecting { f } },
                        PipelineAction::InspectOutput { path },
                    )
                } else {
                    (
                        Pipeline { phase: Phase::Done },
                        PipelineAction::Finish {
                            result: Err(PipelineError::CompileFailure { exit }),
                        },
                    )
                }
            },
            Phase::Inspecting { f } => {
                let files = match event {
                    PipelineEvent::OutputInspected { files } => files,
                    _ => {
                        proof {
                            assert(false);
                        }
                        Vec::new()
                    },
                };
                let outcome = conclude_build(&f, ProcessExit::Exited(0));
                let include_dir = f.include_directory();
                let result = collect(outcome, &f.configuration, &files, include_dir);
                (Pipeline { phase: Phase::Done }, PipelineAction::Finish { result })
            },
            Phase::Done => {
                proof {
                    assert(false);
                }
                (
                    Pipeline { phase: Phase::Done },
                    PipelineAction::Finish {
                        result: Err(PipelineError::CompileFailure {
                            exit: ProcessExit::Terminated,
                        }),
                    },
                )
            },
        }
    }
}

} // verus!
