//! Locating the two external build tools and planning their invocations.
//! The two subprocess runs are strictly sequential: the executor's
//! invocation can only be planned from a successful generator exit, and an
//! unresolved tool short-circuits to `ToolMissing` before anything could be
//! spawned. The embedding code performs the planned invocations and hands
//! the exit back; nothing here touches a process itself.

use vstd::prelude::*;
use vstd::string::StringExecFns;
use crate::arguments::{BuildArguments, render_arguments, spec_render_args};
use crate::errors::{ProcessExit, Tool};
use crate::source::{FinalBuildConfiguration, spec_output_directory};
use crate::text::views_of;

verus! {

/// The resolved locations of the generator and the executor. An unresolved
/// slot is representable: absence does not fail the build here but in
/// whichever stage actually needs the tool.
#[derive(Clone, Debug)]
pub struct ToolchainPaths {
    pub generator: Option<String>,
    pub executor: Option<String>,
}

/// Resolves one tool slot: an explicit override wins, otherwise whatever
/// the executable search path turned up, otherwise unresolved.
pub fn locate_tool(explicit: Option<String>, found: Option<String>) -> (r: Option<String>)
    ensures
        explicit is Some ==> r == explicit,
        explicit is None ==> r == found,
{
    match explicit {
        Some(p) => Some(p),
        None => found,
    }
}

/// Resolves both tool slots, each with override-first order.
pub fn locate_toolchain(
    explicit_generator: Option<String>,
    found_generator: Option<String>,
    explicit_executor: Option<String>,
    found_executor: Option<String>,
) -> (r: ToolchainPaths)
    ensures
        explicit_generator is Some ==> r.generator == explicit_generator,
        explicit_generator is None ==> r.generator == found_generator,
        explicit_executor is Some ==> r.executor == explicit_executor,
        explicit_executor is None ==> r.executor == found_executor,
{
    ToolchainPaths {
        generator: locate_tool(explicit_generator, found_generator),
        executor: locate_tool(explicit_executor, found_executor),
    }
}

/// One subprocess invocation, fully described: the program, its arguments
/// and its working directory. The embedding code runs it with its output
/// streams forwarded live and reports the exit back.
#[derive(Clone, Debug)]
pub struct CommandSpec {
    pub program: String,
    pub arguments: Vec<String>,
    pub working_dir: String,
}

/// The outcome of driving the two external tools: the output directory on
/// success, or the failed stage. Every caller has to handle all four cases.
#[derive(Clone, Debug)]
pub enum BuildOutcome {
    /// Both tools exited successfully; the artifacts are in the directory.
    Success { output_dir: String },
    /// The generator exited unsuccessfully; the executor was never invoked.
    GenerationFailed { exit: ProcessExit },
    /// The executor exited unsuccessfully.
    CompileFailed { exit: ProcessExit },
    /// The named tool is unresolved; nothing was invoked.
    ToolMissing { tool: Tool },
}

/// Plans the generator invocation: the generator writes the build graph
/// into the output directory, working inside the source tree. If either
/// tool slot is unresolved the plan is refused with `ToolMissing` naming
/// the missing tool — the generator slot is reported first — so that no
/// subprocess is ever spawned on a toolchain that cannot finish the build.
pub fn plan_generation(
    f: &FinalBuildConfiguration,
    args: &BuildArguments,
    tools: &ToolchainPaths,
) -> (r: Result<CommandSpec, BuildOutcome>)
    ensures
        r is Ok <==> (tools.generator is Some && tools.executor is Some),
        tools.generator is None ==> r matches Err(
            BuildOutcome::ToolMissing { tool: Tool::Generator },
        ),
        tools.generator is Some && tools.executor is None ==> r matches Err(
            BuildOutcome::ToolMissing { tool: Tool::Executor },
        ),
        r matches Ok(c) ==> {
            &&& tools.generator matches Some(g) && c.program@ == g@
            &&& c.working_dir@ == f.source_dir@
            &&& views_of(c.arguments@) == seq![
                "gen"@,
                spec_output_directory(*f),
                "--args="@ + spec_render_args(args@.generator_args),
            ]
        },
{
    let generator = match &tools.generator {
        Some(g) => g,
        None => {
            return Err(BuildOutcome::ToolMissing { tool: Tool::Generator });
        },
    };
    if tools.executor.is_none() {
        return Err(BuildOutcome::ToolMissing { tool: Tool::Executor });
    }
    let mut arguments: Vec<String> = Vec::new();
    arguments.push("gen".to_owned());
    arguments.push(f.output_directory());
    let mut args_flag = "--args=".to_owned();
    let line = render_arguments(args);
    args_flag.append(line.as_str());
    arguments.push(args_flag);
    let command = CommandSpec {
        program: generator.clone(),
        arguments,
        working_dir: f.source_dir.clone(),
    };
    proof {
        assert(views_of(command.arguments@) =~= seq![
            "gen"@,
            spec_output_directory(*f),
            "--args="@ + spec_render_args(args@.generator_args),
        ]);
    }
    Ok(command)
}

/// Plans the executor invocation from the generator's exit. An unsuccessful
/// generator exit is `GenerationFailed` and the executor is never invoked;
/// on success the executor compiles the graph in the output directory. The
/// plan never clears the output directory, so re-running the executor on an
/// already complete build graph does no redundant work.
pub fn plan_execution(
    f: &FinalBuildConfiguration,
    tools: &ToolchainPaths,
    generation_exit: ProcessExit,
) -> (r: Result<CommandSpec, BuildOutcome>)
    requires
        tools.executor is Some,
    ensures
        r is Ok <==> generation_exit.spec_success(),
        !generation_exit.spec_success() ==> (r matches Err(
            BuildOutcome::GenerationFailed { exit },
        ) && exit == generation_exit),
        r matches Ok(c) ==> {
            &&& tools.executor matches Some(e) && c.program@ == e@
            &&& c.working_dir@ == f.source_dir@
            &&& views_of(c.arguments@) == seq!["-C"@, spec_output_directory(*f)]
        },
{
    if !generation_exit.success() {
        return Err(BuildOutcome::GenerationFailed { exit: generation_exit });
    }
    let executor = match &tools.executor {
        Some(e) => e.clone(),
        None => {
            proof {
                assert(false);
            }
            return Err(BuildOutcome::ToolMissing { tool: Tool::Executor });
        },
    };
    let mut arguments: Vec<String> = Vec::new();
    arguments.push("-C".to_owned());
    arguments.push(f.output_directory());
    let command = CommandSpec { program: executor, arguments, working_dir: f.source_dir.clone() };
    proof {
        assert(views_of(command.arguments@) =~= seq!["-C"@, spec_output_directory(*f)]);
    }
    Ok(command)
}

/// Concludes the build from the executor's exit: success carries the output
/// directory, an unsuccessful exit is a compile or link failure.
pub fn conclude_build(f: &FinalBuildConfiguration, execution_exit: ProcessExit) -> (r: BuildOutcome)
    ensures
        execution_exit.spec_success() ==> (r matches BuildOutcome::Success { output_dir }
            && output_dir@ == spec_output_directory(*f)),
        !execution_exit.spec_success() ==> (r matches BuildOutcome::CompileFailed { exit } && exit
            == execution_exit),
{
    if execution_exit.success() {
        BuildOutcome::Success { output_dir: f.output_directory() }
    } else {
        BuildOutcome::CompileFailed { exit: execution_exit }
    }
}

} // verus!
