//! The ways a build invocation can fail, and the exact text each failure
//! reports. Configuration failures and missing artifacts carry the complete
//! list of problems, never only the first one found.

use vstd::prelude::*;
use vstd::string::StringExecFns;
use crate::capability::{Capability, spec_cap_name};
use crate::platform::{TargetOs, spec_os_generator_name};
use crate::text::{join, spec_join, views_of};

verus! {

/// One of the two external build tools.
#[derive(Clone, Copy, Debug, PartialEq, Eq, Hash, Structural)]
pub enum Tool {
    /// The meta-build generator that writes the low-level build graph.
    Generator,
    /// The parallel build executor that compiles and links the graph.
    Executor,
}

/// How a subprocess ended: with an exit code, or without one because it was
/// terminated from outside.
#[derive(Clone, Copy, Debug, PartialEq, Eq, Hash, Structural)]
pub enum ProcessExit {
    Exited(i32),
    Terminated,
}

impl ProcessExit {
    /// Whether the process ended successfully.
    pub open spec fn spec_success(self) -> bool {
        self == ProcessExit::Exited(0i32)
    }

    /// Whether the process ended successfully.
    pub fn success(&self) -> (r: bool)
        ensures
            r == self.spec_success(),
    {
        match self {
            ProcessExit::Exited(code) => *code == 0,
            ProcessExit::Terminated => false,
        }
    }
}

/// A broken rule of the capability table: a pair that cannot be enabled
/// together, a capability whose prerequisite is missing, or a capability the
/// target platform does not support.
#[derive(Clone, Copy, Debug, PartialEq, Eq, Hash, Structural)]
pub enum RuleViolation {
    MutuallyExclusive { first: Capability, second: Capability },
    RequiresMissing { enabled: Capability, needed: Capability },
    NotSupportedOnTarget { capability: Capability, os: TargetOs },
}

/// The text a rule violation reports.
pub open spec fn spec_violation_message(v: RuleViolation) -> Seq<char> {
    match v {
        RuleViolation::MutuallyExclusive { first, second } => "capability "@ + spec_cap_name(
            first,
        ) + " and capability "@ + spec_cap_name(second) + " are mutually exclusive"@,
        RuleViolation::RequiresMissing { enabled, needed } => "capability "@ + spec_cap_name(
            enabled,
        ) + " requires capability "@ + spec_cap_name(needed) + " to be enabled as well"@,
        RuleViolation::NotSupportedOnTarget { capability, os } => "capability "@ + spec_cap_name(
            capability,
        ) + " is not supported on "@ + spec_os_generator_name(os) + " targets"@,
    }
}

/// The texts of the violations, in order.
pub open spec fn violation_messages(vs: Seq<RuleViolation>) -> Seq<Seq<char>> {
    vs.map_values(|v: RuleViolation| spec_violation_message(v))
}

/// The texts of the violations, joined with a separator.
pub open spec fn spec_violations_message(vs: Seq<RuleViolation>) -> Seq<char> {
    spec_join(violation_messages(vs), "; "@)
}

impl RuleViolation {
    /// The text this violation reports.
    pub fn describe(&self) -> (r: String)
        ensures
            r@ == spec_violation_message(*self),
    {
        match self {
            RuleViolation::MutuallyExclusive { first, second } => {
                let mut s = "capability ".to_owned();
                s.append(first.name());
                s.append(" and capability ");
                s.append(second.name());
                s.append(" are mutually exclusive");
                s
            },
            RuleViolation::RequiresMissing { enabled, needed } => {
                let mut s = "capability ".to_owned();
                s.append(enabled.name());
                s.append(" requires capability ");
                s.append(needed.name());
                s.append(" to be enabled as well");
                s
            },
            RuleViolation::NotSupportedOnTarget { capability, os } => {
                let mut s = "capability ".to_owned();
                s.append(capability.name());
                s.append(" is not supported on ");
                s.append(os.generator_name());
                s.append(" targets");
                s
            },
        }
    }
}

/// Joins the texts of the violations with a separator.
pub fn describe_violations(vs: &Vec<RuleViolation>) -> (r: String)
    ensures
        r@ == spec_violations_message(vs@),
{
    let ghost target = violation_messages(vs@);
    let mut msgs: Vec<String> = Vec::new();
    let mut i: usize = 0;
    while i < vs.len()
        invariant
            i <= vs@.len(),
            target == violation_messages(vs@),
            msgs@.len() == i,
            views_of(msgs@) == target.take(i as int),
        decreases vs@.len() - i,
    {
        let m = vs[i].describe();
        msgs.push(m);
        proof {
            assert forall|k: int| 0 <= k < i as int + 1 implies views_of(msgs@)[k]
                == target.take(i as int + 1)[k] by {
                if k < i as int {
                    assert(views_of(msgs@.drop_last())[k] == target.take(i as int)[k]);
                }
            }
            assert(views_of(msgs@) =~= target.take(i as int + 1));
        }
        i += 1;
    }
    proof {
        assert(target.take(vs@.len() as int) =~= target);
    }
    join(&msgs, "; ")
}

/// An invalid configuration: an unrecognized capability name, a target the
/// pipeline does not know, or an enabled capability set that breaks the rule
/// table. The last variant carries every violated rule.
#[derive(Clone, Debug)]
pub enum ConfigError {
    UnknownCapability { name: String },
    UnsupportedTarget { os: String, arch: String },
    RulesViolated { violations: Vec<RuleViolation> },
}

/// The text a configuration error reports.
pub open spec fn spec_config_error_message(e: ConfigError) -> Seq<char> {
    match e {
        ConfigError::UnknownCapability { name } => "unknown capability name: "@ + name@,
        ConfigError::UnsupportedTarget { os, arch } => "unsupported target platform: "@ + os@
            + "/"@ + arch@,
        ConfigError::RulesViolated { violations } => "invalid capability configuration: "@
            + spec_violations_message(violations@),
    }
}

impl ConfigError {
    /// The text this error reports.
    pub fn message(&self) -> (r: String)
        ensures
            r@ == spec_config_error_message(*self),
    {
        match self {
            ConfigError::UnknownCapability { name } => {
                let mut s = "unknown capability name: ".to_owned();
                s.append(name.as_str());
                s
            },
            ConfigError::UnsupportedTarget { os, arch } => {
                let mut s = "unsupported target platform: ".to_owned();
                s.append(os.as_str());
                s.append("/");
                s.append(arch.as_str());
                s
            },
            ConfigError::RulesViolated { violations } => {
                let mut s = "invalid capability configuration: ".to_owned();
                let v = describe_violations(violations);
                s.append(v.as_str());
                s
            },
        }
    }
}

/// A failed build invocation, by stage. Every variant identifies whether the
/// pipeline's own validation rejected the configuration or an external tool
/// failed, since the remedy differs.
#[derive(Clone, Debug)]
pub enum PipelineError {
    /// The pipeline's own validation rejected the inputs.
    Configuration(ConfigError),
    /// A required external tool was not found and no override was supplied.
    ToolchainMissing(Tool),
    /// The source tree is absent or empty.
    SourceMissing { path: String },
    /// The external generator exited unsuccessfully.
    GenerationFailure { exit: ProcessExit },
    /// The external executor exited unsuccessfully.
    CompileFailure { exit: ProcessExit },
    /// The build succeeded but expected artifacts are absent or empty.
    ArtifactMissing { files: Vec<String> },
}

/// The text a pipeline error reports.
pub open spec fn spec_pipeline_error_message(e: PipelineError) -> Seq<char> {
    match e {
        PipelineError::Configuration(c) => spec_config_error_message(c),
        PipelineError::ToolchainMissing(Tool::Generator) => "the build generator was not found on the search path and no explicit path was supplied"@,
        PipelineError::ToolchainMissing(Tool::Executor) => "the build executor was not found on the search path and no explicit path was supplied"@,
        PipelineError::SourceMissing { path } => "source tree absent or empty: "@ + path@,
        PipelineError::GenerationFailure { exit } => "the build generator reported an error while writing the build graph"@,
        PipelineError::CompileFailure { exit } => "the build executor reported a compile or link error"@,
        PipelineError::ArtifactMissing { files } => "expected build artifacts are absent or empty: "@
            + spec_join(views_of(files@), ", "@),
    }
}

impl PipelineError {
    /// The text this error reports.
    pub fn message(&self) -> (r: String)
        ensures
            r@ == spec_pipeline_error_message(*self),
    {
        match self {
            PipelineError::Configuration(c) => c.message(),
            PipelineError::ToolchainMissing(Tool::Generator) => {
                "the build generator was not found on the search path and no explicit path was supplied".to_owned()
            },
            PipelineError::ToolchainMissing(Tool::Executor) => {
                "the build executor was not found on the search path and no explicit path was supplied".to_owned()
            },
            PipelineError::SourceMissing { path } => {
                let mut s = "source tree absent or empty: ".to_owned();
                s.append(path.as_str());
                s
            },
            PipelineError::GenerationFailure { exit } => {
                "the build generator reported an error while writing the build graph".to_owned()
            },
            PipelineError::CompileFailure { exit } => {
                "the build executor reported a compile or link error".to_owned()
            },
            PipelineError::ArtifactMissing { files } => {
                let mut s = "expected build artifacts are absent or empty: ".to_owned();
                let list = join(files, ", ");
                s.append(list.as_str());
                s
            },
        }
    }
}

} // verus!
