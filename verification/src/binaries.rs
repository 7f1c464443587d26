//! Determining which artifacts a successful build must have produced for
//! the active capability set, verifying their presence, and emitting the
//! linker directives the embedding build needs. The capability-to-artifact
//! mapping is a fixed table; a missing-artifact failure names every missing
//! file, never only the first one found.

use vstd::prelude::*;
use vstd::string::StringExecFns;
use crate::capability::Capability;
use crate::config::BuildConfiguration;
use crate::errors::PipelineError;
use crate::executor::BuildOutcome;
use crate::platform::TargetOs;
use crate::text::views_of;

verus! {

/// What a filesystem probe of one file in the output directory found. The
/// embedding code lists the directory and hands the plain facts in.
#[derive(Clone, Debug)]
pub struct ArtifactProbe {
    /// The file's name within the output directory.
    pub name: String,
    /// The file exists and is not empty.
    pub non_empty: bool,
}

/// The static libraries a build must produce, as bare library names in link
/// order: dependents before their dependencies, the core library last. Text
/// shaping adds the paragraph and shaper libraries, vector animation the
/// animation player and the scene graph; the GPU backends live inside the
/// core library and add none.
pub open spec fn spec_libraries(caps: crate::capability::CapabilitySet) -> Seq<Seq<char>> {
    (if caps.has(Capability::TextShaping) {
        seq!["skparagraph"@]
    } else {
        Seq::empty()
    }) + (if caps.has(Capability::VectorAnimation) {
        seq!["skottie"@]
    } else {
        Seq::empty()
    }) + (if caps.has(Capability::TextShaping) {
        seq!["skshaper"@]
    } else {
        Seq::empty()
    }) + (if caps.has(Capability::VectorAnimation) {
        seq!["sksg"@]
    } else {
        Seq::empty()
    }) + seq!["skia"@]
}

/// The file name of a static library on the operating system.
pub open spec fn spec_artifact_file(os: TargetOs, lib: Seq<char>) -> Seq<char> {
    if os == TargetOs::Windows {
        lib + ".lib"@
    } else {
        "lib"@ + lib + ".a"@
    }
}

/// The artifact file names of a library name sequence, in the same order.
pub open spec fn spec_artifact_files(os: TargetOs, libs: Seq<Seq<char>>) -> Seq<Seq<char>> {
    libs.map_values(|l: Seq<char>| spec_artifact_file(os, l))
}

/// Whether a probe reports the named file as present and non-empty.
pub open spec fn spec_present(probes: Seq<ArtifactProbe>, name: Seq<char>) -> bool {
    exists|i: int| 0 <= i < probes.len() && probes[i].name@ == name && probes[i].non_empty
}

/// The expected artifact files that the probes do not report as present and
/// non-empty, in link order.
pub open spec fn spec_missing(artifacts: Seq<Seq<char>>, probes: Seq<ArtifactProbe>) -> Seq<
    Seq<char>,
>
    decreases artifacts.len(),
{
    if artifacts.len() == 0 {
        Seq::empty()
    } else {
        spec_missing(artifacts.drop_last(), probes) + (if spec_present(
            probes,
            artifacts.last(),
        ) {
            Seq::<Seq<char>>::empty()
        } else {
            seq![artifacts.last()]
        })
    }
}

/// The final export record: where the artifacts are, the library names in
/// link order, and their file names. Computed once from a successful
/// outcome; the terminal value of the pipeline.
#[derive(Clone, Debug)]
pub struct BinariesConfiguration {
    pub output_dir: String,
    /// Bare library names, in link order.
    pub library_names: Vec<String>,
    /// The libraries' file names within the output directory, same order.
    pub artifact_files: Vec<String>,
    /// Where the wrapped library's public headers are.
    pub include_dir: String,
}

/// The bare library names a configuration's build must produce, in link
/// order.
pub fn expected_libraries(config: &BuildConfiguration) -> (r: Vec<String>)
    ensures
        views_of(r@) == spec_libraries(config.capabilities),
{
    let mut r: Vec<String> = Vec::new();
    let shaping = config.capabilities.contains(Capability::TextShaping);
    let animation = config.capabilities.contains(Capability::VectorAnimation);
    if shaping {
        r.push("skparagraph".to_owned());
    }
    if animation {
        r.push("skottie".to_owned());
    }
    if shaping {
        r.push("skshaper".to_owned());
    }
    if animation {
        r.push("sksg".to_owned());
    }
    r.push("skia".to_owned());
    proof {
        assert(views_of(r@) =~= spec_libraries(config.capabilities));
    }
    r
}

/// The file name of a static library on the operating system.
pub fn artifact_file_name(os: TargetOs, lib: &str) -> (r: String)
    ensures
        r@ == spec_artifact_file(os, lib@),
{
    let windows = match os {
        TargetOs::Windows => true,
        _ => false,
    };
    if windows {
        let mut s = lib.to_owned();
        s.append(".lib");
        s
    } else {
        let mut s = "lib".to_owned();
        s.append(lib);
        s.append(".a");
        s
    }
}

/// Whether the probes report the named file as present and non-empty.
fn is_present(probes: &Vec<ArtifactProbe>, name: &str) -> (r: bool)
    ensures
        r == spec_present(probes@, name@),
{
    let mut i: usize = 0;
    while i < probes.len()
        invariant
            i <= probes@.len(),
            forall|k: int|
                0 <= k < i ==> !(probes@[k].name@ == name@ && probes@[k].non_empty),
        decreases probes@.len() - i,
    {
        if probes[i].non_empty && crate::text::str_eq(probes[i].name.as_str(), name) {
            return true;
        }
        i += 1;
    }
    false
}

/// Collects the artifacts of a build outcome for the active capability set.
/// A failed outcome is surfaced as the matching pipeline error; a successful
/// one is checked against the expected artifact table, and if any expected
/// file is absent or empty the error names every missing file in link order.
#[verifier::rlimit(30)]
pub fn collect(
    outcome: BuildOutcome,
    config: &BuildConfiguration,
    probes: &Vec<ArtifactProbe>,
    include_dir: String,
) -> (r: Result<BinariesConfiguration, PipelineError>)
    ensures
        outcome matches BuildOutcome::ToolMissing { tool } ==> (r matches Err(
            PipelineError::ToolchainMissing(t),
        ) && t == tool),
        outcome matches BuildOutcome::GenerationFailed { exit } ==> (r matches Err(
            PipelineError::GenerationFailure { exit: e },
        ) && e == exit),
        outcome matches BuildOutcome::CompileFailed { exit } ==> (r matches Err(
            PipelineError::CompileFailure { exit: e },
        ) && e == exit),
        outcome matches BuildOutcome::Success { output_dir } ==> {
            &&& r is Ok <==> spec_missing(
                spec_artifact_files(config.platform.os, spec_libraries(config.capabilities)),
                probes@,
            ).len() == 0
            &&& (r matches Ok(b) ==> {
                &&& b.output_dir@ == output_dir@
                &&& b.include_dir@ == include_dir@
                &&& views_of(b.library_names@) == spec_libraries(config.capabilities)
                &&& views_of(b.artifact_files@) == spec_artifact_files(
                    config.platform.os,
                    spec_libraries(config.capabilities),
                )
            })
            &&& (r matches Err(e) ==> e matches PipelineError::ArtifactMissing { files }
                && views_of(files@) == spec_missing(
                spec_artifact_files(config.platform.os, spec_libraries(config.capabilities)),
                probes@,
            ))
        },
{
    let output_dir = match outcome {
        BuildOutcome::ToolMissing { tool } => {
            return Err(PipelineError::ToolchainMissing(tool));
        },
        BuildOutcome::GenerationFailed { exit } => {
            return Err(PipelineError::GenerationFailure { exit });
        },
        BuildOutcome::CompileFailed { exit } => {
            return Err(PipelineError::CompileFailure { exit });
        },
        BuildOutcome::Success { output_dir } => output_dir,
    };
    let library_names = expected_libraries(config);
    let ghost libs = spec_libraries(config.capabilities);
    let ghost target = spec_artifact_files(config.platform.os, libs);
    let mut artifact_files: Vec<String> = Vec::new();
    let mut i: usize = 0;
    while i < library_names.len()
        invariant
            i <= library_names@.len(),
            views_of(library_names@) == libs,
            target == spec_artifact_files(config.platform.os, libs),
            artifact_files@.len() == i,
            views_of(artifact_files@) == target.take(i as int),
        decreases library_names@.len() - i,
    {
        let file = artifact_file_name(config.platform.os, library_names[i].as_str());
        artifact_files.push(file);
        proof {
            assert forall|k: int| 0 <= k < i as int + 1 implies views_of(artifact_files@)[k]
                == target.take(i as int + 1)[k] by {
                if k < i as int {
                    assert(views_of(artifact_files@.drop_last())[k] == target.take(
                        i as int,
                    )[k]);
                } else {
                    assert(views_of(library_names@)[k] == libs[k]);
                    assert(target[k] == spec_artifact_file(config.platform.os, libs[k]));
                }
            }
            assert(views_of(artifact_files@) =~= target.take(i as int + 1));
        }
        i += 1;
    }
    proof {
        assert(target.take(library_names@.len() as int) =~= target);
    }
    let mut missing: Vec<String> = Vec::new();
    let mut j: usize = 0;
    while j < artifact_files.len()
        invariant
            j <= artifact_files@.len(),
            views_of(artifact_files@) == target,
            target == spec_artifact_files(config.platform.os, libs),
            views_of(missing@) == spec_missing(target.take(j as int), probes@),
        decreases artifact_files@.len() - j,
    {
        let ghost missing_before = missing@;
        let present = is_present(probes, artifact_files[j].as_str());
        if !present {
            missing.push(artifact_files[j].clone());
        }
        proof {
            assert(target.take(j as int + 1).drop_last() =~= target.take(j as int));
            assert(target.take(j as int + 1).last() == target[j as int]);
            if present {
                assert(views_of(missing@) =~= spec_missing(target.take(j as int + 1), probes@));
            } else {
                assert forall|k: int| 0 <= k < missing@.len() implies views_of(missing@)[k]
                    == (spec_missing(target.take(j as int), probes@) + seq![target[j as int]])[k]
                     by {
                    if k < missing_before.len() {
                        assert(views_of(missing@.drop_last())[k] == spec_missing(
                            target.take(j as int),
                            probes@,
                        )[k]);
                    }
                }
                assert(views_of(missing@) =~= spec_missing(target.take(j as int + 1), probes@));
            }
        }
        j += 1;
    }
    proof {
        assert(target.take(artifact_files@.len() as int) =~= target);
    }
    if missing.len() > 0 {
        return Err(PipelineError::ArtifactMissing { files: missing });
    }
    Ok(BinariesConfiguration { output_dir, library_names, artifact_files, include_dir })
}

/// The directives handed to the embedding build: one search path for the
/// output directory, one static-link directive per library in link order,
/// and the include-path metadata last.
pub open spec fn spec_link_directives(b: BinariesConfiguration) -> Seq<Seq<char>> {
    seq!["cargo:rustc-link-search=native="@ + b.output_dir@] + b.library_names@.map_values(
        |l: String| "cargo:rustc-link-lib=static="@ + l@,
    ) + seq!["cargo:include="@ + b.include_dir@]
}

impl BinariesConfiguration {
    /// The directives handed to the embedding build, in order.
    pub fn link_directives(&self) -> (r: Vec<String>)
        ensures
            views_of(r@) == spec_link_directives(*self),
    {
        let ghost target = spec_link_directives(*self);
        let mut r: Vec<String> = Vec::new();
        let mut search = "cargo:rustc-link-search=native=".to_owned();
        search.append(self.output_dir.as_str());
        r.push(search);
        let mut i: usize = 0;
        while i < self.library_names.len()
            invariant
                i <= self.library_names@.len(),
                target == spec_link_directives(*self),
                target.len() == 2 + self.library_names@.len(),
                r@.len() == i + 1,
                views_of(r@) == target.take(i as int + 1),
            decreases self.library_names@.len() - i,
        {
            let mut line = "cargo:rustc-link-lib=static=".to_owned();
            line.append(self.library_names[i].as_str());
            r.push(line);
            proof {
                assert forall|k: int| 0 <= k < i as int + 2 implies views_of(r@)[k]
                    == target.take(i as int + 2)[k] by {
                    if k < i as int + 1 {
                        assert(views_of(r@.drop_last())[k] == target.take(i as int + 1)[k]);
                    } else {
                        assert(target[k] == "cargo:rustc-link-lib=static="@
                            + self.library_names@[k - 1]@);
                    }
                }
                assert(views_of(r@) =~= target.take(i as int + 2));
            }
            i += 1;
        }
        let mut meta = "cargo:include=".to_owned();
        meta.append(self.include_dir.as_str());
        r.push(meta);
        proof {
            assert forall|k: int| 0 <= k < target.len() implies views_of(r@)[k] == target[k] by {
                if k < target.len() - 1 {
                    assert(views_of(r@.drop_last())[k] == target.take(target.len() - 1)[k]);
                }
            }
            assert(views_of(r@) =~= target);
        }
        r
    }
}

} // verus!
