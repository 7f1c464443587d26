//! Deciding where the wrapped library's source tree is: a caller-supplied
//! offline tree, or the managed checkout at its conventional location. The
//! resolved configuration records the location and the platform facts later
//! stages need, so that no stage probes the filesystem again.

use vstd::prelude::*;
use vstd::string::StringExecFns;
use crate::config::{BuildConfiguration, Profile};
use crate::errors::PipelineError;

verus! {

/// What a filesystem probe of one directory found. The embedding code probes
/// the directory and hands the plain facts in.
#[derive(Clone, Copy, Debug, PartialEq, Eq, Hash, Structural)]
pub struct DirectoryProbe {
    /// The directory exists.
    pub exists: bool,
    /// The directory has at least one entry.
    pub non_empty: bool,
}

/// A build configuration together with the resolved filesystem facts: the
/// absolute source tree location, the build mode, and the detected platform
/// SDK. Read-only once created.
#[derive(Clone, Debug)]
pub struct FinalBuildConfiguration {
    pub configuration: BuildConfiguration,
    /// The resolved location of the wrapped library's source tree.
    pub source_dir: String,
    /// Whether the source tree was supplied by the caller (offline mode)
    /// rather than resolved to the managed checkout (full mode).
    pub offline: bool,
    /// The detected platform SDK root, on targets that need one.
    pub sdk_root: Option<String>,
}

impl FinalBuildConfiguration {
    /// The capability set is held in canonical order.
    pub open spec fn wf(self) -> bool {
        self.configuration.wf()
    }
}

/// The name of the build graph directory for a profile.
pub open spec fn spec_profile_directory(p: Profile) -> Seq<char> {
    match p {
        Profile::Debug => "Debug"@,
        Profile::Release => "Release"@,
    }
}

impl Profile {
    /// The name of the build graph directory for this profile.
    pub fn directory_name(&self) -> (r: &'static str)
        ensures
            r@ == spec_profile_directory(*self),
    {
        match self {
            Profile::Debug => "Debug",
            Profile::Release => "Release",
        }
    }
}

/// Where the build graph and the artifacts are written, below the source
/// tree.
pub open spec fn spec_output_directory(f: FinalBuildConfiguration) -> Seq<char> {
    f.source_dir@ + "/out/"@ + spec_profile_directory(f.configuration.profile)
}

impl FinalBuildConfiguration {
    /// Where the build graph and the artifacts are written.
    pub fn output_directory(&self) -> (r: String)
        ensures
            r@ == spec_output_directory(*self),
    {
        let mut s = self.source_dir.clone();
        s.append("/out/");
        s.append(self.configuration.profile.directory_name());
        s
    }
}

/// Where the wrapped library's public headers are, below the source tree.
pub open spec fn spec_include_directory(f: FinalBuildConfiguration) -> Seq<char> {
    f.source_dir@ + "/include"@
}

impl FinalBuildConfiguration {
    /// Where the wrapped library's public headers are.
    pub fn include_directory(&self) -> (r: String)
        ensures
            r@ == spec_include_directory(*self),
    {
        let mut s = self.source_dir.clone();
        s.append("/include");
        s
    }
}

/// The location the source tree will be looked for: the caller-supplied
/// directory when one is given (offline mode), else the managed checkout at
/// its conventional place under the working directory (full mode).
pub open spec fn spec_source_location(offline_dir: Option<Seq<char>>, work_dir: Seq<char>) -> Seq<
    char,
> {
    match offline_dir {
        Some(dir) => dir,
        None => work_dir + "/skia"@,
    }
}

/// Returns the location of the source tree and whether the build is offline.
pub fn source_location(offline_dir: &Option<String>, work_dir: &str) -> (r: (String, bool))
    ensures
        r.0@ == spec_source_location(
            match offline_dir {
                Some(d) => Some(d@),
                None => None,
            },
            work_dir@,
        ),
        r.1 == (offline_dir is Some),
{
    match offline_dir {
        Some(dir) => (dir.clone(), true),
        None => {
            let mut s = work_dir.to_owned();
            s.append("/skia");
            (s, false)
        },
    }
}

/// Resolves the source tree: trusts a probed, non-empty directory and
/// records it; fails with `SourceMissing` naming the location when the
/// directory is absent or empty, before anything else runs. Fetching an
/// absent managed checkout is the embedding environment's responsibility,
/// never this function's.
pub fn resolve_source(
    configuration: BuildConfiguration,
    location: String,
    offline: bool,
    probe: DirectoryProbe,
    sdk_root: Option<String>,
) -> (r: Result<FinalBuildConfiguration, PipelineError>)
    requires
        configuration.wf(),
    ensures
        r is Ok <==> (probe.exists && probe.non_empty),
        r matches Ok(f) ==> {
            &&& f.wf()
            &&& f.configuration == configuration
            &&& f.source_dir@ == location@
            &&& f.offline == offline
            &&& f.sdk_root == sdk_root
        },
        r matches Err(e) ==> e matches PipelineError::SourceMissing { path } && path@
            == location@,
{
    if probe.exists && probe.non_empty {
        Ok(FinalBuildConfiguration { configuration, source_dir: location, offline, sdk_root })
    } else {
        Err(PipelineError::SourceMissing { path: location })
    }
}

} // verus!
