//! The target platform a build is configured for: operating system,
//! processor architecture and ABI, read from the build environment's plain
//! target tokens.

use vstd::prelude::*;
use crate::text::str_eq;

verus! {

/// The operating system a build targets.
#[derive(Clone, Copy, Debug, PartialEq, Eq, Hash, Structural)]
pub enum TargetOs {
    Windows,
    MacOs,
    Ios,
    Linux,
    Android,
}

/// The processor architecture a build targets.
#[derive(Clone, Copy, Debug, PartialEq, Eq, Hash, Structural)]
pub enum TargetArch {
    X64,
    X86,
    Arm64,
    Arm,
}

/// The ABI a build targets. Targets whose environment token is empty or not
/// one of the known names fall under `Other`.
#[derive(Clone, Copy, Debug, PartialEq, Eq, Hash, Structural)]
pub enum TargetAbi {
    Msvc,
    Gnu,
    Musl,
    Other,
}

/// The platform a build is configured for.
#[derive(Clone, Copy, Debug, PartialEq, Eq, Hash, Structural)]
pub struct Platform {
    pub os: TargetOs,
    pub arch: TargetArch,
    pub abi: TargetAbi,
}

/// The operating system named by an environment token, if any.
pub open spec fn spec_os_token(s: Seq<char>) -> Option<TargetOs> {
    if s == "windows"@ {
        Some(TargetOs::Windows)
    } else if s == "macos"@ {
        Some(TargetOs::MacOs)
    } else if s == "ios"@ {
        Some(TargetOs::Ios)
    } else if s == "linux"@ {
        Some(TargetOs::Linux)
    } else if s == "android"@ {
        Some(TargetOs::Android)
    } else {
        None
    }
}

/// The architecture named by an environment token, if any.
pub open spec fn spec_arch_token(s: Seq<char>) -> Option<TargetArch> {
    if s == "x86_64"@ {
        Some(TargetArch::X64)
    } else if s == "x86"@ {
        Some(TargetArch::X86)
    } else if s == "aarch64"@ {
        Some(TargetArch::Arm64)
    } else if s == "arm"@ {
        Some(TargetArch::Arm)
    } else {
        None
    }
}

/// The ABI named by an environment token. Unknown tokens map to `Other`.
pub open spec fn spec_abi_token(s: Seq<char>) -> TargetAbi {
    if s == "msvc"@ {
        TargetAbi::Msvc
    } else if s == "gnu"@ {
        TargetAbi::Gnu
    } else if s == "musl"@ {
        TargetAbi::Musl
    } else {
        TargetAbi::Other
    }
}

/// The platform described by the environment's three target tokens, if the
/// operating system and architecture are both known.
pub open spec fn spec_platform_of(
    os: Seq<char>,
    arch: Seq<char>,
    abi: Seq<char>,
) -> Option<Platform> {
    match (spec_os_token(os), spec_arch_token(arch)) {
        (Some(o), Some(a)) => Some(Platform { os: o, arch: a, abi: spec_abi_token(abi) }),
        _ => None,
    }
}

impl TargetOs {
    /// The name the build generator uses for this operating system.
    pub fn generator_name(&self) -> (r: &'static str)
        ensures
            r@ == spec_os_generator_name(*self),
    {
        match self {
            TargetOs::Windows => "win",
            TargetOs::MacOs => "mac",
            TargetOs::Ios => "ios",
            TargetOs::Linux => "linux",
            TargetOs::Android => "android",
        }
    }
}

/// The name the build generator uses for an operating system.
pub open spec fn spec_os_generator_name(os: TargetOs) -> Seq<char> {
    match os {
        TargetOs::Windows => "win"@,
        TargetOs::MacOs => "mac"@,
        TargetOs::Ios => "ios"@,
        TargetOs::Linux => "linux"@,
        TargetOs::Android => "android"@,
    }
}

impl TargetArch {
    /// The name the build generator uses for this architecture.
    pub fn generator_name(&self) -> (r: &'static str)
        ensures
            r@ == spec_arch_generator_name(*self),
    {
        match self {
            TargetArch::X64 => "x64",
            TargetArch::X86 => "x86",
            TargetArch::Arm64 => "arm64",
            TargetArch::Arm => "arm",
        }
    }
}

/// The name the build generator uses for an architecture.
pub open spec fn spec_arch_generator_name(arch: TargetArch) -> Seq<char> {
    match arch {
        TargetArch::X64 => "x64"@,
        TargetArch::X86 => "x86"@,
        TargetArch::Arm64 => "arm64"@,
        TargetArch::Arm => "arm"@,
    }
}

impl Platform {
    /// Reads the platform from the environment's plain target tokens, as the
    /// build environment hands them to a native build step. Returns `None`
    /// exactly when the operating system or the architecture token is not a
    /// known name.
    pub fn from_tokens(os: &str, arch: &str, abi: &str) -> (r: Option<Platform>)
        ensures
            r == spec_platform_of(os@, arch@, abi@),
    {
        let parsed_os = if str_eq(os, "windows") {
            Some(TargetOs::Windows)
        } else if str_eq(os, "macos") {
            Some(TargetOs::MacOs)
        } else if str_eq(os, "ios") {
            Some(TargetOs::Ios)
        } else if str_eq(os, "linux") {
            Some(TargetOs::Linux)
        } else if str_eq(os, "android") {
            Some(TargetOs::Android)
        } else {
            None
        };
        let parsed_arch = if str_eq(arch, "x86_64") {
            Some(TargetArch::X64)
        } else if str_eq(arch, "x86") {
            Some(TargetArch::X86)
        } else if str_eq(arch, "aarch64") {
            Some(TargetArch::Arm64)
        } else if str_eq(arch, "arm") {
            Some(TargetArch::Arm)
        } else {
            None
        };
        let parsed_abi = if str_eq(abi, "msvc") {
            TargetAbi::Msvc
        } else if str_eq(abi, "gnu") {
            TargetAbi::Gnu
        } else if str_eq(abi, "musl") {
            TargetAbi::Musl
        } else {
            TargetAbi::Other
        };
        match (parsed_os, parsed_arch) {
            (Some(o), Some(a)) => Some(Platform { os: o, arch: a, abi: parsed_abi }),
            _ => None,
        }
    }
}

} // verus!
