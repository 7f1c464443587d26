//! Resolving the environment's plain inputs — target tokens, feature names
//! and profile — into an immutable build configuration. Deprecated feature
//! names are normalized with a warning; unrecognized ones are rejected.

use vstd::prelude::*;
use vstd::string::StringExecFns;
use crate::capability::{Capability, CapabilitySet};
use crate::errors::ConfigError;
use crate::platform::{Platform, spec_platform_of};
use crate::text::{str_eq, views_of};

verus! {

/// The build profile of the embedding program.
#[derive(Clone, Copy, Debug, PartialEq, Eq, Hash, Structural)]
pub enum Profile {
    Debug,
    Release,
}

/// An immutable snapshot of everything the pipeline needs to know about the
/// requested build: target platform, enabled capabilities, profile, and
/// whether the wrapped library itself is built with debug information.
/// Created once per invocation and never mutated afterwards.
#[derive(Clone, Debug)]
pub struct BuildConfiguration {
    pub platform: Platform,
    pub capabilities: CapabilitySet,
    pub profile: Profile,
    /// Whether the wrapped native library is built unoptimized and with
    /// debug information, independently of the embedding program's profile.
    pub native_debug: bool,
}

impl BuildConfiguration {
    /// The capability set is held in canonical order.
    pub open spec fn wf(self) -> bool {
        self.capabilities.wf()
    }
}

/// What a feature name means: a capability, a removed name that now maps to
/// a capability, a removed name whose functionality is always available, or
/// nothing the pipeline knows.
#[derive(Clone, Copy, Debug, PartialEq, Eq, Hash, Structural)]
pub enum FeatureToken {
    Recognized(Capability),
    Replaced(Capability),
    AlwaysOn,
    Unknown,
}

/// The meaning of one feature name.
pub open spec fn spec_feature_token(s: Seq<char>) -> FeatureToken {
    if s == "gl"@ {
        FeatureToken::Recognized(Capability::Gl)
    } else if s == "vulkan"@ {
        FeatureToken::Recognized(Capability::Vulkan)
    } else if s == "metal"@ {
        FeatureToken::Recognized(Capability::Metal)
    } else if s == "d3d"@ {
        FeatureToken::Recognized(Capability::D3d)
    } else if s == "textlayout"@ {
        FeatureToken::Recognized(Capability::TextShaping)
    } else if s == "animation"@ {
        FeatureToken::Recognized(Capability::VectorAnimation)
    } else if s == "shaper"@ {
        FeatureToken::Replaced(Capability::TextShaping)
    } else if s == "svg"@ {
        FeatureToken::AlwaysOn
    } else {
        FeatureToken::Unknown
    }
}

/// Whether one feature name enables the capability.
pub open spec fn spec_token_enables(s: Seq<char>, c: Capability) -> bool {
    match spec_feature_token(s) {
        FeatureToken::Recognized(d) => d == c,
        FeatureToken::Replaced(d) => d == c,
        FeatureToken::AlwaysOn => false,
        FeatureToken::Unknown => false,
    }
}

/// Whether any of the feature names enables the capability.
pub open spec fn spec_enables(fs: Seq<Seq<char>>, c: Capability) -> bool {
    exists|i: int| 0 <= i < fs.len() && spec_token_enables(fs[i], c)
}

/// The warning one feature name produces: deprecated names warn, all others
/// are silent.
pub open spec fn spec_token_warnings(s: Seq<char>) -> Seq<Seq<char>> {
    if s == "shaper"@ {
        seq![
            "the feature 'shaper' has been removed; enable 'textlayout' to use the text shaping bindings"@,
        ]
    } else if s == "svg"@ {
        seq![
            "the feature 'svg' has been removed; the functionality is available in every build configuration"@,
        ]
    } else {
        Seq::empty()
    }
}

/// The warnings the feature names produce, in order.
pub open spec fn spec_warnings(fs: Seq<Seq<char>>) -> Seq<Seq<char>>
    decreases fs.len(),
{
    if fs.len() == 0 {
        Seq::empty()
    } else {
        spec_warnings(fs.drop_last()) + spec_token_warnings(fs.last())
    }
}

/// A resolved configuration together with the non-fatal warnings that
/// resolving it produced.
#[derive(Clone, Debug)]
pub struct Resolution {
    pub configuration: BuildConfiguration,
    pub warnings: Vec<String>,
}

/// Turns the environment's plain inputs into a `BuildConfiguration`.
///
/// Resolution is a pure function of its inputs: calling it twice on the same
/// inputs yields an identical configuration. Deprecated feature names are
/// normalized and reported as warnings; an unrecognized feature name or an
/// unknown target is rejected with a descriptive error rather than silently
/// ignored.
#[verifier::loop_isolation(false)]
pub fn resolve(
    os: &str,
    arch: &str,
    abi: &str,
    features: &Vec<String>,
    release: bool,
    native_debug: bool,
) -> (r: Result<Resolution, ConfigError>)
    ensures
        r is Ok <==> (spec_platform_of(os@, arch@, abi@) is Some && (forall|i: int|
            0 <= i < features@.len() ==> !(spec_feature_token(views_of(features@)[i])
                is Unknown))),
        spec_platform_of(os@, arch@, abi@) is None ==> (r matches Err(
            ConfigError::UnsupportedTarget { os: o, arch: a },
        ) && o@ == os@ && a@ == arch@),
        r matches Err(ConfigError::UnknownCapability { name }) ==> exists|i: int|
            0 <= i < features@.len() && spec_feature_token(views_of(features@)[i]) is Unknown
                && name@ == views_of(features@)[i] && (forall|j: int|
                0 <= j < i ==> !(spec_feature_token(views_of(features@)[j]) is Unknown)),
        r matches Ok(res) ==> {
            &&& res.configuration.wf()
            &&& Some(res.configuration.platform) == spec_platform_of(os@, arch@, abi@)
            &&& forall|c: Capability|
                res.configuration.capabilities.has(c) <==> spec_enables(views_of(features@), c)
            &&& res.configuration.profile == (if release {
                Profile::Release
            } else {
                Profile::Debug
            })
            &&& res.configuration.native_debug == native_debug
            &&& views_of(res.warnings@) == spec_warnings(views_of(features@))
        },
{
    let parsed = Platform::from_tokens(os, arch, abi);
    let platform = match parsed {
        Some(p) => p,
        None => {
            return Err(ConfigError::UnsupportedTarget { os: os.to_owned(), arch: arch.to_owned() });
        },
    };
    proof {
        assert(spec_platform_of(os@, arch@, abi@) is Some);
    }
    let ghost fs = views_of(features@);
    let mut capabilities = CapabilitySet::new();
    let mut warnings: Vec<String> = Vec::new();
    let mut i: usize = 0;
    while i < features.len()
        invariant
            i <= features@.len(),
            fs == views_of(features@),
            capabilities.wf(),
            forall|c: Capability| capabilities.has(c) <==> spec_enables(fs.take(i as int), c),
            views_of(warnings@) == spec_warnings(fs.take(i as int)),
            forall|j: int| 0 <= j < i ==> !(spec_feature_token(fs[j]) is Unknown),
        decreases features@.len() - i,
    {
        let ghost before = capabilities;
        let ghost warnings_before = warnings@;
        let f = &features[i];
        proof {
            assert(fs[i as int] == features@[i as int]@);
            lemma_feature_names_distinct();
        }
        if str_eq(f.as_str(), "gl") {
            capabilities.enable(Capability::Gl);
            proof {
                assert(views_of(warnings@) =~= views_of(warnings_before)
                    + spec_token_warnings(fs[i as int]));
            }
        } else if str_eq(f.as_str(), "vulkan") {
            capabilities.enable(Capability::Vulkan);
            proof {
                assert(views_of(warnings@) =~= views_of(warnings_before)
                    + spec_token_warnings(fs[i as int]));
            }
        } else if str_eq(f.as_str(), "metal") {
            capabilities.enable(Capability::Metal);
            proof {
                assert(views_of(warnings@) =~= views_of(warnings_before)
                    + spec_token_warnings(fs[i as int]));
            }
        } else if str_eq(f.as_str(), "d3d") {
            capabilities.enable(Capability::D3d);
            proof {
                assert(views_of(warnings@) =~= views_of(warnings_before)
                    + spec_token_warnings(fs[i as int]));
            }
        } else if str_eq(f.as_str(), "textlayout") {
            capabilities.enable(Capability::TextShaping);
            proof {
                assert(views_of(warnings@) =~= views_of(warnings_before)
                    + spec_token_warnings(fs[i as int]));
            }
        } else if str_eq(f.as_str(), "animation") {
            capabilities.enable(Capability::VectorAnimation);
            proof {
                assert(views_of(warnings@) =~= views_of(warnings_before)
                    + spec_token_warnings(fs[i as int]));
            }
        } else if str_eq(f.as_str(), "shaper") {
            capabilities.enable(Capability::TextShaping);
            warnings.push(
                "the feature 'shaper' has been removed; enable 'textlayout' to use the text shaping bindings".to_owned(),
            );
            proof {
                lemma_views_one_pushed(warnings_before, warnings@);
                assert(views_of(warnings@) =~= views_of(warnings_before)
                    + spec_token_warnings(fs[i as int]));
            }
        } else if str_eq(f.as_str(), "svg") {
            warnings.push(
                "the feature 'svg' has been removed; the functionality is available in every build configuration".to_owned(),
            );
            proof {
                lemma_views_one_pushed(warnings_before, warnings@);
                assert(views_of(warnings@) =~= views_of(warnings_before)
                    + spec_token_warnings(fs[i as int]));
            }
        } else {
            proof {
                assert(spec_feature_token(fs[i as int]) is Unknown);
            }
            return Err(ConfigError::UnknownCapability { name: f.clone() });
        }
        proof {
            lemma_enables_extend(fs, i as int, before, capabilities);
            lemma_warnings_step(warnings_before, warnings@, fs, i as int);
        }
        i += 1;
    }
    proof {
        assert(fs.take(features@.len() as int) =~= fs);
    }
    Ok(
        Resolution {
            configuration: BuildConfiguration {
                platform,
                capabilities,
                profile: if release {
                    Profile::Release
                } else {
                    Profile::Debug
                },
                native_debug,
            },
            warnings,
        },
    )
}

/// Resolution is canonical: any two well-formed capability sets that enable
/// exactly what one feature list enables are identical, so resolving the
/// same inputs twice yields the same configuration.
pub proof fn lemma_resolution_canonical(fs: Seq<Seq<char>>, a: CapabilitySet, b: CapabilitySet)
    requires
        a.wf(),
        b.wf(),
        forall|c: Capability| a.has(c) <==> spec_enables(fs, c),
        forall|c: Capability| b.has(c) <==> spec_enables(fs, c),
    ensures
        a.ordered() == b.ordered(),
{
    CapabilitySet::lemma_canonical_form_unique(a, b);
}

/// After one more feature name is handled, the enabled set is the previous
/// set extended by whatever that name enables.
proof fn lemma_enables_extend(
    fs: Seq<Seq<char>>,
    i: int,
    before: CapabilitySet,
    after: CapabilitySet,
)
    requires
        0 <= i < fs.len(),
        forall|c: Capability| before.has(c) <==> spec_enables(fs.take(i), c),
        forall|c: Capability| after.has(c) <==> (before.has(c) || spec_token_enables(fs[i], c)),
    ensures
        forall|c: Capability| after.has(c) <==> spec_enables(fs.take(i + 1), c),
{
    assert forall|c: Capability| after.has(c) implies spec_enables(fs.take(i + 1), c) by {
        if before.has(c) {
            let k = choose|k: int| 0 <= k < i && #[trigger] spec_token_enables(fs.take(i)[k], c);
            assert(spec_token_enables(fs.take(i + 1)[k], c));
        } else {
            assert(spec_token_enables(fs.take(i + 1)[i], c));
        }
    }
    assert forall|c: Capability| spec_enables(fs.take(i + 1), c) implies after.has(c) by {
        let k = choose|k: int| 0 <= k < i + 1 && #[trigger] spec_token_enables(fs.take(i + 1)[k], c);
        if k < i {
            assert(spec_token_enables(fs.take(i)[k], c));
        } else {
            assert(spec_token_enables(fs[i], c));
        }
    }
}

/// The recognized and deprecated feature names are pairwise distinct, so
/// the meaning of a feature name is decided by at most one of them.
proof fn lemma_feature_names_distinct()
    ensures
        "gl"@ != "vulkan"@,
        "gl"@ != "metal"@,
        "gl"@ != "d3d"@,
        "gl"@ != "textlayout"@,
        "gl"@ != "animation"@,
        "gl"@ != "shaper"@,
        "gl"@ != "svg"@,
        "vulkan"@ != "metal"@,
        "vulkan"@ != "d3d"@,
        "vulkan"@ != "textlayout"@,
        "vulkan"@ != "animation"@,
        "vulkan"@ != "shaper"@,
        "vulkan"@ != "svg"@,
        "metal"@ != "d3d"@,
        "metal"@ != "textlayout"@,
        "metal"@ != "animation"@,
        "metal"@ != "shaper"@,
        "metal"@ != "svg"@,
        "d3d"@ != "textlayout"@,
        "d3d"@ != "animation"@,
        "d3d"@ != "shaper"@,
        "d3d"@ != "svg"@,
        "textlayout"@ != "animation"@,
        "textlayout"@ != "shaper"@,
        "textlayout"@ != "svg"@,
        "animation"@ != "shaper"@,
        "animation"@ != "svg"@,
        "shaper"@ != "svg"@,
{
    reveal_strlit("gl");
    reveal_strlit("vulkan");
    reveal_strlit("metal");
    reveal_strlit("d3d");
    reveal_strlit("textlayout");
    reveal_strlit("animation");
    reveal_strlit("shaper");
    reveal_strlit("svg");
    assert("gl"@.len() == 2);
    assert("vulkan"@.len() == 6);
    assert("metal"@.len() == 5);
    assert("d3d"@.len() == 3);
    assert("textlayout"@.len() == 10);
    assert("animation"@.len() == 9);
    assert("shaper"@.len() == 6);
    assert("svg"@.len() == 3);
    assert("vulkan"@[0] == 'v');
    assert("shaper"@[0] == 's');
    assert("d3d"@[0] == 'd');
    assert("svg"@[0] == 's');
}

/// Pushing one string onto a vector pushes its view onto the views.
proof fn lemma_views_one_pushed(before: Seq<String>, after: Seq<String>)
    requires
        after.len() == before.len() + 1,
        forall|k: int| 0 <= k < before.len() ==> after[k] == before[k],
    ensures
        views_of(after) =~= views_of(before).push(after.last()@),
{
    assert forall|k: int| 0 <= k < after.len() implies views_of(after)[k] == views_of(
        before,
    ).push(after.last()@)[k] by {
        if k < before.len() {
            assert(after[k] == before[k]);
        }
    }
}

/// After one more feature name is handled, the warnings are the previous
/// warnings extended by whatever that name warns about.
proof fn lemma_warnings_step(
    ws_before: Seq<String>,
    ws_after: Seq<String>,
    fs: Seq<Seq<char>>,
    i: int,
)
    requires
        0 <= i < fs.len(),
        views_of(ws_before) == spec_warnings(fs.take(i)),
        views_of(ws_after) == views_of(ws_before) + spec_token_warnings(fs[i]),
    ensures
        views_of(ws_after) == spec_warnings(fs.take(i + 1)),
{
    assert(fs.take(i + 1).drop_last() =~= fs.take(i));
    assert(fs.take(i + 1).last() == fs[i]);
}

} // verus!
