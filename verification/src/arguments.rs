//! Turning a resolved configuration into the generator's named arguments and
//! the preprocessor defines. The capability set is validated against a fixed
//! table of exclusion, implication and platform rules first; validation runs
//! to completion and the error carries every violated rule. For one
//! configuration the produced arguments are always the same, in one fixed
//! order, so the generator's own rebuild cache is never invalidated by
//! argument reordering.

use vstd::prelude::*;
use vstd::string::StringExecFns;
use crate::capability::{Capability, CapabilitySet};
use crate::errors::{ConfigError, RuleViolation};
use crate::platform::{
    Platform, TargetAbi, TargetOs, spec_arch_generator_name, spec_os_generator_name,
};
use crate::source::FinalBuildConfiguration;
use crate::text::{join, spec_join, views_of};

verus! {

// ---------------------------------------------------------------------------
// The rule table.
//
// Exclusions: of the three GPU backends that bring their own device memory
// management — Vulkan, Metal and Direct3D — at most one can be enabled, so
// the three pairs are mutually exclusive. OpenGL combines with any of them.
//
// Implications: vector animation renders text layers through the text
// shaping module, so `VectorAnimation` requires `TextShaping`.
//
// Platform rules: Vulkan needs a Windows, Linux or Android target; Metal an
// Apple target; Direct3D a Windows target.
// ---------------------------------------------------------------------------
/// Whether the Vulkan backend can be built for the operating system.
pub open spec fn spec_vulkan_supported(os: TargetOs) -> bool {
    os == TargetOs::Windows || os == TargetOs::Linux || os == TargetOs::Android
}

/// Whether the Metal backend can be built for the operating system.
pub open spec fn spec_metal_supported(os: TargetOs) -> bool {
    os == TargetOs::MacOs || os == TargetOs::Ios
}

/// Whether the Direct3D backend can be built for the operating system.
pub open spec fn spec_d3d_supported(os: TargetOs) -> bool {
    os == TargetOs::Windows
}

/// Every rule of the table that the capability set violates on the platform,
/// in the table's fixed order: the three exclusion pairs, the implication,
/// then the platform rules. Empty exactly when the configuration is valid.
pub open spec fn spec_violations(platform: Platform, caps: CapabilitySet) -> Seq<RuleViolation> {
    (if caps.has(Capability::Vulkan) && caps.has(Capability::Metal) {
        seq![
            RuleViolation::MutuallyExclusive {
                first: Capability::Vulkan,
                second: Capability::Metal,
            },
        ]
    } else {
        Seq::empty()
    }) + (if caps.has(Capability::Vulkan) && caps.has(Capability::D3d) {
        seq![
            RuleViolation::MutuallyExclusive { first: Capability::Vulkan, second: Capability::D3d },
        ]
    } else {
        Seq::empty()
    }) + (if caps.has(Capability::Metal) && caps.has(Capability::D3d) {
        seq![
            RuleViolation::MutuallyExclusive { first: Capability::Metal, second: Capability::D3d },
        ]
    } else {
        Seq::empty()
    }) + (if caps.has(Capability::VectorAnimation) && !caps.has(Capability::TextShaping) {
        seq![
            RuleViolation::RequiresMissing {
                enabled: Capability::VectorAnimation,
                needed: Capability::TextShaping,
            },
        ]
    } else {
        Seq::empty()
    }) + (if caps.has(Capability::Vulkan) && !spec_vulkan_supported(platform.os) {
        seq![
            RuleViolation::NotSupportedOnTarget {
                capability: Capability::Vulkan,
                os: platform.os,
            },
        ]
    } else {
        Seq::empty()
    }) + (if caps.has(Capability::Metal) && !spec_metal_supported(platform.os) {
        seq![
            RuleViolation::NotSupportedOnTarget { capability: Capability::Metal, os: platform.os },
        ]
    } else {
        Seq::empty()
    }) + (if caps.has(Capability::D3d) && !spec_d3d_supported(platform.os) {
        seq![
            RuleViolation::NotSupportedOnTarget { capability: Capability::D3d, os: platform.os },
        ]
    } else {
        Seq::empty()
    })
}

/// Checks the capability set against the whole rule table and returns every
/// violation, never only the first one found.
pub fn validate(platform: &Platform, caps: &CapabilitySet) -> (r: Vec<RuleViolation>)
    ensures
        r@ == spec_violations(*platform, *caps),
{
    let mut r: Vec<RuleViolation> = Vec::new();
    if caps.contains(Capability::Vulkan) && caps.contains(Capability::Metal) {
        r.push(
            RuleViolation::MutuallyExclusive {
                first: Capability::Vulkan,
                second: Capability::Metal,
            },
        );
    }
    if caps.contains(Capability::Vulkan) && caps.contains(Capability::D3d) {
        r.push(
            RuleViolation::MutuallyExclusive { first: Capability::Vulkan, second: Capability::D3d },
        );
    }
    if caps.contains(Capability::Metal) && caps.contains(Capability::D3d) {
        r.push(
            RuleViolation::MutuallyExclusive { first: Capability::Metal, second: Capability::D3d },
        );
    }
    if caps.contains(Capability::VectorAnimation) && !caps.contains(Capability::TextShaping) {
        r.push(
            RuleViolation::RequiresMissing {
                enabled: Capability::VectorAnimation,
                needed: Capability::TextShaping,
            },
        );
    }
    let vulkan_ok = match platform.os {
        TargetOs::Windows | TargetOs::Linux | TargetOs::Android => true,
        _ => false,
    };
    if caps.contains(Capability::Vulkan) && !vulkan_ok {
        r.push(
            RuleViolation::NotSupportedOnTarget {
                capability: Capability::Vulkan,
                os: platform.os,
            },
        );
    }
    let metal_ok = match platform.os {
        TargetOs::MacOs | TargetOs::Ios => true,
        _ => false,
    };
    if caps.contains(Capability::Metal) && !metal_ok {
        r.push(
            RuleViolation::NotSupportedOnTarget { capability: Capability::Metal, os: platform.os },
        );
    }
    let d3d_ok = match platform.os {
        TargetOs::Windows => true,
        _ => false,
    };
    if caps.contains(Capability::D3d) && !d3d_ok {
        r.push(
            RuleViolation::NotSupportedOnTarget { capability: Capability::D3d, os: platform.os },
        );
    }
    proof {
        assert(r@ =~= spec_violations(*platform, *caps));
    }
    r
}

// ---------------------------------------------------------------------------
// The arguments.
// ---------------------------------------------------------------------------
/// A named argument of the build generator. The canonical order below is the
/// alphabetical order of the generator-side names.
#[derive(Clone, Copy, Debug, PartialEq, Eq, Hash, Structural)]
pub enum ArgKey {
    ExtraCflags,
    IsDebug,
    IsOfficialBuild,
    SkiaEnableParagraph,
    SkiaEnableSkottie,
    SkiaEnableSkshaper,
    SkiaUseDirect3d,
    SkiaUseGl,
    SkiaUseMetal,
    SkiaUseVulkan,
    TargetCpuName,
    TargetOsName,
}

/// The generator-side name of an argument.
pub open spec fn spec_key_name(k: ArgKey) -> Seq<char> {
    match k {
        ArgKey::ExtraCflags => "extra_cflags"@,
        ArgKey::IsDebug => "is_debug"@,
        ArgKey::IsOfficialBuild => "is_official_build"@,
        ArgKey::SkiaEnableParagraph => "skia_enable_paragraph"@,
        ArgKey::SkiaEnableSkottie => "skia_enable_skottie"@,
        ArgKey::SkiaEnableSkshaper => "skia_enable_skshaper"@,
        ArgKey::SkiaUseDirect3d => "skia_use_direct3d"@,
        ArgKey::SkiaUseGl => "skia_use_gl"@,
        ArgKey::SkiaUseMetal => "skia_use_metal"@,
        ArgKey::SkiaUseVulkan => "skia_use_vulkan"@,
        ArgKey::TargetCpuName => "target_cpu"@,
        ArgKey::TargetOsName => "target_os"@,
    }
}

/// The position of an argument in the canonical order.
pub open spec fn key_rank(k: ArgKey) -> int {
    match k {
        ArgKey::ExtraCflags => 0,
        ArgKey::IsDebug => 1,
        ArgKey::IsOfficialBuild => 2,
        ArgKey::SkiaEnableParagraph => 3,
        ArgKey::SkiaEnableSkottie => 4,
        ArgKey::SkiaEnableSkshaper => 5,
        ArgKey::SkiaUseDirect3d => 6,
        ArgKey::SkiaUseGl => 7,
        ArgKey::SkiaUseMetal => 8,
        ArgKey::SkiaUseVulkan => 9,
        ArgKey::TargetCpuName => 10,
        ArgKey::TargetOsName => 11,
    }
}

impl ArgKey {
    /// The generator-side name of this argument.
    pub fn name(&self) -> (r: &'static str)
        ensures
            r@ == spec_key_name(*self),
    {
        match self {
            ArgKey::ExtraCflags => "extra_cflags",
            ArgKey::IsDebug => "is_debug",
            ArgKey::IsOfficialBuild => "is_official_build",
            ArgKey::SkiaEnableParagraph => "skia_enable_paragraph",
            ArgKey::SkiaEnableSkottie => "skia_enable_skottie",
            ArgKey::SkiaEnableSkshaper => "skia_enable_skshaper",
            ArgKey::SkiaUseDirect3d => "skia_use_direct3d",
            ArgKey::SkiaUseGl => "skia_use_gl",
            ArgKey::SkiaUseMetal => "skia_use_metal",
            ArgKey::SkiaUseVulkan => "skia_use_vulkan",
            ArgKey::TargetCpuName => "target_cpu",
            ArgKey::TargetOsName => "target_os",
        }
    }
}

/// The value of a generator argument: a boolean flag, a quoted text, or a
/// list of quoted texts.
#[derive(Clone, Debug)]
pub enum ArgValue {
    Flag(bool),
    Text(String),
    Items(Vec<String>),
}

/// The mathematical value of a generator argument.
pub enum ArgValueView {
    Flag(bool),
    Text(Seq<char>),
    Items(Seq<Seq<char>>),
}

impl View for ArgValue {
    type V = ArgValueView;

    open spec fn view(&self) -> ArgValueView {
        match self {
            ArgValue::Flag(b) => ArgValueView::Flag(*b),
            ArgValue::Text(s) => ArgValueView::Text(s@),
            ArgValue::Items(items) => ArgValueView::Items(views_of(items@)),
        }
    }
}

/// The views of a sequence of argument pairs.
pub open spec fn pairs_view(s: Seq<(ArgKey, ArgValue)>) -> Seq<(ArgKey, ArgValueView)> {
    s.map_values(|p: (ArgKey, ArgValue)| (p.0, p.1@))
}

/// An ordered list of named generator arguments together with the
/// preprocessor defines the embedding build needs, both derived
/// deterministically from one resolved configuration.
#[derive(Clone, Debug)]
pub struct BuildArguments {
    pub generator_args: Vec<(ArgKey, ArgValue)>,
    pub defines: Vec<String>,
}

/// The mathematical value of `BuildArguments`.
pub struct BuildArgumentsView {
    pub generator_args: Seq<(ArgKey, ArgValueView)>,
    pub defines: Seq<Seq<char>>,
}

impl View for BuildArguments {
    type V = BuildArgumentsView;

    open spec fn view(&self) -> BuildArgumentsView {
        BuildArgumentsView {
            generator_args: pairs_view(self.generator_args@),
            defines: views_of(self.defines@),
        }
    }
}

/// The preprocessor define a capability contributes.
pub open spec fn spec_cap_define(c: Capability) -> Seq<char> {
    match c {
        Capability::Gl => "SK_GL"@,
        Capability::Vulkan => "SK_VULKAN"@,
        Capability::Metal => "SK_METAL"@,
        Capability::D3d => "SK_DIRECT3D"@,
        Capability::TextShaping => "SK_PARAGRAPH"@,
        Capability::VectorAnimation => "SK_SKOTTIE"@,
    }
}

/// The preprocessor defines of a capability sequence, in its order.
pub open spec fn spec_cap_defines(s: Seq<Capability>) -> Seq<Seq<char>> {
    s.map_values(|c: Capability| spec_cap_define(c))
}

impl Capability {
    /// The preprocessor define this capability contributes.
    pub fn define_name(&self) -> (r: &'static str)
        ensures
            r@ == spec_cap_define(*self),
    {
        match self {
            Capability::Gl => "SK_GL",
            Capability::Vulkan => "SK_VULKAN",
            Capability::Metal => "SK_METAL",
            Capability::D3d => "SK_DIRECT3D",
            Capability::TextShaping => "SK_PARAGRAPH",
            Capability::VectorAnimation => "SK_SKOTTIE",
        }
    }
}

/// The extra compiler flags a resolved configuration needs: the dynamic
/// runtime on MSVC targets, and the recorded platform SDK as a sysroot
/// where the source resolver detected one.
pub open spec fn spec_extra_cflags(f: FinalBuildConfiguration) -> Seq<Seq<char>> {
    let p = f.configuration.platform;
    (if p.os == TargetOs::Windows && p.abi == TargetAbi::Msvc {
        seq!["/MD"@]
    } else {
        Seq::empty()
    }) + (match f.sdk_root {
        Some(s) => seq!["--sysroot="@ + s@],
        None => Seq::<Seq<char>>::empty(),
    })
}

/// The generator arguments of a resolved configuration, in canonical order.
/// The extra compiler flags appear only when the configuration needs some.
pub open spec fn spec_generator_args(f: FinalBuildConfiguration) -> Seq<(ArgKey, ArgValueView)> {
    let caps = f.configuration.capabilities;
    let p = f.configuration.platform;
    (if spec_extra_cflags(f).len() > 0 {
        seq![(ArgKey::ExtraCflags, ArgValueView::Items(spec_extra_cflags(f)))]
    } else {
        Seq::empty()
    }) + seq![
        (ArgKey::IsDebug, ArgValueView::Flag(f.configuration.native_debug)),
        (ArgKey::IsOfficialBuild, ArgValueView::Flag(!f.configuration.native_debug)),
        (ArgKey::SkiaEnableParagraph, ArgValueView::Flag(caps.has(Capability::TextShaping))),
        (ArgKey::SkiaEnableSkottie, ArgValueView::Flag(caps.has(Capability::VectorAnimation))),
        (ArgKey::SkiaEnableSkshaper, ArgValueView::Flag(caps.has(Capability::TextShaping))),
        (ArgKey::SkiaUseDirect3d, ArgValueView::Flag(caps.has(Capability::D3d))),
        (ArgKey::SkiaUseGl, ArgValueView::Flag(caps.has(Capability::Gl))),
        (ArgKey::SkiaUseMetal, ArgValueView::Flag(caps.has(Capability::Metal))),
        (ArgKey::SkiaUseVulkan, ArgValueView::Flag(caps.has(Capability::Vulkan))),
        (ArgKey::TargetCpuName, ArgValueView::Text(spec_arch_generator_name(p.arch))),
        (ArgKey::TargetOsName, ArgValueView::Text(spec_os_generator_name(p.os))),
    ]
}

/// The whole argument set of a resolved configuration.
pub open spec fn spec_arguments(f: FinalBuildConfiguration) -> BuildArgumentsView {
    BuildArgumentsView {
        generator_args: spec_generator_args(f),
        defines: spec_cap_defines(f.configuration.capabilities.ordered()),
    }
}

/// Argument keys strictly increase in canonical rank.
pub open spec fn spec_args_sorted(s: Seq<(ArgKey, ArgValueView)>) -> bool {
    forall|i: int, j: int| 0 <= i < j < s.len() ==> key_rank(s[i].0) < key_rank(s[j].0)
}

/// The generator arguments of any resolved configuration are sorted in the
/// canonical key order, so repeated synthesis can never reorder them.
pub proof fn lemma_generator_args_sorted(f: FinalBuildConfiguration)
    ensures
        spec_args_sorted(spec_generator_args(f)),
{
    let s = spec_generator_args(f);
    if spec_extra_cflags(f).len() > 0 {
        assert forall|i: int, j: int| 0 <= i < j < s.len() implies key_rank(s[i].0) < key_rank(
            s[j].0,
        ) by {
            assert(s.len() == 12);
        }
    } else {
        assert forall|i: int, j: int| 0 <= i < j < s.len() implies key_rank(s[i].0) < key_rank(
            s[j].0,
        ) by {
            assert(s.len() == 11);
        }
    }
}

/// Synthesis is a function of the configuration's plain content alone: two
/// resolved configurations for the same platform and profile that enable the
/// same capabilities get identical violations and, when valid, identical
/// arguments, whatever order their capabilities were enabled in.
pub proof fn lemma_synthesis_deterministic(a: FinalBuildConfiguration, b: FinalBuildConfiguration)
    requires
        a.wf(),
        b.wf(),
        a.configuration.platform == b.configuration.platform,
        a.configuration.native_debug == b.configuration.native_debug,
        match (a.sdk_root, b.sdk_root) {
            (Some(x), Some(y)) => x@ == y@,
            (None, None) => true,
            _ => false,
        },
        forall|c: Capability|
            a.configuration.capabilities.has(c) <==> b.configuration.capabilities.has(c),
    ensures
        spec_violations(a.configuration.platform, a.configuration.capabilities)
            == spec_violations(b.configuration.platform, b.configuration.capabilities),
        spec_arguments(a) == spec_arguments(b),
{
    CapabilitySet::lemma_canonical_form_unique(
        a.configuration.capabilities,
        b.configuration.capabilities,
    );
    assert(spec_generator_args(a) =~= spec_generator_args(b));
    assert(spec_cap_defines(a.configuration.capabilities.ordered()) =~= spec_cap_defines(
        b.configuration.capabilities.ordered(),
    ));
}

/// Synthesizes the generator arguments and the defines for a resolved
/// configuration. Fails exactly when the capability set breaks the rule
/// table, and the error then lists every violated rule in the table's order.
/// On success the arguments are the canonical, sorted argument list of the
/// configuration: repeated calls on one configuration give identical output.
#[verifier::rlimit(60)]
pub fn synthesize(f: &FinalBuildConfiguration) -> (r: Result<BuildArguments, ConfigError>)
    requires
        f.wf(),
    ensures
        r is Ok <==> spec_violations(
            f.configuration.platform,
            f.configuration.capabilities,
        ).len() == 0,
        r matches Ok(args) ==> args@ == spec_arguments(*f) && spec_args_sorted(
            args@.generator_args,
        ),
        r matches Err(e) ==> e matches ConfigError::RulesViolated { violations } && violations@
            == spec_violations(f.configuration.platform, f.configuration.capabilities),
{
    let violations = validate(&f.configuration.platform, &f.configuration.capabilities);
    if violations.len() > 0 {
        return Err(ConfigError::RulesViolated { violations });
    }
    let caps = &f.configuration.capabilities;
    let p = &f.configuration.platform;
    let mut generator_args: Vec<(ArgKey, ArgValue)> = Vec::new();
    let windows_msvc = match (p.os, p.abi) {
        (TargetOs::Windows, TargetAbi::Msvc) => true,
        _ => false,
    };
    let mut items: Vec<String> = Vec::new();
    if windows_msvc {
        items.push("/MD".to_owned());
    }
    if let Some(sdk) = &f.sdk_root {
        let mut sysroot = "--sysroot=".to_owned();
        sysroot.append(sdk.as_str());
        items.push(sysroot);
    }
    proof {
        assert(views_of(items@) =~= spec_extra_cflags(*f));
    }
    if items.len() > 0 {
        let ghost g_before = generator_args@;
        generator_args.push((ArgKey::ExtraCflags, ArgValue::Items(items)));
        proof {
            lemma_pairs_view_push(g_before, generator_args@);
        }
    }
    proof {
        assert(pairs_view(generator_args@) =~= (if spec_extra_cflags(*f).len() > 0 {
            seq![(ArgKey::ExtraCflags, ArgValueView::Items(spec_extra_cflags(*f)))]
        } else {
            Seq::<(ArgKey, ArgValueView)>::empty()
        }));
    }
    let cpu_name = p.arch.generator_name().to_owned();
    let os_name = p.os.generator_name().to_owned();
    let flag_paragraph = caps.contains(Capability::TextShaping);
    let flag_skottie = caps.contains(Capability::VectorAnimation);
    let flag_d3d = caps.contains(Capability::D3d);
    let flag_gl = caps.contains(Capability::Gl);
    let flag_metal = caps.contains(Capability::Metal);
    let flag_vulkan = caps.contains(Capability::Vulkan);
    let ghost g_before = generator_args@;
    generator_args.push((ArgKey::IsDebug, ArgValue::Flag(f.configuration.native_debug)));
    proof {
        lemma_pairs_view_push(g_before, generator_args@);
    }
    let ghost g_before = generator_args@;
    generator_args.push((ArgKey::IsOfficialBuild, ArgValue::Flag(!f.configuration.native_debug)));
    proof {
        lemma_pairs_view_push(g_before, generator_args@);
    }
    let ghost g_before = generator_args@;
    generator_args.push((ArgKey::SkiaEnableParagraph, ArgValue::Flag(flag_paragraph)));
    proof {
        lemma_pairs_view_push(g_before, generator_args@);
    }
    let ghost g_before = generator_args@;
    generator_args.push((ArgKey::SkiaEnableSkottie, ArgValue::Flag(flag_skottie)));
    proof {
        lemma_pairs_view_push(g_before, generator_args@);
    }
    let ghost g_before = generator_args@;
    generator_args.push((ArgKey::SkiaEnableSkshaper, ArgValue::Flag(flag_paragraph)));
    proof {
        lemma_pairs_view_push(g_before, generator_args@);
    }
    let ghost g_before = generator_args@;
    generator_args.push((ArgKey::SkiaUseDirect3d, ArgValue::Flag(flag_d3d)));
    proof {
        lemma_pairs_view_push(g_before, generator_args@);
    }
    let ghost g_before = generator_args@;
    generator_args.push((ArgKey::SkiaUseGl, ArgValue::Flag(flag_gl)));
    proof {
        lemma_pairs_view_push(g_before, generator_args@);
    }
    let ghost g_before = generator_args@;
    generator_args.push((ArgKey::SkiaUseMetal, ArgValue::Flag(flag_metal)));
    proof {
        lemma_pairs_view_push(g_before, generator_args@);
    }
    let ghost g_before = generator_args@;
    generator_args.push((ArgKey::SkiaUseVulkan, ArgValue::Flag(flag_vulkan)));
    proof {
        lemma_pairs_view_push(g_before, generator_args@);
    }
    let ghost g_before = generator_args@;
    generator_args.push((ArgKey::TargetCpuName, ArgValue::Text(cpu_name)));
    proof {
        lemma_pairs_view_push(g_before, generator_args@);
    }
    let ghost g_before = generator_args@;
    generator_args.push((ArgKey::TargetOsName, ArgValue::Text(os_name)));
    proof {
        lemma_pairs_view_push(g_before, generator_args@);
    }
    proof {
        assert(pairs_view(generator_args@) =~= spec_generator_args(*f));
    }
    let cap_list = caps.list();
    let ghost target = spec_cap_defines(cap_list@);
    let mut defines: Vec<String> = Vec::new();
    let mut i: usize = 0;
    while i < cap_list.len()
        invariant
            i <= cap_list@.len(),
            cap_list@ == caps.ordered(),
            target == spec_cap_defines(cap_list@),
            defines@.len() == i,
            views_of(defines@) == target.take(i as int),
        decreases cap_list@.len() - i,
    {
        let d = cap_list[i].define_name().to_owned();
        defines.push(d);
        proof {
            assert forall|k: int| 0 <= k < i as int + 1 implies views_of(defines@)[k]
                == target.take(i as int + 1)[k] by {
                if k < i as int {
                    assert(views_of(defines@.drop_last())[k] == target.take(i as int)[k]);
                } else {
                    assert(target[k] == spec_cap_define(cap_list@[k]));
                }
            }
            assert(views_of(defines@) =~= target.take(i as int + 1));
        }
        i += 1;
    }
    proof {
        assert(target.take(cap_list@.len() as int) =~= target);
        lemma_generator_args_sorted(*f);
    }
    Ok(BuildArguments { generator_args, defines })
}

/// Pushing one argument pair pushes its view onto the pair views.
proof fn lemma_pairs_view_push(before: Seq<(ArgKey, ArgValue)>, after: Seq<(ArgKey, ArgValue)>)
    requires
        after.len() == before.len() + 1,
        forall|k: int| 0 <= k < before.len() ==> after[k] == before[k],
    ensures
        pairs_view(after) =~= pairs_view(before).push((after.last().0, after.last().1@)),
{
    assert forall|k: int| 0 <= k < after.len() implies pairs_view(after)[k] == pairs_view(
        before,
    ).push((after.last().0, after.last().1@))[k] by {
        if k < before.len() {
            assert(after[k] == before[k]);
        }
    }
}

// ---------------------------------------------------------------------------
// Rendering for the generator's command line.
// ---------------------------------------------------------------------------
/// A text value in the generator's argument syntax: surrounded by quotes.
pub open spec fn spec_quote(s: Seq<char>) -> Seq<char> {
    "\""@ + s + "\""@
}

/// Every item quoted.
pub open spec fn spec_quoted_all(items: Seq<Seq<char>>) -> Seq<Seq<char>> {
    items.map_values(|x: Seq<char>| spec_quote(x))
}

/// The generator-side text of an argument value.
pub open spec fn spec_render_value(v: ArgValueView) -> Seq<char> {
    match v {
        ArgValueView::Flag(b) => if b {
            "true"@
        } else {
            "false"@
        },
        ArgValueView::Text(s) => spec_quote(s),
        ArgValueView::Items(items) => "["@ + spec_join(spec_quoted_all(items), ","@) + "]"@,
    }
}

/// The generator-side text of one named argument.
pub open spec fn spec_render_pair(p: (ArgKey, ArgValueView)) -> Seq<char> {
    spec_key_name(p.0) + "="@ + spec_render_value(p.1)
}

/// The generator-side texts of the named arguments, in order.
pub open spec fn spec_rendered_pairs(s: Seq<(ArgKey, ArgValueView)>) -> Seq<Seq<char>> {
    s.map_values(|p: (ArgKey, ArgValueView)| spec_render_pair(p))
}

/// The whole argument line handed to the generator: the named arguments in
/// order, separated by single spaces.
pub open spec fn spec_render_args(s: Seq<(ArgKey, ArgValueView)>) -> Seq<char> {
    spec_join(spec_rendered_pairs(s), " "@)
}

/// Quotes a text value.
fn quote(s: &str) -> (r: String)
    ensures
        r@ == spec_quote(s@),
{
    let mut out = "\"".to_owned();
    out.append(s);
    out.append("\"");
    out
}

/// Renders one argument value in the generator's syntax.
fn render_value(v: &ArgValue) -> (r: String)
    ensures
        r@ == spec_render_value(v@),
{
    match v {
        ArgValue::Flag(b) => {
            if *b {
                "true".to_owned()
            } else {
                "false".to_owned()
            }
        },
        ArgValue::Text(s) => quote(s.as_str()),
        ArgValue::Items(items) => {
            let ghost target = spec_quoted_all(views_of(items@));
            let mut quoted: Vec<String> = Vec::new();
            let mut i: usize = 0;
            while i < items.len()
                invariant
                    i <= items@.len(),
                    target == spec_quoted_all(views_of(items@)),
                    quoted@.len() == i,
                    views_of(quoted@) == target.take(i as int),
                decreases items@.len() - i,
            {
                let q = quote(items[i].as_str());
                quoted.push(q);
                proof {
                    assert forall|k: int| 0 <= k < i as int + 1 implies views_of(quoted@)[k]
                        == target.take(i as int + 1)[k] by {
                        if k < i as int {
                            assert(views_of(quoted@.drop_last())[k] == target.take(i as int)[k]);
                        } else {
                            assert(target[k] == spec_quote(views_of(items@)[k]));
                        }
                    }
                    assert(views_of(quoted@) =~= target.take(i as int + 1));
                }
                i += 1;
            }
            proof {
                assert(target.take(items@.len() as int) =~= target);
            }
            let mut out = "[".to_owned();
            let inner = join(&quoted, ",");
            out.append(inner.as_str());
            out.append("]");
            out
        },
    }
}

/// Renders the whole argument line handed to the generator. For one
/// configuration the line is always the same text.
pub fn render_arguments(args: &BuildArguments) -> (r: String)
    ensures
        r@ == spec_render_args(args@.generator_args),
{
    let ghost target = spec_rendered_pairs(pairs_view(args.generator_args@));
    let mut rendered: Vec<String> = Vec::new();
    let mut i: usize = 0;
    while i < args.generator_args.len()
        invariant
            i <= args.generator_args@.len(),
            target == spec_rendered_pairs(pairs_view(args.generator_args@)),
            rendered@.len() == i,
            views_of(rendered@) == target.take(i as int),
        decreases args.generator_args@.len() - i,
    {
        let mut line = args.generator_args[i].0.name().to_owned();
        line.append("=");
        let value = render_value(&args.generator_args[i].1);
        line.append(value.as_str());
        rendered.push(line);
        proof {
            assert forall|k: int| 0 <= k < i as int + 1 implies views_of(rendered@)[k]
                == target.take(i as int + 1)[k] by {
                if k < i as int {
                    assert(views_of(rendered@.drop_last())[k] == target.take(i as int)[k]);
                } else {
                    assert(pairs_view(args.generator_args@)[k] == (
                        args.generator_args@[k].0,
                        args.generator_args@[k].1@,
                    ));
                    assert(target[k] == spec_render_pair(pairs_view(args.generator_args@)[k]));
                }
            }
            assert(views_of(rendered@) =~= target.take(i as int + 1));
        }
        i += 1;
    }
    proof {
        assert(target.take(args.generator_args@.len() as int) =~= target);
    }
    join(&rendered, " ")
}

} // verus!
