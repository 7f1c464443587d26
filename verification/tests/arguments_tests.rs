use skia_safe::arguments::{render_arguments, synthesize, validate, ArgKey, ArgValue};
use skia_safe::capability::Capability;
use skia_safe::config::resolve;
use skia_safe::errors::{ConfigError, RuleViolation};
use skia_safe::platform::TargetOs;
use skia_safe::source::{resolve_source, DirectoryProbe, FinalBuildConfiguration};

fn features(names: &[&str]) -> Vec<String> {
    names.iter().map(|n| n.to_string()).collect()
}

fn final_config(
    os: &str,
    arch: &str,
    abi: &str,
    names: &[&str],
    native_debug: bool,
) -> FinalBuildConfiguration {
    let r = resolve(os, arch, abi, &features(names), true, native_debug).unwrap();
    resolve_source(
        r.configuration,
        "/work/skia".to_string(),
        false,
        DirectoryProbe { exists: true, non_empty: true },
        None,
    )
    .unwrap()
}

#[test]
fn synthesize_empty_set_succeeds() {
    let f = final_config("linux", "x86_64", "gnu", &[], false);
    let args = synthesize(&f).unwrap();
    assert_eq!(args.generator_args.len(), 11);
    assert!(args.defines.is_empty());
    let line = render_arguments(&args);
    assert_eq!(
        line,
        "is_debug=false is_official_build=true skia_enable_paragraph=false \
         skia_enable_skottie=false skia_enable_skshaper=false skia_use_direct3d=false \
         skia_use_gl=false skia_use_metal=false skia_use_vulkan=false target_cpu=\"x64\" \
         target_os=\"linux\""
    );
}

#[test]
fn synthesize_is_deterministic_and_sorted() {
    let a = final_config("linux", "x86_64", "gnu", &["vulkan", "gl", "textlayout"], false);
    let b = final_config("linux", "x86_64", "gnu", &["textlayout", "gl", "vulkan"], false);
    let ra = render_arguments(&synthesize(&a).unwrap());
    let rb = render_arguments(&synthesize(&b).unwrap());
    assert_eq!(ra, rb);
    let args = synthesize(&a).unwrap();
    let keys: Vec<ArgKey> = args.generator_args.iter().map(|p| p.0).collect();
    assert_eq!(
        keys,
        vec![
            ArgKey::IsDebug,
            ArgKey::IsOfficialBuild,
            ArgKey::SkiaEnableParagraph,
            ArgKey::SkiaEnableSkottie,
            ArgKey::SkiaEnableSkshaper,
            ArgKey::SkiaUseDirect3d,
            ArgKey::SkiaUseGl,
            ArgKey::SkiaUseMetal,
            ArgKey::SkiaUseVulkan,
            ArgKey::TargetCpuName,
            ArgKey::TargetOsName,
        ]
    );
    let names: Vec<&str> = keys.iter().map(|k| k.name()).collect();
    let mut sorted = names.clone();
    sorted.sort();
    assert_eq!(names, sorted);
}

#[test]
fn synthesize_reflects_capabilities() {
    let f = final_config("linux", "x86_64", "gnu", &["gl", "vulkan", "textlayout", "animation"], false);
    let args = synthesize(&f).unwrap();
    let line = render_arguments(&args);
    assert_eq!(
        line,
        "is_debug=false is_official_build=true skia_enable_paragraph=true \
         skia_enable_skottie=true skia_enable_skshaper=true skia_use_direct3d=false \
         skia_use_gl=true skia_use_metal=false skia_use_vulkan=true target_cpu=\"x64\" \
         target_os=\"linux\""
    );
    assert_eq!(
        args.defines,
        vec!["SK_GL", "SK_VULKAN", "SK_PARAGRAPH", "SK_SKOTTIE"]
    );
}

#[test]
fn synthesize_msvc_adds_runtime_flag() {
    let f = final_config("windows", "x86_64", "msvc", &[], true);
    let args = synthesize(&f).unwrap();
    assert_eq!(args.generator_args.len(), 12);
    match &args.generator_args[0] {
        (ArgKey::ExtraCflags, ArgValue::Items(items)) => {
            assert_eq!(items, &vec!["/MD".to_string()]);
        }
        other => panic!("unexpected first argument: {:?}", other),
    }
    let line = render_arguments(&args);
    assert_eq!(
        line,
        "extra_cflags=[\"/MD\"] is_debug=true is_official_build=false \
         skia_enable_paragraph=false skia_enable_skottie=false skia_enable_skshaper=false \
         skia_use_direct3d=false skia_use_gl=false skia_use_metal=false skia_use_vulkan=false \
         target_cpu=\"x64\" target_os=\"win\""
    );
}

#[test]
fn detected_sdk_becomes_a_sysroot_flag() {
    let r = resolve("macos", "aarch64", "", &features(&["metal"]), true, false).unwrap();
    let f = resolve_source(
        r.configuration,
        "/work/skia".to_string(),
        false,
        DirectoryProbe { exists: true, non_empty: true },
        Some("/opt/sdk".to_string()),
    )
    .unwrap();
    let args = synthesize(&f).unwrap();
    match &args.generator_args[0] {
        (ArgKey::ExtraCflags, ArgValue::Items(items)) => {
            assert_eq!(items, &vec!["--sysroot=/opt/sdk".to_string()]);
        }
        other => panic!("unexpected first argument: {:?}", other),
    }
    let line = render_arguments(&args);
    assert_eq!(
        line,
        "extra_cflags=[\"--sysroot=/opt/sdk\"] is_debug=false is_official_build=true \
         skia_enable_paragraph=false skia_enable_skottie=false skia_enable_skshaper=false \
         skia_use_direct3d=false skia_use_gl=false skia_use_metal=true skia_use_vulkan=false \
         target_cpu=\"arm64\" target_os=\"mac\""
    );
}

#[test]
fn msvc_sdk_combines_both_flags() {
    let r = resolve("windows", "x86_64", "msvc", &features(&[]), true, false).unwrap();
    let f = resolve_source(
        r.configuration,
        "/work/skia".to_string(),
        false,
        DirectoryProbe { exists: true, non_empty: true },
        Some("C:/sdk".to_string()),
    )
    .unwrap();
    let args = synthesize(&f).unwrap();
    match &args.generator_args[0] {
        (ArgKey::ExtraCflags, ArgValue::Items(items)) => {
            assert_eq!(
                items,
                &vec!["/MD".to_string(), "--sysroot=C:/sdk".to_string()]
            );
        }
        other => panic!("unexpected first argument: {:?}", other),
    }
}

#[test]
fn validate_accepts_valid_combinations() {
    let f = final_config("macos", "aarch64", "", &["gl", "metal"], false);
    assert!(validate(&f.configuration.platform, &f.configuration.capabilities).is_empty());
    let f = final_config("windows", "x86_64", "msvc", &["d3d", "textlayout"], false);
    assert!(validate(&f.configuration.platform, &f.configuration.capabilities).is_empty());
}

#[test]
fn synthesize_reports_every_violation() {
    let f = final_config("linux", "x86_64", "gnu", &["metal", "d3d"], false);
    let e = synthesize(&f).unwrap_err();
    let violations = match &e {
        ConfigError::RulesViolated { violations } => violations.clone(),
        other => panic!("unexpected error: {:?}", other),
    };
    assert_eq!(
        violations,
        vec![
            RuleViolation::MutuallyExclusive {
                first: Capability::Metal,
                second: Capability::D3d,
            },
            RuleViolation::NotSupportedOnTarget {
                capability: Capability::Metal,
                os: TargetOs::Linux,
            },
            RuleViolation::NotSupportedOnTarget {
                capability: Capability::D3d,
                os: TargetOs::Linux,
            },
        ]
    );
    assert_eq!(
        e.message(),
        "invalid capability configuration: capability metal and capability d3d are mutually \
         exclusive; capability metal is not supported on linux targets; capability d3d is not \
         supported on linux targets"
    );
}

#[test]
fn synthesize_reports_missing_implication() {
    let f = final_config("linux", "x86_64", "gnu", &["animation"], false);
    let e = synthesize(&f).unwrap_err();
    match &e {
        ConfigError::RulesViolated { violations } => {
            assert_eq!(
                violations,
                &vec![RuleViolation::RequiresMissing {
                    enabled: Capability::VectorAnimation,
                    needed: Capability::TextShaping,
                }]
            );
            assert_eq!(
                violations[0].describe(),
                "capability animation requires capability textlayout to be enabled as well"
            );
        }
        other => panic!("unexpected error: {:?}", other),
    }
}

#[test]
fn synthesize_animation_with_textlayout_is_valid() {
    let f = final_config("linux", "x86_64", "gnu", &["animation", "textlayout"], false);
    assert!(synthesize(&f).is_ok());
}

#[test]
fn vulkan_is_platform_restricted() {
    let f = final_config("macos", "aarch64", "", &["vulkan"], false);
    let e = synthesize(&f).unwrap_err();
    match &e {
        ConfigError::RulesViolated { violations } => {
            assert_eq!(
                violations,
                &vec![RuleViolation::NotSupportedOnTarget {
                    capability: Capability::Vulkan,
                    os: TargetOs::MacOs,
                }]
            );
        }
        other => panic!("unexpected error: {:?}", other),
    }
    let f = final_config("android", "aarch64", "", &["vulkan"], false);
    assert!(synthesize(&f).is_ok());
}
