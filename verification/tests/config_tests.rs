use skia_safe::capability::Capability;
use skia_safe::config::{resolve, Profile};
use skia_safe::errors::ConfigError;
use skia_safe::platform::{Platform, TargetAbi, TargetArch, TargetOs};

fn features(names: &[&str]) -> Vec<String> {
    names.iter().map(|n| n.to_string()).collect()
}

#[test]
fn platform_from_tokens_known() {
    let p = Platform::from_tokens("linux", "x86_64", "gnu").unwrap();
    assert_eq!(p.os, TargetOs::Linux);
    assert_eq!(p.arch, TargetArch::X64);
    assert_eq!(p.abi, TargetAbi::Gnu);
    let p = Platform::from_tokens("windows", "aarch64", "msvc").unwrap();
    assert_eq!(p.os, TargetOs::Windows);
    assert_eq!(p.arch, TargetArch::Arm64);
    assert_eq!(p.abi, TargetAbi::Msvc);
}

#[test]
fn platform_from_tokens_unknown_os() {
    assert!(Platform::from_tokens("freebsd", "x86_64", "gnu").is_none());
    assert!(Platform::from_tokens("linux", "riscv64", "gnu").is_none());
}

#[test]
fn platform_unknown_abi_is_other() {
    let p = Platform::from_tokens("macos", "aarch64", "").unwrap();
    assert_eq!(p.abi, TargetAbi::Other);
}

#[test]
fn resolve_empty_features() {
    let r = resolve("linux", "x86_64", "gnu", &features(&[]), true, false).unwrap();
    assert_eq!(r.configuration.profile, Profile::Release);
    assert!(!r.configuration.native_debug);
    assert!(r.configuration.capabilities.list().is_empty());
    assert!(r.warnings.is_empty());
}

#[test]
fn resolve_maps_feature_names() {
    let r = resolve(
        "windows",
        "x86_64",
        "msvc",
        &features(&["gl", "vulkan", "textlayout", "animation"]),
        false,
        true,
    )
    .unwrap();
    assert_eq!(r.configuration.profile, Profile::Debug);
    assert!(r.configuration.native_debug);
    let caps = r.configuration.capabilities.list().clone();
    assert_eq!(
        caps,
        vec![
            Capability::Gl,
            Capability::Vulkan,
            Capability::TextShaping,
            Capability::VectorAnimation,
        ]
    );
}

#[test]
fn resolve_orders_and_dedups_capabilities() {
    let a = resolve(
        "linux",
        "x86_64",
        "gnu",
        &features(&["vulkan", "gl", "gl", "vulkan"]),
        true,
        false,
    )
    .unwrap();
    let caps = a.configuration.capabilities.list().clone();
    assert_eq!(caps, vec![Capability::Gl, Capability::Vulkan]);
}

#[test]
fn resolve_is_idempotent() {
    let f = features(&["textlayout", "gl", "shaper"]);
    let a = resolve("linux", "x86_64", "gnu", &f, true, false).unwrap();
    let b = resolve("linux", "x86_64", "gnu", &f, true, false).unwrap();
    assert_eq!(
        a.configuration.capabilities.list(),
        b.configuration.capabilities.list()
    );
    assert_eq!(a.configuration.profile, b.configuration.profile);
    assert_eq!(a.configuration.platform, b.configuration.platform);
    assert_eq!(a.warnings, b.warnings);
}

#[test]
fn resolve_deprecated_shaper_maps_to_textlayout() {
    let r = resolve("linux", "x86_64", "gnu", &features(&["shaper"]), true, false).unwrap();
    let caps = r.configuration.capabilities.list().clone();
    assert_eq!(caps, vec![Capability::TextShaping]);
    assert_eq!(
        r.warnings,
        vec![
            "the feature 'shaper' has been removed; enable 'textlayout' to use the text shaping bindings"
                .to_string()
        ]
    );
}

#[test]
fn resolve_deprecated_svg_warns_and_enables_nothing() {
    let r = resolve("linux", "x86_64", "gnu", &features(&["svg"]), true, false).unwrap();
    assert!(r.configuration.capabilities.list().is_empty());
    assert_eq!(
        r.warnings,
        vec![
            "the feature 'svg' has been removed; the functionality is available in every build configuration"
                .to_string()
        ]
    );
}

#[test]
fn resolve_rejects_unknown_feature() {
    let e = resolve("linux", "x86_64", "gnu", &features(&["gl", "sgv"]), true, false).unwrap_err();
    match &e {
        ConfigError::UnknownCapability { name } => assert_eq!(name, "sgv"),
        other => panic!("unexpected error: {:?}", other),
    }
    assert_eq!(e.message(), "unknown capability name: sgv");
}

#[test]
fn resolve_rejects_unknown_target() {
    let e = resolve("freebsd", "x86_64", "gnu", &features(&[]), true, false).unwrap_err();
    match &e {
        ConfigError::UnsupportedTarget { os, arch } => {
            assert_eq!(os, "freebsd");
            assert_eq!(arch, "x86_64");
        }
        other => panic!("unexpected error: {:?}", other),
    }
    assert_eq!(e.message(), "unsupported target platform: freebsd/x86_64");
}
