use dxc_artifact::error::BuildError;
use dxc_artifact::target::{
    resolve_build_target, resolve_target, static_crt_flag, CrtVariant, is_supported,
};

#[test]
fn resolves_every_supported_triple() {
    let cases = [
        ("x86_64", "", "linux", "gnu", "x86_64-linux-gnu"),
        ("x86_64", "", "linux", "musl", "x86_64-linux-musl"),
        ("aarch64", "", "linux", "gnu", "aarch64-linux-gnu"),
        ("aarch64", "", "linux", "musl", "aarch64-linux-musl"),
        ("x86_64", "", "windows", "gnu", "x86_64-windows-gnu"),
        ("x86_64", "", "windows", "msvc", "x86_64-windows-msvc"),
        ("aarch64", "", "windows", "gnu", "aarch64-windows-gnu"),
        ("x86_64", "", "macos", "", "x86_64-macos-none"),
        ("aarch64", "", "macos", "", "aarch64-macos-none"),
    ];
    for (arch, vendor, os, abi, expected) in cases {
        let t = resolve_target(arch, vendor, os, abi, false).unwrap();
        assert_eq!(t.platform, expected);
    }
}

#[test]
fn supported_list_is_exact() {
    assert!(is_supported("x86_64-linux-gnu"));
    assert!(is_supported("aarch64-macos-none"));
    assert!(!is_supported("x86_64-linux-gnux32"));
    assert!(!is_supported("x86_64-linux"));
    assert!(!is_supported(""));
}

#[test]
fn rejects_unsupported_triple() {
    let e = resolve_target("riscv64", "", "linux", "gnu", false).unwrap_err();
    match &e {
        BuildError::UnsupportedTarget { triple } => assert_eq!(triple, "riscv64-linux-gnu"),
        other => panic!("wrong error: {other:?}"),
    }
    assert_eq!(e.describe(), "Unsupported target: riscv64-linux-gnu");
}

#[test]
fn normalizes_apple_darwin_to_macos() {
    let t = resolve_target("aarch64", "apple", "darwin", "", false).unwrap();
    assert_eq!(t.platform, "aarch64-macos-none");
}

#[test]
fn darwin_without_apple_vendor_is_not_aliased() {
    let e = resolve_target("aarch64", "pc", "darwin", "", false).unwrap_err();
    match e {
        BuildError::UnsupportedTarget { triple } => assert_eq!(triple, "aarch64-darwin-none"),
        other => panic!("wrong error: {other:?}"),
    }
}

#[test]
fn empty_abi_becomes_none_sentinel() {
    let t = resolve_target("x86_64", "", "macos", "", true).unwrap();
    assert_eq!(t.platform, "x86_64-macos-none");
}

#[test]
fn msvc_crt_variant_follows_static_flag() {
    let static_crt = resolve_target("x86_64", "", "windows", "msvc", true).unwrap();
    assert_eq!(static_crt.variant, CrtVariant::StaticRuntime);
    let dynamic_crt = resolve_target("x86_64", "", "windows", "msvc", false).unwrap();
    assert_eq!(dynamic_crt.variant, CrtVariant::DynamicRuntime);
}

#[test]
fn non_msvc_abi_ignores_static_flag() {
    let with_flag = resolve_target("x86_64", "", "linux", "gnu", true).unwrap();
    assert_eq!(with_flag.variant, CrtVariant::StaticRuntime);
    let without_flag = resolve_target("x86_64", "", "linux", "gnu", false).unwrap();
    assert_eq!(without_flag.variant, CrtVariant::StaticRuntime);
    let macos = resolve_target("aarch64", "apple", "darwin", "", false).unwrap();
    assert_eq!(macos.variant, CrtVariant::StaticRuntime);
}

#[test]
fn missing_arch_or_os_is_environment_missing() {
    let e = resolve_build_target(None, Some(""), Some("linux"), Some("gnu"), false).unwrap_err();
    assert!(matches!(e, BuildError::EnvironmentMissing));
    let e = resolve_build_target(Some("x86_64"), None, None, Some("gnu"), false).unwrap_err();
    assert!(matches!(e, BuildError::EnvironmentMissing));
}

#[test]
fn absent_vendor_and_abi_default_to_empty() {
    let t = resolve_build_target(Some("x86_64"), None, Some("macos"), None, false).unwrap();
    assert_eq!(t.platform, "x86_64-macos-none");
}

#[test]
fn static_crt_flag_found_in_encoded_rustflags() {
    assert!(static_crt_flag(Some("-Ctarget-feature=+crt-static")));
    assert!(static_crt_flag(Some("target-feature=+crt-static")));
    assert!(static_crt_flag(Some("-Copt-level=3\u{1f}-Ctarget-feature=+crt-static\u{1f}-Cdebuginfo=1")));
}

#[test]
fn static_crt_flag_absent_or_different() {
    assert!(!static_crt_flag(None));
    assert!(!static_crt_flag(Some("")));
    assert!(!static_crt_flag(Some("-Copt-level=3")));
    assert!(!static_crt_flag(Some("target-feature=+crt-stati")));
    assert!(!static_crt_flag(Some("target-feature=-crt-static")));
}
