use dxc_artifact::target::CrtVariant;
use dxc_artifact::url::{base_url, build_url, cache_dir_name, cache_key, release_version};

#[test]
fn release_constants() {
    assert_eq!(
        base_url(),
        "https://github.com/DouglasDwyer/mach-dxcompiler/releases"
    );
    assert_eq!(release_version(), "2024.11.22+284d956.1");
}

#[test]
fn url_for_linux_gnu_static() {
    let u = build_url("x86_64-linux-gnu", CrtVariant::StaticRuntime, "2024.11.22+284d956.1");
    assert_eq!(
        u,
        "https://github.com/DouglasDwyer/mach-dxcompiler/releases/download/2024.11.22+284d956.1/x86_64-linux-gnu_ReleaseFast_lib.tar.gz"
    );
}

#[test]
fn url_for_msvc_dynamic() {
    let u = build_url("x86_64-windows-msvc", CrtVariant::DynamicRuntime, "2024.11.22+284d956.1");
    assert_eq!(
        u,
        "https://github.com/DouglasDwyer/mach-dxcompiler/releases/download/2024.11.22+284d956.1/x86_64-windows-msvc_ReleaseFast_Dynamic_lib.tar.gz"
    );
}

#[test]
fn cache_key_is_fnv1a() {
    assert_eq!(cache_key(""), 0xcbf29ce484222325);
    assert_eq!(cache_key("a"), 0xaf63dc4c8601ec8c);
    let u = build_url("x86_64-linux-gnu", CrtVariant::StaticRuntime, "2024.11.22+284d956.1");
    assert_eq!(cache_key(&u), 0xd99f6c50251be0b8);
}

#[test]
fn cache_key_is_deterministic() {
    let u = build_url("aarch64-macos-none", CrtVariant::StaticRuntime, "2024.11.22+284d956.1");
    assert_eq!(cache_key(&u), cache_key(&u));
}

#[test]
fn distinct_urls_rekey_the_cache() {
    let u1 = build_url("x86_64-linux-gnu", CrtVariant::StaticRuntime, "2024.11.22+284d956.1");
    let u2 = build_url("x86_64-linux-gnu", CrtVariant::StaticRuntime, "2025.01.01+0000000.1");
    assert_ne!(cache_key(&u1), cache_key(&u2));
}

#[test]
fn cache_dir_name_is_sixteen_hex_digits() {
    assert_eq!(cache_dir_name(0), "0000000000000000");
    assert_eq!(cache_dir_name(0x0123456789abcdef), "0123456789abcdef");
    assert_eq!(cache_dir_name(u64::MAX), "ffffffffffffffff");
    assert_eq!(cache_dir_name(0xd99f6c50251be0b8), "d99f6c50251be0b8");
}
