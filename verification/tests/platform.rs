use lib_wasm_pack::{guess_platform, resolve_platform, Platform, UnsupportedHost};

#[test]
fn supported_hosts_resolve_to_their_platform() {
    assert_eq!(resolve_platform("macos", "x86_64"), Ok(Platform::MacOs));
    assert_eq!(resolve_platform("linux", "x86_64"), Ok(Platform::LinuxX64));
    assert_eq!(resolve_platform("linux", "aarch64"), Ok(Platform::LinuxArm64));
    assert_eq!(resolve_platform("windows", "x86_64"), Ok(Platform::Windows));
}

#[test]
fn guess_platform_agrees_with_resolve_platform() {
    assert_eq!(guess_platform("macos", "x86_64"), Platform::MacOs);
    assert_eq!(guess_platform("linux", "x86_64"), Platform::LinuxX64);
    assert_eq!(guess_platform("linux", "aarch64"), Platform::LinuxArm64);
    assert_eq!(guess_platform("windows", "x86_64"), Platform::Windows);
}

#[test]
fn unknown_operating_systems_are_unsupported() {
    assert_eq!(resolve_platform("freebsd", "x86_64"), Err(UnsupportedHost::Os));
    assert_eq!(resolve_platform("", ""), Err(UnsupportedHost::Os));
    assert_eq!(resolve_platform("Linux", "x86_64"), Err(UnsupportedHost::Os));
    assert_eq!(resolve_platform("x86_64", "linux"), Err(UnsupportedHost::Os));
}

#[test]
fn unknown_architectures_are_unsupported() {
    assert_eq!(resolve_platform("linux", "riscv64"), Err(UnsupportedHost::Architecture));
    assert_eq!(resolve_platform("linux", "x86"), Err(UnsupportedHost::Architecture));
    assert_eq!(resolve_platform("macos", "aarch64"), Err(UnsupportedHost::Architecture));
    assert_eq!(resolve_platform("windows", "aarch64"), Err(UnsupportedHost::Architecture));
    assert_eq!(resolve_platform("windows", ""), Err(UnsupportedHost::Architecture));
}

#[test]
fn platforms_are_named_by_their_target_triple() {
    assert_eq!(Platform::MacOs.name(), "x86_64-apple-darwin");
    assert_eq!(Platform::LinuxArm64.name(), "aarch64-unknown-linux-musl");
    assert_eq!(Platform::LinuxX64.name(), "x86_64-unknown-linux-musl");
    assert_eq!(Platform::Windows.name(), "x86_64-pc-windows-msvc");
}
