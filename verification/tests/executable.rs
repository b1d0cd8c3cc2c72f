use lib_wasm_pack::executable::EXECUTABLE_MODE;
use lib_wasm_pack::{
    get_cli_executable_file, temp_file_name, Platform, TemporaryExecutable, CRATE_VERSION,
};

const PAYLOAD: &[u8] = b"\x7fELF";

#[test]
fn the_version_is_that_of_the_crate() {
    assert_eq!(CRATE_VERSION, "0.12.1-0.1.0");
}

#[test]
fn the_file_name_holds_platform_version_and_token() {
    let name = temp_file_name(&Platform::LinuxX64, "67e55044-10b1-426f-9247-bb680e5fe0c8");
    assert_eq!(
        name,
        "wasm-pack-x86_64-unknown-linux-musl-v0.12.1-0.1.0-67e55044-10b1-426f-9247-bb680e5fe0c8"
    );
    assert_eq!(
        temp_file_name(&Platform::LinuxArm64, "t"),
        "wasm-pack-aarch64-unknown-linux-musl-v0.12.1-0.1.0-t"
    );
    assert_eq!(
        temp_file_name(&Platform::Windows, "t"),
        "wasm-pack-x86_64-pc-windows-msvc-v0.12.1-0.1.0-t"
    );
    assert_eq!(
        temp_file_name(&Platform::MacOs, ""),
        "wasm-pack-x86_64-apple-darwin-v0.12.1-0.1.0-"
    );
}

#[test]
fn the_mode_is_0755() {
    assert_eq!(EXECUTABLE_MODE, 0o755);
    assert_eq!(EXECUTABLE_MODE, 493);
}

#[test]
fn a_temporary_executable_is_planned_from_its_parts() {
    let executable = TemporaryExecutable::new(&Platform::LinuxArm64, PAYLOAD, "abc");
    assert_eq!(executable.directory(), "target");
    assert_eq!(
        executable.file_name(),
        "wasm-pack-aarch64-unknown-linux-musl-v0.12.1-0.1.0-abc"
    );
    assert_eq!(executable.contents(), b"\x7fELF");
    assert_eq!(executable.mode(), Some(0o755));
}

#[test]
fn only_platforms_with_permission_bits_get_a_mode() {
    let mode = |platform: Platform| TemporaryExecutable::new(&platform, PAYLOAD, "t").mode();
    assert_eq!(mode(Platform::MacOs), Some(0o755));
    assert_eq!(mode(Platform::LinuxArm64), Some(0o755));
    assert_eq!(mode(Platform::LinuxX64), Some(0o755));
    assert_eq!(mode(Platform::Windows), None);
}

#[test]
fn a_new_executable_is_named_with_a_random_uuid() {
    let executable = get_cli_executable_file(&Platform::MacOs, PAYLOAD);
    assert_eq!(executable.directory(), "target");
    assert_eq!(executable.contents(), PAYLOAD);
    assert_eq!(executable.mode(), Some(0o755));

    let stem = "wasm-pack-x86_64-apple-darwin-v0.12.1-0.1.0-";
    let name = executable.file_name();
    assert!(name.starts_with(stem));
    let token = &name[stem.len()..];
    assert_eq!(token.len(), 36);
    for (index, character) in token.chars().enumerate() {
        if index == 8 || index == 13 || index == 18 || index == 23 {
            assert_eq!(character, '-');
        } else {
            assert!(matches!(character, '0'..='9' | 'a'..='f'));
        }
    }
    assert_eq!(token.as_bytes()[14], b'4');
    assert!(matches!(token.as_bytes()[19], b'8' | b'9' | b'a' | b'b'));

    let uuid = uuid::Uuid::parse_str(token).unwrap();
    assert_eq!(uuid.get_version_num(), 4);
    assert_eq!(uuid.to_string(), token);
}

#[test]
fn many_executables_share_no_name() {
    let mut names: Vec<String> = Vec::new();
    for _ in 0..256 {
        let executable = get_cli_executable_file(&Platform::LinuxX64, PAYLOAD);
        names.push(executable.file_name().to_string());
    }
    let total = names.len();
    names.sort();
    names.dedup();
    assert_eq!(names.len(), total);
    assert_eq!(total, 256);
}

#[test]
fn different_tokens_give_different_names() {
    let first = temp_file_name(&Platform::LinuxX64, "67e55044-10b1-426f-9247-bb680e5fe0c8");
    let second = temp_file_name(&Platform::LinuxX64, "67e55044-10b1-426f-9247-bb680e5fe0c9");
    assert_ne!(first, second);
}
