use singbox_manager::platform::{Platform, PlatformCaps};

fn tokens(os: &str, arch: &str) -> (String, String) {
    let p = Platform::identify(os, arch);
    (p.os, p.arch)
}

#[test]
fn macos_x86_64_is_darwin_amd64() {
    assert_eq!(tokens("macos", "x86_64"), ("darwin".to_string(), "amd64".to_string()));
}

#[test]
fn every_pair_of_the_table_maps_exactly() {
    let oses = [("macos", "darwin"), ("linux", "linux"), ("windows", "windows"), ("freebsd", "freebsd")];
    let arches = [
        ("x86_64", "amd64"),
        ("aarch64", "arm64"),
        ("x86", "386"),
        ("arm", "arm"),
        ("riscv64", "riscv64"),
    ];
    for (os, os_token) in oses {
        for (arch, arch_token) in arches {
            assert_eq!(tokens(os, arch), (os_token.to_string(), arch_token.to_string()));
        }
    }
}

#[test]
fn unknown_names_pass_through_unchanged() {
    assert_eq!(tokens("plan9", "mips"), ("plan9".to_string(), "mips".to_string()));
    assert_eq!(tokens("", ""), (String::new(), String::new()));
    assert_eq!(tokens("macOS", "X86_64"), ("macOS".to_string(), "X86_64".to_string()));
    assert_eq!(tokens("macos ", "x86_64 "), ("macos ".to_string(), "x86_64 ".to_string()));
}

#[test]
fn already_mapped_tokens_stay() {
    assert_eq!(tokens("darwin", "amd64"), ("darwin".to_string(), "amd64".to_string()));
}

#[test]
fn platform_token_joins_with_a_hyphen() {
    assert_eq!(Platform::identify("macos", "aarch64").token(), "darwin-arm64");
    assert_eq!(Platform::identify("linux", "x86").token(), "linux-386");
}

#[test]
fn windows_family_has_exe_suffix_and_no_permission_bits() {
    let caps = PlatformCaps::for_family("windows");
    assert_eq!(caps.executable_suffix, ".exe");
    assert!(!caps.posix_permissions);
    assert_eq!(caps.executable_name("sing-box"), "sing-box.exe");
}

#[test]
fn unix_family_has_no_suffix_and_permission_bits() {
    let caps = PlatformCaps::for_family("unix");
    assert_eq!(caps.executable_suffix, "");
    assert!(caps.posix_permissions);
    assert_eq!(caps.executable_name("mihomo"), "mihomo");
}

#[test]
fn other_family_has_neither() {
    let caps = PlatformCaps::for_family("wasm");
    assert_eq!(caps.executable_suffix, "");
    assert!(!caps.posix_permissions);
}
