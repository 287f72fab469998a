use scip_build::platform::{artifact_tag, identify, parse_arch, parse_os, Arch, Os, PlatformTag};

#[test]
fn identify_supported_matrix() {
    // Every pair of the supported matrix maps to its recorded tag.
    let cases = [
        ("linux", "x86_64", "linux"),
        ("linux", "aarch64", "linux-arm"),
        ("macos", "x86_64", "macos-intel"),
        ("macos", "aarch64", "macos-arm"),
        ("windows", "x86_64", "windows"),
    ];
    for (os, arch, expected) in cases {
        let tag = identify(os, arch).unwrap();
        let name = artifact_tag(&tag).unwrap();
        assert_eq!(name.as_str(), expected);
    }
}

#[test]
fn identify_rejects_unsupported_pair() {
    assert!(identify("windows", "aarch64").is_err());
}

#[test]
fn identify_rejects_unknown_names() {
    assert!(identify("freebsd", "x86_64").is_err());
    assert!(identify("linux", "riscv64").is_err());
    assert!(identify("", "").is_err());
}

#[test]
fn identify_returns_parsed_pair() {
    let tag = identify("macos", "aarch64").unwrap();
    assert_eq!(tag, PlatformTag { os: Os::MacOs, arch: Arch::Aarch64 });
}

#[test]
fn parse_os_names() {
    assert_eq!(parse_os("linux"), Some(Os::Linux));
    assert_eq!(parse_os("macos"), Some(Os::MacOs));
    assert_eq!(parse_os("windows"), Some(Os::Windows));
    assert_eq!(parse_os("Linux"), None);
    assert_eq!(parse_os("linux "), None);
}

#[test]
fn parse_arch_names() {
    assert_eq!(parse_arch("x86_64"), Some(Arch::X86_64));
    assert_eq!(parse_arch("aarch64"), Some(Arch::Aarch64));
    assert_eq!(parse_arch("arm64"), None);
}
