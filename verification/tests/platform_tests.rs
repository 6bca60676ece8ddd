use prometheus_agents_setup::os_detector::{
    classify_platform, classify_triple, detect_arch, detect_os, Arch, OsType,
};

#[test]
fn test_os_type_equality() {
    assert_eq!(OsType::Linux, OsType::Linux);
    assert_eq!(OsType::Windows, OsType::Windows);
    assert_eq!(OsType::MacOs, OsType::MacOs);
    assert_eq!(OsType::Unknown, OsType::Unknown);
    assert_ne!(OsType::Linux, OsType::Windows);
}

#[test]
fn test_os_type_clone() {
    let os1 = OsType::Linux;
    let os2 = os1.clone();
    assert_eq!(os1, os2);
}

#[test]
fn detect_os_classifies_known_identifiers() {
    assert_eq!(detect_os("linux"), OsType::Linux);
    assert_eq!(detect_os("windows"), OsType::Windows);
    assert_eq!(detect_os("macos"), OsType::MacOs);
    assert_eq!(detect_os("freebsd"), OsType::Unknown);
    assert_eq!(detect_os(""), OsType::Unknown);
}

#[test]
fn detect_arch_classifies_known_identifiers() {
    assert_eq!(detect_arch("x86_64"), Arch::X86_64);
    assert_eq!(detect_arch("x86"), Arch::X86);
    assert_eq!(detect_arch("i686"), Arch::X86);
    assert_eq!(detect_arch("i586"), Arch::X86);
    assert_eq!(detect_arch("aarch64"), Arch::Aarch64);
    assert_eq!(detect_arch("powerpc"), Arch::Other);
}

#[test]
fn classification_is_deterministic() {
    // The same identifier pair always yields the same descriptor.
    let a = classify_platform("linux", "x86_64");
    let b = classify_platform("linux", "x86_64");
    assert_eq!(a, b);
    assert_eq!(a.os, OsType::Linux);
    assert_eq!(a.arch, Arch::X86_64);
    assert!(a.is_64bit());
}

#[test]
fn classify_triple_examples() {
    let p = classify_triple("x86_64-pc-windows-msvc");
    assert_eq!(p.os, OsType::Windows);
    assert_eq!(p.arch, Arch::X86_64);

    let p = classify_triple("aarch64-unknown-linux-gnu");
    assert_eq!(p.os, OsType::Linux);
    assert_eq!(p.arch, Arch::Aarch64);

    let p = classify_triple("i686-apple-darwin");
    assert_eq!(p.os, OsType::MacOs);
    assert_eq!(p.arch, Arch::X86);

    let p = classify_triple("wasm32-wasi");
    assert_eq!(p.os, OsType::Unknown);
    assert_eq!(p.arch, Arch::Other);
}

#[test]
fn is_64bit_follows_architecture() {
    let aarch = classify_platform("linux", "aarch64");
    assert!(aarch.is_64bit());
    let x86 = classify_platform("linux", "i686");
    assert!(!x86.is_64bit());
}
