//! Platform model: the closed sets of operating systems and processor
//! architectures the installer distinguishes, and the pure classification of
//! identifier strings (or a target triple) into them.

use vstd::prelude::*;
use crate::strutil::{contains_seq, str_contains, str_eq};

verus! {

/// Operating systems the installer distinguishes.
#[derive(Debug, Clone, Copy, PartialEq, Eq, Structural)]
pub enum OsType {
    Linux,
    Windows,
    MacOs,
    Unknown,
}

/// Processor architectures the installer distinguishes.
#[derive(Debug, Clone, Copy, PartialEq, Eq, Structural)]
pub enum Arch {
    X86_64,
    X86,
    Aarch64,
    Other,
}

/// The classified platform a run targets.
#[derive(Debug, Clone, Copy, PartialEq, Eq, Structural)]
pub struct PlatformDescriptor {
    pub os: OsType,
    pub arch: Arch,
}

impl PlatformDescriptor {
    /// Whether the architecture is treated as 64-bit capable.
    pub open spec fn spec_is_64bit(self) -> bool {
        self.arch == Arch::X86_64 || self.arch == Arch::Aarch64
    }

    /// Whether the architecture is treated as 64-bit capable.
    pub fn is_64bit(&self) -> (r: bool)
        ensures
            r == self.spec_is_64bit(),
    {
        match self.arch {
            Arch::X86_64 => true,
            Arch::Aarch64 => true,
            _ => false,
        }
    }
}

/// Classification of an operating-system identifier string, as reported by
/// the toolchain (`linux`, `windows`, `macos`).  Anything else is `Unknown`.
pub open spec fn classify_os_spec(s: Seq<char>) -> OsType {
    if s == "linux"@ {
        OsType::Linux
    } else if s == "windows"@ {
        OsType::Windows
    } else if s == "macos"@ {
        OsType::MacOs
    } else {
        OsType::Unknown
    }
}

/// Classifies an operating-system identifier string.  Total: unrecognized
/// strings map to `Unknown`.
pub fn detect_os(s: &str) -> (r: OsType)
    ensures
        r == classify_os_spec(s@),
{
    if str_eq(s, "linux") {
        OsType::Linux
    } else if str_eq(s, "windows") {
        OsType::Windows
    } else if str_eq(s, "macos") {
        OsType::MacOs
    } else {
        OsType::Unknown
    }
}

/// Classification of an architecture identifier string, as reported by the
/// toolchain (`x86_64`, `x86`/`i686`/`i586`, `aarch64`).  Anything else is
/// `Other`.
pub open spec fn classify_arch_spec(s: Seq<char>) -> Arch {
    if s == "x86_64"@ {
        Arch::X86_64
    } else if s == "x86"@ || s == "i686"@ || s == "i586"@ {
        Arch::X86
    } else if s == "aarch64"@ {
        Arch::Aarch64
    } else {
        Arch::Other
    }
}

/// Classifies an architecture identifier string.  Total: unrecognized
/// strings map to `Other`.
pub fn detect_arch(s: &str) -> (r: Arch)
    ensures
        r == classify_arch_spec(s@),
{
    if str_eq(s, "x86_64") {
        Arch::X86_64
    } else if str_eq(s, "x86") || str_eq(s, "i686") || str_eq(s, "i586") {
        Arch::X86
    } else if str_eq(s, "aarch64") {
        Arch::Aarch64
    } else {
        Arch::Other
    }
}

/// Classifies the pair of identifier strings into a full descriptor.
pub fn classify_platform(os: &str, arch: &str) -> (r: PlatformDescriptor)
    ensures
        r.os == classify_os_spec(os@),
        r.arch == classify_arch_spec(arch@),
{
    PlatformDescriptor { os: detect_os(os), arch: detect_arch(arch) }
}

/// Classification of a target triple's operating system, by substring.
pub open spec fn triple_os_spec(t: Seq<char>) -> OsType {
    if contains_seq(t, "windows"@) {
        OsType::Windows
    } else if contains_seq(t, "linux"@) {
        OsType::Linux
    } else if contains_seq(t, "darwin"@) || contains_seq(t, "apple"@) {
        OsType::MacOs
    } else {
        OsType::Unknown
    }
}

/// Classification of a target triple's architecture, by substring.
pub open spec fn triple_arch_spec(t: Seq<char>) -> Arch {
    if contains_seq(t, "x86_64"@) || contains_seq(t, "amd64"@) {
        Arch::X86_64
    } else if contains_seq(t, "i686"@) || contains_seq(t, "i586"@) || contains_seq(t, "386"@) {
        Arch::X86
    } else if contains_seq(t, "aarch64"@) || contains_seq(t, "arm64"@) {
        Arch::Aarch64
    } else {
        Arch::Other
    }
}

/// Classifies a target triple (for cross builds) into a descriptor, matching
/// on the substrings a triple carries.  Total.
pub fn classify_triple(triple: &str) -> (r: PlatformDescriptor)
    ensures
        r.os == triple_os_spec(triple@),
        r.arch == triple_arch_spec(triple@),
{
    let os = if str_contains(triple, "windows") {
        OsType::Windows
    } else if str_contains(triple, "linux") {
        OsType::Linux
    } else if str_contains(triple, "darwin") || str_contains(triple, "apple") {
        OsType::MacOs
    } else {
        OsType::Unknown
    };
    let arch = if str_contains(triple, "x86_64") || str_contains(triple, "amd64") {
        Arch::X86_64
    } else if str_contains(triple, "i686") || str_contains(triple, "i586") || str_contains(
        triple,
        "386",
    ) {
        Arch::X86
    } else if str_contains(triple, "aarch64") || str_contains(triple, "arm64") {
        Arch::Aarch64
    } else {
        Arch::Other
    };
    PlatformDescriptor { os, arch }
}

} // verus!
