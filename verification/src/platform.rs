//! The platform identifier: the supported (OS, architecture) matrix and the
//! canonical artifact tag of each supported pair. Every pair either maps to
//! exactly one tag or identification fails — there is no guessed fallback.

use vstd::prelude::*;
use crate::strutil::str_eq;
use vstd::string::StringExecFns;

verus! {

/// Target operating system.
#[derive(Clone, Copy, Debug, PartialEq, Eq, Structural)]
pub enum Os {
    Linux,
    MacOs,
    Windows,
}

/// Target CPU architecture.
#[derive(Clone, Copy, Debug, PartialEq, Eq, Structural)]
pub enum Arch {
    X86_64,
    Aarch64,
}

/// A supported (OS, architecture) pair, identified from the build
/// environment's target description.
#[derive(Clone, Copy, Debug, PartialEq, Eq, Structural)]
pub struct PlatformTag {
    pub os: Os,
    pub arch: Arch,
}

/// The (OS, architecture) pair has no registered artifact mapping.
#[derive(Clone, Copy, Debug, PartialEq, Eq, Structural)]
pub struct UnsupportedPlatform;

/// The OS name used by the build environment's target description.
pub open spec fn spec_parse_os(s: Seq<char>) -> Option<Os> {
    if s == "linux"@ {
        Some(Os::Linux)
    } else if s == "macos"@ {
        Some(Os::MacOs)
    } else if s == "windows"@ {
        Some(Os::Windows)
    } else {
        None
    }
}

/// The architecture name used by the build environment's target description.
pub open spec fn spec_parse_arch(s: Seq<char>) -> Option<Arch> {
    if s == "x86_64"@ {
        Some(Arch::X86_64)
    } else if s == "aarch64"@ {
        Some(Arch::Aarch64)
    } else {
        None
    }
}

/// The registered artifact tag of a pair, or `None` where the pair is
/// outside the supported matrix.
pub open spec fn spec_artifact_tag(os: Os, arch: Arch) -> Option<Seq<char>> {
    match (os, arch) {
        (Os::Linux, Arch::X86_64) => Some("linux"@),
        (Os::Linux, Arch::Aarch64) => Some("linux-arm"@),
        (Os::MacOs, Arch::X86_64) => Some("macos-intel"@),
        (Os::MacOs, Arch::Aarch64) => Some("macos-arm"@),
        (Os::Windows, Arch::X86_64) => Some("windows"@),
        (Os::Windows, Arch::Aarch64) => None,
    }
}

/// The pair has a registered artifact mapping.
pub open spec fn is_supported(os: Os, arch: Arch) -> bool {
    spec_artifact_tag(os, arch) is Some
}

/// The platform identified from the two names, or `None` where either name
/// is unknown or the pair has no registered artifact mapping.
pub open spec fn spec_identify(os_name: Seq<char>, arch_name: Seq<char>) -> Option<PlatformTag> {
    match (spec_parse_os(os_name), spec_parse_arch(arch_name)) {
        (Some(os), Some(arch)) => if is_supported(os, arch) {
            Some(PlatformTag { os, arch })
        } else {
            None
        },
        _ => None,
    }
}

/// Parses an OS name from the build environment's target description.
pub fn parse_os(s: &str) -> (r: Option<Os>)
    ensures
        r == spec_parse_os(s@),
{
    if str_eq(s, "linux") {
        Some(Os::Linux)
    } else if str_eq(s, "macos") {
        Some(Os::MacOs)
    } else if str_eq(s, "windows") {
        Some(Os::Windows)
    } else {
        None
    }
}

/// Parses an architecture name from the build environment's target
/// description.
pub fn parse_arch(s: &str) -> (r: Option<Arch>)
    ensures
        r == spec_parse_arch(s@),
{
    if str_eq(s, "x86_64") {
        Some(Arch::X86_64)
    } else if str_eq(s, "aarch64") {
        Some(Arch::Aarch64)
    } else {
        None
    }
}

/// Resolves the host's OS and architecture names to a supported platform.
/// Succeeds exactly on the pairs of the supported matrix; any other pair is
/// rejected rather than mapped to a best-guess tag.
pub fn identify(os_name: &str, arch_name: &str) -> (r: Result<PlatformTag, UnsupportedPlatform>)
    ensures
        match r {
            Ok(tag) => spec_identify(os_name@, arch_name@) == Some(tag),
            Err(_) => spec_identify(os_name@, arch_name@) is None,
        },
{
    let os = match parse_os(os_name) {
        Some(os) => os,
        None => {
            return Err(UnsupportedPlatform);
        },
    };
    let arch = match parse_arch(arch_name) {
        Some(arch) => arch,
        None => {
            return Err(UnsupportedPlatform);
        },
    };
    match (os, arch) {
        (Os::Windows, Arch::Aarch64) => Err(UnsupportedPlatform),
        _ => Ok(PlatformTag { os, arch }),
    }
}

/// The artifact tag of a supported platform: the short platform-specific
/// string embedded in a prebuilt artifact's download URL.
pub fn artifact_tag(tag: &PlatformTag) -> (r: Result<String, UnsupportedPlatform>)
    ensures
        match r {
            Ok(s) => spec_artifact_tag(tag.os, tag.arch) == Some(s@),
            Err(_) => !is_supported(tag.os, tag.arch),
        },
{
    match (tag.os, tag.arch) {
        (Os::Linux, Arch::X86_64) => Ok(String::from_str("linux")),
        (Os::Linux, Arch::Aarch64) => Ok(String::from_str("linux-arm")),
        (Os::MacOs, Arch::X86_64) => Ok(String::from_str("macos-intel")),
        (Os::MacOs, Arch::Aarch64) => Ok(String::from_str("macos-arm")),
        (Os::Windows, Arch::X86_64) => Ok(String::from_str("windows")),
        (Os::Windows, Arch::Aarch64) => Err(UnsupportedPlatform),
    }
}

/// No two supported platforms share an artifact tag: a prebuilt artifact's
/// name identifies its platform unambiguously.
pub proof fn lemma_artifact_tags_distinct(a: PlatformTag, b: PlatformTag)
    requires
        is_supported(a.os, a.arch),
        is_supported(b.os, b.arch),
        spec_artifact_tag(a.os, a.arch) == spec_artifact_tag(b.os, b.arch),
    ensures
        a == b,
{
    reveal_strlit("linux");
    reveal_strlit("linux-arm");
    reveal_strlit("macos-intel");
    reveal_strlit("macos-arm");
    reveal_strlit("windows");
    // The five tags are pairwise distinct: four have distinct lengths, and
    // the two of length nine differ in their first character.
    assert("linux"@.len() == 5);
    assert("linux-arm"@.len() == 9);
    assert("macos-intel"@.len() == 11);
    assert("macos-arm"@.len() == 9);
    assert("windows"@.len() == 7);
    assert("linux-arm"@[0] == 'l');
    assert("macos-arm"@[0] == 'm');
    assert("linux-arm"@ != "macos-arm"@);
}

} // verus!
