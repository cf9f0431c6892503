//! Platform classification and the host-facing query traits.
//!
//! `classify_os` and `classify_arch` map raw platform identifier strings
//! (as the runtime environment reports them) onto closed enumerations.  Both
//! are total: every string maps to exactly one variant, and every
//! unrecognized token maps to `Unknown` rather than failing.
//!
//! `System` answers per-family fact queries.  The library performs no I/O,
//! so each query takes the text of its source (or the presence bit, or the
//! registry value) as an argument; an unverified outer layer reads the
//! sources and hands them in.

use vstd::prelude::*;

use crate::errors::ProbeError;
use crate::extract::extract;
use crate::extract::extract_spec;
use crate::text::str_eq;

verus! {

/// The canonical operating-system identities the probe distinguishes.
#[derive(Debug, Clone, Copy, PartialEq, Eq, Structural)]
pub enum OperatingSystem {
    Linux,
    Android,
    FreeBSD,
    DragonFlyBSD,
    NetBSD,
    OpenBSD,
    Solaris,
    MacOS,
    Windows,
    Unknown,
}

/// The canonical CPU architectures the probe distinguishes.
#[derive(Debug, Clone, Copy, PartialEq, Eq, Structural)]
pub enum Architecture {
    X86,
    X86_64,
    Arm,
    Aarch64,
    Loongarch64,
    M68k,
    Csky,
    Mips,
    Mips64,
    Powerpc,
    Powerpc64,
    Riscv64,
    S390x,
    Sparc64,
    Unknown,
}

/// The fixed table behind `classify_os`.
pub open spec fn classify_os_spec(s: Seq<char>) -> OperatingSystem {
    if s == "linux"@ {
        OperatingSystem::Linux
    } else if s == "android"@ {
        OperatingSystem::Android
    } else if s == "freebsd"@ {
        OperatingSystem::FreeBSD
    } else if s == "dragonfly"@ {
        OperatingSystem::DragonFlyBSD
    } else if s == "netbsd"@ {
        OperatingSystem::NetBSD
    } else if s == "openbsd"@ {
        OperatingSystem::OpenBSD
    } else if s == "solaris"@ {
        OperatingSystem::Solaris
    } else if s == "macos"@ {
        OperatingSystem::MacOS
    } else if s == "windows"@ {
        OperatingSystem::Windows
    } else {
        OperatingSystem::Unknown
    }
}

/// The fixed table behind `classify_arch`.
pub open spec fn classify_arch_spec(s: Seq<char>) -> Architecture {
    if s == "x86"@ {
        Architecture::X86
    } else if s == "x86_64"@ {
        Architecture::X86_64
    } else if s == "arm"@ {
        Architecture::Arm
    } else if s == "aarch64"@ {
        Architecture::Aarch64
    } else if s == "loongarch64"@ {
        Architecture::Loongarch64
    } else if s == "m68k"@ {
        Architecture::M68k
    } else if s == "csky"@ {
        Architecture::Csky
    } else if s == "mips"@ {
        Architecture::Mips
    } else if s == "mips64"@ {
        Architecture::Mips64
    } else if s == "powerpc"@ {
        Architecture::Powerpc
    } else if s == "powerpc64"@ {
        Architecture::Powerpc64
    } else if s == "riscv64"@ {
        Architecture::Riscv64
    } else if s == "s390x"@ {
        Architecture::S390x
    } else if s == "sparc64"@ {
        Architecture::Sparc64
    } else {
        Architecture::Unknown
    }
}

/// The operating-system tokens the classification table knows.
pub open spec fn known_os_token(s: Seq<char>) -> bool {
    ||| s == "linux"@
    ||| s == "android"@
    ||| s == "freebsd"@
    ||| s == "dragonfly"@
    ||| s == "netbsd"@
    ||| s == "openbsd"@
    ||| s == "solaris"@
    ||| s == "macos"@
    ||| s == "windows"@
}

/// The architecture tokens the classification table knows.
pub open spec fn known_arch_token(s: Seq<char>) -> bool {
    ||| s == "x86"@
    ||| s == "x86_64"@
    ||| s == "arm"@
    ||| s == "aarch64"@
    ||| s == "loongarch64"@
    ||| s == "m68k"@
    ||| s == "csky"@
    ||| s == "mips"@
    ||| s == "mips64"@
    ||| s == "powerpc"@
    ||| s == "powerpc64"@
    ||| s == "riscv64"@
    ||| s == "s390x"@
    ||| s == "sparc64"@
}

/// Classification is total: every string maps to exactly one variant (the
/// mapping is a function, so exactly one), and a string maps to `Unknown`
/// precisely when it is not one of the known tokens.
pub proof fn lemma_classification_total(s: Seq<char>)
    ensures
        classify_os_spec(s) is Unknown <==> !known_os_token(s),
        classify_arch_spec(s) is Unknown <==> !known_arch_token(s),
{
}

/// Maps a raw platform string onto the `OperatingSystem` enumeration.
/// Unrecognized tokens (unexpected casing included) map to `Unknown`.
pub fn classify_os(raw: &str) -> (os: OperatingSystem)
    ensures
        os == classify_os_spec(raw@),
{
    if str_eq(raw, "linux") {
        OperatingSystem::Linux
    } else if str_eq(raw, "android") {
        OperatingSystem::Android
    } else if str_eq(raw, "freebsd") {
        OperatingSystem::FreeBSD
    } else if str_eq(raw, "dragonfly") {
        OperatingSystem::DragonFlyBSD
    } else if str_eq(raw, "netbsd") {
        OperatingSystem::NetBSD
    } else if str_eq(raw, "openbsd") {
        OperatingSystem::OpenBSD
    } else if str_eq(raw, "solaris") {
        OperatingSystem::Solaris
    } else if str_eq(raw, "macos") {
        OperatingSystem::MacOS
    } else if str_eq(raw, "windows") {
        OperatingSystem::Windows
    } else {
        OperatingSystem::Unknown
    }
}

/// Maps a raw architecture string onto the `Architecture` enumeration.
/// Unrecognized tokens map to `Unknown`.
pub fn classify_arch(raw: &str) -> (arch: Architecture)
    ensures
        arch == classify_arch_spec(raw@),
{
    if str_eq(raw, "x86") {
        Architecture::X86
    } else if str_eq(raw, "x86_64") {
        Architecture::X86_64
    } else if str_eq(raw, "arm") {
        Architecture::Arm
    } else if str_eq(raw, "aarch64") {
        Architecture::Aarch64
    } else if str_eq(raw, "loongarch64") {
        Architecture::Loongarch64
    } else if str_eq(raw, "m68k") {
        Architecture::M68k
    } else if str_eq(raw, "csky") {
        Architecture::Csky
    } else if str_eq(raw, "mips") {
        Architecture::Mips
    } else if str_eq(raw, "mips64") {
        Architecture::Mips64
    } else if str_eq(raw, "powerpc") {
        Architecture::Powerpc
    } else if str_eq(raw, "powerpc64") {
        Architecture::Powerpc64
    } else if str_eq(raw, "riscv64") {
        Architecture::Riscv64
    } else if str_eq(raw, "s390x") {
        Architecture::S390x
    } else if str_eq(raw, "sparc64") {
        Architecture::Sparc64
    } else {
        Architecture::Unknown
    }
}

/// The host being inspected.  A unit value: every query is a pure function
/// of the source text handed to it.
#[derive(Debug, Clone, Copy)]
pub struct System;

/// Locating a named field in a line-oriented key/value text.
pub trait Parser {
    /// Extracts the value bound to `key` from the `contents` of a source,
    /// splitting the first matching line at `elem`.
    fn select(contents: &str, key: &str, elem: char) -> (r: Result<String, ProbeError>)
        ensures
            (extract_spec(contents@, key@, elem) matches Ok(v) ==> r matches Ok(x) && x@ == v),
            (extract_spec(contents@, key@, elem) matches Err(e) ==> r == Err::<String, ProbeError>(
                e,
            )),
    ;
}

impl Parser for String {
    fn select(contents: &str, key: &str, elem: char) -> (r: Result<String, ProbeError>) {
        extract(contents, key, elem)
    }
}

/// Facts a Linux-family host answers from its release metadata.
pub trait LinuxSystem {
    /// The distribution name: the `NAME` field of the release metadata text
    /// (on a Linux host, the contents of `/etc/os-release`).
    fn get_distro(self, os_release: &str) -> (r: Result<String, ProbeError>)
        ensures
            (extract_spec(os_release@, "NAME"@, '=') matches Ok(v) ==> r matches Ok(x) && x@ == v),
            (extract_spec(os_release@, "NAME"@, '=') matches Err(e) ==> r == Err::<
                String,
                ProbeError,
            >(e)),
    ;

    /// The distribution version: the `VERSION_ID` field of the release
    /// metadata text.
    fn get_linux_version(self, os_release: &str) -> (r: Result<String, ProbeError>)
        ensures
            (extract_spec(os_release@, "VERSION_ID"@, '=') matches Ok(v) ==> r matches Ok(x) && x@
                == v),
            (extract_spec(os_release@, "VERSION_ID"@, '=') matches Err(e) ==> r == Err::<
                String,
                ProbeError,
            >(e)),
    ;

    /// Whether the host runs inside a compatibility subsystem.  The check is
    /// a marker-path presence test: the caller reports whether the marker
    /// path exists, and the answer is exactly that bit — `false` when the
    /// marker is absent, `true` when it is present, never a failure.
    fn is_subsystem_env(self, marker_present: bool) -> (r: bool)
        ensures
            r == marker_present,
    ;
}

impl LinuxSystem for System {
    fn get_distro(self, os_release: &str) -> (r: Result<String, ProbeError>) {
        extract(os_release, "NAME", '=')
    }

    fn get_linux_version(self, os_release: &str) -> (r: Result<String, ProbeError>) {
        extract(os_release, "VERSION_ID", '=')
    }

    fn is_subsystem_env(self, marker_present: bool) -> (r: bool) {
        marker_present
    }
}

/// Facts a Windows-family host answers from its registry.
pub trait WindowsSystem {
    /// The edition identifier.  The caller performs the registry lookup (an
    /// external capability) and hands in its outcome; a missing value is a
    /// `ProviderUnavailable` failure, never a fabricated default.
    fn get_edition(self, registry_value: Option<String>) -> (r: Result<String, ProbeError>)
        ensures
            (registry_value matches Some(v) ==> r == Ok::<String, ProbeError>(v)),
            (registry_value is None ==> r == Err::<String, ProbeError>(
                ProbeError::ProviderUnavailable,
            )),
    ;
}

impl WindowsSystem for System {
    fn get_edition(self, registry_value: Option<String>) -> (r: Result<String, ProbeError>) {
        match registry_value {
            Option::Some(v) => Ok(v),
            Option::None => Err(ProbeError::ProviderUnavailable),
        }
    }
}

} // verus!
