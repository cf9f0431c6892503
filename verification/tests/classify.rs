//! Tests for the platform classifier.

use osprofile::base::classify_arch;
use osprofile::base::classify_os;
use osprofile::base::Architecture;
use osprofile::base::OperatingSystem;

#[test]
fn classify_os_known_tokens() {
    assert_eq!(classify_os("linux"), OperatingSystem::Linux);
    assert_eq!(classify_os("android"), OperatingSystem::Android);
    assert_eq!(classify_os("freebsd"), OperatingSystem::FreeBSD);
    assert_eq!(classify_os("dragonfly"), OperatingSystem::DragonFlyBSD);
    assert_eq!(classify_os("netbsd"), OperatingSystem::NetBSD);
    assert_eq!(classify_os("openbsd"), OperatingSystem::OpenBSD);
    assert_eq!(classify_os("solaris"), OperatingSystem::Solaris);
    assert_eq!(classify_os("macos"), OperatingSystem::MacOS);
    assert_eq!(classify_os("windows"), OperatingSystem::Windows);
}

#[test]
fn classify_os_unknown_tokens() {
    assert_eq!(classify_os("bogus"), OperatingSystem::Unknown);
    assert_eq!(classify_os(""), OperatingSystem::Unknown);
    // The table is case-sensitive: platform identifiers come lowercase.
    assert_eq!(classify_os("Linux"), OperatingSystem::Unknown);
    assert_eq!(classify_os("linux "), OperatingSystem::Unknown);
}

#[test]
fn classify_arch_known_tokens() {
    assert_eq!(classify_arch("x86"), Architecture::X86);
    assert_eq!(classify_arch("x86_64"), Architecture::X86_64);
    assert_eq!(classify_arch("arm"), Architecture::Arm);
    assert_eq!(classify_arch("aarch64"), Architecture::Aarch64);
    assert_eq!(classify_arch("loongarch64"), Architecture::Loongarch64);
    assert_eq!(classify_arch("m68k"), Architecture::M68k);
    assert_eq!(classify_arch("csky"), Architecture::Csky);
    assert_eq!(classify_arch("mips"), Architecture::Mips);
    assert_eq!(classify_arch("mips64"), Architecture::Mips64);
    assert_eq!(classify_arch("powerpc"), Architecture::Powerpc);
    assert_eq!(classify_arch("powerpc64"), Architecture::Powerpc64);
    assert_eq!(classify_arch("riscv64"), Architecture::Riscv64);
    assert_eq!(classify_arch("s390x"), Architecture::S390x);
    assert_eq!(classify_arch("sparc64"), Architecture::Sparc64);
}

#[test]
fn classify_arch_unknown_tokens() {
    assert_eq!(classify_arch("bogus"), Architecture::Unknown);
    assert_eq!(classify_arch(""), Architecture::Unknown);
    assert_eq!(classify_arch("X86_64"), Architecture::Unknown);
}
