//! Tests for the fact queries, the system traits, and the text utilities.

use osprofile::base::LinuxSystem;
use osprofile::base::System;
use osprofile::base::WindowsSystem;
use osprofile::errors::ProbeError;
use osprofile::facts::cpu_core_count_from;
use osprofile::facts::cpu_model_from;
use osprofile::facts::hostname_from;
use osprofile::facts::lookup;
use osprofile::facts::FieldQuery;
use osprofile::text::parse_u32;
use osprofile::text::trim;

const CPUINFO: &str = "processor\t: 0\nvendor_id\t: AuthenticAMD\nmodel name\t: AMD Ryzen 7 5800X 8-Core Processor\nsiblings\t: 16\n";

#[test]
fn queries_name_their_sources() {
    let q = FieldQuery::distro_name();
    assert_eq!(q.path, "/etc/os-release");
    assert_eq!(q.key, "NAME");
    assert_eq!(q.delimiter, '=');
    let q = FieldQuery::distro_version();
    assert_eq!(q.key, "VERSION_ID");
    let q = FieldQuery::distro_pretty_name();
    assert_eq!(q.key, "PRETTY_NAME");
    let q = FieldQuery::cpe_name();
    assert_eq!(q.key, "CPE_NAME");
    let q = FieldQuery::platform_id();
    assert_eq!(q.key, "PLATFORM_ID");
    let q = FieldQuery::cpu_model();
    assert_eq!(q.path, "/proc/cpuinfo");
    assert_eq!(q.key, "model name");
    assert_eq!(q.delimiter, ':');
    let q = FieldQuery::cpu_core_count();
    assert_eq!(q.key, "siblings");
}

#[test]
fn lookup_runs_a_query() {
    let os_release = "NAME=\"Fedora Linux\"\nVERSION_ID=42\nCPE_NAME=\"cpe:/o:fedoraproject:fedora:42\"\nPLATFORM_ID=\"platform:f42\"\n";
    assert_eq!(
        lookup(&FieldQuery::distro_name(), os_release).unwrap(),
        "Fedora Linux"
    );
    assert_eq!(
        lookup(&FieldQuery::distro_version(), os_release).unwrap(),
        "42"
    );
    assert_eq!(
        lookup(&FieldQuery::cpe_name(), os_release).unwrap(),
        "cpe:/o:fedoraproject:fedora:42"
    );
    assert_eq!(
        lookup(&FieldQuery::platform_id(), os_release).unwrap(),
        "platform:f42"
    );
    assert_eq!(
        lookup(&FieldQuery::distro_pretty_name(), os_release),
        Err(ProbeError::FieldNotFound)
    );
}

#[test]
fn cpu_model_is_trimmed() {
    assert_eq!(
        cpu_model_from(CPUINFO).unwrap(),
        "AMD Ryzen 7 5800X 8-Core Processor"
    );
}

#[test]
fn cpu_core_count_is_parsed() {
    assert_eq!(cpu_core_count_from(CPUINFO).unwrap(), 16);
}

#[test]
fn cpu_core_count_rejects_non_numeric() {
    let cpuinfo = "siblings\t: sixteen\n";
    assert_eq!(cpu_core_count_from(cpuinfo), Err(ProbeError::Parse));
}

#[test]
fn cpu_facts_fail_without_their_fields() {
    let cpuinfo = "processor\t: 0\n";
    assert_eq!(cpu_model_from(cpuinfo), Err(ProbeError::FieldNotFound));
    assert_eq!(cpu_core_count_from(cpuinfo), Err(ProbeError::FieldNotFound));
}

#[test]
fn hostname_drops_the_trailing_newline() {
    assert_eq!(hostname_from("myhost\n"), "myhost");
    assert_eq!(hostname_from("  myhost  "), "myhost");
}

#[test]
fn trim_removes_surrounding_whitespace_only() {
    assert_eq!(trim("  a b\t\n"), "a b");
    assert_eq!(trim("a b"), "a b");
    assert_eq!(trim(" \t\r\n"), "");
    assert_eq!(trim(""), "");
}

#[test]
fn parse_u32_exact_values() {
    assert_eq!(parse_u32("0").unwrap(), 0);
    assert_eq!(parse_u32("16").unwrap(), 16);
    assert_eq!(parse_u32("007").unwrap(), 7);
    assert_eq!(parse_u32("4294967295").unwrap(), u32::MAX);
}

#[test]
fn parse_u32_rejects_bad_input() {
    assert_eq!(parse_u32(""), Err(ProbeError::Parse));
    assert_eq!(parse_u32("12a"), Err(ProbeError::Parse));
    assert_eq!(parse_u32(" 12"), Err(ProbeError::Parse));
    assert_eq!(parse_u32("-1"), Err(ProbeError::Parse));
    assert_eq!(parse_u32("4294967296"), Err(ProbeError::Parse));
    assert_eq!(parse_u32("99999999999999999999"), Err(ProbeError::Parse));
}

#[test]
fn system_answers_linux_facts_from_release_text() {
    let os_release = "NAME=\"Fedora Linux\"\nVERSION_ID=42\n";
    assert_eq!(System.get_distro(os_release).unwrap(), "Fedora Linux");
    assert_eq!(System.get_linux_version(os_release).unwrap(), "42");
    assert_eq!(
        System.get_distro("ID=fedora\n"),
        Err(ProbeError::FieldNotFound)
    );
}

#[test]
fn subsystem_presence_is_the_reported_bit() {
    assert_eq!(System.is_subsystem_env(false), false);
    assert_eq!(System.is_subsystem_env(true), true);
}

#[test]
fn windows_edition_comes_from_the_registry_value() {
    assert_eq!(
        System.get_edition(Some(String::from("Professional"))).unwrap(),
        "Professional"
    );
    assert_eq!(
        System.get_edition(None),
        Err(ProbeError::ProviderUnavailable)
    );
}
