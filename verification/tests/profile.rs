//! Tests for the profile builder and the hardware record assembly.

use osprofile::errors::ProbeError;
use osprofile::gpu;
use osprofile::processor_from;
use osprofile::GraphicsCard;
use osprofile::OSProfile;

#[test]
fn test_profile() {
    let profile = OSProfile::new("linux", "x86_64").build();
    assert_eq!(profile.os, "linux");
    assert_eq!(profile.arch, "x86_64");
}

#[test]
fn test_computer_name() {
    let profile = OSProfile::new("windows", "x86_64")
        .computer_name(String::from("WORK"))
        .build();
    let name = profile.computer_name.unwrap();
    assert_eq!(name, "WORK");
}

#[test]
fn test_distro() {
    let os_release =
        "NAME=\"Fedora Linux\"\nVERSION_ID=42\nPRETTY_NAME=\"Fedora Linux 42 (Workstation Edition)\"\n";
    let distro = OSProfile::new("linux", "x86_64")
        .distro(os_release)
        .unwrap()
        .build();
    assert!(distro.distro.unwrap().starts_with("Fedora"));
}

#[test]
fn distro_failure_is_surfaced() {
    let os_release = "NAME=\"Fedora Linux\"\n";
    let result = OSProfile::new("linux", "x86_64").distro(os_release);
    assert_eq!(result.unwrap_err(), ProbeError::FieldNotFound);
}

#[test]
fn test_wsl() {
    let wsl = OSProfile::new("linux", "x86_64").is_wsl(false).build();
    assert_eq!(wsl.is_wsl, Some(false));
    let wsl = OSProfile::new("linux", "x86_64").is_wsl(true).build();
    assert_eq!(wsl.is_wsl, Some(true));
}

#[test]
fn builder_keeps_earlier_facts() {
    let profile = OSProfile::new("windows", "x86_64")
        .win_edition(String::from("Professional"))
        .computer_name(String::from("WORK"))
        .build();
    assert_eq!(profile.win_edition.unwrap(), "Professional");
    assert_eq!(profile.computer_name.unwrap(), "WORK");
    assert_eq!(profile.is_wsl, None);
    assert_eq!(profile.distro, None);
}

#[test]
fn test_cpu() {
    let cpu = processor_from(
        Some(String::from("AMD Ryzen 7 5800X 8-Core Processor")),
        Some(16),
    )
    .unwrap();
    assert!(cpu.model.starts_with("AMD"));
    assert_eq!(cpu.cores, 16);
}

#[test]
fn cpu_without_provider_fails() {
    assert_eq!(
        processor_from(None, Some(16)).unwrap_err(),
        ProbeError::ProviderUnavailable
    );
    assert_eq!(
        processor_from(Some(String::from("AMD")), None).unwrap_err(),
        ProbeError::ProviderUnavailable
    );
}

#[test]
fn cpu_query_runs() {
    // The real CPU-identification capability: the answer is machine
    // dependent, but the only failure it may report is an absent provider.
    match osprofile::cpu() {
        Ok(p) => {
            assert!(p.cores >= 1);
        }
        Err(e) => assert_eq!(e, ProbeError::ProviderUnavailable),
    }
}

#[test]
fn test_gpu() {
    let gpu = gpu(vec![GraphicsCard {
        model: String::from("Radeon RX 7800 XT"),
        driver_version: String::from("24.10.1"),
    }]);
    assert!(gpu.is_some());
}

#[test]
fn gpu_takes_first_adapter() {
    let first = GraphicsCard {
        model: String::from("Adapter A"),
        driver_version: String::from("1.0"),
    };
    let second = GraphicsCard {
        model: String::from("Adapter B"),
        driver_version: String::from("2.0"),
    };
    let picked = gpu(vec![first, second]).unwrap();
    assert_eq!(picked.model, "Adapter A");
    assert_eq!(picked.driver_version, "1.0");
}

#[test]
fn gpu_of_empty_enumeration_is_none() {
    assert!(gpu(vec![]).is_none());
}
