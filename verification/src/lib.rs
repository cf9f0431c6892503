//! Host-inspection probe: a uniform query surface over OS-specific data
//! sources.
//!
//! The core of the library is a verified field extractor for line-oriented
//! key/value text (such as `/etc/os-release` and `/proc/cpuinfo`) and a total
//! classifier from raw platform strings to closed operating-system and
//! architecture enumerations.  Around the core stand declarative fact
//! queries, a builder for a host profile, and bindings to the
//! CPU-identification capability.
//!
//! The library itself performs no I/O: callers read the designated files (or
//! the registry, or the adapter list) and hand the contents in as plain
//! values.  Every failure is surfaced as a typed `ProbeError`; no query
//! fabricates a default about the host.

use vstd::prelude::*;
use vstd::string::StringExecFns;

pub mod base;
pub mod errors;
pub mod extract;
pub mod facts;
mod providers;
pub mod text;

use crate::errors::ProbeError;
use crate::extract::extract;
use crate::extract::extract_spec;

verus! {

/// A host profile assembled fact by fact.  The raw platform identifiers are
/// set at construction; the optional facts are filled by the builder
/// methods, each from a plain value that the caller obtained from the
/// matching source.
#[derive(Debug)]
pub struct OSProfile {
    pub os: String,
    pub arch: String,
    pub win_edition: Option<String>,
    pub computer_name: Option<String>,
    pub is_wsl: Option<bool>,
    pub distro: Option<String>,
}

impl OSProfile {
    /// Starts a profile from the raw platform identifiers (for the running
    /// host, `std::env::consts::OS` and `std::env::consts::ARCH`).
    pub fn new(os: &str, arch: &str) -> (p: Self)
        ensures
            p.os@ == os@,
            p.arch@ == arch@,
            p.win_edition is None,
            p.computer_name is None,
            p.is_wsl is None,
            p.distro is None,
    {
        OSProfile {
            os: String::from_str(os),
            arch: String::from_str(arch),
            win_edition: None,
            computer_name: None,
            is_wsl: None,
            distro: None,
        }
    }

    /// Records the Windows edition, as read from the registry by the
    /// caller.  Every other fact is kept.
    pub fn win_edition(self, edition: String) -> (p: Self)
        ensures
            p.win_edition == Some(edition),
            p.os == self.os,
            p.arch == self.arch,
            p.computer_name == self.computer_name,
            p.is_wsl == self.is_wsl,
            p.distro == self.distro,
    {
        OSProfile {
            os: self.os,
            arch: self.arch,
            win_edition: Some(edition),
            computer_name: self.computer_name,
            is_wsl: self.is_wsl,
            distro: self.distro,
        }
    }

    /// Records the computer name, as read from the registry by the caller.
    /// Every other fact is kept.
    pub fn computer_name(self, name: String) -> (p: Self)
        ensures
            p.computer_name == Some(name),
            p.os == self.os,
            p.arch == self.arch,
            p.win_edition == self.win_edition,
            p.is_wsl == self.is_wsl,
            p.distro == self.distro,
    {
        OSProfile {
            os: self.os,
            arch: self.arch,
            win_edition: self.win_edition,
            computer_name: Some(name),
            is_wsl: self.is_wsl,
            distro: self.distro,
        }
    }

    /// Extracts the human-readable distribution title (the `PRETTY_NAME`
    /// field) from the release metadata text and records it.  An extraction
    /// failure is surfaced unchanged and leaves no profile behind.
    pub fn distro(self, os_release: &str) -> (r: Result<Self, ProbeError>)
        ensures
            (extract_spec(os_release@, "PRETTY_NAME"@, '=') matches Ok(v) ==> (r matches Ok(p) && (
            p.distro matches Some(d) && d@ == v) && p.os == self.os && p.arch == self.arch
                && p.win_edition == self.win_edition && p.computer_name == self.computer_name
                && p.is_wsl == self.is_wsl)),
            (extract_spec(os_release@, "PRETTY_NAME"@, '=') matches Err(e) ==> r == Err::<
                OSProfile,
                ProbeError,
            >(e)),
    {
        match extract(os_release, "PRETTY_NAME", '=') {
            Ok(d) => Ok(
                OSProfile {
                    os: self.os,
                    arch: self.arch,
                    win_edition: self.win_edition,
                    computer_name: self.computer_name,
                    is_wsl: self.is_wsl,
                    distro: Some(d),
                },
            ),
            Err(e) => Err(e),
        }
    }

    /// Records whether the compatibility-subsystem marker path is present,
    /// as checked by the caller.  Every other fact is kept.
    pub fn is_wsl(self, marker_present: bool) -> (p: Self)
        ensures
            p.is_wsl == Some(marker_present),
            p.os == self.os,
            p.arch == self.arch,
            p.win_edition == self.win_edition,
            p.computer_name == self.computer_name,
            p.distro == self.distro,
    {
        OSProfile {
            os: self.os,
            arch: self.arch,
            win_edition: self.win_edition,
            computer_name: self.computer_name,
            is_wsl: Some(marker_present),
            distro: self.distro,
        }
    }

    /// Finishes the build.  The profile is returned with every fact exactly
    /// as accumulated.
    pub fn build(self) -> (p: Self)
        ensures
            p.os == self.os,
            p.arch == self.arch,
            p.win_edition == self.win_edition,
            p.computer_name == self.computer_name,
            p.is_wsl == self.is_wsl,
            p.distro == self.distro,
    {
        OSProfile {
            os: self.os,
            arch: self.arch,
            win_edition: self.win_edition,
            computer_name: self.computer_name,
            is_wsl: self.is_wsl,
            distro: self.distro,
        }
    }
}

/// CPU identity: the model brand string and the logical core count.
#[derive(Debug)]
pub struct Processor {
    pub model: String,
    pub cores: u32,
}

/// One graphics adapter: the model name and the driver/version string the
/// enumeration reported for it.
#[derive(Debug)]
pub struct GraphicsCard {
    pub model: String,
    pub driver_version: String,
}

/// Assembles a `Processor` from the outcomes of the two CPU-identification
/// queries.  Both must have answered; a missing answer is a
/// `ProviderUnavailable` failure, never a fabricated value.
pub fn processor_from(model: Option<String>, cores: Option<u32>) -> (r: Result<
    Processor,
    ProbeError,
>)
    ensures
        (match (model, cores) {
            (Some(m), Some(c)) => r matches Ok(p) && p.model == m && p.cores == c,
            _ => r == Err::<Processor, ProbeError>(ProbeError::ProviderUnavailable),
        }),
{
    match (model, cores) {
        (Some(m), Some(c)) => Ok(Processor { model: m, cores: c }),
        _ => Err(ProbeError::ProviderUnavailable),
    }
}

/// Queries the processor for its brand string and maximum logical core
/// count.  The answers depend on the machine; the only failure is a
/// processor that does not support the queried leaves.
pub fn cpu() -> (r: Result<Processor, ProbeError>)
    ensures
        (r matches Err(e) ==> e == ProbeError::ProviderUnavailable),
{
    let model = providers::cpuid_brand_string();
    let cores = providers::cpuid_max_logical_processors();
    processor_from(model, cores)
}

/// The adapter a profile reports: the first record of an enumeration, or
/// nothing where the enumeration found no adapter.
pub fn gpu(adapters: Vec<GraphicsCard>) -> (r: Option<GraphicsCard>)
    ensures
        (adapters@.len() == 0 ==> r is None),
        (adapters@.len() > 0 ==> (r matches Some(g) && g == adapters@[0])),
{
    let mut adapters = adapters;
    if adapters.len() == 0 {
        None
    } else {
        Some(adapters.remove(0))
    }
}

} // verus!
