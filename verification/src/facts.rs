//! Declarative fact queries.
//!
//! Each host fact the probe can answer from a text source is one fixed
//! `FieldQuery`: the path of the source, the key a line must start with, and
//! the delimiter that separates key from value.  `lookup` feeds a query and
//! the source's contents to the extractor.  The facts that need
//! post-processing (the CPU model trims whitespace, the core count parses a
//! number) have helpers of their own with the post-processing pinned in
//! their contracts.

use vstd::prelude::*;
use vstd::string::StringExecFns;

use crate::errors::ProbeError;
use crate::extract::extract;
use crate::extract::extract_spec;
use crate::text::dec_value;
use crate::text::is_dec_string;
use crate::text::parse_u32;
use crate::text::trim;
use crate::text::trim_spec;

verus! {

/// Where and how to find one host fact: the text source to read, the key a
/// line must start with, and the delimiter after which the value stands.
#[derive(Debug)]
pub struct FieldQuery {
    pub path: String,
    pub key: String,
    pub delimiter: char,
}

impl FieldQuery {
    /// The distribution name: the `NAME` field of `/etc/os-release`.
    pub fn distro_name() -> (q: FieldQuery)
        ensures
            q.path@ == "/etc/os-release"@,
            q.key@ == "NAME"@,
            q.delimiter == '=',
    {
        FieldQuery {
            path: String::from_str("/etc/os-release"),
            key: String::from_str("NAME"),
            delimiter: '=',
        }
    }

    /// The distribution version: the `VERSION_ID` field of
    /// `/etc/os-release`.
    pub fn distro_version() -> (q: FieldQuery)
        ensures
            q.path@ == "/etc/os-release"@,
            q.key@ == "VERSION_ID"@,
            q.delimiter == '=',
    {
        FieldQuery {
            path: String::from_str("/etc/os-release"),
            key: String::from_str("VERSION_ID"),
            delimiter: '=',
        }
    }

    /// The human-readable distribution title: the `PRETTY_NAME` field of
    /// `/etc/os-release`.
    pub fn distro_pretty_name() -> (q: FieldQuery)
        ensures
            q.path@ == "/etc/os-release"@,
            q.key@ == "PRETTY_NAME"@,
            q.delimiter == '=',
    {
        FieldQuery {
            path: String::from_str("/etc/os-release"),
            key: String::from_str("PRETTY_NAME"),
            delimiter: '=',
        }
    }

    /// The platform CPE name: the `CPE_NAME` field of `/etc/os-release`.
    pub fn cpe_name() -> (q: FieldQuery)
        ensures
            q.path@ == "/etc/os-release"@,
            q.key@ == "CPE_NAME"@,
            q.delimiter == '=',
    {
        FieldQuery {
            path: String::from_str("/etc/os-release"),
            key: String::from_str("CPE_NAME"),
            delimiter: '=',
        }
    }

    /// The platform identifier: the `PLATFORM_ID` field of
    /// `/etc/os-release`.
    pub fn platform_id() -> (q: FieldQuery)
        ensures
            q.path@ == "/etc/os-release"@,
            q.key@ == "PLATFORM_ID"@,
            q.delimiter == '=',
    {
        FieldQuery {
            path: String::from_str("/etc/os-release"),
            key: String::from_str("PLATFORM_ID"),
            delimiter: '=',
        }
    }

    /// The CPU model: the `model name` field of `/proc/cpuinfo`, colon
    /// delimited.
    pub fn cpu_model() -> (q: FieldQuery)
        ensures
            q.path@ == "/proc/cpuinfo"@,
            q.key@ == "model name"@,
            q.delimiter == ':',
    {
        FieldQuery {
            path: String::from_str("/proc/cpuinfo"),
            key: String::from_str("model name"),
            delimiter: ':',
        }
    }

    /// The logical core count: the `siblings` field of `/proc/cpuinfo`,
    /// colon delimited.
    pub fn cpu_core_count() -> (q: FieldQuery)
        ensures
            q.path@ == "/proc/cpuinfo"@,
            q.key@ == "siblings"@,
            q.delimiter == ':',
    {
        FieldQuery {
            path: String::from_str("/proc/cpuinfo"),
            key: String::from_str("siblings"),
            delimiter: ':',
        }
    }
}

/// Runs a field query against the contents of its source.
pub fn lookup(q: &FieldQuery, contents: &str) -> (r: Result<String, ProbeError>)
    ensures
        (extract_spec(contents@, q.key@, q.delimiter) matches Ok(v) ==> r matches Ok(x) && x@
            == v),
        (extract_spec(contents@, q.key@, q.delimiter) matches Err(e) ==> r == Err::<
            String,
            ProbeError,
        >(e)),
{
    extract(contents, q.key.as_str(), q.delimiter)
}

/// The CPU model fact: the `model name` field of the CPU info text, with
/// surrounding whitespace trimmed.
pub fn cpu_model_from(cpuinfo: &str) -> (r: Result<String, ProbeError>)
    ensures
        (extract_spec(cpuinfo@, "model name"@, ':') matches Ok(v) ==> r matches Ok(x) && x@
            == trim_spec(v)),
        (extract_spec(cpuinfo@, "model name"@, ':') matches Err(e) ==> r == Err::<
            String,
            ProbeError,
        >(e)),
{
    match extract(cpuinfo, "model name", ':') {
        Ok(v) => Ok(trim(v.as_str())),
        Err(e) => Err(e),
    }
}

/// The core count fact: the `siblings` field of the CPU info text, trimmed
/// and coerced to an unsigned integer.  A value that is not a nonempty
/// digit string fitting a `u32` is a `Parse` failure, distinct from the
/// extraction failures.
pub fn cpu_core_count_from(cpuinfo: &str) -> (r: Result<u32, ProbeError>)
    ensures
        (extract_spec(cpuinfo@, "siblings"@, ':') matches Ok(v) ==> ({
            let t = trim_spec(v);
            &&& (is_dec_string(t) && dec_value(t) <= u32::MAX ==> (r matches Ok(c) && c
                == dec_value(t)))
            &&& (!is_dec_string(t) || dec_value(t) > u32::MAX ==> r == Err::<u32, ProbeError>(
                ProbeError::Parse,
            ))
        })),
        (extract_spec(cpuinfo@, "siblings"@, ':') matches Err(e) ==> r == Err::<u32, ProbeError>(
            e,
        )),
{
    match extract(cpuinfo, "siblings", ':') {
        Ok(v) => {
            let t: String = trim(v.as_str());
            parse_u32(t.as_str())
        },
        Err(e) => Err(e),
    }
}

/// The hostname fact: the whole contents of the hostname file, with
/// surrounding whitespace (the trailing newline included) removed.
pub fn hostname_from(contents: &str) -> (r: String)
    ensures
        r@ == trim_spec(contents@),
{
    trim(contents)
}

} // verus!
