//! Trusted bindings to the CPU-identification capability.
//!
//! The probe treats CPU identification as an opaque provider: each binding
//! makes one query and hands back a plain value.  What the processor
//! answers depends on the machine, so nothing is promised of the values;
//! the verified code that consumes them states what it does for every
//! possible outcome.

use vstd::prelude::*;

verus! {

/// Relies on `raw_cpuid::CpuId::get_processor_brand_string`: the brand
/// string the processor reports, or `None` where the processor does not
/// support the brand-string leaves.
#[verifier::external_body]
pub(crate) fn cpuid_brand_string() -> (r: Option<String>) {
    raw_cpuid::CpuId::new().get_processor_brand_string().map(|b| b.as_str().to_string())
}

/// Relies on `raw_cpuid::CpuId::get_processor_capacity_feature_info`: the
/// maximum logical processor count the processor reports, or `None` where
/// the capacity leaf is unsupported.
#[verifier::external_body]
pub(crate) fn cpuid_max_logical_processors() -> (r: Option<u32>) {
    raw_cpuid::CpuId::new().get_processor_capacity_feature_info().map(
        |c| c.maximum_logical_processors() as u32,
    )
}

} // verus!
