//! The probe's failure taxonomy.

use vstd::prelude::*;

verus! {

/// Every way a fact lookup can fail.
///
/// Extraction is partial by design: a missing or malformed field is a hard,
/// typed failure surfaced to the caller, never a silent default.  The
/// variants:
///
/// - `Io`: the text source could not be read (reported by the unverified
///   reading layer; the verified core never produces it).
/// - `FieldNotFound`: no line of the source starts with the requested key.
/// - `MalformedLine`: the first matching line has no delimiter after the key.
/// - `Parse`: an extracted value failed numeric coercion.
/// - `ProviderUnavailable`: an external collaborator (registry, CPU
///   identification, adapter enumeration) is absent or denied access.
#[derive(Debug, Clone, Copy, PartialEq, Eq, Structural)]
pub enum ProbeError {
    Io,
    FieldNotFound,
    MalformedLine,
    Parse,
    ProviderUnavailable,
}

} // verus!
