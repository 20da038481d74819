//! The failure taxonomy of a provisioning run.  Failures during resolution
//! are fatal: without a manifest, a descriptor and an asset index no plan
//! can be built.  Failures on single queued downloads are recovered where
//! they happen and never reach this type.

use vstd::prelude::*;

verus! {

/// A fatal failure of the resolution phase.
#[derive(Clone, Copy, Debug, PartialEq, Eq, Structural)]
pub enum ProvisionError {
    /// A transport failure or a non-success status on a resolution fetch.
    NetworkError,
    /// A response body that does not match the expected document shape.
    DecodeError,
    /// The requested version id is absent from the manifest.
    VersionNotFound,
}

impl ProvisionError {
    /// A short human-readable description of the failure.
    pub fn describe(&self) -> (r: &'static str)
        ensures
            self is NetworkError ==> r@ == "network request failed"@,
            self is DecodeError ==> r@ == "response did not match the expected shape"@,
            self is VersionNotFound ==> r@ == "invalid version"@,
    {
        match self {
            ProvisionError::NetworkError => "network request failed",
            ProvisionError::DecodeError => "response did not match the expected shape",
            ProvisionError::VersionNotFound => "invalid version",
        }
    }
}

} // verus!
