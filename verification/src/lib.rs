//! A library for provisioning local instances of a versioned game
//! installation.  A remote version manifest is resolved to a per-version
//! descriptor, the descriptor and its asset index are turned into a flat
//! download plan, and the plan is split into contiguous slices, one per
//! download worker.  The logic is specified and verified here; the
//! surrounding process (network transfers, file writes, the command line)
//! lives outside the library and only hands plain values in and out.

pub mod args;
pub mod descriptor;
pub mod errors;
pub mod helpers;
pub mod json;
pub mod launch;
pub mod manifest;
pub mod ms_auth;
pub mod partition;
pub mod plan;
pub mod text;
