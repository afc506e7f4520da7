//! Why a plugin call can fail.

use proto_pdk::SpecError;
use vstd::prelude::*;

verus! {

/// A failed plugin call.
#[derive(Debug)]
pub enum PluginFailure {
    /// A version text that the version grammar does not accept.
    InvalidVersion(SpecError),
    /// A canary version was asked for; Terraform publishes none.
    UnsupportedCanary,
    /// The host's operating system has no Terraform release.
    UnsupportedOs,
    /// The host's operating system has releases, but not for its architecture.
    UnsupportedTarget,
}

} // verus!
