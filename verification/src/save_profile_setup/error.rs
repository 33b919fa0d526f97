//! Refusals a save-profile setup admission can report.

use vstd::prelude::*;

verus! {

/// A bounded refusal from admitting an authored save-profile setup operation.
/// A refusal never carries a supplied profile value, host path or game text.
#[derive(Clone, Copy, Debug, PartialEq, Eq, Structural)]
pub enum ProfileSetupError {
    /// The setup schema or route contract version is not the one implemented.
    Incompatible,
    /// The request was structurally unusable (missing or malformed identity).
    InvalidRequest,
    /// The operation requires a permission the deployment does not grant.
    PermissionDenied,
    /// The operation names a profile but no profile identity was supplied.
    ProfileRequired,
    /// A read-only operation carried a profile or a baseline fence.
    DiscoveryMustBeEffectFree,
    /// Selection carried no baseline fence, or a disposable provision carried one.
    BaselineFenceMismatch,
    /// The active-run state refuses a mutation for this run.
    ActiveRunConflict,
    /// The authoritative readback did not match the admitted identity.
    ReadbackMismatch,
}

impl ProfileSetupError {
    /// The stable human-readable description of this refusal.
    pub fn message(self) -> (r: &'static str)
        ensures
            self == ProfileSetupError::ReadbackMismatch ==> r@
                == "save-profile readback does not match the admitted identity"@,
    {
        match self {
            ProfileSetupError::Incompatible => "save-profile setup contract version is unsupported",
            ProfileSetupError::InvalidRequest => "save-profile setup request is structurally invalid",
            ProfileSetupError::PermissionDenied => "save-profile operation requires a permission that is not granted",
            ProfileSetupError::ProfileRequired => "save-profile operation requires a profile identity",
            ProfileSetupError::DiscoveryMustBeEffectFree => "save-profile discovery must not name a profile or a baseline fence",
            ProfileSetupError::BaselineFenceMismatch => "save-profile baseline fence does not match the operation",
            ProfileSetupError::ActiveRunConflict => "save-profile mutation conflicts with the active run state",
            ProfileSetupError::ReadbackMismatch => "save-profile readback does not match the admitted identity",
        }
    }
}

} // verus!
