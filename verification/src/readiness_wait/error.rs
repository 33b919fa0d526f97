//! Refusals a versioned readiness target or wait can report.

use vstd::prelude::*;

verus! {

/// A bounded, distinguishable refusal from admitting a readiness target or
/// waiting for its milestone.
#[derive(Clone, Copy, Debug, PartialEq, Eq, Structural)]
pub enum ReadinessWaitError {
    /// The target's contract version is not the one this harness implements.
    Incompatible,
    /// The target was structurally unusable (zero deadline or zero attempt bound).
    InvalidTarget,
    /// The wait was begun without an instance, an authority epoch or a generation.
    InvalidBinding,
    /// The wait already settled, was cancelled or invalidated by a restart.
    Settled,
    /// The evidence named a different instance or authority epoch.
    ForeignReadiness,
    /// The evidence was captured under a superseded process generation.
    StaleReadiness,
    /// The bounded deadline or attempt budget was exhausted.
    Timeout,
    /// The owning lifecycle surface explicitly denied the milestone.
    Denied,
}

impl ReadinessWaitError {
    /// The stable human-readable description of this refusal.
    pub fn message(self) -> (r: &'static str)
        ensures
            self == ReadinessWaitError::Timeout ==> r@
                == "readiness wait exceeded its bounded deadline or attempt budget"@,
            self == ReadinessWaitError::Settled ==> r@ == "readiness wait is already settled"@,
    {
        match self {
            ReadinessWaitError::Incompatible => "readiness target contract version is unsupported",
            ReadinessWaitError::InvalidTarget => "readiness target is structurally invalid",
            ReadinessWaitError::InvalidBinding => "readiness wait binding is incomplete",
            ReadinessWaitError::Settled => "readiness wait is already settled",
            ReadinessWaitError::ForeignReadiness => "readiness evidence is for another instance or epoch",
            ReadinessWaitError::StaleReadiness => "readiness evidence is stale for this generation",
            ReadinessWaitError::Timeout => "readiness wait exceeded its bounded deadline or attempt budget",
            ReadinessWaitError::Denied => "readiness was denied by the owning lifecycle surface",
        }
    }
}

} // verus!
