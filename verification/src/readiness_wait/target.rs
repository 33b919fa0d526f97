//! The versioned, capability-gated readiness target.

use vstd::prelude::*;
use super::{ReadinessMilestone, ReadinessWaitError};

verus! {

/// The readiness-target contract version this harness implements.
pub const READINESS_CONTRACT_VERSION: u32 = 1;

/// Default bounded deadline for [`ReadinessTarget::standard`], in milliseconds.
pub const STANDARD_READINESS_DEADLINE_MS: u64 = 30_000;

/// Default bounded attempt budget for [`ReadinessTarget::standard`].
pub const STANDARD_READINESS_MAX_ATTEMPTS: u32 = 60;

/// A versioned milestone target with a bounded deadline and attempt budget.
#[derive(Clone, Copy, Debug, PartialEq, Eq, Structural)]
pub struct ReadinessTarget {
    /// The milestone the wait must reach.
    pub milestone: ReadinessMilestone,
    /// The wall-clock budget, in milliseconds, measured from the wait's start.
    pub deadline_ms: u64,
    /// The maximum number of admitted observations before the wait times out.
    pub max_attempts: u32,
    /// The contract version this target was authored against.
    pub contract_version: u32,
}

/// The admission verdict for a target with these fields.
pub open spec fn target_admission(
    milestone: ReadinessMilestone,
    deadline_ms: u64,
    max_attempts: u32,
    contract_version: u32,
) -> Result<ReadinessTarget, ReadinessWaitError> {
    if contract_version != READINESS_CONTRACT_VERSION {
        Err(ReadinessWaitError::Incompatible)
    } else if deadline_ms == 0 || max_attempts == 0 {
        Err(ReadinessWaitError::InvalidTarget)
    } else {
        Ok(ReadinessTarget { milestone, deadline_ms, max_attempts, contract_version })
    }
}

/// A target that admission accepts.
pub open spec fn target_is_valid(t: ReadinessTarget) -> bool {
    t.contract_version == READINESS_CONTRACT_VERSION && t.deadline_ms > 0 && t.max_attempts > 0
}

impl ReadinessTarget {
    /// Admits a target, refusing an unsupported version before any work starts
    /// and an unbounded (zero deadline or zero attempt) target.
    pub fn new(
        milestone: ReadinessMilestone,
        deadline_ms: u64,
        max_attempts: u32,
        contract_version: u32,
    ) -> (r: Result<Self, ReadinessWaitError>)
        ensures
            r == target_admission(milestone, deadline_ms, max_attempts, contract_version),
    {
        if contract_version != READINESS_CONTRACT_VERSION {
            return Err(ReadinessWaitError::Incompatible);
        }
        if deadline_ms == 0 || max_attempts == 0 {
            return Err(ReadinessWaitError::InvalidTarget);
        }
        Ok(ReadinessTarget { milestone, deadline_ms, max_attempts, contract_version })
    }

    /// A target at the current contract version with the standard bounds.
    pub fn standard(milestone: ReadinessMilestone) -> (r: Self)
        ensures
            r == (ReadinessTarget {
                milestone,
                deadline_ms: STANDARD_READINESS_DEADLINE_MS,
                max_attempts: STANDARD_READINESS_MAX_ATTEMPTS,
                contract_version: READINESS_CONTRACT_VERSION,
            }),
            target_is_valid(r),
    {
        ReadinessTarget {
            milestone,
            deadline_ms: STANDARD_READINESS_DEADLINE_MS,
            max_attempts: STANDARD_READINESS_MAX_ATTEMPTS,
            contract_version: READINESS_CONTRACT_VERSION,
        }
    }

    /// Re-validates a target that was decoded from an untrusted document.
    pub fn validate(self) -> (r: Result<Self, ReadinessWaitError>)
        ensures
            r == target_admission(
                self.milestone,
                self.deadline_ms,
                self.max_attempts,
                self.contract_version,
            ),
            r is Ok ==> r == Ok::<ReadinessTarget, ReadinessWaitError>(self),
    {
        Self::new(self.milestone, self.deadline_ms, self.max_attempts, self.contract_version)
    }
}

/// Admission accepts exactly the valid targets and returns them unchanged, so
/// re-validating an admitted target is the identity.
pub proof fn lemma_target_admission_is_idempotent(t: ReadinessTarget)
    ensures
        target_admission(t.milestone, t.deadline_ms, t.max_attempts, t.contract_version) is Ok
            <==> target_is_valid(t),
        target_is_valid(t) ==> target_admission(
            t.milestone,
            t.deadline_ms,
            t.max_attempts,
            t.contract_version,
        ) == Ok::<ReadinessTarget, ReadinessWaitError>(t),
{
}

} // verus!
