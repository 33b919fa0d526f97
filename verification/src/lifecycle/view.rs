//! Typed projections of the gateway's lifecycle answers. Each projection
//! revalidates its own scope, so a foreign or stale answer is refused rather
//! than reconciled.

use vstd::prelude::*;
use crate::error::{ErrorClass, ManagementError, Refusal, refusal};
use super::{LaunchProfileId, LifecycleProcessIdentity, MAX_APPROVED_PROFILES, PROCESS_LIFECYCLE_CONTRACT};

verus! {

/// Gateway-reported lifecycle state of the instance.
#[derive(Clone, Copy, Debug, PartialEq, Eq, Structural)]
pub enum LifecycleState {
    Created,
    Starting,
    Ready,
    Busy,
    Degraded,
    Stopping,
    Stopped,
    Failed,
    Unknown,
    Expired,
}

/// Gateway-reported state of the submitted operation itself.
#[derive(Clone, Copy, Debug, PartialEq, Eq, Structural)]
pub enum LifecycleOperationState {
    IntentRecorded,
    Starting,
    Started,
    Attached,
    Stopping,
    Restarting,
    Stopped,
    Failed,
    Blocked,
    Rejected,
    Unknown,
}

/// Typed failure the gateway attached to a retained operation: a label, never
/// a host path, process argument or private payload.
#[derive(Debug, PartialEq, Eq)]
pub struct LifecycleFailure {
    pub code: String,
    pub detail: Option<String>,
}

/// A typed failure as text.
pub struct FailureView {
    pub code: Seq<char>,
    pub detail: Option<Seq<char>>,
}

impl View for LifecycleFailure {
    type V = FailureView;

    open spec fn view(&self) -> FailureView {
        FailureView {
            code: self.code@,
            detail: match self.detail {
                Some(d) => Some(d@),
                None => None,
            },
        }
    }
}

/// An optional typed failure as text.
pub open spec fn failure_view(f: Option<LifecycleFailure>) -> Option<FailureView> {
    match f {
        Some(x) => Some(x@),
        None => None,
    }
}

impl Clone for LifecycleFailure {
    fn clone(&self) -> (r: Self)
        ensures
            r@ == self@,
    {
        let detail = match &self.detail {
            Some(d) => Some(d.clone()),
            None => None,
        };
        LifecycleFailure { code: self.code.clone(), detail }
    }
}

/// Copies an optional typed failure.
pub fn clone_failure(f: &Option<LifecycleFailure>) -> (r: Option<LifecycleFailure>)
    ensures
        failure_view(r) == failure_view(*f),
{
    match f {
        Some(x) => Some(x.clone()),
        None => None,
    }
}

/// One authoritative lifecycle answer, keyed by its operation identity.
#[derive(Clone, Debug)]
pub struct LifecycleOperationView {
    pub contract: String,
    pub operation_id: u64,
    pub instance_id: String,
    pub state: LifecycleState,
    pub operation_state: LifecycleOperationState,
    pub process: Option<LifecycleProcessIdentity>,
    pub authority_epoch: u64,
    pub failure: Option<LifecycleFailure>,
}

/// Whether an answer is bound to the submitted operation and instance.
pub open spec fn answer_in_scope(
    v: LifecycleOperationView,
    expected_operation: u64,
    expected_instance: Seq<char>,
) -> bool {
    v.contract@ == PROCESS_LIFECYCLE_CONTRACT@ && v.operation_id == expected_operation
        && v.instance_id@ == expected_instance && v.authority_epoch != 0
}

impl LifecycleOperationView {
    /// Validates the answer against the request that produced it: a mismatched
    /// operation, instance or contract, or a zero epoch, is refused.
    pub fn validate(&self, expected_operation: u64, expected_instance: &str) -> (r: Result<
        (),
        ManagementError,
    >)
        ensures
            r is Ok <==> answer_in_scope(*self, expected_operation, expected_instance@),
            r matches Err(e) ==> e.refusal() == refusal(
                ErrorClass::Conflict,
                "lifecycle_response_scope_mismatch",
            ),
    {
        if !(self.contract == PROCESS_LIFECYCLE_CONTRACT.to_owned()) || self.operation_id
            != expected_operation || !(self.instance_id == expected_instance.to_owned())
            || self.authority_epoch == 0 {
            return Err(
                ManagementError::conflict(
                    "lifecycle_response_scope_mismatch",
                    "lifecycle answer is not bound to the submitted operation",
                ),
            );
        }
        Ok(())
    }
}

/// Advertised lifecycle capability of the deployment.
#[derive(Clone, Debug)]
pub struct ProcessLifecycleCapability {
    pub contract: String,
    /// Whether effects are possible. `false` means every submission is refused.
    pub available: bool,
    pub profiles: Vec<LaunchProfileId>,
    /// Current authority epoch, or `None` when the gateway has no epoch yet.
    pub authority_epoch: Option<u64>,
    pub instance_id: String,
    pub unavailable_reason: Option<String>,
}

/// The refusal of a capability answer for an admitted instance, if any.
pub open spec fn capability_refusal(c: ProcessLifecycleCapability, expected_instance: Seq<char>) -> Option<
    Refusal,
> {
    if c.contract@ != PROCESS_LIFECYCLE_CONTRACT@ || c.instance_id@ != expected_instance {
        Some(refusal(ErrorClass::Conflict, "lifecycle_capability_scope_mismatch"))
    } else if c.profiles@.len() > MAX_APPROVED_PROFILES {
        Some(refusal(ErrorClass::Unavailable, "lifecycle_capability_unbounded"))
    } else {
        None
    }
}

impl ProcessLifecycleCapability {
    /// Validates the advertised capability against the admitted instance: a
    /// foreign contract or instance, or an unbounded profile catalog, is refused.
    pub fn validate(&self, expected_instance: &str) -> (r: Result<(), ManagementError>)
        ensures
            match capability_refusal(*self, expected_instance@) {
                Some(f) => r matches Err(e) && e.refusal() == f,
                None => r is Ok,
            },
    {
        if !(self.contract == PROCESS_LIFECYCLE_CONTRACT.to_owned()) || !(self.instance_id
            == expected_instance.to_owned()) {
            return Err(
                ManagementError::conflict(
                    "lifecycle_capability_scope_mismatch",
                    "lifecycle capability is not bound to the admitted instance",
                ),
            );
        }
        if self.profiles.len() > MAX_APPROVED_PROFILES {
            return Err(
                ManagementError::unavailable(
                    "lifecycle_capability_unbounded",
                    "lifecycle capability advertises more profiles than the harness accepts",
                ),
            );
        }
        Ok(())
    }
}

} // verus!
