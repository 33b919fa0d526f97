//! The closed lifecycle action vocabulary. No action carries a command, a path,
//! a URL, an environment or an adoption input.

use vstd::prelude::*;
use crate::error::{ErrorClass, ManagementError, Refusal, refusal};
use crate::identity::{is_identifier, validate_identifier};

verus! {

/// One opaque approved launch-profile identity; zero is reserved.
#[derive(Clone, Copy, Debug, PartialEq, Eq, Structural)]
pub struct LaunchProfileId(u64);

impl LaunchProfileId {
    pub closed spec fn spec_value(self) -> u64 {
        self.0
    }

    /// Builds a profile identity, rejecting the reserved zero value.
    pub fn new(value: u64) -> (r: Result<Self, ManagementError>)
        ensures
            r is Ok <==> value != 0,
            r matches Ok(id) ==> id.spec_value() == value,
            r matches Err(e) ==> e.refusal() == refusal(
                ErrorClass::InvalidInput,
                "lifecycle_profile_id_invalid",
            ),
    {
        if value == 0 {
            return Err(
                ManagementError::invalid(
                    "lifecycle_profile_id_invalid",
                    "approved launch profile id must be non-zero",
                ),
            );
        }
        Ok(LaunchProfileId(value))
    }

    /// Returns the opaque numeric identity.
    pub fn value(self) -> (r: u64)
        ensures
            r == self.spec_value(),
    {
        self.0
    }
}

/// Stop semantics. Closed: no signal number or command reaches the gateway.
#[derive(Clone, Copy, Debug, PartialEq, Eq, Structural)]
pub enum StopMode {
    /// Ask the process to exit.
    Graceful,
    /// Terminate without asking.
    Force,
}

impl StopMode {
    /// Returns the exact wire label.
    pub fn as_str(self) -> (r: &'static str)
        ensures
            self == StopMode::Graceful ==> r@ == "graceful"@,
            self == StopMode::Force ==> r@ == "force"@,
    {
        match self {
            StopMode::Graceful => "graceful",
            StopMode::Force => "force",
        }
    }
}

/// The exact process identity a caller echoes back for `attach_existing`.
#[derive(Clone, Debug)]
pub struct LifecycleProcessIdentity {
    pub instance_id: String,
    pub process: u64,
    pub pid: u64,
    pub birth_id: u64,
    pub install_id: u64,
    pub executable_id: u64,
    pub image_id: u64,
    pub namespace_id: u64,
}

/// The refusal of an attach identity for an expected instance, if any.
pub open spec fn identity_refusal(identity: LifecycleProcessIdentity, expected_instance: Seq<char>) -> Option<
    Refusal,
> {
    if !is_identifier(identity.instance_id@) {
        Some(refusal(ErrorClass::InvalidInput, "invalid_identifier"))
    } else if identity.instance_id@ != expected_instance {
        Some(refusal(ErrorClass::Forbidden, "lifecycle_instance_mismatch"))
    } else if identity.process == 0 || identity.pid == 0 || identity.birth_id == 0
        || identity.namespace_id == 0 {
        Some(refusal(ErrorClass::InvalidInput, "lifecycle_process_identity_invalid"))
    } else {
        None
    }
}

impl LifecycleProcessIdentity {
    fn validate(&self, expected_instance: &str) -> (r: Result<(), ManagementError>)
        ensures
            match identity_refusal(*self, expected_instance@) {
                Some(f) => r matches Err(e) && e.refusal() == f,
                None => r is Ok,
            },
    {
        validate_identifier("instance_id", self.instance_id.as_str())?;
        if !(self.instance_id == expected_instance.to_owned()) {
            return Err(
                ManagementError::forbidden(
                    "lifecycle_instance_mismatch",
                    "attach identity belongs to a different instance",
                ),
            );
        }
        if self.process == 0 || self.pid == 0 || self.birth_id == 0 || self.namespace_id == 0 {
            return Err(
                ManagementError::invalid(
                    "lifecycle_process_identity_invalid",
                    "attach identity is incomplete",
                ),
            );
        }
        Ok(())
    }
}

/// The one closed action a lifecycle command may carry.
#[derive(Clone, Debug)]
pub enum LifecycleAction {
    /// Start a new process from an approved profile.
    LaunchNew { profile_id: LaunchProfileId },
    /// Restart the instance from an approved profile.
    Restart { profile_id: LaunchProfileId },
    /// Stop the instance.
    Stop { mode: StopMode },
    /// Re-attach the exact identity a previous operation reported.
    AttachExisting { identity: LifecycleProcessIdentity },
}

/// The stable reason code of an action.
pub open spec fn spec_action_kind(a: LifecycleAction) -> Seq<char> {
    match a {
        LifecycleAction::LaunchNew { .. } => "launch_new"@,
        LifecycleAction::Restart { .. } => "restart"@,
        LifecycleAction::Stop { .. } => "stop"@,
        LifecycleAction::AttachExisting { .. } => "attach_existing"@,
    }
}

/// The refusal of an action for an expected instance, if any.
pub open spec fn action_refusal(a: LifecycleAction, expected_instance: Seq<char>) -> Option<Refusal> {
    match a {
        LifecycleAction::AttachExisting { identity } => identity_refusal(identity, expected_instance),
        _ => None,
    }
}

impl LifecycleAction {
    /// Stable reason code recorded in durable intent and run events.
    pub fn kind(&self) -> (r: &'static str)
        ensures
            r@ == spec_action_kind(*self),
    {
        match self {
            LifecycleAction::LaunchNew { .. } => "launch_new",
            LifecycleAction::Restart { .. } => "restart",
            LifecycleAction::Stop { .. } => "stop",
            LifecycleAction::AttachExisting { .. } => "attach_existing",
        }
    }

    /// True when the action can change which process is serving the instance.
    pub fn is_effect_bearing(&self) -> (r: bool)
        ensures
            r == (*self is LaunchNew || *self is Restart),
    {
        match self {
            LifecycleAction::LaunchNew { .. } | LifecycleAction::Restart { .. } => true,
            _ => false,
        }
    }

    pub(crate) fn validate(&self, instance_id: &str) -> (r: Result<(), ManagementError>)
        ensures
            match action_refusal(*self, instance_id@) {
                Some(f) => r matches Err(e) && e.refusal() == f,
                None => r is Ok,
            },
    {
        match self {
            LifecycleAction::AttachExisting { identity } => identity.validate(instance_id),
            _ => Ok(()),
        }
    }
}

} // verus!
