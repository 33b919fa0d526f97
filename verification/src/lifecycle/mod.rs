//! Typed process-lifecycle execution port for the served-live composition.
//!
//! A submission names only an opaque approved launch profile id, a stop mode,
//! or the exact process identity a caller previously received; the target
//! instance comes from the run's admitted binding; and a launch is not
//! readiness.

use vstd::prelude::*;
use crate::auth::AuthContext;
use crate::error::{ErrorClass, ManagementError, Refusal, refusal};
use crate::identity::{is_identifier, validate_identifier};

mod action;
mod view;

pub use action::{LaunchProfileId, LifecycleAction, LifecycleProcessIdentity, StopMode};
pub use action::{action_refusal, spec_action_kind};
pub use view::{clone_failure, failure_view, FailureView};
pub use view::{
    LifecycleFailure, LifecycleOperationState, LifecycleOperationView, LifecycleState,
    ProcessLifecycleCapability,
};

verus! {

/// Versioned contract this port speaks.
pub const PROCESS_LIFECYCLE_CONTRACT: &'static str = "sts2-gateway-process-lifecycle-v1";

/// Schema of the harness-owned lifecycle command envelope.
pub const PROCESS_LIFECYCLE_COMMAND_SCHEMA_VERSION: &'static str = "ascension.process-lifecycle-command/v1";

/// Schema of the harness-owned lifecycle operation status projection.
pub const PROCESS_LIFECYCLE_STATUS_SCHEMA_VERSION: &'static str = "ascension.process-lifecycle-status/v1";

/// Largest accepted lifecycle command body.
pub const MAX_LIFECYCLE_COMMAND_BYTES: usize = 8192;

/// Longest accepted lifecycle command id.
pub const MAX_LIFECYCLE_COMMAND_ID_BYTES: usize = 128;

/// Largest accepted approved-profile catalog.
pub const MAX_APPROVED_PROFILES: usize = 64;

/// The instance identity one lifecycle command targets, resolved from the
/// run's admitted target binding.
#[derive(Clone, Debug)]
pub struct LifecycleTarget {
    pub instance_id: String,
}

impl LifecycleTarget {
    /// Builds a target from an admitted instance identity.
    pub fn new(instance_id: String) -> (r: Result<Self, ManagementError>)
        ensures
            r is Ok <==> is_identifier(instance_id@),
            r matches Ok(t) ==> t.instance_id@ == instance_id@,
            r matches Err(e) ==> e.refusal() == refusal(ErrorClass::InvalidInput, "invalid_identifier"),
    {
        validate_identifier("instance_id", instance_id.as_str())?;
        Ok(LifecycleTarget { instance_id })
    }
}

/// The gateway-owned lifecycle surface. Implementations own the transport and
/// the gateway credential; nothing here lets a caller supply a command, a path
/// or a URL.
pub trait ProcessLifecyclePort {
    /// Reads the advertised contract, approved profiles, and authority epoch.
    fn capability(&self, actor: &AuthContext, target: &LifecycleTarget) -> Result<
        ProcessLifecycleCapability,
        ManagementError,
    >;

    /// Submits exactly one action under one operation identity.
    fn submit(
        &self,
        actor: &AuthContext,
        target: &LifecycleTarget,
        command: &LifecycleCommand,
        action: &LifecycleAction,
    ) -> Result<LifecycleOperationView, ManagementError>;

    /// Reconciles a retained operation by its identity.
    fn lookup(&self, actor: &AuthContext, target: &LifecycleTarget, operation_id: u64) -> Result<
        LifecycleOperationView,
        ManagementError,
    >;
}

/// A caller-supplied lifecycle command envelope.
#[derive(Clone, Debug)]
pub struct LifecycleCommand {
    pub schema_version: String,
    pub command_id: String,
    pub run_id: String,
    pub expected_revision: u64,
    pub actor_scope: String,
    pub operation_id: u64,
    pub authority_epoch: u64,
    pub action: LifecycleAction,
}

/// Result of one accepted or reconciled lifecycle command.
#[derive(Clone, Debug)]
pub struct LifecycleCommandResponse {
    pub schema_version: String,
    pub command_id: String,
    pub workflow_run_id: String,
    pub operation_id: u64,
    pub instance_id: String,
    pub run_revision: u64,
    pub classification: LifecycleClassification,
    pub operation_state: LifecycleOperationState,
    pub state: LifecycleState,
    pub authority_epoch: u64,
    pub reason_code: String,
    /// Whether an authoritative gameplay-readiness claim exists. Always `false`
    /// here: this surface reports process lifecycle only.
    pub gameplay_ready: bool,
    pub failure: Option<LifecycleFailure>,
}

/// Durable classification of one lifecycle command.
#[derive(Clone, Copy, Debug, PartialEq, Eq, Structural)]
pub enum LifecycleClassification {
    /// The gateway accepted the operation and reported a durable outcome.
    Accepted,
    /// The gateway may have applied the operation; reconcile by identity.
    Unknown,
    /// The gateway refused the operation before any effect.
    Rejected,
    /// A stop settled; later starts are fenced by stop dominance.
    Stopped,
}

impl LifecycleClassification {
    /// Stable label recorded in the durable journal and run events.
    pub fn as_str(self) -> (r: &'static str)
        ensures
            self == LifecycleClassification::Accepted ==> r@ == "accepted"@,
            self == LifecycleClassification::Unknown ==> r@ == "unknown"@,
            self == LifecycleClassification::Rejected ==> r@ == "rejected"@,
            self == LifecycleClassification::Stopped ==> r@ == "stopped"@,
    {
        match self {
            LifecycleClassification::Accepted => "accepted",
            LifecycleClassification::Unknown => "unknown",
            LifecycleClassification::Rejected => "rejected",
            LifecycleClassification::Stopped => "stopped",
        }
    }
}

/// Composed port used when no lifecycle owner is attached: it refuses everything.
pub struct UnavailableProcessLifecyclePort;

fn unavailable() -> (e: ManagementError)
    ensures
        e.refusal() == refusal(ErrorClass::Unavailable, "process_lifecycle_owner_unavailable"),
{
    ManagementError::unavailable(
        "process_lifecycle_owner_unavailable",
        "no gateway process-lifecycle owner is attached to this composition",
    )
}

impl ProcessLifecyclePort for UnavailableProcessLifecyclePort {
    fn capability(&self, actor: &AuthContext, target: &LifecycleTarget) -> (r: Result<
        ProcessLifecycleCapability,
        ManagementError,
    >)
        ensures
            r matches Err(e) && e.refusal() == refusal(
                ErrorClass::Unavailable,
                "process_lifecycle_owner_unavailable",
            ),
    {
        Err(unavailable())
    }

    fn submit(
        &self,
        actor: &AuthContext,
        target: &LifecycleTarget,
        command: &LifecycleCommand,
        action: &LifecycleAction,
    ) -> (r: Result<LifecycleOperationView, ManagementError>)
        ensures
            r matches Err(e) && e.refusal() == refusal(
                ErrorClass::Unavailable,
                "process_lifecycle_owner_unavailable",
            ),
    {
        Err(unavailable())
    }

    fn lookup(&self, actor: &AuthContext, target: &LifecycleTarget, operation_id: u64) -> (r: Result<
        LifecycleOperationView,
        ManagementError,
    >)
        ensures
            r matches Err(e) && e.refusal() == refusal(
                ErrorClass::Unavailable,
                "process_lifecycle_owner_unavailable",
            ),
    {
        Err(unavailable())
    }
}

/// The first refusal of a command envelope for an expected instance, if any.
pub open spec fn command_refusal(c: LifecycleCommand, expected_instance: Seq<char>) -> Option<Refusal> {
    if c.schema_version@ != PROCESS_LIFECYCLE_COMMAND_SCHEMA_VERSION@ {
        Some(refusal(ErrorClass::InvalidInput, "lifecycle_command_schema"))
    } else if !is_identifier(c.command_id@) || !is_identifier(c.run_id@) || !is_identifier(
        c.actor_scope@,
    ) {
        Some(refusal(ErrorClass::InvalidInput, "invalid_identifier"))
    } else if c.command_id@.len() > MAX_LIFECYCLE_COMMAND_ID_BYTES {
        Some(refusal(ErrorClass::InvalidInput, "lifecycle_command_id_oversized"))
    } else if c.operation_id == 0 || c.authority_epoch == 0 {
        Some(refusal(ErrorClass::InvalidInput, "lifecycle_operation_identity_invalid"))
    } else {
        action_refusal(c.action, expected_instance)
    }
}

/// Validates the closed command envelope before any gateway call.
pub fn validate_lifecycle_command(command: &LifecycleCommand, expected_instance: &str) -> (r: Result<
    (),
    ManagementError,
>)
    ensures
        match command_refusal(*command, expected_instance@) {
            Some(f) => r matches Err(e) && e.refusal() == f,
            None => r is Ok,
        },
{
    if !(command.schema_version == PROCESS_LIFECYCLE_COMMAND_SCHEMA_VERSION.to_owned()) {
        return Err(
            ManagementError::invalid(
                "lifecycle_command_schema",
                "lifecycle command schema version is unsupported",
            ),
        );
    }
    validate_identifier("command_id", command.command_id.as_str())?;
    validate_identifier("run_id", command.run_id.as_str())?;
    validate_identifier("actor_scope", command.actor_scope.as_str())?;
    if command.command_id.as_str().unicode_len() > MAX_LIFECYCLE_COMMAND_ID_BYTES {
        return Err(
            ManagementError::invalid(
                "lifecycle_command_id_oversized",
                "lifecycle command id exceeds its bound",
            ),
        );
    }
    if command.operation_id == 0 || command.authority_epoch == 0 {
        return Err(
            ManagementError::invalid(
                "lifecycle_operation_identity_invalid",
                "operation id and authority epoch must both be non-zero",
            ),
        );
    }
    command.action.validate(expected_instance)
}

} // verus!
