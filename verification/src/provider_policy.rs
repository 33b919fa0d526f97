//! Authenticated management attachment for the durable provider-session policy
//! owner. The owner is the only component allowed to retain policy bytes or
//! mutate adoption state; this adapter authorizes each command against the
//! actor and the workflow run and maps the owner's refusals to stable errors.

use vstd::prelude::*;
use crate::auth::{AuthContext, spec_can, spec_can_run};
use crate::error::{ErrorClass, ManagementError, Refusal, refusal, text_is};
use crate::provider_policy_log::{OwnerCall, OwnerLog};
use crate::provider_policy_projection::{
    ProviderSessionPolicyOwnerMetadata, ProviderSessionPolicyViewValue, view_projects, view_value,
};

verus! {

/// Commands accepted by the authenticated, run-scoped policy management API.
#[derive(Clone, Debug, PartialEq, Eq)]
pub enum ProviderSessionPolicyOwnerCommand {
    Import { policy_bytes: Vec<u8>, expected_revision: u64 },
    Propose {
        proposal_id: String,
        source_sha256: String,
        target_policy_bytes: Vec<u8>,
        expected_revision: u64,
    },
    Approve {
        proposal_id: String,
        proposal_sha256: String,
        approval_ref: String,
        expected_revision: u64,
    },
    Adopt {
        proposal_id: String,
        proposal_sha256: String,
        approval_ref: String,
        expected_revision: u64,
    },
    AdoptImported { policy_sha256: String, expected_revision: u64 },
}

/// What an accepted owner command reports.
#[derive(Clone, Debug, PartialEq, Eq)]
pub enum ProviderSessionPolicyOwnerCommandResult {
    Imported { policy_sha256: String },
    Proposed { proposal_sha256: String },
    Approved,
    Adopted,
}

/// Why the policy owner refused an operation.
#[derive(Clone, Copy, Debug, PartialEq, Eq, Structural)]
pub enum ProviderSessionPolicyOwnerError {
    Invalid,
    Missing,
    Conflict,
    NotAdopted,
    Busy,
    Store,
}

/// The stable refusal of each owner error.
pub open spec fn owner_refusal(error: ProviderSessionPolicyOwnerError) -> Refusal {
    match error {
        ProviderSessionPolicyOwnerError::Invalid => refusal(
            ErrorClass::InvalidInput,
            "provider_session_policy_owner_invalid",
        ),
        ProviderSessionPolicyOwnerError::Missing => refusal(
            ErrorClass::InvalidInput,
            "provider_session_policy_owner_missing",
        ),
        ProviderSessionPolicyOwnerError::Conflict => refusal(
            ErrorClass::Conflict,
            "provider_session_policy_owner_conflict",
        ),
        ProviderSessionPolicyOwnerError::NotAdopted => refusal(
            ErrorClass::Capability,
            "provider_session_policy_not_adopted",
        ),
        ProviderSessionPolicyOwnerError::Busy => refusal(
            ErrorClass::Unavailable,
            "provider_session_policy_owner_busy",
        ),
        ProviderSessionPolicyOwnerError::Store => refusal(
            ErrorClass::Store,
            "provider_session_policy_owner_store",
        ),
    }
}

/// Maps an owner refusal to its stable management error.
pub fn owner_error(error: ProviderSessionPolicyOwnerError) -> (e: ManagementError)
    ensures
        e.refusal() == owner_refusal(error),
{
    match error {
        ProviderSessionPolicyOwnerError::Invalid => ManagementError::invalid(
            "provider_session_policy_owner_invalid",
            "provider-session policy owner record is invalid",
        ),
        ProviderSessionPolicyOwnerError::Missing => ManagementError::invalid(
            "provider_session_policy_owner_missing",
            "provider-session policy owner record was not found",
        ),
        ProviderSessionPolicyOwnerError::Conflict => ManagementError::conflict(
            "provider_session_policy_owner_conflict",
            "provider-session policy owner revision or identity conflicts",
        ),
        ProviderSessionPolicyOwnerError::NotAdopted => ManagementError::capability(
            "provider_session_policy_not_adopted",
            "provider-session policy owner has no active adopted policy",
        ),
        ProviderSessionPolicyOwnerError::Busy => ManagementError::unavailable(
            "provider_session_policy_owner_busy",
            "provider-session policy journal already has an authoritative owner",
        ),
        ProviderSessionPolicyOwnerError::Store => ManagementError::store(
            "provider_session_policy_owner_store",
            "provider-session policy owner storage is unavailable",
        ),
    }
}

/// The durable provider-session policy owner of one workflow run.
pub trait ProviderSessionPolicyOwner {
    /// The workflow run the owner is scoped to.
    fn scope_run_id(&self) -> String;

    /// The owner's bounded metadata: its scope, revision, policies and
    /// proposals.
    fn metadata(&self) -> Result<ProviderSessionPolicyOwnerMetadata, ProviderSessionPolicyOwnerError>;

    fn import_at_revision(&self, policy_bytes: Vec<u8>, expected_revision: u64) -> Result<
        String,
        ProviderSessionPolicyOwnerError,
    >;

    fn propose(
        &self,
        proposal_id: &str,
        source_sha256: &str,
        target_policy_bytes: Vec<u8>,
        expected_revision: u64,
    ) -> Result<String, ProviderSessionPolicyOwnerError>;

    fn approve_at_revision(
        &self,
        proposal_id: &str,
        proposal_sha256: &str,
        approval_ref: &str,
        expected_revision: u64,
    ) -> Result<(), ProviderSessionPolicyOwnerError>;

    fn adopt(
        &self,
        proposal_id: &str,
        proposal_sha256: &str,
        approval_ref: &str,
        expected_revision: u64,
    ) -> Result<(), ProviderSessionPolicyOwnerError>;

    fn adopt_imported(&self, policy_sha256: &str, expected_revision: u64) -> Result<
        (),
        ProviderSessionPolicyOwnerError,
    >;
}

/// The refusal of an actor's command against a workflow run, if any: the
/// command's management scope, then the run, then the owner's own scope.
pub open spec fn scope_refusal(
    actor: AuthContext,
    workflow_run_id: Seq<char>,
    owner_run_id: Seq<char>,
    scope: Seq<char>,
) -> Option<Refusal> {
    if !spec_can(actor, scope) {
        Some(refusal(ErrorClass::Forbidden, "missing_scope"))
    } else if !spec_can_run(actor, workflow_run_id) {
        Some(refusal(ErrorClass::Forbidden, "run_scope_denied"))
    } else if owner_run_id != workflow_run_id {
        Some(refusal(ErrorClass::Conflict, "provider_session_policy_scope_mismatch"))
    } else {
        None
    }
}

/// Whether a command uploads policy content.
pub open spec fn uploads_content(command: ProviderSessionPolicyOwnerCommand) -> bool {
    command is Import || command is Propose
}

/// The refusal of an actor's command before the owner is asked, if any.
pub open spec fn command_refusal(
    actor: AuthContext,
    workflow_run_id: Seq<char>,
    owner_run_id: Seq<char>,
    command: ProviderSessionPolicyOwnerCommand,
) -> Option<Refusal> {
    match scope_refusal(actor, workflow_run_id, owner_run_id, "workflow:control"@) {
        Some(r) => Some(r),
        None => if uploads_content(command) && !spec_can(actor, "workflow:content:write"@) {
            Some(refusal(ErrorClass::Forbidden, "missing_scope"))
        } else {
            None
        },
    }
}

/// Whether a result is the kind of result its command reports.
pub open spec fn result_fits(
    command: ProviderSessionPolicyOwnerCommand,
    result: ProviderSessionPolicyOwnerCommandResult,
) -> bool {
    match command {
        ProviderSessionPolicyOwnerCommand::Import { .. } => result is Imported,
        ProviderSessionPolicyOwnerCommand::Propose { .. } => result is Proposed,
        ProviderSessionPolicyOwnerCommand::Approve { .. } => result is Approved,
        _ => result is Adopted,
    }
}

/// What the owner was handed for a command, and what the port reports: each
/// command reaches its own owner operation with the command's own arguments,
/// an accepted one reports its kind (with the digest the owner returned for an
/// import or a proposal), and a refused one is mapped to its stable error.
pub open spec fn command_effect(
    command: ProviderSessionPolicyOwnerCommand,
    call: OwnerCall,
    r: Result<ProviderSessionPolicyOwnerCommandResult, ManagementError>,
) -> bool {
    match (command, call) {
        (
            ProviderSessionPolicyOwnerCommand::Import { policy_bytes, expected_revision },
            OwnerCall::Import(bytes, revision, answer),
        ) => bytes == policy_bytes@ && revision == expected_revision && match answer {
            Ok(sha) => r matches Ok(ProviderSessionPolicyOwnerCommandResult::Imported {
                policy_sha256,
            }) && policy_sha256@ == sha,
            Err(e) => r matches Err(x) && x.refusal() == owner_refusal(e),
        },
        (
            ProviderSessionPolicyOwnerCommand::Propose {
                proposal_id,
                source_sha256,
                target_policy_bytes,
                expected_revision,
            },
            OwnerCall::Propose(id, source, bytes, revision, answer),
        ) => id == proposal_id@ && source == source_sha256@ && bytes == target_policy_bytes@
            && revision == expected_revision && match answer {
            Ok(sha) => r matches Ok(ProviderSessionPolicyOwnerCommandResult::Proposed {
                proposal_sha256,
            }) && proposal_sha256@ == sha,
            Err(e) => r matches Err(x) && x.refusal() == owner_refusal(e),
        },
        (
            ProviderSessionPolicyOwnerCommand::Approve {
                proposal_id,
                proposal_sha256,
                approval_ref,
                expected_revision,
            },
            OwnerCall::Approve(id, sha, reference, revision, answer),
        ) => id == proposal_id@ && sha == proposal_sha256@ && reference == approval_ref@
            && revision == expected_revision && match answer {
            Ok(()) => r == Ok::<ProviderSessionPolicyOwnerCommandResult, ManagementError>(
                ProviderSessionPolicyOwnerCommandResult::Approved,
            ),
            Err(e) => r matches Err(x) && x.refusal() == owner_refusal(e),
        },
        (
            ProviderSessionPolicyOwnerCommand::Adopt {
                proposal_id,
                proposal_sha256,
                approval_ref,
                expected_revision,
            },
            OwnerCall::Adopt(id, sha, reference, revision, answer),
        ) => id == proposal_id@ && sha == proposal_sha256@ && reference == approval_ref@
            && revision == expected_revision && match answer {
            Ok(()) => r == Ok::<ProviderSessionPolicyOwnerCommandResult, ManagementError>(
                ProviderSessionPolicyOwnerCommandResult::Adopted,
            ),
            Err(e) => r matches Err(x) && x.refusal() == owner_refusal(e),
        },
        (
            ProviderSessionPolicyOwnerCommand::AdoptImported { policy_sha256, expected_revision },
            OwnerCall::AdoptImported(sha, revision, answer),
        ) => sha == policy_sha256@ && revision == expected_revision && match answer {
            Ok(()) => r == Ok::<ProviderSessionPolicyOwnerCommandResult, ManagementError>(
                ProviderSessionPolicyOwnerCommandResult::Adopted,
            ),
            Err(e) => r matches Err(x) && x.refusal() == owner_refusal(e),
        },
        _ => false,
    }
}

/// The explicit owner command boundary: every command is authenticated and
/// scoped to the workflow run it names.
pub trait ProviderSessionPolicyCommandPort {
    fn current(&self, actor: &AuthContext, workflow_run_id: &str) -> Result<
        ProviderSessionPolicyViewValue,
        ManagementError,
    >;

    fn execute(
        &mut self,
        actor: &AuthContext,
        workflow_run_id: &str,
        command: ProviderSessionPolicyOwnerCommand,
    ) -> Result<ProviderSessionPolicyOwnerCommandResult, ManagementError>;
}

/// The command port over a durable policy owner. The workflow run the owner
/// is scoped to is read once, when the port is attached.
pub struct DurableProviderSessionPolicyCommandPort<O> {
    owner: O,
    owner_run_id: String,
    commands: OwnerLog,
}

impl<O: ProviderSessionPolicyOwner> DurableProviderSessionPolicyCommandPort<O> {
    pub fn new(owner: O) -> (r: Self)
        ensures
            r.owner() == owner,
            r.commands() == Seq::<OwnerCall>::empty(),
    {
        let owner_run_id = owner.scope_run_id();
        DurableProviderSessionPolicyCommandPort { owner, owner_run_id, commands: OwnerLog::new() }
    }

    /// The commands handed to the owner, in order, with its answers.
    pub closed spec fn commands(&self) -> Seq<OwnerCall> {
        self.commands@
    }

    /// The owner this port commands.
    pub closed spec fn owner(&self) -> O {
        self.owner
    }

    /// The workflow run the owner reported it is scoped to when attached.
    pub closed spec fn owner_scope(&self) -> Seq<char> {
        self.owner_run_id@
    }

    /// Authorizes an actor's access to a run for a scope; see
    /// [`scope_refusal`].
    fn authorize_scope(&self, actor: &AuthContext, workflow_run_id: &str, scope: &str) -> (r:
        Result<(), ManagementError>)
        ensures
            match scope_refusal(*actor, workflow_run_id@, self.owner_scope(), scope@) {
                Some(f) => r matches Err(e) && e.refusal() == f,
                None => r is Ok,
            },
    {
        if !actor.can(scope) {
            return Err(
                ManagementError::forbidden(
                    "missing_scope",
                    "authenticated actor lacks the required management scope",
                ),
            );
        }
        if !actor.can_run(workflow_run_id) {
            return Err(
                ManagementError::forbidden(
                    "run_scope_denied",
                    "authenticated actor is not authorized for this workflow run",
                ),
            );
        }
        if !text_is(&self.owner_run_id, workflow_run_id) {
            return Err(
                ManagementError::conflict(
                    "provider_session_policy_scope_mismatch",
                    "provider-session policy owner is scoped to a different workflow run",
                ),
            );
        }
        Ok(())
    }
}

impl<O: ProviderSessionPolicyOwner> ProviderSessionPolicyCommandPort for
    DurableProviderSessionPolicyCommandPort<O> {
    /// The run's bounded view of the owner's policies, for an actor that may
    /// read the run; the owner's metadata is projected only when the owner is
    /// scoped to that run.
    fn current(&self, actor: &AuthContext, workflow_run_id: &str) -> (r: Result<
        ProviderSessionPolicyViewValue,
        ManagementError,
    >)
        ensures
            !spec_can(*actor, "workflow:read"@) ==> (r matches Err(e) && e.refusal() == refusal(
                ErrorClass::Forbidden,
                "missing_scope",
            )),
            spec_can(*actor, "workflow:read"@) && !spec_can_run(*actor, workflow_run_id@) ==> (
            r matches Err(e) && e.refusal() == refusal(ErrorClass::Forbidden, "run_scope_denied")),
            r matches Ok(v) ==> spec_can(*actor, "workflow:read"@) && spec_can_run(
                *actor,
                workflow_run_id@,
            ) && v.run_id@ == workflow_run_id@ && exists|m: ProviderSessionPolicyOwnerMetadata|
                #[trigger] view_projects(v, m, workflow_run_id@),
            match scope_refusal(*actor, workflow_run_id@, self.owner_scope(), "workflow:read"@) {
                Some(f) => r matches Err(e) && e.refusal() == f,
                None => r matches Err(e) ==> e.refusal() == refusal(
                    ErrorClass::Conflict,
                    "provider_session_policy_scope_mismatch",
                ) || exists|o: ProviderSessionPolicyOwnerError| e.refusal() == #[trigger] owner_refusal(
                    o,
                ),
            },
    {
        proof {
            reveal_strlit("workflow:read");
        }
        let authorized = self.authorize_scope(actor, workflow_run_id, "workflow:read");
        match authorized {
            Err(e) => return Err(e),
            Ok(()) => {},
        }
        let metadata = match self.owner.metadata() {
            Ok(m) => m,
            Err(e) => return Err(owner_error(e)),
        };
        let viewed = view_value(&metadata, workflow_run_id);
        proof {
            if viewed is Ok {
                assert(view_projects(viewed->Ok_0, metadata, workflow_run_id@));
            }
        }
        viewed
    }

    /// Executes one owner command after authorizing it. What the owner reports
    /// is its own; the port only refuses before asking, maps a refusal, and
    /// reports the result kind of the command.
    fn execute(
        &mut self,
        actor: &AuthContext,
        workflow_run_id: &str,
        command: ProviderSessionPolicyOwnerCommand,
    ) -> (r: Result<ProviderSessionPolicyOwnerCommandResult, ManagementError>)
        ensures
            !spec_can(*actor, "workflow:control"@) ==> (r matches Err(e) && e.refusal()
                == refusal(ErrorClass::Forbidden, "missing_scope")),
            spec_can(*actor, "workflow:control"@) && !spec_can_run(*actor, workflow_run_id@) ==> (
            r matches Err(e) && e.refusal() == refusal(ErrorClass::Forbidden, "run_scope_denied")),
            uploads_content(command) && !spec_can(*actor, "workflow:content:write"@) ==> r is Err,
            r matches Ok(x) ==> result_fits(command, x) && spec_can(*actor, "workflow:control"@)
                && spec_can_run(*actor, workflow_run_id@),
            final(self).owner_scope() == old(self).owner_scope(),
            match command_refusal(*actor, workflow_run_id@, old(self).owner_scope(), command) {
                Some(f) => (r matches Err(e) && e.refusal() == f) && final(self).commands() == old(
                    self,
                ).commands(),
                None => final(self).commands().len() == old(self).commands().len() + 1
                    && final(self).commands().drop_last() == old(self).commands() && command_effect(
                    command,
                    final(self).commands().last(),
                    r,
                ),
            },
    {
        proof {
            reveal_strlit("workflow:control");
        }
        let authorized = self.authorize_scope(actor, workflow_run_id, "workflow:control");
        match authorized {
            Err(e) => return Err(e),
            Ok(()) => {},
        }
        let uploads = match &command {
            ProviderSessionPolicyOwnerCommand::Import { .. }
            | ProviderSessionPolicyOwnerCommand::Propose { .. } => true,
            _ => false,
        };
        if uploads && !actor.can("workflow:content:write") {
            return Err(
                ManagementError::forbidden(
                    "missing_scope",
                    "authenticated actor lacks the required policy-content upload scope",
                ),
            );
        }
        match command {
            ProviderSessionPolicyOwnerCommand::Import { policy_bytes, expected_revision } => {
                match self.commands.import_at_revision(&self.owner, policy_bytes, expected_revision) {
                    Ok(policy_sha256) => Ok(
                        ProviderSessionPolicyOwnerCommandResult::Imported { policy_sha256 },
                    ),
                    Err(e) => Err(owner_error(e)),
                }
            },
            ProviderSessionPolicyOwnerCommand::Propose {
                proposal_id,
                source_sha256,
                target_policy_bytes,
                expected_revision,
            } => {
                match self.commands.propose(
                    &self.owner,
                    proposal_id.as_str(),
                    source_sha256.as_str(),
                    target_policy_bytes,
                    expected_revision,
                ) {
                    Ok(proposal_sha256) => Ok(
                        ProviderSessionPolicyOwnerCommandResult::Proposed { proposal_sha256 },
                    ),
                    Err(e) => Err(owner_error(e)),
                }
            },
            ProviderSessionPolicyOwnerCommand::Approve {
                proposal_id,
                proposal_sha256,
                approval_ref,
                expected_revision,
            } => {
                match self.commands.approve_at_revision(
                    &self.owner,
                    proposal_id.as_str(),
                    proposal_sha256.as_str(),
                    approval_ref.as_str(),
                    expected_revision,
                ) {
                    Ok(()) => Ok(ProviderSessionPolicyOwnerCommandResult::Approved),
                    Err(e) => Err(owner_error(e)),
                }
            },
            ProviderSessionPolicyOwnerCommand::Adopt {
                proposal_id,
                proposal_sha256,
                approval_ref,
                expected_revision,
            } => {
                match self.commands.adopt(
                    &self.owner,
                    proposal_id.as_str(),
                    proposal_sha256.as_str(),
                    approval_ref.as_str(),
                    expected_revision,
                ) {
                    Ok(()) => Ok(ProviderSessionPolicyOwnerCommandResult::Adopted),
                    Err(e) => Err(owner_error(e)),
                }
            },
            ProviderSessionPolicyOwnerCommand::AdoptImported { policy_sha256, expected_revision } => {
                match self.commands.adopt_imported(&self.owner, policy_sha256.as_str(), expected_revision) {
                    Ok(()) => Ok(ProviderSessionPolicyOwnerCommandResult::Adopted),
                    Err(e) => Err(owner_error(e)),
                }
            },
        }
    }
}

/// The command port used when no policy owner is attached: it refuses every
/// command.
pub struct UnavailableProviderSessionPolicyCommandPort;

impl ProviderSessionPolicyCommandPort for UnavailableProviderSessionPolicyCommandPort {
    fn current(&self, actor: &AuthContext, workflow_run_id: &str) -> (r: Result<
        ProviderSessionPolicyViewValue,
        ManagementError,
    >)
        ensures
            r matches Err(e) && e.refusal() == refusal(
                ErrorClass::Unavailable,
                "provider_session_policy_owner_unavailable",
            ),
    {
        Err(
            ManagementError::unavailable(
                "provider_session_policy_owner_unavailable",
                "durable provider-session policy owner is not attached",
            ),
        )
    }

    fn execute(
        &mut self,
        actor: &AuthContext,
        workflow_run_id: &str,
        command: ProviderSessionPolicyOwnerCommand,
    ) -> (r: Result<ProviderSessionPolicyOwnerCommandResult, ManagementError>)
        ensures
            r matches Err(e) && e.refusal() == refusal(
                ErrorClass::Unavailable,
                "provider_session_policy_commands_unavailable",
            ),
    {
        Err(
            ManagementError::unavailable(
                "provider_session_policy_commands_unavailable",
                "provider-session policy mutation commands are not attached",
            ),
        )
    }
}

} // verus!
