//! The bounded metadata view of a provider-session policy owner: what a
//! workflow run may read of its owner's active policy, its policy history and
//! its migration proposals. Policy bytes never leave the owner.

use vstd::prelude::*;
use crate::error::{ErrorClass, ManagementError, refusal, text_is};

verus! {

/// How a provider session may be used.
#[derive(Clone, Copy, Debug, PartialEq, Eq, Structural)]
pub enum ProviderSessionMode {
    Disabled,
    FixtureOnly,
    InspectOnly,
    Enabled,
}

/// How a provider session's history continues across turns.
#[derive(Clone, Copy, Debug, PartialEq, Eq, Structural)]
pub enum ContinuityMode {
    StrictReviewed,
    ObservedPersistent,
}

/// Where a policy migration proposal stands.
#[derive(Clone, Copy, Debug, PartialEq, Eq, Structural)]
pub enum SessionPolicyMigrationState {
    Proposed,
    Approved,
    Adopted,
}

/// The stable label of a session mode.
pub open spec fn mode_label(mode: ProviderSessionMode) -> Seq<char> {
    match mode {
        ProviderSessionMode::Disabled => "disabled"@,
        ProviderSessionMode::FixtureOnly => "fixture_only"@,
        ProviderSessionMode::InspectOnly => "inspect_only"@,
        ProviderSessionMode::Enabled => "enabled"@,
    }
}

/// The stable label of a continuity mode.
pub open spec fn continuity_label(mode: ContinuityMode) -> Seq<char> {
    match mode {
        ContinuityMode::StrictReviewed => "strict_reviewed"@,
        ContinuityMode::ObservedPersistent => "observed_persistent"@,
    }
}

/// The stable label of a migration state.
pub open spec fn migration_label(state: SessionPolicyMigrationState) -> Seq<char> {
    match state {
        SessionPolicyMigrationState::Proposed => "proposed"@,
        SessionPolicyMigrationState::Approved => "approved"@,
        SessionPolicyMigrationState::Adopted => "adopted"@,
    }
}

fn mode_name(mode: ProviderSessionMode) -> (r: &'static str)
    ensures
        r@ == mode_label(mode),
{
    match mode {
        ProviderSessionMode::Disabled => "disabled",
        ProviderSessionMode::FixtureOnly => "fixture_only",
        ProviderSessionMode::InspectOnly => "inspect_only",
        ProviderSessionMode::Enabled => "enabled",
    }
}

fn continuity_name(mode: ContinuityMode) -> (r: &'static str)
    ensures
        r@ == continuity_label(mode),
{
    match mode {
        ContinuityMode::StrictReviewed => "strict_reviewed",
        ContinuityMode::ObservedPersistent => "observed_persistent",
    }
}

fn migration_name(state: SessionPolicyMigrationState) -> (r: &'static str)
    ensures
        r@ == migration_label(state),
{
    match state {
        SessionPolicyMigrationState::Proposed => "proposed",
        SessionPolicyMigrationState::Approved => "approved",
        SessionPolicyMigrationState::Adopted => "adopted",
    }
}

/// One policy the owner retains, as the owner reports it.
#[derive(Clone, Debug)]
pub struct ProviderSessionPolicyMetadata {
    pub sha256: String,
    pub policy_id: String,
    pub version: u64,
    pub mode: ProviderSessionMode,
    pub continuity: ContinuityMode,
    pub max_completed_turns: u64,
    pub history_ttl_seconds: u64,
    pub epoch: u64,
}

/// One migration proposal, as the owner reports it.
#[derive(Clone, Debug)]
pub struct ProviderSessionPolicyProposalMetadata {
    pub proposal_id: String,
    pub proposal_sha256: String,
    pub source_sha256: String,
    pub target_sha256: String,
    pub state: SessionPolicyMigrationState,
    pub approval_recorded: bool,
    pub adopted_policy_sha256: Option<String>,
}

/// What the owner reports of itself: the run it is scoped to, its revision,
/// its active policy, every policy it retains and its proposals.
#[derive(Clone, Debug)]
pub struct ProviderSessionPolicyOwnerMetadata {
    pub scope_run_id: String,
    pub revision: u64,
    pub active: Option<ProviderSessionPolicyMetadata>,
    pub policies: Vec<ProviderSessionPolicyMetadata>,
    pub proposals: Vec<ProviderSessionPolicyProposalMetadata>,
}

/// The active policy as a run reads it.
#[derive(Clone, Debug, PartialEq, Eq)]
pub struct ProviderSessionPolicyBindingMetadata {
    pub sha256: String,
    pub policy_id: String,
    pub version: u64,
    pub mode: String,
    pub continuity: String,
    pub max_completed_turns: u64,
    pub history_ttl_seconds: u64,
    pub epoch: u64,
}

/// One retained policy as a run reads it, marked when it is the active one.
#[derive(Clone, Debug, PartialEq, Eq)]
pub struct ProviderSessionPolicyHistoryMetadata {
    pub sha256: String,
    pub policy_id: String,
    pub version: u64,
    pub mode: String,
    pub continuity: String,
    pub active: bool,
}

/// One migration proposal as a run reads it.
#[derive(Clone, Debug, PartialEq, Eq)]
pub struct ProviderSessionPolicyProposalView {
    pub proposal_id: String,
    pub proposal_sha256: String,
    pub source_sha256: String,
    pub target_sha256: String,
    pub state: String,
    pub approval_recorded: bool,
    pub adopted_policy_sha256: Option<String>,
}

/// The bounded policy view of one workflow run.
#[derive(Clone, Debug, PartialEq, Eq)]
pub struct ProviderSessionPolicyViewValue {
    pub run_id: String,
    pub revision: u64,
    pub active: Option<ProviderSessionPolicyBindingMetadata>,
    pub history: Vec<ProviderSessionPolicyHistoryMetadata>,
    pub proposals: Vec<ProviderSessionPolicyProposalView>,
}

/// Whether a binding view shows a retained policy.
pub open spec fn binding_shows(
    b: ProviderSessionPolicyBindingMetadata,
    p: ProviderSessionPolicyMetadata,
) -> bool {
    &&& b.sha256@ == p.sha256@
    &&& b.policy_id@ == p.policy_id@
    &&& b.version == p.version
    &&& b.mode@ == mode_label(p.mode)
    &&& b.continuity@ == continuity_label(p.continuity)
    &&& b.max_completed_turns == p.max_completed_turns
    &&& b.history_ttl_seconds == p.history_ttl_seconds
    &&& b.epoch == p.epoch
}

/// Whether a history entry shows a retained policy, marked active exactly
/// when its digest is the active policy's.
pub open spec fn history_shows(
    h: ProviderSessionPolicyHistoryMetadata,
    p: ProviderSessionPolicyMetadata,
    active_sha256: Option<Seq<char>>,
) -> bool {
    &&& h.sha256@ == p.sha256@
    &&& h.policy_id@ == p.policy_id@
    &&& h.version == p.version
    &&& h.mode@ == mode_label(p.mode)
    &&& h.continuity@ == continuity_label(p.continuity)
    &&& h.active == (active_sha256 == Some(p.sha256@))
}

/// Whether a proposal view shows a reported proposal.
pub open spec fn proposal_shows(
    v: ProviderSessionPolicyProposalView,
    p: ProviderSessionPolicyProposalMetadata,
) -> bool {
    &&& v.proposal_id@ == p.proposal_id@
    &&& v.proposal_sha256@ == p.proposal_sha256@
    &&& v.source_sha256@ == p.source_sha256@
    &&& v.target_sha256@ == p.target_sha256@
    &&& v.state@ == migration_label(p.state)
    &&& v.approval_recorded == p.approval_recorded
    &&& match (v.adopted_policy_sha256, p.adopted_policy_sha256) {
        (Some(a), Some(b)) => a@ == b@,
        (None, None) => true,
        _ => false,
    }
}

/// The digest of the active policy, if any.
pub open spec fn active_digest(m: ProviderSessionPolicyOwnerMetadata) -> Option<Seq<char>> {
    match m.active {
        Some(a) => Some(a.sha256@),
        None => None,
    }
}

/// Whether a view is the bounded projection of an owner's metadata for a run.
pub open spec fn view_projects(
    v: ProviderSessionPolicyViewValue,
    m: ProviderSessionPolicyOwnerMetadata,
    workflow_run_id: Seq<char>,
) -> bool {
    &&& v.run_id@ == workflow_run_id
    &&& v.revision == m.revision
    &&& match (v.active, m.active) {
        (Some(b), Some(p)) => binding_shows(b, p),
        (None, None) => true,
        _ => false,
    }
    &&& v.history@.len() == m.policies@.len()
    &&& forall|i: int|
        0 <= i < v.history@.len() ==> history_shows(
            #[trigger] v.history@[i],
            m.policies@[i],
            active_digest(m),
        )
    &&& v.proposals@.len() == m.proposals@.len()
    &&& forall|i: int|
        0 <= i < v.proposals@.len() ==> proposal_shows(#[trigger] v.proposals@[i], m.proposals@[i])
}

fn binding_metadata(policy: &ProviderSessionPolicyMetadata) -> (r:
    ProviderSessionPolicyBindingMetadata)
    ensures
        binding_shows(r, *policy),
{
    ProviderSessionPolicyBindingMetadata {
        sha256: policy.sha256.clone(),
        policy_id: policy.policy_id.clone(),
        version: policy.version,
        mode: mode_name(policy.mode).to_owned(),
        continuity: continuity_name(policy.continuity).to_owned(),
        max_completed_turns: policy.max_completed_turns,
        history_ttl_seconds: policy.history_ttl_seconds,
        epoch: policy.epoch,
    }
}

fn history_metadata(policy: &ProviderSessionPolicyMetadata, active_sha256: Option<&String>) -> (r:
    ProviderSessionPolicyHistoryMetadata)
    ensures
        history_shows(
            r,
            *policy,
            match active_sha256 {
                Some(a) => Some(a@),
                None => None,
            },
        ),
{
    let active = match active_sha256 {
        Some(a) => *a == policy.sha256,
        None => false,
    };
    ProviderSessionPolicyHistoryMetadata {
        sha256: policy.sha256.clone(),
        policy_id: policy.policy_id.clone(),
        version: policy.version,
        mode: mode_name(policy.mode).to_owned(),
        continuity: continuity_name(policy.continuity).to_owned(),
        active,
    }
}

fn proposal_metadata(proposal: &ProviderSessionPolicyProposalMetadata) -> (r:
    ProviderSessionPolicyProposalView)
    ensures
        proposal_shows(r, *proposal),
{
    let adopted_policy_sha256 = match &proposal.adopted_policy_sha256 {
        Some(a) => Some(a.clone()),
        None => None,
    };
    ProviderSessionPolicyProposalView {
        proposal_id: proposal.proposal_id.clone(),
        proposal_sha256: proposal.proposal_sha256.clone(),
        source_sha256: proposal.source_sha256.clone(),
        target_sha256: proposal.target_sha256.clone(),
        state: migration_name(proposal.state).to_owned(),
        approval_recorded: proposal.approval_recorded,
        adopted_policy_sha256,
    }
}

/// Projects an owner's metadata into the bounded view of one workflow run,
/// refusing an owner scoped to another run.
pub fn view_value(metadata: &ProviderSessionPolicyOwnerMetadata, workflow_run_id: &str) -> (r:
    Result<ProviderSessionPolicyViewValue, ManagementError>)
    ensures
        metadata.scope_run_id@ != workflow_run_id@ ==> (r matches Err(e) && e.refusal()
            == refusal(ErrorClass::Conflict, "provider_session_policy_scope_mismatch")),
        metadata.scope_run_id@ == workflow_run_id@ ==> (r matches Ok(v) && view_projects(
            v,
            *metadata,
            workflow_run_id@,
        )),
{
    if !text_is(&metadata.scope_run_id, workflow_run_id) {
        return Err(
            ManagementError::conflict(
                "provider_session_policy_scope_mismatch",
                "provider-session policy owner is scoped to a different workflow run",
            ),
        );
    }
    let active_sha256: Option<&String> = match &metadata.active {
        Some(a) => Some(&a.sha256),
        None => None,
    };
    let mut history: Vec<ProviderSessionPolicyHistoryMetadata> = Vec::new();
    let mut i: usize = 0;
    while i < metadata.policies.len()
        invariant
            i <= metadata.policies.len(),
            history.len() == i,
            active_sha256 == match metadata.active {
                Some(a) => Some(&a.sha256),
                None => None::<&String>,
            },
            forall|k: int|
                0 <= k < i ==> history_shows(
                    #[trigger] history@[k],
                    metadata.policies@[k],
                    active_digest(*metadata),
                ),
        decreases metadata.policies.len() - i,
    {
        history.push(history_metadata(&metadata.policies[i], active_sha256));
        i = i + 1;
    }
    let mut proposals: Vec<ProviderSessionPolicyProposalView> = Vec::new();
    let mut j: usize = 0;
    while j < metadata.proposals.len()
        invariant
            j <= metadata.proposals.len(),
            proposals.len() == j,
            forall|k: int|
                0 <= k < j ==> proposal_shows(#[trigger] proposals@[k], metadata.proposals@[k]),
        decreases metadata.proposals.len() - j,
    {
        proposals.push(proposal_metadata(&metadata.proposals[j]));
        j = j + 1;
    }
    let active = match &metadata.active {
        Some(a) => Some(binding_metadata(a)),
        None => None,
    };
    Ok(
        ProviderSessionPolicyViewValue {
            run_id: workflow_run_id.to_owned(),
            revision: metadata.revision,
            active,
            history,
            proposals,
        },
    )
}

} // verus!
