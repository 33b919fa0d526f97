use harness::provider_policy::{
    owner_error, DurableProviderSessionPolicyCommandPort, ProviderSessionPolicyCommandPort,
    ProviderSessionPolicyOwner, ProviderSessionPolicyOwnerCommand,
    ProviderSessionPolicyOwnerCommandResult, ProviderSessionPolicyOwnerError,
    UnavailableProviderSessionPolicyCommandPort,
};
use harness::provider_policy_projection::{
    view_value, ContinuityMode, ProviderSessionMode, ProviderSessionPolicyMetadata,
    ProviderSessionPolicyOwnerMetadata, ProviderSessionPolicyProposalMetadata,
    SessionPolicyMigrationState,
};
use harness::provider_session_inspection::{
    project_snapshot, BindingState, BrokerBinding, BrokerOperation, BrokerSnapshot,
    HistoryCoverage, NativeOperationState, ProviderSessionBroker,
    ProviderSessionBrokerInspectionPort, ProviderSessionInspectionPort,
};
use harness::{AuthContext, ErrorClass};
use std::cell::Cell;

/// A policy owner whose replies are scripted and whose calls are counted.
struct ScriptedOwner {
    run: String,
    refuse: Option<ProviderSessionPolicyOwnerError>,
    calls: Cell<u32>,
}

impl ScriptedOwner {
    fn reply(&self) -> Result<(), ProviderSessionPolicyOwnerError> {
        self.calls.set(self.calls.get() + 1);
        match self.refuse {
            Some(e) => Err(e),
            None => Ok(()),
        }
    }
}

impl ProviderSessionPolicyOwner for ScriptedOwner {
    fn scope_run_id(&self) -> String {
        self.run.clone()
    }

    fn metadata(&self) -> Result<ProviderSessionPolicyOwnerMetadata, ProviderSessionPolicyOwnerError> {
        self.reply().map(|()| owner_metadata(&self.run))
    }

    fn import_at_revision(
        &self,
        policy_bytes: Vec<u8>,
        _expected_revision: u64,
    ) -> Result<String, ProviderSessionPolicyOwnerError> {
        self.reply().map(|()| format!("sha-{}", policy_bytes.len()))
    }

    fn propose(
        &self,
        proposal_id: &str,
        _source_sha256: &str,
        _target_policy_bytes: Vec<u8>,
        _expected_revision: u64,
    ) -> Result<String, ProviderSessionPolicyOwnerError> {
        self.reply().map(|()| format!("proposal-{proposal_id}"))
    }

    fn approve_at_revision(
        &self,
        _proposal_id: &str,
        _proposal_sha256: &str,
        _approval_ref: &str,
        _expected_revision: u64,
    ) -> Result<(), ProviderSessionPolicyOwnerError> {
        self.reply()
    }

    fn adopt(
        &self,
        _proposal_id: &str,
        _proposal_sha256: &str,
        _approval_ref: &str,
        _expected_revision: u64,
    ) -> Result<(), ProviderSessionPolicyOwnerError> {
        self.reply()
    }

    fn adopt_imported(
        &self,
        _policy_sha256: &str,
        _expected_revision: u64,
    ) -> Result<(), ProviderSessionPolicyOwnerError> {
        self.reply()
    }
}

fn owner(run: &str, refuse: Option<ProviderSessionPolicyOwnerError>) -> ScriptedOwner {
    ScriptedOwner {
        run: run.to_owned(),
        refuse,
        calls: Cell::new(0),
    }
}

fn actor(scopes: &[&str], runs: Option<&[&str]>) -> AuthContext {
    AuthContext {
        actor_id: "test-actor".to_owned(),
        scopes: scopes.iter().map(|s| (*s).to_owned()).collect(),
        runs: runs.map(|r| r.iter().map(|s| (*s).to_owned()).collect()),
    }
}

fn import() -> ProviderSessionPolicyOwnerCommand {
    ProviderSessionPolicyOwnerCommand::Import {
        policy_bytes: b"policy".to_vec(),
        expected_revision: 0,
    }
}

fn adopt() -> ProviderSessionPolicyOwnerCommand {
    ProviderSessionPolicyOwnerCommand::AdoptImported {
        policy_sha256: "a".repeat(64),
        expected_revision: 1,
    }
}

#[test]
fn a_scoped_actor_reaches_the_owner_and_gets_the_command_result() {
    let mut port = DurableProviderSessionPolicyCommandPort::new(owner("run-1", None));
    let full = actor(&["workflow:*"], None);
    assert_eq!(
        port.execute(&full, "run-1", import()).expect("imported"),
        ProviderSessionPolicyOwnerCommandResult::Imported {
            policy_sha256: "sha-6".to_owned()
        }
    );
    assert_eq!(
        port.execute(&full, "run-1", adopt()).expect("adopted"),
        ProviderSessionPolicyOwnerCommandResult::Adopted
    );
    let approve = ProviderSessionPolicyOwnerCommand::Approve {
        proposal_id: "p1".to_owned(),
        proposal_sha256: "b".repeat(64),
        approval_ref: "ticket-1".to_owned(),
        expected_revision: 2,
    };
    assert_eq!(
        port.execute(&full, "run-1", approve).expect("approved"),
        ProviderSessionPolicyOwnerCommandResult::Approved
    );
}

#[test]
fn commands_are_refused_before_the_owner_without_scope() {
    let scripted = owner("run-1", None);
    let mut port = DurableProviderSessionPolicyCommandPort::new(scripted);

    let error = port
        .execute(&actor(&["workflow:read"], None), "run-1", adopt())
        .expect_err("no control scope");
    assert_eq!((error.class, error.code.as_str()), (ErrorClass::Forbidden, "missing_scope"));

    let error = port
        .execute(&actor(&["workflow:control"], Some(&["run-2"])), "run-1", adopt())
        .expect_err("another run");
    assert_eq!(error.code, "run_scope_denied");

    let error = port
        .execute(&actor(&["workflow:control"], None), "run-1", import())
        .expect_err("uploading content needs the content scope");
    assert_eq!(error.code, "missing_scope");

    let error = port
        .execute(&actor(&["workflow:*"], None), "run-9", adopt())
        .expect_err("the owner is scoped to another run");
    assert_eq!(error.code, "provider_session_policy_scope_mismatch");
    assert_eq!(error.class, ErrorClass::Conflict);

    port.execute(&actor(&["workflow:control"], Some(&["run-1"])), "run-1", adopt())
        .expect("control over the owner's run is enough to adopt");
}

#[test]
fn owner_refusals_map_to_stable_errors() {
    let cases = [
        (ProviderSessionPolicyOwnerError::Invalid, ErrorClass::InvalidInput, "provider_session_policy_owner_invalid"),
        (ProviderSessionPolicyOwnerError::Missing, ErrorClass::InvalidInput, "provider_session_policy_owner_missing"),
        (ProviderSessionPolicyOwnerError::Conflict, ErrorClass::Conflict, "provider_session_policy_owner_conflict"),
        (ProviderSessionPolicyOwnerError::NotAdopted, ErrorClass::Capability, "provider_session_policy_not_adopted"),
        (ProviderSessionPolicyOwnerError::Busy, ErrorClass::Unavailable, "provider_session_policy_owner_busy"),
        (ProviderSessionPolicyOwnerError::Store, ErrorClass::Store, "provider_session_policy_owner_store"),
    ];
    for (refusal, class, code) in cases {
        let mapped = owner_error(refusal);
        assert_eq!((mapped.class, mapped.code.as_str()), (class, code));
        let mut port = DurableProviderSessionPolicyCommandPort::new(owner("run-1", Some(refusal)));
        let error = port
            .execute(&actor(&["workflow:*"], None), "run-1", adopt())
            .expect_err("the owner refused");
        assert_eq!(error.code, code);
    }
}

#[test]
fn the_unattached_port_refuses_every_command() {
    let error = UnavailableProviderSessionPolicyCommandPort
        .execute(&actor(&["workflow:*"], None), "run-1", adopt())
        .expect_err("no owner attached");
    assert_eq!(error.code, "provider_session_policy_commands_unavailable");
    assert_eq!(error.class, ErrorClass::Unavailable);
}

struct FixedBroker(BrokerSnapshot);

impl ProviderSessionBroker for FixedBroker {
    fn snapshot(&self) -> BrokerSnapshot {
        self.0.clone()
    }
}

fn snapshot() -> BrokerSnapshot {
    BrokerSnapshot {
        bindings: vec![BrokerBinding {
            binding_id: "binding-1".to_owned(),
            state: BindingState::Active,
            history_coverage: HistoryCoverage::ApplicationManifestVerified,
        }],
        operations: vec![
            BrokerOperation {
                operation_id: "op-1".to_owned(),
                state: NativeOperationState::IntentPersisted,
            },
            BrokerOperation {
                operation_id: "op-2".to_owned(),
                state: NativeOperationState::Quarantined,
            },
        ],
    }
}

#[test]
fn a_snapshot_projects_to_bounded_metadata() {
    let result = project_snapshot("run-1", &snapshot());
    assert_eq!(result.workflow_run_id, "run-1");
    assert_eq!(result.bindings.len(), 1);
    assert_eq!(result.bindings[0].state, "active");
    assert_eq!(result.bindings[0].history_coverage, "application_manifest_verified");
    assert!(!result.bindings[0].game_dispatch_capability);
    assert_eq!(result.operations.len(), 2);
    assert_eq!(result.operations[0].state, "intent_persisted");
    assert_eq!(result.operations[1].state, "quarantined");
    assert!(result.operations.iter().all(|o| o.game_effects == 0 && !o.auto_resume));
    assert!(result.next_cursor.is_none());
}

#[test]
fn inspection_lists_only_explicitly_mapped_runs() {
    let port = ProviderSessionBrokerInspectionPort::new(vec![(
        "run-1".to_owned(),
        FixedBroker(snapshot()),
    )])
    .expect("one portable mapping");
    let reader = actor(&["workflow:read"], None);
    let listed = port.list(&reader, "run-1").expect("mapped run");
    assert_eq!(listed.operations.len(), 2);
    let error = port.list(&reader, "run-2").expect_err("unmapped run");
    assert_eq!(error.code, "provider_session_mapping_unavailable");
    assert_eq!(error.class, ErrorClass::Unavailable);
}

#[test]
fn inspection_mappings_must_be_portable_and_unique() {
    let duplicate = ProviderSessionBrokerInspectionPort::new(vec![
        ("run-1".to_owned(), FixedBroker(snapshot())),
        ("run-1".to_owned(), FixedBroker(snapshot())),
    ]);
    assert_eq!(
        duplicate.err().expect("duplicate").code,
        "provider_session_mapping_duplicate"
    );
    let invalid = ProviderSessionBrokerInspectionPort::new(vec![(
        "not portable".to_owned(),
        FixedBroker(snapshot()),
    )]);
    assert_eq!(invalid.err().expect("invalid").code, "invalid_identifier");
}

fn policy(sha: &str, version: u64) -> ProviderSessionPolicyMetadata {
    ProviderSessionPolicyMetadata {
        sha256: sha.repeat(64),
        policy_id: "policy.live".to_owned(),
        version,
        mode: ProviderSessionMode::Enabled,
        continuity: ContinuityMode::StrictReviewed,
        max_completed_turns: 8,
        history_ttl_seconds: 3600,
        epoch: version,
    }
}

fn owner_metadata(run: &str) -> ProviderSessionPolicyOwnerMetadata {
    ProviderSessionPolicyOwnerMetadata {
        scope_run_id: run.to_owned(),
        revision: 4,
        active: Some(policy("b", 2)),
        policies: vec![policy("a", 1), policy("b", 2)],
        proposals: vec![ProviderSessionPolicyProposalMetadata {
            proposal_id: "p1".to_owned(),
            proposal_sha256: "c".repeat(64),
            source_sha256: "a".repeat(64),
            target_sha256: "b".repeat(64),
            state: SessionPolicyMigrationState::Adopted,
            approval_recorded: true,
            adopted_policy_sha256: Some("b".repeat(64)),
        }],
    }
}

#[test]
fn the_policy_view_marks_exactly_the_active_policy() {
    let view = view_value(&owner_metadata("run-1"), "run-1").expect("the owner's own run");
    assert_eq!(view.run_id, "run-1");
    assert_eq!(view.revision, 4);
    let active = view.active.expect("an active policy");
    assert_eq!(active.sha256, "b".repeat(64));
    assert_eq!(active.mode, "enabled");
    assert_eq!(active.continuity, "strict_reviewed");
    assert_eq!(view.history.len(), 2);
    assert!(!view.history[0].active);
    assert!(view.history[1].active);
    assert_eq!(view.proposals[0].state, "adopted");
    assert_eq!(view.proposals[0].adopted_policy_sha256, Some("b".repeat(64)));

    let mut idle = owner_metadata("run-1");
    idle.active = None;
    let view = view_value(&idle, "run-1").expect("no active policy");
    assert!(view.active.is_none());
    assert!(view.history.iter().all(|h| !h.active));

    let error = view_value(&owner_metadata("run-1"), "run-2").expect_err("another run");
    assert_eq!(error.code, "provider_session_policy_scope_mismatch");
}

#[test]
fn reading_the_policy_view_needs_the_read_scope() {
    let mut port = DurableProviderSessionPolicyCommandPort::new(owner("run-1", None));
    let view = port
        .current(&actor(&["workflow:read"], None), "run-1")
        .expect("a reader of the run");
    assert_eq!(view.history.len(), 2);
    assert_eq!(
        port.current(&actor(&["workflow:control"], None), "run-1").unwrap_err().code,
        "missing_scope"
    );
    assert_eq!(
        port.current(&actor(&["workflow:read"], Some(&["run-2"])), "run-1").unwrap_err().code,
        "run_scope_denied"
    );
    let mut refusing = DurableProviderSessionPolicyCommandPort::new(owner(
        "run-1",
        Some(ProviderSessionPolicyOwnerError::Store),
    ));
    assert_eq!(
        refusing.current(&actor(&["workflow:read"], None), "run-1").unwrap_err().code,
        "provider_session_policy_owner_store"
    );
    assert_eq!(
        UnavailableProviderSessionPolicyCommandPort
            .current(&actor(&["workflow:*"], None), "run-1")
            .unwrap_err()
            .code,
        "provider_session_policy_owner_unavailable"
    );
}
