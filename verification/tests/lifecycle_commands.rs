use harness::lifecycle::{
    validate_lifecycle_command, LaunchProfileId, LifecycleAction, LifecycleClassification,
    LifecycleCommand, LifecycleOperationState, LifecycleOperationView, ProcessLifecyclePort,
    LifecycleProcessIdentity, LifecycleState, LifecycleTarget, ProcessLifecycleCapability,
    StopMode, UnavailableProcessLifecyclePort, MAX_APPROVED_PROFILES,
    PROCESS_LIFECYCLE_COMMAND_SCHEMA_VERSION, PROCESS_LIFECYCLE_CONTRACT,
};
use harness::operation_journal::{
    JournalDecision, JournalError, JournalKey, JournalOutcome, OperationJournal,
};
use harness::{
    validate_digest, validate_identifier, AuthContext, ErrorClass, ManagementError, StoreError,
};

fn command(action: LifecycleAction) -> LifecycleCommand {
    LifecycleCommand {
        schema_version: PROCESS_LIFECYCLE_COMMAND_SCHEMA_VERSION.to_owned(),
        command_id: "cmd-1".to_owned(),
        run_id: "run-1".to_owned(),
        expected_revision: 3,
        actor_scope: "workflow.control".to_owned(),
        operation_id: 7,
        authority_epoch: 2,
        action,
    }
}

fn identity(instance: &str) -> LifecycleProcessIdentity {
    LifecycleProcessIdentity {
        instance_id: instance.to_owned(),
        process: 1,
        pid: 4242,
        birth_id: 9,
        install_id: 0,
        executable_id: 0,
        image_id: 0,
        namespace_id: 5,
    }
}

#[test]
fn a_well_formed_command_is_admitted() {
    let launch = LifecycleAction::LaunchNew {
        profile_id: LaunchProfileId::new(1).expect("profile"),
    };
    assert!(launch.is_effect_bearing());
    assert_eq!(launch.kind(), "launch_new");
    validate_lifecycle_command(&command(launch), "instance-1").expect("admitted");
    let attach = LifecycleAction::AttachExisting {
        identity: identity("instance-1"),
    };
    assert!(!attach.is_effect_bearing());
    validate_lifecycle_command(&command(attach), "instance-1").expect("the exact identity");
    assert_eq!(StopMode::Force.as_str(), "force");
    assert_eq!(LifecycleClassification::Stopped.as_str(), "stopped");
}

#[test]
fn malformed_commands_are_refused_before_any_gateway_call() {
    let stop = || LifecycleAction::Stop {
        mode: StopMode::Graceful,
    };
    let mut c = command(stop());
    c.schema_version = "ascension.process-lifecycle-command/v0".to_owned();
    assert_eq!(
        validate_lifecycle_command(&c, "instance-1").unwrap_err().code,
        "lifecycle_command_schema"
    );
    let mut c = command(stop());
    c.run_id = "run 1".to_owned();
    assert_eq!(
        validate_lifecycle_command(&c, "instance-1").unwrap_err().code,
        "invalid_identifier"
    );
    let mut c = command(stop());
    c.operation_id = 0;
    assert_eq!(
        validate_lifecycle_command(&c, "instance-1").unwrap_err().code,
        "lifecycle_operation_identity_invalid"
    );
    let mut c = command(stop());
    c.authority_epoch = 0;
    assert!(validate_lifecycle_command(&c, "instance-1").is_err());

    let foreign = command(LifecycleAction::AttachExisting {
        identity: identity("instance-2"),
    });
    let error = validate_lifecycle_command(&foreign, "instance-1").unwrap_err();
    assert_eq!(error.code, "lifecycle_instance_mismatch");
    assert_eq!(error.class, ErrorClass::Forbidden);
    let mut partial = identity("instance-1");
    partial.pid = 0;
    let error = validate_lifecycle_command(
        &command(LifecycleAction::AttachExisting { identity: partial }),
        "instance-1",
    )
    .unwrap_err();
    assert_eq!(error.code, "lifecycle_process_identity_invalid");
    assert_eq!(
        LaunchProfileId::new(0).unwrap_err().code,
        "lifecycle_profile_id_invalid"
    );
}

fn view(operation: u64, instance: &str, epoch: u64) -> LifecycleOperationView {
    LifecycleOperationView {
        contract: PROCESS_LIFECYCLE_CONTRACT.to_owned(),
        operation_id: operation,
        instance_id: instance.to_owned(),
        state: LifecycleState::Ready,
        operation_state: LifecycleOperationState::Started,
        process: None,
        authority_epoch: epoch,
        failure: None,
    }
}

#[test]
fn gateway_answers_must_be_bound_to_the_submitted_operation() {
    view(7, "instance-1", 2).validate(7, "instance-1").expect("bound");
    for answer in [view(8, "instance-1", 2), view(7, "instance-2", 2), view(7, "instance-1", 0)] {
        let error = answer.validate(7, "instance-1").unwrap_err();
        assert_eq!(error.code, "lifecycle_response_scope_mismatch");
        assert_eq!(error.class, ErrorClass::Conflict);
    }
}

#[test]
fn the_capability_must_be_bound_and_bounded() {
    let capability = |instance: &str, profiles: usize| ProcessLifecycleCapability {
        contract: PROCESS_LIFECYCLE_CONTRACT.to_owned(),
        available: true,
        profiles: (1..=profiles as u64)
            .map(|p| LaunchProfileId::new(p).expect("profile"))
            .collect(),
        authority_epoch: Some(2),
        instance_id: instance.to_owned(),
        unavailable_reason: None,
    };
    capability("instance-1", MAX_APPROVED_PROFILES)
        .validate("instance-1")
        .expect("the bound is inclusive");
    assert_eq!(
        capability("instance-1", MAX_APPROVED_PROFILES + 1)
            .validate("instance-1")
            .unwrap_err()
            .code,
        "lifecycle_capability_unbounded"
    );
    assert_eq!(
        capability("instance-2", 1).validate("instance-1").unwrap_err().code,
        "lifecycle_capability_scope_mismatch"
    );
}

#[test]
fn the_unattached_lifecycle_port_refuses_everything() {
    let actor = AuthContext {
        actor_id: "operator".to_owned(),
        scopes: vec!["workflow:*".to_owned()],
        runs: None,
    };
    let target = LifecycleTarget::new("instance-1".to_owned()).expect("target");
    assert!(LifecycleTarget::new("instance 1".to_owned()).is_err());
    let port = UnavailableProcessLifecyclePort;
    assert_eq!(
        port.capability(&actor, &target).unwrap_err().code,
        "process_lifecycle_owner_unavailable"
    );
    assert_eq!(
        port.lookup(&actor, &target, 7).unwrap_err().code,
        "process_lifecycle_owner_unavailable"
    );
    let c = command(LifecycleAction::Stop {
        mode: StopMode::Graceful,
    });
    assert_eq!(
        port.submit(&actor, &target, &c, &c.action).unwrap_err().class,
        ErrorClass::Unavailable
    );
}

#[test]
fn identifiers_and_digests_are_validated() {
    assert!(validate_identifier("run_id", "run.live-1_a:b").is_ok());
    assert_eq!(validate_identifier("run_id", "").unwrap_err().code, "invalid_identifier");
    assert!(validate_identifier("run_id", "has space").is_err());
    assert!(validate_identifier("run_id", &"a".repeat(129)).is_err());
    assert!(validate_identifier("run_id", &"a".repeat(128)).is_ok());
    assert!(validate_digest("digest", &"0123456789abcdef".repeat(4)).is_ok());
    assert!(validate_digest("digest", &"A".repeat(64)).is_err());
    assert!(validate_digest("digest", &"a".repeat(63)).is_err());
}

#[test]
fn scopes_grant_by_exact_name_or_prefix_wildcard() {
    let actor = AuthContext {
        actor_id: "operator".to_owned(),
        scopes: vec!["workflow:read".to_owned(), "lifecycle:*".to_owned()],
        runs: Some(vec!["run-1".to_owned()]),
    };
    assert!(actor.can("workflow:read"));
    assert!(!actor.can("workflow:control"));
    assert!(actor.can("lifecycle:stop"));
    assert!(actor.can_run("run-1"));
    assert!(!actor.can_run("run-2"));
    let everyone = AuthContext {
        actor_id: "admin".to_owned(),
        scopes: vec!["*".to_owned()],
        runs: None,
    };
    assert!(everyone.can("anything"));
    assert!(everyone.can_run("run-2"));
}

fn key(operation: &str) -> JournalKey {
    JournalKey {
        principal: "operator".to_owned(),
        instance: "instance-1".to_owned(),
        incarnation: "incarnation-1".to_owned(),
        operation: operation.to_owned(),
        idempotency_key: format!("{operation}-key"),
    }
}

#[test]
fn the_operation_journal_begins_once_and_settles_by_its_rules() {
    let mut journal = OperationJournal::new();
    assert_eq!(journal.len(), 0);
    let begun = journal.begin(key("launch"), "sha256:aa").expect("a fresh key begins");
    assert!(matches!(begun, JournalDecision::Started(1)));
    let again = journal.begin(key("launch"), "sha256:bb").expect("the retained attempt answers");
    match again {
        JournalDecision::Existing(entry) => {
            assert_eq!(entry.sequence, 1);
            assert_eq!(entry.request_digest, "sha256:aa");
            assert_eq!(entry.outcome, JournalOutcome::Pending);
        }
        JournalDecision::Started(_) => panic!("a journalled key never starts again"),
    }
    assert!(matches!(
        journal.begin(key("stop"), "sha256:cc"),
        Ok(JournalDecision::Started(2))
    ));
    journal.complete(&key("launch"), JournalOutcome::Unknown).expect("unknown first");
    journal.complete(&key("launch"), JournalOutcome::Accepted).expect("then settled");
    assert_eq!(
        journal.complete(&key("launch"), JournalOutcome::Rejected).unwrap_err(),
        JournalError::Transition
    );
    assert_eq!(
        journal.complete(&key("restart"), JournalOutcome::Accepted).unwrap_err(),
        JournalError::Missing
    );
    assert_eq!(
        journal.entry(&key("launch")).expect("retained").outcome,
        JournalOutcome::Accepted
    );
    assert_eq!(journal.entries().len(), 2);
    assert_eq!(journal.len(), 2);
}

#[test]
fn store_refusals_are_classified_by_their_stable_code() {
    let cases = [
        ("run_not_found", ErrorClass::InvalidInput),
        ("command_not_found", ErrorClass::InvalidInput),
        ("stale_revision", ErrorClass::Conflict),
        ("duplicate_run", ErrorClass::Conflict),
        ("command_conflict", ErrorClass::Conflict),
        ("redaction_required", ErrorClass::Forbidden),
        ("disk_full", ErrorClass::Store),
    ];
    for (code, class) in cases {
        let error = ManagementError::from_store_error(StoreError::new(code, "detail"));
        assert_eq!(error.class, class, "{code}");
        assert_eq!(error.code, code);
        assert_eq!(error.message, "detail");
    }
}
