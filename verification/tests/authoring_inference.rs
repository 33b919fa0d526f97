use harness::authoring_inference::{
    admit_base, admit_catalog, admit_cost, admit_manifest, admit_pinned_profile, begin_refusal,
    provider_failure_outcome, replay, AuthoringInferenceBegin, AuthoringInferenceCost,
    AuthoringInferenceOperationState, DraftRevision,
};
use harness::{
    ErrorClass, InferenceProfileBudgets, InferenceProfileDescriptor, InferenceProfileGrants,
    InferenceProfileState, ManagementError,
};

#[test]
fn a_replayed_proposal_answers_with_what_it_recorded() {
    let answer = replay(
        AuthoringInferenceOperationState::Proposed,
        Some("proposal-1"),
        "op-1",
        "",
    )
    .expect("a proposed operation replays its proposal");
    assert_eq!(answer, "proposal-1");

    let error = replay::<&str>(AuthoringInferenceOperationState::Proposed, None, "op-1", "")
        .expect_err("the body is unavailable");
    assert_eq!(error.code, "authoring_inference_replay_unavailable");
    assert_eq!(error.class, ErrorClass::Conflict);
}

#[test]
fn a_replayed_completion_is_refused_under_its_state() {
    let cases = [
        (AuthoringInferenceOperationState::BudgetExhausted, ErrorClass::Budget, "budget_exhausted"),
        (AuthoringInferenceOperationState::Cancelled, ErrorClass::Conflict, "cancelled"),
        (AuthoringInferenceOperationState::Unknown, ErrorClass::Unresolved, "unknown"),
        (AuthoringInferenceOperationState::Refused, ErrorClass::Forbidden, "refused"),
        (AuthoringInferenceOperationState::Pending, ErrorClass::Conflict, "pending"),
    ];
    for (state, class, label) in cases {
        let error = replay::<u8>(state, Some(1), "op-7", "over budget").expect_err(label);
        assert_eq!(error.class, class);
        assert_eq!(error.code, format!("authoring_inference_replayed_{label}"));
        assert_eq!(
            error.message,
            format!("operation op-7 already completed with state {label}: over budget")
        );
    }
}

#[test]
fn a_reservation_in_progress_or_held_by_another_request_is_refused() {
    let started: AuthoringInferenceBegin<u8> = AuthoringInferenceBegin::Started;
    assert!(begin_refusal(&started).is_none());
    assert!(begin_refusal(&AuthoringInferenceBegin::Replayed(3u8)).is_none());
    let error = begin_refusal::<u8>(&AuthoringInferenceBegin::InProgress {
        operation_id: "op-1".to_owned(),
    })
    .expect("in progress");
    assert_eq!(error.code, "authoring_inference_operation_in_progress");
    let error = begin_refusal::<u8>(&AuthoringInferenceBegin::Conflict {
        operation_id: "op-1".to_owned(),
    })
    .expect("conflict");
    assert_eq!(error.code, "authoring_inference_operation_conflict");
    assert_eq!(error.class, ErrorClass::Conflict);
}

#[test]
fn a_provider_failure_is_cancelled_only_when_the_provider_said_so() {
    let cancelled = ManagementError {
        class: ErrorClass::Conflict,
        code: "authoring_inference_cancelled".to_owned(),
        message: "operator cancelled".to_owned(),
    };
    assert_eq!(
        provider_failure_outcome(&cancelled),
        (AuthoringInferenceOperationState::Cancelled, "operator cancelled".to_owned())
    );
    let lost = ManagementError {
        class: ErrorClass::Unavailable,
        code: "provider_decision_failed".to_owned(),
        message: "timeout".to_owned(),
    };
    assert_eq!(
        provider_failure_outcome(&lost),
        (AuthoringInferenceOperationState::Unknown, "provider_decision_failed".to_owned())
    );
}

#[test]
fn a_candidate_over_its_budget_is_refused() {
    let reserved = AuthoringInferenceCost { provider_calls: 1, output_tokens: 500 };
    assert!(admit_cost(AuthoringInferenceCost { provider_calls: 1, output_tokens: 100 }, reserved, 100).is_ok());
    let error = admit_cost(AuthoringInferenceCost { provider_calls: 1, output_tokens: 101 }, reserved, 100)
        .expect_err("one token over");
    assert_eq!(error.code, "authoring_inference_budget_exhausted");
    assert_eq!(error.class, ErrorClass::Budget);
    assert!(admit_cost(AuthoringInferenceCost { provider_calls: 2, output_tokens: 0 }, reserved, 100).is_err());
}

#[test]
fn stale_manifest_and_catalog_digests_are_refused() {
    assert!(admit_manifest("abc", "abc").is_ok());
    assert_eq!(admit_manifest("abc", "abd").unwrap_err().code, "authoring_inference_manifest_stale");
    assert!(admit_catalog("abc", "abc").is_ok());
    assert_eq!(admit_catalog("abc", "").unwrap_err().code, "authoring_inference_catalog_stale");
}

fn descriptor(version: &str, digest: &str) -> InferenceProfileDescriptor {
    InferenceProfileDescriptor {
        profile_id: "author.v1".to_owned(),
        version: version.to_owned(),
        digest: digest.to_owned(),
        adapter: "exo".to_owned(),
        requested_model: "model-1".to_owned(),
        resolved_model: "model-1".to_owned(),
        node_kinds: vec!["author".to_owned()],
        operations: vec!["authoring".to_owned()],
        context_compatibility: vec![],
        continuity: "stateless".to_owned(),
        state: InferenceProfileState::Available,
        grants: InferenceProfileGrants { edit: false },
        prompt_revision: "prompt-1".to_owned(),
        settings_revision: "settings-1".to_owned(),
        supported_settings: vec![],
        effective_budgets: InferenceProfileBudgets {
            max_input_tokens: 1000,
            max_output_tokens: 100,
        },
    }
}

#[test]
fn the_pinned_profile_must_be_served_at_its_digest() {
    let served = vec![descriptor("1.0.0", "d1"), descriptor("2.0.0", "d2")];
    assert!(admit_pinned_profile(&served, "author.v1", Some(("2.0.0", "d2"))).is_ok());
    assert_eq!(
        admit_pinned_profile(&served, "author.v1", None).unwrap_err().code,
        "authoring_inference_profile_unpinned"
    );
    assert_eq!(
        admit_pinned_profile(&served, "author.v1", Some(("3.0.0", "d3"))).unwrap_err().code,
        "authoring_inference_profile_unknown"
    );
    let error = admit_pinned_profile(&served, "author.v1", Some(("1.0.0", "d2"))).unwrap_err();
    assert_eq!(error.code, "authoring_inference_profile_stale");
    assert_eq!(error.class, ErrorClass::Conflict);
    assert_eq!(
        admit_pinned_profile(&served, "other.v1", Some(("1.0.0", "d1"))).unwrap_err().code,
        "authoring_inference_profile_unknown"
    );
}

fn draft(revision: u64, etag: &str) -> DraftRevision {
    DraftRevision {
        draft_id: "draft-1".to_owned(),
        revision,
        etag: etag.to_owned(),
        definition_digest: "e".repeat(64),
    }
}

#[test]
fn a_concurrent_draft_change_wins_over_the_operation() {
    let base = admit_base(&draft(4, "etag-4"), &draft(4, "etag-4")).expect("same base");
    assert_eq!(base, draft(4, "etag-4"));
    let error = admit_base(&draft(5, "etag-5"), &draft(4, "etag-4")).expect_err("moved");
    assert_eq!(error.code, "authoring_inference_base_conflict");
    assert!(admit_base(&draft(4, "etag-x"), &draft(4, "etag-4")).is_err());
}
