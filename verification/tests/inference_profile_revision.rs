use harness::inference_profile_revision::{
    derive_inference_profile_revision, plan_append, validate_append, AppendPlan,
    InferenceProfileRevisionJournal, InferenceProfileRevisionRequest,
    InferenceProfileRevisionResponse, RevisionAppendOutcome,
    INFERENCE_PROFILE_REVISION_SCHEMA_VERSION,
};
use harness::{
    ErrorClass, InferenceProfileBudgets, InferenceProfileDescriptor, InferenceProfileGrants,
    InferenceProfileState, MemoryInferenceProfileRevisionJournal,
    UnavailableInferenceProfileRevisionJournal,
};
use sha2::{Digest, Sha256};

fn hex(bytes: &[u8]) -> String {
    bytes.iter().map(|b| format!("{b:02x}")).collect()
}

fn sealed(version: &str) -> InferenceProfileDescriptor {
    let mut d = InferenceProfileDescriptor {
        profile_id: "profile-a".to_owned(),
        version: version.to_owned(),
        digest: String::new(),
        adapter: "exo".to_owned(),
        requested_model: "model-1".to_owned(),
        resolved_model: "model-1".to_owned(),
        node_kinds: vec!["decide".to_owned()],
        operations: vec!["decision".to_owned()],
        context_compatibility: vec![],
        continuity: "stateless".to_owned(),
        state: InferenceProfileState::Available,
        grants: InferenceProfileGrants { edit: true },
        prompt_revision: "prompt-1".to_owned(),
        settings_revision: "settings-1".to_owned(),
        supported_settings: vec![],
        effective_budgets: InferenceProfileBudgets {
            max_input_tokens: 1000,
            max_output_tokens: 100,
        },
    };
    d.digest = d.seal_digest();
    d
}

fn request(head: &InferenceProfileDescriptor, version: &str) -> InferenceProfileRevisionRequest {
    InferenceProfileRevisionRequest {
        schema_version: INFERENCE_PROFILE_REVISION_SCHEMA_VERSION.to_owned(),
        expected_revision_digest: head.digest.clone(),
        client_mutation_id: "mutation-1".to_owned(),
        version: version.to_owned(),
        prompt_revision: "prompt-2".to_owned(),
        settings_revision: "settings-1".to_owned(),
        supported_settings: vec![],
        effective_budgets: head.effective_budgets,
    }
}

#[test]
fn the_seal_digest_is_the_sha256_of_the_canonical_text() {
    let d = sealed("v1");
    assert_eq!(d.digest, hex(&Sha256::digest(d.canonical_text().as_bytes())));
    assert!(d.validate().is_ok());
    let mut tampered = d.clone();
    tampered.requested_model = "model-2".to_owned();
    assert_eq!(
        tampered.validate().expect_err("the seal no longer matches").code,
        "inference_profile_digest_mismatch"
    );
}

#[test]
fn an_edit_derives_a_sealed_candidate_of_the_same_authority() {
    let head = sealed("v1");
    let candidate =
        derive_inference_profile_revision(&head, &request(&head, "v2")).expect("derived");
    assert_eq!(candidate.version, "v2");
    assert_eq!(candidate.prompt_revision, "prompt-2");
    assert_eq!(candidate.adapter, head.adapter);
    assert!(candidate.validate().is_ok());
    let same = derive_inference_profile_revision(&head, &request(&head, "v1"))
        .expect_err("the version must change");
    assert_eq!(same.code, "inference_profile_revision_version_unchanged");
    let mut locked = head.clone();
    locked.grants = InferenceProfileGrants { edit: false };
    let denied = derive_inference_profile_revision(&locked, &request(&head, "v2"))
        .expect_err("no edit grant");
    assert_eq!(denied.class, ErrorClass::Forbidden);
}

#[test]
fn the_memory_journal_is_a_compare_and_swap() {
    let baseline = sealed("v1");
    let mut journal = MemoryInferenceProfileRevisionJournal::new();
    let candidate =
        derive_inference_profile_revision(&baseline, &request(&baseline, "v2")).expect("v2");
    let adopted = journal
        .append("profile-a", &baseline, &baseline.digest, "mutation-1", &candidate)
        .expect("adopted");
    assert!(matches!(adopted, RevisionAppendOutcome::Adopted(ref d) if d.version == "v2"));
    let replayed = journal
        .append("profile-a", &baseline, &baseline.digest, "mutation-1", &candidate)
        .expect("replayed");
    assert!(matches!(replayed, RevisionAppendOutcome::Replayed(ref d) if d.version == "v2"));
    let rival =
        derive_inference_profile_revision(&baseline, &request(&baseline, "v3")).expect("v3");
    let lost = journal
        .append("profile-a", &baseline, &baseline.digest, "mutation-2", &rival)
        .expect("a lost swap is a conflict");
    assert!(matches!(lost, RevisionAppendOutcome::Conflict(ref d) if d.version == "v2"));
    assert_eq!(
        journal.head("profile-a").expect("head").expect("accepted").version,
        "v2"
    );
    assert_eq!(journal.history("profile-a").expect("history").len(), 2);
}

#[test]
fn the_unavailable_journal_refuses_everything() {
    let journal = UnavailableInferenceProfileRevisionJournal;
    assert_eq!(
        journal.head("profile-a").expect_err("unavailable").code,
        "inference_profile_revision_journal_unavailable"
    );
}

#[test]
fn an_append_plan_replays_conflicts_or_adopts() {
    let current = sealed("v1");
    let candidate =
        derive_inference_profile_revision(&current, &request(&current, "v2")).expect("v2");
    assert!(matches!(
        plan_append(&current, None, &current.digest, &candidate),
        AppendPlan::Adopt
    ));
    assert!(matches!(
        plan_append(&current, None, &"0".repeat(64), &candidate),
        AppendPlan::Report(RevisionAppendOutcome::Conflict(_))
    ));
    assert!(matches!(
        plan_append(
            &current,
            Some((candidate.digest.clone(), candidate.clone())),
            &current.digest,
            &candidate
        ),
        AppendPlan::Report(RevisionAppendOutcome::Replayed(_))
    ));
    assert!(matches!(
        plan_append(
            &current,
            Some(("f".repeat(64), candidate.clone())),
            &current.digest,
            &candidate
        ),
        AppendPlan::Report(RevisionAppendOutcome::Conflict(_))
    ));
}

#[test]
fn an_append_request_is_validated_before_the_journal_is_read() {
    let baseline = sealed("v1");
    assert_eq!(
        validate_append("bad id", &baseline, "mutation-1", &baseline)
            .expect_err("not an identifier")
            .code,
        "inference_profile_revision_request"
    );
    assert_eq!(
        validate_append("profile-b", &baseline, "mutation-1", &baseline)
            .expect_err("another profile")
            .code,
        "inference_profile_revision_profile_mismatch"
    );
    assert!(validate_append("profile-a", &baseline, "mutation-1", &baseline).is_ok());
}

#[test]
fn a_response_names_the_exact_reference() {
    let revision = sealed("v1");
    let digest = revision.digest.clone();
    let response = InferenceProfileRevisionResponse::new("adopted", "profile-a", revision);
    assert_eq!(response.reference, format!("profile-a:v1:{digest}"));
    assert_eq!(response.outcome, "adopted");
}

#[test]
fn a_later_retry_of_an_adopted_mutation_is_replayed_or_conflicts_and_changes_nothing() {
    let baseline = sealed("v1");
    let mut journal = MemoryInferenceProfileRevisionJournal::new();
    let v2 = derive_inference_profile_revision(&baseline, &request(&baseline, "v2")).expect("v2");
    journal
        .append("profile-a", &baseline, &baseline.digest, "mutation-1", &v2)
        .expect("adopted");
    let v3 = derive_inference_profile_revision(&v2, &request(&v2, "v3")).expect("v3");
    let adopted = journal
        .append("profile-a", &baseline, &v2.digest, "mutation-2", &v3)
        .expect("a second mutation is adopted over the first");
    assert!(matches!(adopted, RevisionAppendOutcome::Adopted(ref d) if d.version == "v3"));

    let replayed = journal
        .append("profile-a", &baseline, "any-digest", "mutation-1", &v2)
        .expect("a retry after later appends");
    assert!(matches!(replayed, RevisionAppendOutcome::Replayed(ref d) if d.digest == v2.digest));
    let v4 = derive_inference_profile_revision(&v3, &request(&v3, "v4")).expect("v4");
    let conflict = journal
        .append("profile-a", &baseline, &v3.digest, "mutation-1", &v4)
        .expect("a reused mutation with another candidate");
    assert!(matches!(conflict, RevisionAppendOutcome::Conflict(ref d) if d.digest == v3.digest));
    assert_eq!(
        journal.head("profile-a").expect("head").expect("accepted").version,
        "v3"
    );
    assert_eq!(journal.history("profile-a").expect("history").len(), 3);
}
