use harness::save_profile_setup::{
    admit_profile_setup, is_instance_identity, is_profile_identity, ProfileBaselineFence,
    ProfileGrant, ProfileReadback, ProfileSetupError, ProfileSetupGrants,
    ProfileSetupOperation, ProfileSetupOperationDocument, ProfileSetupRequest,
    PROFILE_SETUP_SCHEMA_VERSION,
};

fn digest(seed: u8) -> String {
    std::iter::repeat_n(format!("{seed:02x}"), 32).collect()
}

fn all() -> ProfileSetupGrants {
    ProfileSetupGrants {
        discovery: true,
        selection: true,
        provisioning: true,
    }
}

fn request(operation: ProfileSetupOperationDocument) -> ProfileSetupRequest {
    ProfileSetupRequest {
        schema_version: PROFILE_SETUP_SCHEMA_VERSION.to_owned(),
        instance_id: "instance-1".to_owned(),
        operation,
        profile_id: None,
        baseline: None,
        operation_id: None,
        run_active: false,
    }
}

fn selection() -> ProfileSetupRequest {
    let mut r = request(ProfileSetupOperationDocument::Select);
    r.profile_id = Some("profile-a".to_owned());
    r.baseline = Some(ProfileBaselineFence {
        profile_id: "profile-a".to_owned(),
        baseline_digest: digest(3),
    });
    r
}

#[test]
fn operations_map_to_fixed_tools_grants_and_routes() {
    assert_eq!(ProfileSetupOperation::List.tool(), "sts2.save_profile_list");
    assert_eq!(
        ProfileSetupOperation::CreateDisposable.required_grant(),
        ProfileGrant::Provisioning
    );
    assert!(ProfileSetupOperation::Select.is_mutation());
    assert!(!ProfileSetupOperation::Status.is_mutation());
    assert_eq!(
        ProfileSetupOperation::Status.route_path("instance-1", Some("op-1")),
        "/v1/instances/instance-1/save-profile/operations/op-1"
    );
    assert_eq!(
        ProfileSetupOperation::List.route_path("instance-1", None),
        "/v1/instances/instance-1/save-profiles"
    );
}

#[test]
fn profile_identities_are_portable_and_never_paths_or_urls() {
    assert!(is_profile_identity("profile-a.v2"));
    assert!(!is_profile_identity("../etc"));
    assert!(!is_profile_identity("http://x"));
    assert!(!is_profile_identity(""));
    assert!(is_instance_identity("instance-1"));
    assert!(!is_instance_identity("a/b"));
}

#[test]
fn discovery_is_effect_free_and_granted_separately() {
    let admitted = admit_profile_setup(&request(ProfileSetupOperationDocument::List), all())
        .expect("discovery is admitted");
    assert_eq!(admitted.tool(), "sts2.save_profile_list");
    assert!(!admitted.is_mutation());
    assert_eq!(
        admit_profile_setup(
            &request(ProfileSetupOperationDocument::List),
            ProfileSetupGrants::none()
        )
        .err(),
        Some(ProfileSetupError::PermissionDenied)
    );
    let mut named = request(ProfileSetupOperationDocument::Current);
    named.profile_id = Some("profile-a".to_owned());
    assert_eq!(
        admit_profile_setup(&named, all()).err(),
        Some(ProfileSetupError::DiscoveryMustBeEffectFree)
    );
}

#[test]
fn a_selection_needs_its_own_baseline_fence_and_an_idle_run() {
    let admitted = admit_profile_setup(&selection(), all()).expect("a fenced selection");
    assert_eq!(admitted.profile_id(), Some("profile-a"));
    assert_eq!(
        admitted.route_path(),
        "/v1/instances/instance-1/save-profile/select"
    );
    let mut unnamed = selection();
    unnamed.profile_id = None;
    unnamed.baseline = None;
    assert_eq!(
        admit_profile_setup(&unnamed, all()).err(),
        Some(ProfileSetupError::ProfileRequired)
    );
    let mut unfenced = selection();
    unfenced.baseline = None;
    assert_eq!(
        admit_profile_setup(&unfenced, all()).err(),
        Some(ProfileSetupError::BaselineFenceMismatch)
    );
    let mut active = selection();
    active.run_active = true;
    assert_eq!(
        admit_profile_setup(&active, all()).err(),
        Some(ProfileSetupError::ActiveRunConflict)
    );
    let mut disposable = request(ProfileSetupOperationDocument::CreateDisposable);
    disposable.baseline = selection().baseline;
    assert_eq!(
        admit_profile_setup(&disposable, all()).err(),
        Some(ProfileSetupError::BaselineFenceMismatch)
    );
}

#[test]
fn malformed_requests_are_refused_first() {
    let mut old = request(ProfileSetupOperationDocument::List);
    old.schema_version = "ascension.save-profile-setup/v0".to_owned();
    assert_eq!(
        admit_profile_setup(&old, all()).err(),
        Some(ProfileSetupError::Incompatible)
    );
    let mut status = request(ProfileSetupOperationDocument::Status);
    assert_eq!(
        admit_profile_setup(&status, all()).err(),
        Some(ProfileSetupError::InvalidRequest)
    );
    status.operation_id = Some("op-1".to_owned());
    let admitted = admit_profile_setup(&status, all()).expect("a receipt read");
    assert_eq!(admitted.operation_id(), Some("op-1"));
}

#[test]
fn a_readback_must_confirm_the_admitted_profile_and_fence() {
    let admitted = admit_profile_setup(&selection(), all()).expect("admitted");
    let good = ProfileReadback {
        profile_id: "profile-a".to_owned(),
        baseline_digest: digest(3),
        available: true,
    };
    let verified = good
        .clone()
        .verify(&admitted, Some(&digest(3)))
        .expect("the owner confirmed");
    assert_eq!(verified.profile_id(), "profile-a");
    assert_eq!(
        good.clone().verify(&admitted, Some(&digest(4))).err(),
        Some(ProfileSetupError::ReadbackMismatch)
    );
    let mut other = good.clone();
    other.profile_id = "profile-b".to_owned();
    assert_eq!(
        other.verify(&admitted, None).err(),
        Some(ProfileSetupError::ReadbackMismatch)
    );
    let mut unavailable = good;
    unavailable.available = false;
    assert_eq!(
        unavailable.verify(&admitted, None).err(),
        Some(ProfileSetupError::ReadbackMismatch)
    );
}
