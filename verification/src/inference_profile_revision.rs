//! Compare-and-swap journal for accepted inference-profile revisions.
//!
//! The journal is append-only: an accepted edit adds a *new* revision and never
//! rewrites the revision it replaced. Adoption is a compare-and-swap against the
//! exact expected revision digest, so a concurrent edit loses the swap instead
//! of silently overwriting the winner. An edit may change only the fields the
//! owner published as editable; every identity and authority field is inherited
//! from the revision that was edited.

use vstd::prelude::*;
use crate::error::{ErrorClass, ManagementError, Refusal, StoreError, refusal, text_is};
use crate::identity::{is_identifier, is_identifier_text, is_lower_hex_digest, validate_digest, validate_identifier};
use crate::inference_profile::{
    DescriptorView, InferenceProfileBudgets, InferenceProfileDescriptor, InferenceProfileState,
    descriptor_refusal, same_authority, seal_digest,
};

verus! {

pub const INFERENCE_PROFILE_REVISION_SCHEMA_VERSION: &'static str = "ascension.inference-profile-revision/v1";

pub const INFERENCE_PROFILE_REVISION_RESPONSE_SCHEMA_VERSION: &'static str = "ascension.inference-profile-revision-response/v1";

/// The only fields of a served revision an admitted edit may restate.
#[derive(Debug)]
pub struct InferenceProfileRevisionRequest {
    pub schema_version: String,
    /// The exact digest of the served revision this edit was authored against.
    pub expected_revision_digest: String,
    /// Stable caller identity, so a retried edit is replayed rather than applied twice.
    pub client_mutation_id: String,
    pub version: String,
    pub prompt_revision: String,
    pub settings_revision: String,
    pub supported_settings: Vec<String>,
    pub effective_budgets: InferenceProfileBudgets,
}

/// The admitted outcome of one edit request.
#[derive(Debug)]
pub struct InferenceProfileRevisionResponse {
    pub schema_version: String,
    /// `adopted`, `replayed` or `conflict`.
    pub outcome: String,
    pub profile_id: String,
    /// `profile_id:version:digest` of `revision`, the exact reference a new
    /// definition pins.
    pub reference: String,
    /// The adopted revision, or the currently accepted one when the swap was lost.
    pub revision: InferenceProfileDescriptor,
}

/// The exact reference a definition pins for a revision of a profile.
pub open spec fn revision_reference(profile_id: Seq<char>, revision: DescriptorView) -> Seq<char> {
    profile_id + ":"@ + revision.version + ":"@ + revision.digest
}

impl InferenceProfileRevisionResponse {
    /// The response naming `revision` under `outcome`.
    pub fn new(outcome: &str, profile_id: &str, revision: InferenceProfileDescriptor) -> (r: Self)
        ensures
            r.schema_version@ == INFERENCE_PROFILE_REVISION_RESPONSE_SCHEMA_VERSION@,
            r.outcome@ == outcome@,
            r.profile_id@ == profile_id@,
            r.reference@ == revision_reference(profile_id@, revision@),
            r.revision@ == revision@,
    {
        let mut reference = profile_id.to_owned();
        reference.append(":");
        reference.append(revision.version.as_str());
        reference.append(":");
        reference.append(revision.digest.as_str());
        proof {
            reveal_strlit(":");
        }
        assert(reference@ =~= revision_reference(profile_id@, revision@));
        InferenceProfileRevisionResponse {
            schema_version: INFERENCE_PROFILE_REVISION_RESPONSE_SCHEMA_VERSION.to_owned(),
            outcome: outcome.to_owned(),
            profile_id: profile_id.to_owned(),
            reference,
            revision,
        }
    }
}

/// The result of one atomic append.
#[derive(Debug)]
pub enum RevisionAppendOutcome {
    /// The compare-and-swap was won; the candidate is now the accepted head.
    Adopted(Box<InferenceProfileDescriptor>),
    /// The same client mutation and candidate were already applied.
    Replayed(Box<InferenceProfileDescriptor>),
    /// The swap was lost; the payload is the revision that won.
    Conflict(Box<InferenceProfileDescriptor>),
}

/// The abstract result of one append.
pub enum AppendOutcomeView {
    Adopted(DescriptorView),
    Replayed(DescriptorView),
    Conflict(DescriptorView),
}

impl View for RevisionAppendOutcome {
    type V = AppendOutcomeView;

    open spec fn view(&self) -> AppendOutcomeView {
        match self {
            RevisionAppendOutcome::Adopted(d) => AppendOutcomeView::Adopted(d@),
            RevisionAppendOutcome::Replayed(d) => AppendOutcomeView::Replayed(d@),
            RevisionAppendOutcome::Conflict(d) => AppendOutcomeView::Conflict(d@),
        }
    }
}

/// Server-owned append-only revision journal.
pub trait InferenceProfileRevisionJournal {
    /// The currently accepted revision, or `None` before any edit was accepted.
    fn head(&self, profile_id: &str) -> Result<Option<InferenceProfileDescriptor>, StoreError>;

    /// Every accepted revision of `profile_id`, oldest first.
    fn history(&self, profile_id: &str) -> Result<Vec<InferenceProfileDescriptor>, StoreError>;

    /// Applies one edit as a compare-and-swap. When the journal holds no
    /// revision of the profile yet, `baseline` (what the owner serves) is first
    /// recorded as the accepted revision.
    fn append(
        &mut self,
        profile_id: &str,
        baseline: &InferenceProfileDescriptor,
        expected_revision_digest: &str,
        client_mutation_id: &str,
        candidate: &InferenceProfileDescriptor,
    ) -> Result<RevisionAppendOutcome, StoreError>;
}

/// The candidate revision an admitted edit of `head` derives: the editable
/// fields come from the request, every other field from `head`, and the digest
/// seals the result.
pub open spec fn derived_candidate(head: DescriptorView, request: InferenceProfileRevisionRequest) -> DescriptorView {
    let unsealed = DescriptorView {
        version: request.version@,
        prompt_revision: request.prompt_revision@,
        settings_revision: request.settings_revision@,
        supported_settings: request.supported_settings.deep_view(),
        effective_budgets: request.effective_budgets,
        digest: Seq::empty(),
        ..head
    };
    DescriptorView { digest: seal_digest(unsealed), ..unsealed }
}

/// The first refusal of an edit of `head`, if any.
pub open spec fn derive_refusal(head: DescriptorView, request: InferenceProfileRevisionRequest) -> Option<Refusal> {
    if request.schema_version@ != INFERENCE_PROFILE_REVISION_SCHEMA_VERSION@ {
        Some(refusal(ErrorClass::InvalidInput, "schema_version_unsupported"))
    } else if !is_lower_hex_digest(request.expected_revision_digest@) {
        Some(refusal(ErrorClass::InvalidInput, "invalid_digest"))
    } else if !is_identifier(request.client_mutation_id@) || !is_identifier(request.version@)
        || !is_identifier(request.prompt_revision@) || !is_identifier(request.settings_revision@) {
        Some(refusal(ErrorClass::InvalidInput, "invalid_identifier"))
    } else if !head.grants.edit {
        Some(refusal(ErrorClass::Forbidden, "inference_profile_edit_denied"))
    } else if head.state != InferenceProfileState::Available {
        Some(refusal(ErrorClass::Conflict, "inference_profile_revision_state"))
    } else if request.version@ == head.version {
        Some(refusal(ErrorClass::InvalidInput, "inference_profile_revision_version_unchanged"))
    } else {
        descriptor_refusal(derived_candidate(head, request))
    }
}

fn clone_texts(v: &Vec<String>) -> (r: Vec<String>)
    ensures
        r.deep_view() == v.deep_view(),
{
    let r = v.clone();
    assert(r.deep_view() =~= v.deep_view());
    r
}

/// Derives the new revision an admitted edit asks for. The compare-and-swap
/// itself belongs to the journal's atomic append.
pub fn derive_inference_profile_revision(
    head: &InferenceProfileDescriptor,
    request: &InferenceProfileRevisionRequest,
) -> (r: Result<InferenceProfileDescriptor, ManagementError>)
    ensures
        match derive_refusal(head@, *request) {
            Some(f) => r matches Err(e) && e.refusal() == f,
            None => r matches Ok(c) && c@ == derived_candidate(head@, *request),
        },
        r matches Ok(c) ==> same_authority(c@, head@) && c@.version != head@.version,
{
    if !(request.schema_version == INFERENCE_PROFILE_REVISION_SCHEMA_VERSION.to_owned()) {
        return Err(
            ManagementError::invalid(
                "schema_version_unsupported",
                "the inference-profile revision schema version is unsupported",
            ),
        );
    }
    validate_digest("expected_revision_digest", request.expected_revision_digest.as_str())?;
    validate_identifier("client_mutation_id", request.client_mutation_id.as_str())?;
    validate_identifier("version", request.version.as_str())?;
    validate_identifier("prompt_revision", request.prompt_revision.as_str())?;
    validate_identifier("settings_revision", request.settings_revision.as_str())?;
    if !head.grants.edit {
        return Err(
            ManagementError::forbidden(
                "inference_profile_edit_denied",
                "the owner does not publish this inference profile as editable",
            ),
        );
    }
    if head.state != InferenceProfileState::Available {
        return Err(
            ManagementError::conflict(
                "inference_profile_revision_state",
                "only an available inference profile revision can be edited",
            ),
        );
    }
    if request.version == head.version {
        return Err(
            ManagementError::invalid(
                "inference_profile_revision_version_unchanged",
                "an accepted edit must publish a new profile version",
            ),
        );
    }
    let mut candidate = head.clone();
    candidate.version = request.version.clone();
    candidate.prompt_revision = request.prompt_revision.clone();
    candidate.settings_revision = request.settings_revision.clone();
    candidate.supported_settings = clone_texts(&request.supported_settings);
    candidate.effective_budgets = request.effective_budgets;
    candidate.digest = String::new();
    assert(candidate@ == DescriptorView { digest: Seq::empty(), ..derived_candidate(head@, *request) });
    candidate.digest = candidate.seal_digest();
    assert(candidate@ == derived_candidate(head@, *request));
    candidate.validate()?;
    Ok(candidate)
}

/// The store refusal a journal reports for a malformed append request.
pub(crate) fn request_error(error: ManagementError) -> (r: StoreError)
    ensures
        r.code@ == "inference_profile_revision_request"@,
        r.message@ == error.message@,
{
    StoreError { code: "inference_profile_revision_request".to_owned(), message: error.message }
}

/// The refusal of an append whose baseline or candidate does not belong to the
/// named profile or does not validate, if any.
pub open spec fn baseline_refusal(profile_id: Seq<char>, baseline: DescriptorView, candidate: DescriptorView) -> Option<
    Seq<char>,
> {
    if baseline.profile_id != profile_id || candidate.profile_id != profile_id {
        Some("inference_profile_revision_profile_mismatch"@)
    } else if descriptor_refusal(baseline) is Some || descriptor_refusal(candidate) is Some {
        Some("inference_profile_revision_request"@)
    } else {
        None
    }
}

/// Rejects an append whose baseline or candidate does not belong to the
/// profile the caller named, so a journal cannot be talked into crossing profiles.
pub(crate) fn validate_baseline(
    profile_id: &str,
    baseline: &InferenceProfileDescriptor,
    candidate: &InferenceProfileDescriptor,
) -> (r: Result<(), StoreError>)
    ensures
        match baseline_refusal(profile_id@, baseline@, candidate@) {
            Some(code) => r matches Err(e) && e.code@ == code,
            None => r is Ok,
        },
{
    if !(baseline.profile_id == profile_id.to_owned()) || !(candidate.profile_id
        == profile_id.to_owned()) {
        return Err(
            StoreError::new(
                "inference_profile_revision_profile_mismatch",
                "the revision does not belong to the profile named by the request",
            ),
        );
    }
    match baseline.validate() {
        Ok(()) => {},
        Err(e) => return Err(request_error(e)),
    }
    match candidate.validate() {
        Ok(()) => {},
        Err(e) => return Err(request_error(e)),
    }
    Ok(())
}

pub(crate) fn unknown() -> (r: StoreError)
    ensures
        r.code@ == "inference_profile_unknown"@,
{
    StoreError::new(
        "inference_profile_unknown",
        "the revision journal holds no accepted revision for this inference profile",
    )
}

pub(crate) fn unavailable_error() -> (r: StoreError)
    ensures
        r.code@ == "inference_profile_revision_journal_unavailable"@,
{
    StoreError::new(
        "inference_profile_revision_journal_unavailable",
        "the inference-profile revision journal is not injected",
    )
}

/// Validates one append request before the journal is read: portable
/// profile and mutation identities, and a baseline and candidate that belong to
/// the profile and validate.
pub fn validate_append(
    profile_id: &str,
    baseline: &InferenceProfileDescriptor,
    client_mutation_id: &str,
    candidate: &InferenceProfileDescriptor,
) -> (r: Result<(), StoreError>)
    ensures
        !is_identifier(profile_id@) || !is_identifier(client_mutation_id@) ==> (r matches Err(e)
            && e.code@ == "inference_profile_revision_request"@),
        is_identifier(profile_id@) && is_identifier(client_mutation_id@) ==> match baseline_refusal(
            profile_id@,
            baseline@,
            candidate@,
        ) {
            Some(code) => r matches Err(e) && e.code@ == code,
            None => r is Ok,
        },
{
    if !is_identifier_text(profile_id) || !is_identifier_text(client_mutation_id) {
        return Err(
            StoreError::new(
                "inference_profile_revision_request",
                "profile and mutation identities must be portable identifiers",
            ),
        );
    }
    validate_baseline(profile_id, baseline, candidate)
}

/// What one durable compare-and-swap append does once the accepted head (or
/// the seeded baseline) and the recorded mutation of the client id were read.
#[derive(Debug)]
pub enum AppendPlan {
    /// Report this outcome; nothing is written.
    Report(RevisionAppendOutcome),
    /// Record the candidate as the accepted head together with its mutation,
    /// and report it adopted.
    Adopt,
}

/// Decides one append: a recorded mutation replays its revision when it
/// carried the same candidate and otherwise loses to the current head; a head
/// other than the expected one wins the swap; only then is the candidate
/// adopted.
pub fn plan_append(
    current: &InferenceProfileDescriptor,
    recorded: Option<(String, InferenceProfileDescriptor)>,
    expected_revision_digest: &str,
    candidate: &InferenceProfileDescriptor,
) -> (r: AppendPlan)
    ensures
        match recorded {
            Some((digest, revision)) => if digest@ == candidate.digest@ {
                r matches AppendPlan::Report(o) && o@ == AppendOutcomeView::Replayed(revision@)
            } else {
                r matches AppendPlan::Report(o) && o@ == AppendOutcomeView::Conflict(current@)
            },
            None => if current.digest@ != expected_revision_digest@ {
                r matches AppendPlan::Report(o) && o@ == AppendOutcomeView::Conflict(current@)
            } else {
                r is Adopt
            },
        },
{
    match recorded {
        Some((digest, revision)) => {
            if digest == candidate.digest {
                AppendPlan::Report(RevisionAppendOutcome::Replayed(Box::new(revision)))
            } else {
                AppendPlan::Report(RevisionAppendOutcome::Conflict(Box::new(current.clone())))
            }
        },
        None => {
            if !text_is(&current.digest, expected_revision_digest) {
                AppendPlan::Report(RevisionAppendOutcome::Conflict(Box::new(current.clone())))
            } else {
                AppendPlan::Adopt
            }
        },
    }
}

} // verus!
