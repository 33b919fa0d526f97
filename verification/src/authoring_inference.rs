//! Admission fences and outcome decisions of the proposal-only
//! authoring-inference endpoint.
//!
//! Every fence is a refusal, not an authority: a manifest, catalog, pinned
//! profile or base that does not exactly match the served revision is refused
//! before a proposal exists; a replayed operation answers with what it
//! recorded; a provider failure is settled as cancelled only when the provider
//! said so, and otherwise stays unknown; a candidate over its declared budget
//! is refused.

use vstd::prelude::*;
use crate::error::{ErrorClass, ManagementError, Refusal, refusal, text_is};
use crate::inference_profile::InferenceProfileDescriptor;

verus! {

/// The recorded state of one authoring-inference operation.
#[derive(Clone, Copy, Debug, PartialEq, Eq, Structural)]
pub enum AuthoringInferenceOperationState {
    Pending,
    Proposed,
    Refused,
    BudgetExhausted,
    Cancelled,
    Unknown,
}

/// The stable label of an operation state.
pub open spec fn state_label(state: AuthoringInferenceOperationState) -> Seq<char> {
    match state {
        AuthoringInferenceOperationState::Pending => "pending"@,
        AuthoringInferenceOperationState::Proposed => "proposed"@,
        AuthoringInferenceOperationState::Refused => "refused"@,
        AuthoringInferenceOperationState::BudgetExhausted => "budget_exhausted"@,
        AuthoringInferenceOperationState::Cancelled => "cancelled"@,
        AuthoringInferenceOperationState::Unknown => "unknown"@,
    }
}

/// The class a replay of a completed operation is refused under.
pub open spec fn state_class(state: AuthoringInferenceOperationState) -> ErrorClass {
    match state {
        AuthoringInferenceOperationState::BudgetExhausted => ErrorClass::Budget,
        AuthoringInferenceOperationState::Cancelled => ErrorClass::Conflict,
        AuthoringInferenceOperationState::Unknown => ErrorClass::Unresolved,
        AuthoringInferenceOperationState::Refused => ErrorClass::Forbidden,
        AuthoringInferenceOperationState::Pending => ErrorClass::Conflict,
        AuthoringInferenceOperationState::Proposed => ErrorClass::Conflict,
    }
}

fn replay_label(state: AuthoringInferenceOperationState) -> (r: &'static str)
    ensures
        r@ == state_label(state),
{
    match state {
        AuthoringInferenceOperationState::Pending => "pending",
        AuthoringInferenceOperationState::Proposed => "proposed",
        AuthoringInferenceOperationState::Refused => "refused",
        AuthoringInferenceOperationState::BudgetExhausted => "budget_exhausted",
        AuthoringInferenceOperationState::Cancelled => "cancelled",
        AuthoringInferenceOperationState::Unknown => "unknown",
    }
}

fn replay_class(state: AuthoringInferenceOperationState) -> (r: ErrorClass)
    ensures
        r == state_class(state),
{
    match state {
        AuthoringInferenceOperationState::BudgetExhausted => ErrorClass::Budget,
        AuthoringInferenceOperationState::Cancelled => ErrorClass::Conflict,
        AuthoringInferenceOperationState::Unknown => ErrorClass::Unresolved,
        AuthoringInferenceOperationState::Refused => ErrorClass::Forbidden,
        _ => ErrorClass::Conflict,
    }
}

/// Answers a replayed operation: a proposed one returns the proposal it
/// recorded, or refuses when its body is unavailable; any other state is
/// refused under its class with the code naming that state.
pub fn replay<P>(
    state: AuthoringInferenceOperationState,
    proposal: Option<P>,
    operation_id: &str,
    detail: &str,
) -> (r: Result<P, ManagementError>)
    ensures
        state == AuthoringInferenceOperationState::Proposed ==> match proposal {
            Some(p) => r == Ok::<P, ManagementError>(p),
            None => r matches Err(e) && e.refusal() == refusal(
                ErrorClass::Conflict,
                "authoring_inference_replay_unavailable",
            ),
        },
        state != AuthoringInferenceOperationState::Proposed ==> (r matches Err(e) && e.class
            == state_class(state) && e.code@ == "authoring_inference_replayed_"@ + state_label(
            state,
        )),
{
    if state == AuthoringInferenceOperationState::Proposed {
        return match proposal {
            Some(p) => Ok(p),
            None => Err(
                ManagementError::conflict(
                    "authoring_inference_replay_unavailable",
                    "the recorded proposal body is unavailable; retry with a new mutation identity",
                ),
            ),
        };
    }
    let label = replay_label(state);
    let mut code = "authoring_inference_replayed_".to_owned();
    code.append(label);
    let mut message = "operation ".to_owned();
    message.append(operation_id);
    message.append(" already completed with state ");
    message.append(label);
    message.append(": ");
    message.append(detail);
    Err(ManagementError { class: replay_class(state), code, message })
}

/// What reserving an operation in the journal found.
#[derive(Debug)]
pub enum AuthoringInferenceBegin<R> {
    /// A new operation is reserved.
    Started,
    /// The same request already completed; its record answers it.
    Replayed(R),
    /// The same request is reserved and unresolved.
    InProgress { operation_id: String },
    /// A different request holds the operation identity.
    Conflict { operation_id: String },
}

/// The refusal of a reservation that neither started nor replays, if any.
pub fn begin_refusal<R>(begin: &AuthoringInferenceBegin<R>) -> (r: Option<ManagementError>)
    ensures
        match begin {
            AuthoringInferenceBegin::InProgress { .. } => r matches Some(e) && e.refusal()
                == refusal(ErrorClass::Conflict, "authoring_inference_operation_in_progress"),
            AuthoringInferenceBegin::Conflict { .. } => r matches Some(e) && e.refusal() == refusal(
                ErrorClass::Conflict,
                "authoring_inference_operation_conflict",
            ),
            _ => r is None,
        },
{
    match begin {
        AuthoringInferenceBegin::InProgress { operation_id } => {
            let mut message = "operation ".to_owned();
            message.append(operation_id.as_str());
            message.append(" is already reserved and unresolved");
            Some(ManagementError::conflict("authoring_inference_operation_in_progress", message.as_str()))
        },
        AuthoringInferenceBegin::Conflict { operation_id } => {
            let mut message = "operation ".to_owned();
            message.append(operation_id.as_str());
            message.append(" is held by a different request");
            Some(ManagementError::conflict("authoring_inference_operation_conflict", message.as_str()))
        },
        _ => None,
    }
}

/// How a provider failure settles the reserved operation: cancelled when the
/// provider reported a cancellation, recorded with its message; otherwise
/// unknown, recorded with its code, since the provider may have been reached.
pub fn provider_failure_outcome(error: &ManagementError) -> (r: (
    AuthoringInferenceOperationState,
    String,
))
    ensures
        error.code@ == "authoring_inference_cancelled"@ ==> r.0
            == AuthoringInferenceOperationState::Cancelled && r.1@ == error.message@,
        error.code@ != "authoring_inference_cancelled"@ ==> r.0
            == AuthoringInferenceOperationState::Unknown && r.1@ == error.code@,
{
    if text_is(&error.code, "authoring_inference_cancelled") {
        (AuthoringInferenceOperationState::Cancelled, error.message.clone())
    } else {
        (AuthoringInferenceOperationState::Unknown, error.code.clone())
    }
}

/// The provider calls and output tokens an operation spent or reserved.
#[derive(Clone, Copy, Debug, PartialEq, Eq, Structural)]
pub struct AuthoringInferenceCost {
    pub provider_calls: u64,
    pub output_tokens: u64,
}

/// Admits what a candidate cost against the reservation and the declared
/// output budget.
pub fn admit_cost(
    cost: AuthoringInferenceCost,
    reserved: AuthoringInferenceCost,
    max_output_tokens: u64,
) -> (r: Result<(), ManagementError>)
    ensures
        r is Ok <==> (cost.provider_calls <= reserved.provider_calls && cost.output_tokens
            <= max_output_tokens),
        r matches Err(e) ==> e.refusal() == refusal(
            ErrorClass::Budget,
            "authoring_inference_budget_exhausted",
        ),
{
    if cost.provider_calls > reserved.provider_calls || cost.output_tokens > max_output_tokens {
        return Err(
            ManagementError::budget(
                "authoring_inference_budget_exhausted",
                "the candidate exceeded its declared generation budget",
            ),
        );
    }
    Ok(())
}

/// Admits the served capability manifest against the authored digest.
pub fn admit_manifest(manifest_digest: &str, expected: &str) -> (r: Result<(), ManagementError>)
    ensures
        r is Ok <==> manifest_digest@ == expected@,
        r matches Err(e) ==> e.refusal() == refusal(
            ErrorClass::Conflict,
            "authoring_inference_manifest_stale",
        ),
{
    if !text_is(&manifest_digest.to_owned(), expected) {
        return Err(
            ManagementError::conflict(
                "authoring_inference_manifest_stale",
                "the authored capability-manifest digest is not the served revision",
            ),
        );
    }
    Ok(())
}

/// Admits the served inference catalog against the authored digest.
pub fn admit_catalog(catalog_digest: &str, expected: &str) -> (r: Result<(), ManagementError>)
    ensures
        r is Ok <==> catalog_digest@ == expected@,
        r matches Err(e) ==> e.refusal() == refusal(
            ErrorClass::Conflict,
            "authoring_inference_catalog_stale",
        ),
{
    if !text_is(&catalog_digest.to_owned(), expected) {
        return Err(
            ManagementError::conflict(
                "authoring_inference_catalog_stale",
                "the authored inference catalog digest is not the served revision",
            ),
        );
    }
    Ok(())
}

/// The first served revision of a profile at a version, if any.
pub open spec fn served_revision(
    descriptors: Seq<InferenceProfileDescriptor>,
    profile_id: Seq<char>,
    version: Seq<char>,
) -> Option<InferenceProfileDescriptor>
    decreases descriptors.len(),
{
    if descriptors.len() == 0 {
        None
    } else if descriptors[0].profile_id@ == profile_id && descriptors[0].version@ == version {
        Some(descriptors[0])
    } else {
        served_revision(descriptors.drop_first(), profile_id, version)
    }
}

/// The refusal of a pinned profile reference against the served profiles, if
/// any: the pin is mandatory, the pinned version must be served, and at the
/// pinned digest.
pub open spec fn pin_refusal(
    descriptors: Seq<InferenceProfileDescriptor>,
    profile_id: Seq<char>,
    pin: Option<(Seq<char>, Seq<char>)>,
) -> Option<Refusal> {
    match pin {
        None => Some(refusal(ErrorClass::InvalidInput, "authoring_inference_profile_unpinned")),
        Some((version, digest)) => match served_revision(descriptors, profile_id, version) {
            None => Some(refusal(ErrorClass::Unavailable, "authoring_inference_profile_unknown")),
            Some(d) => if d.digest@ == digest {
                None
            } else {
                Some(refusal(ErrorClass::Conflict, "authoring_inference_profile_stale"))
            },
        },
    }
}

/// Admits a pinned profile reference against the served catalog: the pin is
/// mandatory, the pinned version must be served, and at the pinned digest.
pub fn admit_pinned_profile(
    descriptors: &Vec<InferenceProfileDescriptor>,
    profile_id: &str,
    pin: Option<(&str, &str)>,
) -> (r: Result<(), ManagementError>)
    ensures
        match pin_refusal(
            descriptors@,
            profile_id@,
            match pin {
                Some((v, d)) => Some((v@, d@)),
                None => None,
            },
        ) {
            Some(f) => r matches Err(e) && e.refusal() == f,
            None => r is Ok,
        },
        match pin {
            None => r matches Err(e) && e.refusal() == refusal(
                ErrorClass::InvalidInput,
                "authoring_inference_profile_unpinned",
            ),
            Some((version, digest)) => match served_revision(descriptors@, profile_id@, version@) {
                None => r matches Err(e) && e.refusal() == refusal(
                    ErrorClass::Unavailable,
                    "authoring_inference_profile_unknown",
                ),
                Some(d) => if d.digest@ == digest@ {
                    r is Ok
                } else {
                    r matches Err(e) && e.refusal() == refusal(
                        ErrorClass::Conflict,
                        "authoring_inference_profile_stale",
                    )
                },
            },
        },
{
    let (version, digest) = match pin {
        None => return Err(
            ManagementError::invalid(
                "authoring_inference_profile_unpinned",
                "authoring inference requires an exact profile_id:version:digest reference",
            ),
        ),
        Some(p) => p,
    };
    let ghost s = descriptors@;
    let mut i: usize = 0;
    assert(s.skip(0) =~= s);
    while i < descriptors.len()
        invariant
            i <= descriptors.len(),
            s == descriptors@,
            pin == Some((version, digest)),
            served_revision(s, profile_id@, version@) == served_revision(
                s.skip(i as int),
                profile_id@,
                version@,
            ),
        decreases descriptors.len() - i,
    {
        assert(s.skip(i as int).drop_first() =~= s.skip(i + 1));
        assert(s.skip(i as int)[0] == s[i as int]);
        let d = &descriptors[i];
        if text_is(&d.profile_id, profile_id) && text_is(&d.version, version) {
            if !text_is(&d.digest, digest) {
                return Err(
                    ManagementError::conflict(
                        "authoring_inference_profile_stale",
                        "the pinned inference profile digest is not the served revision",
                    ),
                );
            }
            return Ok(());
        }
        i = i + 1;
    }
    assert(s.skip(i as int).len() == 0);
    Err(
        ManagementError::unavailable(
            "authoring_inference_profile_unknown",
            "the served catalog does not advertise this inference profile revision",
        ),
    )
}

/// One revision of a Studio draft, identified by its revision, entity tag and
/// definition digest.
#[derive(Clone, Debug, PartialEq, Eq)]
pub struct DraftRevision {
    pub draft_id: String,
    pub revision: u64,
    pub etag: String,
    pub definition_digest: String,
}

/// Whether a served draft is exactly the base an operation was authored
/// against.
pub open spec fn same_base(served: DraftRevision, base: DraftRevision) -> bool {
    served.revision == base.revision && served.etag@ == base.etag@ && served.definition_digest@
        == base.definition_digest@
}

/// Admits the served draft as the base of an operation, before the provider is
/// contacted and again after it answered: a concurrent draft change wins, and
/// the operation loses with an actionable conflict.
pub fn admit_base(served: &DraftRevision, base: &DraftRevision) -> (r: Result<
    DraftRevision,
    ManagementError,
>)
    ensures
        r is Ok <==> same_base(*served, *base),
        r matches Ok(b) ==> same_base(b, *served) && b.draft_id@ == served.draft_id@,
        r matches Err(e) ==> e.refusal() == refusal(
            ErrorClass::Conflict,
            "authoring_inference_base_conflict",
        ),
{
    if served.revision != base.revision || !(served.etag == base.etag) || !(
    served.definition_digest == base.definition_digest) {
        return Err(
            ManagementError::conflict(
                "authoring_inference_base_conflict",
                "the draft is at another revision; re-author against the served revision",
            ),
        );
    }
    Ok(
        DraftRevision {
            draft_id: served.draft_id.clone(),
            revision: served.revision,
            etag: served.etag.clone(),
            definition_digest: served.definition_digest.clone(),
        },
    )
}

} // verus!
