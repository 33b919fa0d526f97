//! One authoring-inference proposal, admitted before it is reserved and
//! reserved before the provider is contacted.

use vstd::prelude::*;
use vstd::utf8::encode_utf8;
use crate::auth::{AuthContext, spec_can};
use crate::error::{ErrorClass, ManagementError, Refusal, refusal};
use crate::identity::{is_identifier, validate_identifier};
use crate::authoring_inference::{
    AuthoringInferenceBegin, AuthoringInferenceCost, AuthoringInferenceOperationState,
    DraftRevision, admit_base, admit_catalog, admit_cost, admit_manifest, admit_pinned_profile,
    begin_refusal, pin_refusal, provider_failure_outcome, replay, same_base, state_class,
    state_label,
};
use super::ports::{
    AuthoringCall, AuthoringCapabilities, AuthoringDrafts, AuthoringInferenceCandidate,
    AuthoringInferenceOperationRecord, AuthoringInferenceProposal,
    AuthoringInferenceProviderRequest, AuthoringJournal, AuthoringPorts, AuthoringProvider,
    CandidateDiagnostic, DiagnosticSeverity, severities,
};

verus! {

/// One authoring-inference request: the base draft revision it is authored
/// against, its client mutation identity and request digest, the served
/// revisions it was authored under, the pinned profile, and its bounded
/// requirement and budget.
#[derive(Debug)]
pub struct AuthoringInferenceRequest {
    pub base: DraftRevision,
    pub client_mutation_id: String,
    pub request_digest: String,
    pub manifest_digest: String,
    pub inference_catalog_digest: String,
    pub profile_id: String,
    pub profile_pin: Option<(String, String)>,
    pub requirement_summary: String,
    pub max_stages: u64,
    pub max_candidate_bytes: u64,
    pub max_output_tokens: u64,
}

/// What one operation reserves: one provider call and no output tokens.
pub open spec fn reserved_cost() -> AuthoringInferenceCost {
    AuthoringInferenceCost { provider_calls: 1, output_tokens: 0 }
}

/// Whether a result is a refusal with this class and code.
pub open spec fn refused<T>(r: Result<T, ManagementError>, f: Refusal) -> bool {
    r matches Err(e) && e.refusal() == f
}

/// What an answer is once the journal was asked to complete the operation: the
/// intended answer, unless completing failed, whose error is then returned.
pub open spec fn settled<T>(
    done: Result<(), ManagementError>,
    intended: Refusal,
    r: Result<T, ManagementError>,
) -> bool {
    match done {
        Ok(()) => refused(r, intended),
        Err(ce) => r == Err::<T, ManagementError>(ce),
    }
}

/// The answer to a replayed operation; see [`replay`].
pub open spec fn replay_answer(
    record: AuthoringInferenceOperationRecord,
    r: Result<AuthoringInferenceProposal, ManagementError>,
) -> bool {
    if record.state == AuthoringInferenceOperationState::Proposed {
        match record.proposal {
            Some(p) => r == Ok::<AuthoringInferenceProposal, ManagementError>(p),
            None => refused(
                r,
                refusal(ErrorClass::Conflict, "authoring_inference_replay_unavailable"),
            ),
        }
    } else {
        r matches Err(e) && e.class == state_class(record.state) && e.code@
            == "authoring_inference_replayed_"@ + state_label(record.state)
    }
}

/// The pinned profile reference of a request, as plain values.
pub open spec fn pin_view(pin: Option<(String, String)>) -> Option<(Seq<char>, Seq<char>)> {
    match pin {
        Some((v, d)) => Some((v@, d@)),
        None => None,
    }
}

/// Whether a proposal binds a candidate to the base and the request.
pub open spec fn proposal_binds(
    p: AuthoringInferenceProposal,
    request: AuthoringInferenceRequest,
    candidate: AuthoringInferenceCandidate,
) -> bool {
    &&& p.draft_id@ == request.base.draft_id@
    &&& p.client_mutation_id@ == request.client_mutation_id@
    &&& p.base_revision == request.base.revision
    &&& p.base_etag@ == request.base.etag@
    &&& p.base_definition_digest@ == request.base.definition_digest@
    &&& p.request_digest@ == request.request_digest@
    &&& p.definition@ == candidate.definition@
    &&& p.unsatisfied@ == candidate.unsatisfied@
    &&& p.cost == candidate.cost
}

/// Whether a candidate's encoded definition is over the request's byte budget.
pub open spec fn candidate_oversized(
    candidate: AuthoringInferenceCandidate,
    max_candidate_bytes: u64,
) -> bool {
    encode_utf8(candidate.definition@).len() > max_candidate_bytes
}

/// Whether a call completes the operation as refused for this candidate,
/// recording no proposal, with the refusal's code as its detail.
pub open spec fn completes_refused(
    call: AuthoringCall,
    candidate: AuthoringInferenceCandidate,
    code: Seq<char>,
) -> bool {
    match call {
        AuthoringCall::Complete(state, cost, recorded, detail, _) => state
            == AuthoringInferenceOperationState::Refused && cost == candidate.cost && !recorded
            && detail == code,
        _ => false,
    }
}

/// The calls after the candidate was admitted, from the call at `at` on, and
/// what the endpoint answers: its cost is admitted, and the base is read again;
/// only a base that is still the one authored against completes the operation
/// as proposed.
pub open spec fn admitted_flow(
    request: AuthoringInferenceRequest,
    candidate: AuthoringInferenceCandidate,
    calls: Seq<AuthoringCall>,
    at: int,
    r: Result<AuthoringInferenceProposal, ManagementError>,
) -> bool {
    if !(candidate.cost.provider_calls <= reserved_cost().provider_calls
        && candidate.cost.output_tokens <= request.max_output_tokens) {
        calls.len() == at + 1 && match calls[at] {
            AuthoringCall::Complete(state, cost, recorded, _, done) => state
                == AuthoringInferenceOperationState::BudgetExhausted && cost == candidate.cost
                && !recorded && settled(
                done,
                refusal(ErrorClass::Budget, "authoring_inference_budget_exhausted"),
                r,
            ),
            _ => false,
        }
    } else {
        calls.len() >= at + 1 && match calls[at] {
            AuthoringCall::Draft(draft_id, answer) => draft_id == request.base.draft_id@
                && match answer {
                Err(e) => calls.len() == at + 1 && r == Err::<
                    AuthoringInferenceProposal,
                    ManagementError,
                >(e),
                Ok(None) => calls.len() == at + 1 && refused(
                    r,
                    refusal(ErrorClass::InvalidInput, "authoring_inference_draft_not_found"),
                ),
                Ok(Some(current)) => calls.len() == at + 2 && match calls[at + 1] {
                    AuthoringCall::Complete(state, cost, recorded, _, done) => cost
                        == candidate.cost && if !same_base(current, request.base) {
                        state == AuthoringInferenceOperationState::Refused && !recorded
                            && settled(
                            done,
                            refusal(ErrorClass::Conflict, "authoring_inference_base_conflict"),
                            r,
                        )
                    } else {
                        state == AuthoringInferenceOperationState::Proposed && recorded
                            && match done {
                            Ok(()) => r matches Ok(p) && proposal_binds(p, request, candidate),
                            Err(ce) => r == Err::<AuthoringInferenceProposal, ManagementError>(ce),
                        }
                    },
                    _ => false,
                },
            },
            _ => false,
        }
    }
}

/// The calls after the provider answered with a candidate, and what the
/// endpoint answers. A candidate whose encoded definition is over the byte
/// budget is refused without asking the owner compiler; otherwise the compiler
/// validates it, and a compiler failure or any error finding is refused. A
/// refused candidate completes the operation as refused, whatever completing
/// answers; see [`admitted_flow`] for an admitted one.
pub open spec fn candidate_flow(
    request: AuthoringInferenceRequest,
    candidate: AuthoringInferenceCandidate,
    calls: Seq<AuthoringCall>,
    r: Result<AuthoringInferenceProposal, ManagementError>,
) -> bool {
    if candidate_oversized(candidate, request.max_candidate_bytes) {
        calls.len() == 6 && refused(
            r,
            refusal(ErrorClass::InvalidInput, "authoring_inference_candidate_oversized"),
        ) && completes_refused(calls[5], candidate, "authoring_inference_candidate_oversized"@)
    } else {
        calls.len() >= 6 && match calls[5] {
            AuthoringCall::ValidateCandidate(Err(e)) => calls.len() == 7 && r == Err::<
                AuthoringInferenceProposal,
                ManagementError,
            >(e) && completes_refused(calls[6], candidate, e.code@),
            AuthoringCall::ValidateCandidate(Ok(found)) => if found.contains(
                DiagnosticSeverity::Error,
            ) {
                calls.len() == 7 && refused(
                    r,
                    refusal(ErrorClass::Forbidden, "authoring_inference_candidate_refused"),
                ) && completes_refused(
                    calls[6],
                    candidate,
                    "authoring_inference_candidate_refused"@,
                )
            } else {
                admitted_flow(request, candidate, calls, 6, r)
            },
            _ => false,
        }
    }
}

/// Refuses a candidate whose encoded definition is over the declared byte
/// budget.
pub fn admit_candidate_size(candidate: &AuthoringInferenceCandidate, max_candidate_bytes: u64) -> (r:
    Result<(), ManagementError>)
    ensures
        r is Err <==> candidate_oversized(*candidate, max_candidate_bytes),
        r matches Err(e) ==> e.refusal() == refusal(
            ErrorClass::InvalidInput,
            "authoring_inference_candidate_oversized",
        ),
{
    let length = candidate.definition.as_str().as_bytes().len();
    if length as u64 > max_candidate_bytes {
        return Err(
            ManagementError::invalid(
                "authoring_inference_candidate_oversized",
                "the candidate definition exceeds the declared byte budget",
            ),
        );
    }
    Ok(())
}

/// Refuses a candidate the owner compiler found an error in.
pub fn admit_candidate_diagnostics(diagnostics: &Vec<CandidateDiagnostic>) -> (r: Result<
    (),
    ManagementError,
>)
    ensures
        r is Err <==> severities(diagnostics@).contains(DiagnosticSeverity::Error),
        r matches Err(e) ==> e.refusal() == refusal(
            ErrorClass::Forbidden,
            "authoring_inference_candidate_refused",
        ),
{
    let mut i: usize = 0;
    while i < diagnostics.len()
        invariant
            0 <= i <= diagnostics.len(),
            forall|j: int| 0 <= j < i ==> diagnostics@[j].severity != DiagnosticSeverity::Error,
        decreases diagnostics.len() - i,
    {
        match diagnostics[i].severity {
            DiagnosticSeverity::Error => {
                proof {
                    assert(severities(diagnostics@)[i as int] == DiagnosticSeverity::Error);
                }
                return Err(
                    ManagementError::forbidden(
                        "authoring_inference_candidate_refused",
                        "the owner refused a forbidden node or unavailable capability in the candidate",
                    ),
                );
            },
            _ => {},
        }
        i += 1;
    }
    proof {
        if severities(diagnostics@).contains(DiagnosticSeverity::Error) {
            let j = choose|j: int|
                0 <= j < severities(diagnostics@).len() && severities(diagnostics@)[j]
                    == DiagnosticSeverity::Error;
            assert(diagnostics@[j].severity == DiagnosticSeverity::Error);
        }
    }
    Ok(())
}

/// The calls after the operation was reserved, and what the endpoint answers:
/// the provider is asked once for the request's requirement and limits; a
/// provider failure completes the operation as cancelled when the provider
/// said so and as unknown otherwise, and is returned.
pub open spec fn provider_flow(
    request: AuthoringInferenceRequest,
    calls: Seq<AuthoringCall>,
    r: Result<AuthoringInferenceProposal, ManagementError>,
) -> bool {
    calls.len() >= 6 && match calls[4] {
        AuthoringCall::Propose(summary, stages, bytes, answer) => summary
            == request.requirement_summary@ && stages == request.max_stages && bytes
            == request.max_candidate_bytes && match answer {
            Err(e) => calls.len() == 6 && match calls[5] {
                AuthoringCall::Complete(state, cost, recorded, detail, done) => cost
                    == reserved_cost() && !recorded && (if e.code@
                    == "authoring_inference_cancelled"@ {
                    state == AuthoringInferenceOperationState::Cancelled && detail == e.message@
                } else {
                    state == AuthoringInferenceOperationState::Unknown && detail == e.code@
                }) && match done {
                    Ok(()) => r == Err::<AuthoringInferenceProposal, ManagementError>(e),
                    Err(ce) => r == Err::<AuthoringInferenceProposal, ManagementError>(ce),
                },
                _ => false,
            },
            Ok(candidate) => candidate_flow(request, candidate, calls, r),
        },
        _ => false,
    }
}

/// The calls after the base was admitted, and what the endpoint answers: one
/// operation is reserved for the draft, the client mutation and the request
/// digest; a replayed one answers with its record, one in progress or held by
/// another request is refused, and only a started one reaches the provider.
pub open spec fn reserve_flow(
    request: AuthoringInferenceRequest,
    calls: Seq<AuthoringCall>,
    r: Result<AuthoringInferenceProposal, ManagementError>,
) -> bool {
    calls.len() >= 4 && match calls[3] {
        AuthoringCall::Begin(draft_id, mutation_id, digest, reserved, answer) => draft_id
            == request.base.draft_id@ && mutation_id == request.client_mutation_id@ && digest
            == request.request_digest@ && reserved == reserved_cost() && match answer {
            Err(e) => calls.len() == 4 && r == Err::<AuthoringInferenceProposal, ManagementError>(
                e,
            ),
            Ok(AuthoringInferenceBegin::Replayed(record)) => calls.len() == 4 && replay_answer(
                record,
                r,
            ),
            Ok(AuthoringInferenceBegin::InProgress { .. }) => calls.len() == 4 && refused(
                r,
                refusal(ErrorClass::Conflict, "authoring_inference_operation_in_progress"),
            ),
            Ok(AuthoringInferenceBegin::Conflict { .. }) => calls.len() == 4 && refused(
                r,
                refusal(ErrorClass::Conflict, "authoring_inference_operation_conflict"),
            ),
            Ok(AuthoringInferenceBegin::Started) => provider_flow(request, calls, r),
        },
        _ => false,
    }
}

/// What one proposal request does to the authoring ports and answers. An
/// actor without the authoring scope is refused before anything is asked.
/// The served manifest, the actor's inference catalog, the pinned profile and
/// the base draft are each admitted in that order, and any of them that is
/// unreadable, missing or not the revision authored against ends the request
/// before an operation is reserved or the provider contacted; see
/// [`reserve_flow`] for what follows.
pub open spec fn proposal_flow(
    actor: AuthContext,
    request: AuthoringInferenceRequest,
    calls: Seq<AuthoringCall>,
    r: Result<AuthoringInferenceProposal, ManagementError>,
) -> bool {
    if !spec_can(actor, "workflow:author"@) {
        calls.len() == 0 && refused(r, refusal(ErrorClass::Forbidden, "missing_scope"))
    } else {
        calls.len() >= 1 && match calls[0] {
            AuthoringCall::Manifest(Err(e)) => calls.len() == 1 && r == Err::<
                AuthoringInferenceProposal,
                ManagementError,
            >(e),
            AuthoringCall::Manifest(Ok(manifest)) => if manifest != request.manifest_digest@ {
                calls.len() == 1 && refused(
                    r,
                    refusal(ErrorClass::Conflict, "authoring_inference_manifest_stale"),
                )
            } else {
                calls.len() >= 2 && match calls[1] {
                    AuthoringCall::Catalog(Err(e)) => calls.len() == 2 && r == Err::<
                        AuthoringInferenceProposal,
                        ManagementError,
                    >(e),
                    AuthoringCall::Catalog(Ok(None)) => calls.len() == 2 && refused(
                        r,
                        refusal(ErrorClass::Unavailable, "authoring_inference_catalog_unavailable"),
                    ),
                    AuthoringCall::Catalog(Ok(Some((digest, profiles)))) => if digest
                        != request.inference_catalog_digest@ {
                        calls.len() == 2 && refused(
                            r,
                            refusal(ErrorClass::Conflict, "authoring_inference_catalog_stale"),
                        )
                    } else {
                        match pin_refusal(
                            profiles,
                            request.profile_id@,
                            pin_view(request.profile_pin),
                        ) {
                            Some(f) => calls.len() == 2 && refused(r, f),
                            None => calls.len() >= 3 && match calls[2] {
                                AuthoringCall::Draft(draft_id, answer) => draft_id
                                    == request.base.draft_id@ && match answer {
                                    Err(e) => calls.len() == 3 && r == Err::<
                                        AuthoringInferenceProposal,
                                        ManagementError,
                                    >(e),
                                    Ok(None) => calls.len() == 3 && refused(
                                        r,
                                        refusal(
                                            ErrorClass::InvalidInput,
                                            "authoring_inference_draft_not_found",
                                        ),
                                    ),
                                    Ok(Some(stored)) => if !same_base(stored, request.base) {
                                        calls.len() == 3 && refused(
                                            r,
                                            refusal(
                                                ErrorClass::Conflict,
                                                "authoring_inference_base_conflict",
                                            ),
                                        )
                                    } else {
                                        reserve_flow(request, calls, r)
                                    },
                                },
                                _ => false,
                            },
                        }
                    },
                    _ => false,
                }
            },
            _ => false,
        }
    }
}

/// Reads one recorded operation for an actor that may read workflows: both
/// identities must be portable identifiers, and only the journal's own record
/// answers; nothing else is asked.
pub fn authoring_inference_operation<
    C: AuthoringCapabilities,
    D: AuthoringDrafts,
    J: AuthoringJournal,
    P: AuthoringProvider,
>(
    ports: &mut AuthoringPorts<C, D, J, P>,
    actor: &AuthContext,
    draft_id: &str,
    client_mutation_id: &str,
) -> (r: Result<AuthoringInferenceOperationRecord, ManagementError>)
    ensures
        !spec_can(*actor, "workflow:read"@) ==> refused(
            r,
            refusal(ErrorClass::Forbidden, "missing_scope"),
        ) && final(ports).calls() == old(ports).calls(),
        spec_can(*actor, "workflow:read"@) && !(is_identifier(draft_id@) && is_identifier(
            client_mutation_id@,
        )) ==> (r matches Err(e) && e.class == ErrorClass::InvalidInput && e.code@
            == "invalid_identifier"@) && final(ports).calls() == old(ports).calls(),
        spec_can(*actor, "workflow:read"@) && is_identifier(draft_id@) && is_identifier(
            client_mutation_id@,
        ) ==> final(ports).calls().len() == old(ports).calls().len() + 1
            && final(ports).calls().drop_last() == old(ports).calls()
            && match final(ports).calls().last() {
            AuthoringCall::Get(d, m, answer) => d == draft_id@ && m == client_mutation_id@
                && match answer {
                Ok(Some(record)) => r == Ok::<
                    AuthoringInferenceOperationRecord,
                    ManagementError,
                >(record),
                Ok(None) => refused(
                    r,
                    refusal(ErrorClass::InvalidInput, "authoring_inference_operation_not_found"),
                ),
                Err(e) => r == Err::<AuthoringInferenceOperationRecord, ManagementError>(e),
            },
            _ => false,
        },
{
    proof {
        reveal_strlit("workflow:read");
    }
    if !actor.can("workflow:read") {
        return Err(
            ManagementError::forbidden(
                "missing_scope",
                "authenticated actor lacks the required read scope",
            ),
        );
    }
    match validate_identifier("draft_id", draft_id) {
        Err(e) => return Err(e),
        Ok(()) => {},
    }
    match validate_identifier("client_mutation_id", client_mutation_id) {
        Err(e) => return Err(e),
        Ok(()) => {},
    }
    let ghost before = ports.calls();
    let found = ports.get(draft_id, client_mutation_id);
    assert(ports.calls().drop_last() =~= before);
    match found {
        Err(e) => Err(e),
        Ok(Some(record)) => Ok(record),
        Ok(None) => Err(
            ManagementError::invalid(
                "authoring_inference_operation_not_found",
                "no authoring-inference operation was recorded for that identity",
            ),
        ),
    }
}

fn draft_not_found() -> (e: ManagementError)
    ensures
        e.refusal() == refusal(ErrorClass::InvalidInput, "authoring_inference_draft_not_found"),
{
    ManagementError::invalid("authoring_inference_draft_not_found", "the base draft was not found")
}

/// Returns one proposal for an actor's authoring-inference request; see
/// [`proposal_flow`] for every call it makes on the ports and what it
/// answers.
pub fn authoring_inference_proposal<
    C: AuthoringCapabilities,
    D: AuthoringDrafts,
    J: AuthoringJournal,
    P: AuthoringProvider,
>(
    ports: &mut AuthoringPorts<C, D, J, P>,
    actor: &AuthContext,
    request: &AuthoringInferenceRequest,
) -> (r: Result<AuthoringInferenceProposal, ManagementError>)
    ensures
        final(ports).calls().take(old(ports).calls().len() as int) == old(ports).calls(),
        proposal_flow(
            *actor,
            *request,
            final(ports).calls().skip(old(ports).calls().len() as int),
            r,
        ),
{
    let ghost before = ports.calls();
    let ghost mut seg: Seq<AuthoringCall> = Seq::empty();
    proof {
        reveal_strlit("workflow:author");
        assert(ports.calls() =~= before + seg);
    }
    if !actor.can("workflow:author") {
        assert(ports.calls().skip(before.len() as int) =~= seg);
        assert(ports.calls().take(before.len() as int) =~= before);
        return Err(
            ManagementError::forbidden(
                "missing_scope",
                "authenticated actor lacks the required authoring scope",
            ),
        );
    }
    let manifest = ports.manifest_digest();
    proof {
        seg = seg.push(ports.calls().last());
        assert(ports.calls() =~= before + seg);
        assert(ports.calls().skip(before.len() as int) =~= seg);
        assert(ports.calls().take(before.len() as int) =~= before);
    }
    let manifest = match manifest {
        Ok(m) => m,
        Err(e) => return Err(e),
    };
    match admit_manifest(manifest.as_str(), request.manifest_digest.as_str()) {
        Err(e) => return Err(e),
        Ok(()) => {},
    }
    let catalog = ports.inference_catalog(actor);
    proof {
        seg = seg.push(ports.calls().last());
        assert(ports.calls() =~= before + seg);
        assert(ports.calls().skip(before.len() as int) =~= seg);
        assert(ports.calls().take(before.len() as int) =~= before);
    }
    let catalog = match catalog {
        Err(e) => return Err(e),
        Ok(None) => return Err(
            ManagementError::unavailable(
                "authoring_inference_catalog_unavailable",
                "authoring inference requires an owner-served inference-profile catalog",
            ),
        ),
        Ok(Some(c)) => c,
    };
    match admit_catalog(catalog.catalog_digest.as_str(), request.inference_catalog_digest.as_str()) {
        Err(e) => return Err(e),
        Ok(()) => {},
    }
    let pin = match &request.profile_pin {
        Some((version, digest)) => Some((version.as_str(), digest.as_str())),
        None => None,
    };
    match admit_pinned_profile(&catalog.profiles, request.profile_id.as_str(), pin) {
        Err(e) => return Err(e),
        Ok(()) => {},
    }
    let stored = ports.stored_draft(request.base.draft_id.as_str());
    proof {
        seg = seg.push(ports.calls().last());
        assert(ports.calls() =~= before + seg);
        assert(ports.calls().skip(before.len() as int) =~= seg);
        assert(ports.calls().take(before.len() as int) =~= before);
    }
    let stored = match stored {
        Err(e) => return Err(e),
        Ok(None) => return Err(draft_not_found()),
        Ok(Some(d)) => d,
    };
    let base = match admit_base(&stored, &request.base) {
        Err(e) => return Err(e),
        Ok(b) => b,
    };
    let reserved = AuthoringInferenceCost { provider_calls: 1, output_tokens: 0 };
    let begun = ports.begin(
        request.base.draft_id.as_str(),
        request.client_mutation_id.as_str(),
        request.request_digest.as_str(),
        reserved,
    );
    proof {
        seg = seg.push(ports.calls().last());
        assert(ports.calls() =~= before + seg);
        assert(ports.calls().skip(before.len() as int) =~= seg);
        assert(ports.calls().take(before.len() as int) =~= before);
    }
    match begun {
        Err(e) => return Err(e),
        Ok(AuthoringInferenceBegin::Replayed(record)) => {
            return replay(
                record.state,
                record.proposal,
                record.operation_id.as_str(),
                record.detail.as_str(),
            );
        },
        Ok(b) => match begin_refusal(&b) {
            Some(e) => return Err(e),
            None => {},
        },
    }
    let provider_request = AuthoringInferenceProviderRequest {
        requirement_summary: request.requirement_summary.clone(),
        max_stages: request.max_stages,
        max_candidate_bytes: request.max_candidate_bytes,
    };
    let proposed = ports.propose(&provider_request);
    proof {
        seg = seg.push(ports.calls().last());
        assert(ports.calls() =~= before + seg);
    }
    let candidate = match proposed {
        Ok(c) => c,
        Err(e) => {
            let (state, detail) = provider_failure_outcome(&e);
            let done = ports.complete(
                request.base.draft_id.as_str(),
                request.client_mutation_id.as_str(),
                state,
                reserved,
                None,
                detail.as_str(),
            );
            proof {
                seg = seg.push(ports.calls().last());
                assert(ports.calls() =~= before + seg);
                assert(ports.calls().skip(before.len() as int) =~= seg);
                assert(ports.calls().take(before.len() as int) =~= before);
            }
            match done {
                Err(ce) => return Err(ce),
                Ok(()) => {},
            }
            return Err(e);
        },
    };
    let cost = candidate.cost;
    match admit_candidate_size(&candidate, request.max_candidate_bytes) {
        Err(e) => {
            let _ = ports.complete(
                request.base.draft_id.as_str(),
                request.client_mutation_id.as_str(),
                AuthoringInferenceOperationState::Refused,
                cost,
                None,
                e.code.as_str(),
            );
            proof {
                seg = seg.push(ports.calls().last());
                assert(ports.calls() =~= before + seg);
                assert(ports.calls().skip(before.len() as int) =~= seg);
                assert(ports.calls().take(before.len() as int) =~= before);
                reveal_strlit("authoring_inference_candidate_oversized");
            }
            return Err(e);
        },
        Ok(()) => {},
    }
    let validated = ports.validate_candidate(&candidate);
    proof {
        seg = seg.push(ports.calls().last());
        assert(ports.calls() =~= before + seg);
    }
    let admitted = match validated {
        Err(e) => Err(e),
        Ok(diagnostics) => admit_candidate_diagnostics(&diagnostics),
    };
    match admitted {
        Err(e) => {
            let _ = ports.complete(
                request.base.draft_id.as_str(),
                request.client_mutation_id.as_str(),
                AuthoringInferenceOperationState::Refused,
                cost,
                None,
                e.code.as_str(),
            );
            proof {
                seg = seg.push(ports.calls().last());
                assert(ports.calls() =~= before + seg);
                assert(ports.calls().skip(before.len() as int) =~= seg);
                assert(ports.calls().take(before.len() as int) =~= before);
                reveal_strlit("authoring_inference_candidate_refused");
            }
            return Err(e);
        },
        Ok(()) => {},
    }
    match admit_cost(cost, reserved, request.max_output_tokens) {
        Err(e) => {
            let done = ports.complete(
                request.base.draft_id.as_str(),
                request.client_mutation_id.as_str(),
                AuthoringInferenceOperationState::BudgetExhausted,
                cost,
                None,
                e.message.as_str(),
            );
            proof {
                seg = seg.push(ports.calls().last());
                assert(ports.calls() =~= before + seg);
                assert(ports.calls().skip(before.len() as int) =~= seg);
                assert(ports.calls().take(before.len() as int) =~= before);
            }
            match done {
                Err(ce) => return Err(ce),
                Ok(()) => {},
            }
            return Err(e);
        },
        Ok(()) => {},
    }
    let current = ports.stored_draft(request.base.draft_id.as_str());
    proof {
        seg = seg.push(ports.calls().last());
        assert(ports.calls() =~= before + seg);
        assert(ports.calls().skip(before.len() as int) =~= seg);
        assert(ports.calls().take(before.len() as int) =~= before);
    }
    let current = match current {
        Err(e) => return Err(e),
        Ok(None) => return Err(draft_not_found()),
        Ok(Some(d)) => d,
    };
    match admit_base(&current, &base) {
        Err(e) => {
            let done = ports.complete(
                request.base.draft_id.as_str(),
                request.client_mutation_id.as_str(),
                AuthoringInferenceOperationState::Refused,
                cost,
                None,
                e.message.as_str(),
            );
            proof {
                seg = seg.push(ports.calls().last());
                assert(ports.calls() =~= before + seg);
                assert(ports.calls().skip(before.len() as int) =~= seg);
                assert(ports.calls().take(before.len() as int) =~= before);
            }
            match done {
                Err(ce) => return Err(ce),
                Ok(()) => {},
            }
            return Err(e);
        },
        Ok(_) => {},
    }
    let ghost unsatisfied = candidate.unsatisfied@;
    let ghost definition = candidate.definition@;
    let proposal = AuthoringInferenceProposal {
        draft_id: request.base.draft_id.clone(),
        client_mutation_id: request.client_mutation_id.clone(),
        base_revision: base.revision,
        base_etag: base.etag.clone(),
        base_definition_digest: base.definition_digest.clone(),
        request_digest: request.request_digest.clone(),
        definition: candidate.definition,
        unsatisfied: candidate.unsatisfied,
        cost,
    };
    let done = ports.complete(
        request.base.draft_id.as_str(),
        request.client_mutation_id.as_str(),
        AuthoringInferenceOperationState::Proposed,
        cost,
        Some(&proposal),
        "proposal returned; no draft, publish or run effect",
    );
    proof {
        seg = seg.push(ports.calls().last());
        assert(ports.calls() =~= before + seg);
        assert(ports.calls().skip(before.len() as int) =~= seg);
        assert(ports.calls().take(before.len() as int) =~= before);
    }
    match done {
        Err(ce) => return Err(ce),
        Ok(()) => {},
    }
    Ok(proposal)
}

} // verus!
