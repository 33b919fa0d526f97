use harness::authoring_inference::{
    AuthoringInferenceBegin, AuthoringInferenceCost, AuthoringInferenceOperationState, DraftRevision,
};
use harness::authoring_proposal::{
    authoring_inference_operation, authoring_inference_proposal, AuthoringCapabilities, AuthoringDrafts,
    AuthoringInferenceCandidate, AuthoringInferenceOperationRecord, AuthoringInferenceProposal,
    AuthoringInferenceProviderRequest, AuthoringInferenceRequest, AuthoringJournal,
    AuthoringPorts, AuthoringProvider, CandidateDiagnostic, DiagnosticSeverity,
    ServedInferenceCatalog,
};
use harness::{
    AuthContext, ErrorClass, InferenceProfileBudgets, InferenceProfileDescriptor,
    InferenceProfileGrants, InferenceProfileState, ManagementError,
};
use std::cell::RefCell;
use std::rc::Rc;

type Steps = Rc<RefCell<Vec<String>>>;

fn descriptor() -> InferenceProfileDescriptor {
    InferenceProfileDescriptor {
        profile_id: "author.v1".to_owned(),
        version: "1.0.0".to_owned(),
        digest: "d1".to_owned(),
        adapter: "exo".to_owned(),
        requested_model: "model-1".to_owned(),
        resolved_model: "model-1".to_owned(),
        node_kinds: vec!["author".to_owned()],
        operations: vec!["authoring".to_owned()],
        context_compatibility: vec![],
        continuity: "stateless".to_owned(),
        state: InferenceProfileState::Available,
        grants: InferenceProfileGrants { edit: false },
        prompt_revision: "prompt-1".to_owned(),
        settings_revision: "settings-1".to_owned(),
        supported_settings: vec![],
        effective_budgets: InferenceProfileBudgets {
            max_input_tokens: 1000,
            max_output_tokens: 100,
        },
    }
}

fn draft(revision: u64) -> DraftRevision {
    DraftRevision {
        draft_id: "draft-1".to_owned(),
        revision,
        etag: format!("etag-{revision}"),
        definition_digest: "def-1".to_owned(),
    }
}

struct Capabilities {
    manifest: String,
    findings: Vec<DiagnosticSeverity>,
    steps: Steps,
}

impl AuthoringCapabilities for Capabilities {
    fn manifest_digest(&mut self) -> Result<String, ManagementError> {
        self.steps.borrow_mut().push("manifest".to_owned());
        Ok(self.manifest.clone())
    }

    fn inference_catalog(
        &mut self,
        _actor: &AuthContext,
    ) -> Result<Option<ServedInferenceCatalog>, ManagementError> {
        self.steps.borrow_mut().push("catalog".to_owned());
        Ok(Some(ServedInferenceCatalog {
            catalog_digest: "catalog-1".to_owned(),
            profiles: vec![descriptor()],
        }))
    }

    fn validate_candidate(
        &mut self,
        _candidate: &AuthoringInferenceCandidate,
    ) -> Result<Vec<CandidateDiagnostic>, ManagementError> {
        self.steps.borrow_mut().push("validate".to_owned());
        Ok(self
            .findings
            .iter()
            .map(|severity| CandidateDiagnostic {
                severity: *severity,
                code: "finding".to_owned(),
                message: "a finding".to_owned(),
            })
            .collect())
    }
}

/// Serves revision 1 on the first read and `later` on every read after it.
struct Drafts {
    later: u64,
    reads: u64,
    steps: Steps,
}

impl AuthoringDrafts for Drafts {
    fn stored_draft(&mut self, _draft_id: &str) -> Result<Option<DraftRevision>, ManagementError> {
        self.steps.borrow_mut().push("draft".to_owned());
        self.reads += 1;
        Ok(Some(draft(if self.reads == 1 { 1 } else { self.later })))
    }
}

struct Journal {
    steps: Steps,
}

impl AuthoringJournal for Journal {
    fn begin(
        &mut self,
        _draft_id: &str,
        _client_mutation_id: &str,
        _request_digest: &str,
        _reserved: AuthoringInferenceCost,
    ) -> Result<AuthoringInferenceBegin<AuthoringInferenceOperationRecord>, ManagementError> {
        self.steps.borrow_mut().push("begin".to_owned());
        Ok(AuthoringInferenceBegin::Started)
    }

    fn complete(
        &mut self,
        _draft_id: &str,
        _client_mutation_id: &str,
        state: AuthoringInferenceOperationState,
        _cost: AuthoringInferenceCost,
        _proposal: Option<&AuthoringInferenceProposal>,
        _detail: &str,
    ) -> Result<(), ManagementError> {
        self.steps.borrow_mut().push(format!("complete:{state:?}"));
        Ok(())
    }

    fn get(
        &mut self,
        _draft_id: &str,
        client_mutation_id: &str,
    ) -> Result<Option<AuthoringInferenceOperationRecord>, ManagementError> {
        self.steps.borrow_mut().push("get".to_owned());
        if client_mutation_id == "mutation-1" {
            Ok(Some(AuthoringInferenceOperationRecord {
                operation_id: "op-1".to_owned(),
                state: AuthoringInferenceOperationState::Refused,
                proposal: None,
                detail: "refused".to_owned(),
            }))
        } else {
            Ok(None)
        }
    }
}

struct Provider {
    steps: Steps,
}

impl AuthoringProvider for Provider {
    fn propose(
        &mut self,
        request: &AuthoringInferenceProviderRequest,
    ) -> Result<AuthoringInferenceCandidate, ManagementError> {
        self.steps
            .borrow_mut()
            .push(format!("propose:{}", request.requirement_summary));
        Ok(AuthoringInferenceCandidate {
            definition: "{\"graph\":[]}".to_owned(),
            unsatisfied: vec![],
            cost: AuthoringInferenceCost {
                provider_calls: 1,
                output_tokens: 10,
            },
        })
    }
}

fn ports(
    manifest: &str,
    later: u64,
) -> (
    AuthoringPorts<Capabilities, Drafts, Journal, Provider>,
    Steps,
) {
    ports_with_findings(manifest, later, vec![DiagnosticSeverity::Warning])
}

fn ports_with_findings(
    manifest: &str,
    later: u64,
    findings: Vec<DiagnosticSeverity>,
) -> (
    AuthoringPorts<Capabilities, Drafts, Journal, Provider>,
    Steps,
) {
    let steps: Steps = Rc::new(RefCell::new(Vec::new()));
    let ports = AuthoringPorts::new(
        Capabilities {
            manifest: manifest.to_owned(),
            findings,
            steps: Rc::clone(&steps),
        },
        Drafts {
            later,
            reads: 0,
            steps: Rc::clone(&steps),
        },
        Journal {
            steps: Rc::clone(&steps),
        },
        Provider {
            steps: Rc::clone(&steps),
        },
    );
    (ports, steps)
}

fn author() -> AuthContext {
    AuthContext {
        actor_id: "author-1".to_owned(),
        scopes: vec!["workflow:author".to_owned()],
        runs: None,
    }
}

fn request() -> AuthoringInferenceRequest {
    AuthoringInferenceRequest {
        base: draft(1),
        client_mutation_id: "mutation-1".to_owned(),
        request_digest: "request-1".to_owned(),
        manifest_digest: "manifest-1".to_owned(),
        inference_catalog_digest: "catalog-1".to_owned(),
        profile_id: "author.v1".to_owned(),
        profile_pin: Some(("1.0.0".to_owned(), "d1".to_owned())),
        requirement_summary: "two stages".to_owned(),
        max_stages: 2,
        max_candidate_bytes: 4096,
        max_output_tokens: 100,
    }
}

#[test]
fn a_proposal_is_admitted_before_it_is_reserved_and_reserved_before_the_provider() {
    let (mut ports, steps) = ports("manifest-1", 1);
    let proposal = authoring_inference_proposal(&mut ports, &author(), &request())
        .expect("an admitted request is proposed");
    assert_eq!(proposal.base_revision, 1);
    assert_eq!(proposal.request_digest, "request-1");
    assert_eq!(proposal.definition, "{\"graph\":[]}");
    assert_eq!(
        *steps.borrow(),
        vec![
            "manifest",
            "catalog",
            "draft",
            "begin",
            "propose:two stages",
            "validate",
            "draft",
            "complete:Proposed"
        ]
    );
}

#[test]
fn a_stale_manifest_is_refused_before_any_reservation_or_provider_call() {
    let (mut ports, steps) = ports("manifest-2", 1);
    let error = authoring_inference_proposal(&mut ports, &author(), &request())
        .expect_err("a stale manifest is refused");
    assert_eq!(error.code, "authoring_inference_manifest_stale");
    assert_eq!(error.class, ErrorClass::Conflict);
    assert_eq!(*steps.borrow(), vec!["manifest"]);
}

#[test]
fn a_draft_changed_during_inference_loses_the_proposal() {
    let (mut ports, steps) = ports("manifest-1", 2);
    let error = authoring_inference_proposal(&mut ports, &author(), &request())
        .expect_err("a concurrent draft edit wins");
    assert_eq!(error.code, "authoring_inference_base_conflict");
    assert_eq!(steps.borrow().last().map(String::as_str), Some("complete:Refused"));
}

#[test]
fn an_actor_without_the_authoring_scope_reaches_no_port() {
    let (mut ports, steps) = ports("manifest-1", 1);
    let reader = AuthContext {
        actor_id: "reader-1".to_owned(),
        scopes: vec!["workflow:read".to_owned()],
        runs: None,
    };
    let error = authoring_inference_proposal(&mut ports, &reader, &request())
        .expect_err("no authoring scope");
    assert_eq!(error.code, "missing_scope");
    assert!(steps.borrow().is_empty());
}

#[test]
fn a_recorded_operation_is_read_only_through_the_journal() {
    let (mut ports, steps) = ports("manifest-1", 1);
    let reader = AuthContext {
        actor_id: "reader-1".to_owned(),
        scopes: vec!["workflow:read".to_owned()],
        runs: None,
    };
    let record = authoring_inference_operation(&mut ports, &reader, "draft-1", "mutation-1")
        .expect("the recorded operation is read");
    assert_eq!(record.operation_id, "op-1");
    let missing = authoring_inference_operation(&mut ports, &reader, "draft-1", "mutation-2")
        .expect_err("nothing recorded");
    assert_eq!(missing.code, "authoring_inference_operation_not_found");
    let invalid = authoring_inference_operation(&mut ports, &reader, "draft 1", "mutation-1")
        .expect_err("not an identifier");
    assert_eq!(invalid.code, "invalid_identifier");
    assert_eq!(*steps.borrow(), vec!["get", "get"]);
}

#[test]
fn an_oversized_candidate_is_refused_before_the_owner_compiler() {
    let (mut ports, steps) = ports("manifest-1", 1);
    let mut small = request();
    small.max_candidate_bytes = 11;
    let error = authoring_inference_proposal(&mut ports, &author(), &small)
        .expect_err("the twelve-byte candidate is over an eleven-byte budget");
    assert_eq!(error.code, "authoring_inference_candidate_oversized");
    assert_eq!(error.class, ErrorClass::InvalidInput);
    assert_eq!(
        *steps.borrow(),
        vec!["manifest", "catalog", "draft", "begin", "propose:two stages", "complete:Refused"]
    );
    let (mut fresh, _) = self::ports("manifest-1", 1);
    let mut exact = request();
    exact.max_candidate_bytes = 12;
    assert!(authoring_inference_proposal(&mut fresh, &author(), &exact).is_ok());
}

#[test]
fn an_error_finding_refuses_the_candidate() {
    let (mut ports, steps) = ports_with_findings(
        "manifest-1",
        1,
        vec![DiagnosticSeverity::Warning, DiagnosticSeverity::Error],
    );
    let error = authoring_inference_proposal(&mut ports, &author(), &request())
        .expect_err("an error finding refuses the candidate");
    assert_eq!(error.code, "authoring_inference_candidate_refused");
    assert_eq!(error.class, ErrorClass::Forbidden);
    assert_eq!(
        *steps.borrow(),
        vec![
            "manifest",
            "catalog",
            "draft",
            "begin",
            "propose:two stages",
            "validate",
            "complete:Refused"
        ]
    );
}
