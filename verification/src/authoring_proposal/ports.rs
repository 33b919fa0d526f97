//! The owner ports one authoring-inference proposal reaches, held together
//! with the log of the calls made on them, in order, and what each answered.
//! Only the methods here add to the log, one entry for each call they make.

use vstd::prelude::*;
use crate::auth::AuthContext;
use crate::error::ManagementError;
use crate::inference_profile::InferenceProfileDescriptor;
use crate::authoring_inference::{
    AuthoringInferenceBegin, AuthoringInferenceCost, AuthoringInferenceOperationState,
    DraftRevision,
};

verus! {

/// The inference-profile catalog the owner serves to an actor.
#[derive(Debug)]
pub struct ServedInferenceCatalog {
    pub catalog_digest: String,
    pub profiles: Vec<InferenceProfileDescriptor>,
}

/// The bounded request the provider is asked to author a candidate for.
#[derive(Debug)]
pub struct AuthoringInferenceProviderRequest {
    pub requirement_summary: String,
    pub max_stages: u64,
    pub max_candidate_bytes: u64,
}

/// A candidate definition the provider authored, with what it cost.
#[derive(Debug)]
pub struct AuthoringInferenceCandidate {
    pub definition: String,
    pub unsatisfied: Vec<String>,
    pub cost: AuthoringInferenceCost,
}

/// How severe one finding of the owner compiler is.
#[derive(Clone, Copy, Debug, PartialEq, Eq, Structural)]
pub enum DiagnosticSeverity {
    Error,
    Warning,
    Info,
}

/// One finding of the owner compiler on a candidate definition.
#[derive(Debug)]
pub struct CandidateDiagnostic {
    pub severity: DiagnosticSeverity,
    pub code: String,
    pub message: String,
}

/// The severities of a sequence of findings, in order.
pub open spec fn severities(diagnostics: Seq<CandidateDiagnostic>) -> Seq<DiagnosticSeverity> {
    diagnostics.map_values(|d: CandidateDiagnostic| d.severity)
}

/// A proposal: a candidate bound to the base it was authored against and the
/// request it answers. It is data only; nothing is written, published or run.
#[derive(Debug)]
pub struct AuthoringInferenceProposal {
    pub draft_id: String,
    pub client_mutation_id: String,
    pub base_revision: u64,
    pub base_etag: String,
    pub base_definition_digest: String,
    pub request_digest: String,
    pub definition: String,
    pub unsatisfied: Vec<String>,
    pub cost: AuthoringInferenceCost,
}

/// One completed operation, as the journal recorded it.
#[derive(Debug)]
pub struct AuthoringInferenceOperationRecord {
    pub operation_id: String,
    pub state: AuthoringInferenceOperationState,
    pub proposal: Option<AuthoringInferenceProposal>,
    pub detail: String,
}

/// The served capabilities: the manifest digest, the actor's inference
/// catalog, and the owner compiler's validation of a candidate.
pub trait AuthoringCapabilities {
    fn manifest_digest(&mut self) -> Result<String, ManagementError>;

    fn inference_catalog(&mut self, actor: &AuthContext) -> Result<
        Option<ServedInferenceCatalog>,
        ManagementError,
    >;

    /// Decodes the candidate and validates it against the served capabilities
    /// exactly as a live submission would be: a candidate that cannot be
    /// decoded, or whose inference-profile references do not resolve to a
    /// served revision, is an error; otherwise the compiler's findings.
    fn validate_candidate(&mut self, candidate: &AuthoringInferenceCandidate) -> Result<
        Vec<CandidateDiagnostic>,
        ManagementError,
    >;
}

/// The Studio draft store.
pub trait AuthoringDrafts {
    fn stored_draft(&mut self, draft_id: &str) -> Result<Option<DraftRevision>, ManagementError>;
}

/// The authoring-inference operation journal, keyed by draft and client
/// mutation.
pub trait AuthoringJournal {
    fn begin(
        &mut self,
        draft_id: &str,
        client_mutation_id: &str,
        request_digest: &str,
        reserved: AuthoringInferenceCost,
    ) -> Result<AuthoringInferenceBegin<AuthoringInferenceOperationRecord>, ManagementError>;

    fn complete(
        &mut self,
        draft_id: &str,
        client_mutation_id: &str,
        state: AuthoringInferenceOperationState,
        cost: AuthoringInferenceCost,
        proposal: Option<&AuthoringInferenceProposal>,
        detail: &str,
    ) -> Result<(), ManagementError>;

    fn get(&mut self, draft_id: &str, client_mutation_id: &str) -> Result<
        Option<AuthoringInferenceOperationRecord>,
        ManagementError,
    >;
}

/// The attached authoring provider.
pub trait AuthoringProvider {
    fn propose(&mut self, request: &AuthoringInferenceProviderRequest) -> Result<
        AuthoringInferenceCandidate,
        ManagementError,
    >;
}

/// One call made on the authoring ports, with its answer.
pub enum AuthoringCall {
    /// The served manifest digest was read.
    Manifest(Result<Seq<char>, ManagementError>),
    /// The actor's inference catalog was read: its digest and profiles.
    Catalog(Result<Option<(Seq<char>, Seq<InferenceProfileDescriptor>)>, ManagementError>),
    /// A draft was read.
    Draft(Seq<char>, Result<Option<DraftRevision>, ManagementError>),
    /// An operation was reserved: its draft, client mutation, request digest
    /// and reserved cost.
    Begin(
        Seq<char>,
        Seq<char>,
        Seq<char>,
        AuthoringInferenceCost,
        Result<AuthoringInferenceBegin<AuthoringInferenceOperationRecord>, ManagementError>,
    ),
    /// The provider was asked for a candidate: the requirement summary, the
    /// stage and byte limits.
    Propose(Seq<char>, u64, u64, Result<AuthoringInferenceCandidate, ManagementError>),
    /// The owner compiler was asked to validate the candidate: the severities
    /// of its findings, in order.
    ValidateCandidate(Result<Seq<DiagnosticSeverity>, ManagementError>),
    /// A recorded operation was read by its draft and client mutation.
    Get(Seq<char>, Seq<char>, Result<Option<AuthoringInferenceOperationRecord>, ManagementError>),
    /// An operation was completed: its state, cost, whether a proposal was
    /// recorded, and the detail.
    Complete(
        AuthoringInferenceOperationState,
        AuthoringInferenceCost,
        bool,
        Seq<char>,
        Result<(), ManagementError>,
    ),
}

/// The authoring ports of one service, with the log of the calls made on them.
pub struct AuthoringPorts<C, D, J, P> {
    capabilities: C,
    drafts: D,
    journal: J,
    provider: P,
    calls: Ghost<Seq<AuthoringCall>>,
}

impl<C: AuthoringCapabilities, D: AuthoringDrafts, J: AuthoringJournal, P: AuthoringProvider>
    AuthoringPorts<C, D, J, P> {
    /// Holds the four ports, with nothing asked of them yet.
    pub fn new(capabilities: C, drafts: D, journal: J, provider: P) -> (r: Self)
        ensures
            r.calls() == Seq::<AuthoringCall>::empty(),
    {
        AuthoringPorts { capabilities, drafts, journal, provider, calls: Ghost(Seq::empty()) }
    }

    /// The calls made on the ports, in order, with their answers.
    pub closed spec fn calls(&self) -> Seq<AuthoringCall> {
        self.calls@
    }

    /// The held journal port.
    pub closed spec fn journal_port(&self) -> J {
        self.journal
    }

    /// The held provider port.
    pub closed spec fn provider_port(&self) -> P {
        self.provider
    }

    /// The journal, for its owner to inspect.
    pub fn journal(&self) -> (r: &J)
        ensures
            *r == self.journal_port(),
    {
        &self.journal
    }

    /// The provider, for its owner to inspect.
    pub fn provider(&self) -> (r: &P)
        ensures
            *r == self.provider_port(),
    {
        &self.provider
    }

    pub fn manifest_digest(&mut self) -> (r: Result<String, ManagementError>)
        ensures
            final(self).calls() == old(self).calls().push(
                AuthoringCall::Manifest(
                    match r {
                        Ok(m) => Ok(m@),
                        Err(e) => Err(e),
                    },
                ),
            ),
    {
        let r = self.capabilities.manifest_digest();
        let ghost answer = match &r {
            Ok(m) => Ok(m@),
            Err(e) => Err(*e),
        };
        self.calls = Ghost(self.calls@.push(AuthoringCall::Manifest(answer)));
        r
    }

    pub fn inference_catalog(&mut self, actor: &AuthContext) -> (r: Result<
        Option<ServedInferenceCatalog>,
        ManagementError,
    >)
        ensures
            final(self).calls() == old(self).calls().push(
                AuthoringCall::Catalog(
                    match r {
                        Ok(Some(c)) => Ok(Some((c.catalog_digest@, c.profiles@))),
                        Ok(None) => Ok(None),
                        Err(e) => Err(e),
                    },
                ),
            ),
    {
        let r = self.capabilities.inference_catalog(actor);
        let ghost answer = match &r {
            Ok(Some(c)) => Ok(Some((c.catalog_digest@, c.profiles@))),
            Ok(None) => Ok(None),
            Err(e) => Err(*e),
        };
        self.calls = Ghost(self.calls@.push(AuthoringCall::Catalog(answer)));
        r
    }

    pub fn validate_candidate(&mut self, candidate: &AuthoringInferenceCandidate) -> (r: Result<
        Vec<CandidateDiagnostic>,
        ManagementError,
    >)
        ensures
            final(self).calls() == old(self).calls().push(
                AuthoringCall::ValidateCandidate(
                    match r {
                        Ok(ds) => Ok(severities(ds@)),
                        Err(e) => Err(e),
                    },
                ),
            ),
    {
        let r = self.capabilities.validate_candidate(candidate);
        let ghost answer = match &r {
            Ok(ds) => Ok(severities(ds@)),
            Err(e) => Err(*e),
        };
        self.calls = Ghost(self.calls@.push(AuthoringCall::ValidateCandidate(answer)));
        r
    }

    pub fn stored_draft(&mut self, draft_id: &str) -> (r: Result<Option<DraftRevision>, ManagementError>)
        ensures
            final(self).calls() == old(self).calls().push(AuthoringCall::Draft(draft_id@, r)),
    {
        let r = self.drafts.stored_draft(draft_id);
        let ghost answer = r;
        self.calls = Ghost(self.calls@.push(AuthoringCall::Draft(draft_id@, answer)));
        r
    }

    pub fn begin(
        &mut self,
        draft_id: &str,
        client_mutation_id: &str,
        request_digest: &str,
        reserved: AuthoringInferenceCost,
    ) -> (r: Result<AuthoringInferenceBegin<AuthoringInferenceOperationRecord>, ManagementError>)
        ensures
            final(self).calls() == old(self).calls().push(
                AuthoringCall::Begin(
                    draft_id@,
                    client_mutation_id@,
                    request_digest@,
                    reserved,
                    r,
                ),
            ),
    {
        let r = self.journal.begin(draft_id, client_mutation_id, request_digest, reserved);
        let ghost answer = r;
        self.calls = Ghost(
            self.calls@.push(
                AuthoringCall::Begin(
                    draft_id@,
                    client_mutation_id@,
                    request_digest@,
                    reserved,
                    answer,
                ),
            ),
        );
        r
    }

    pub fn complete(
        &mut self,
        draft_id: &str,
        client_mutation_id: &str,
        state: AuthoringInferenceOperationState,
        cost: AuthoringInferenceCost,
        proposal: Option<&AuthoringInferenceProposal>,
        detail: &str,
    ) -> (r: Result<(), ManagementError>)
        ensures
            final(self).calls() == old(self).calls().push(
                AuthoringCall::Complete(state, cost, proposal is Some, detail@, r),
            ),
    {
        let r = self.journal.complete(
            draft_id,
            client_mutation_id,
            state,
            cost,
            proposal,
            detail,
        );
        self.calls = Ghost(
            self.calls@.push(AuthoringCall::Complete(state, cost, proposal is Some, detail@, r)),
        );
        r
    }

    pub fn get(&mut self, draft_id: &str, client_mutation_id: &str) -> (r: Result<
        Option<AuthoringInferenceOperationRecord>,
        ManagementError,
    >)
        ensures
            final(self).calls() == old(self).calls().push(
                AuthoringCall::Get(draft_id@, client_mutation_id@, r),
            ),
    {
        let r = self.journal.get(draft_id, client_mutation_id);
        let ghost answer = r;
        self.calls = Ghost(
            self.calls@.push(AuthoringCall::Get(draft_id@, client_mutation_id@, answer)),
        );
        r
    }

    pub fn propose(&mut self, request: &AuthoringInferenceProviderRequest) -> (r: Result<
        AuthoringInferenceCandidate,
        ManagementError,
    >)
        ensures
            final(self).calls() == old(self).calls().push(
                AuthoringCall::Propose(
                    request.requirement_summary@,
                    request.max_stages,
                    request.max_candidate_bytes,
                    r,
                ),
            ),
    {
        let r = self.provider.propose(request);
        let ghost answer = r;
        self.calls = Ghost(
            self.calls@.push(
                AuthoringCall::Propose(
                    request.requirement_summary@,
                    request.max_stages,
                    request.max_candidate_bytes,
                    answer,
                ),
            ),
        );
        r
    }
}

} // verus!
