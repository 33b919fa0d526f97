//! The bounded, proposal-only authoring-inference endpoint.
//!
//! The endpoint contacts one explicitly attached provider port, admits the
//! result through the owner compiler and the served catalogs, and returns a
//! proposal. It never writes, publishes or runs a definition. The order is
//! admission before reservation: the manifest, the served catalog, the pinned
//! profile and the base draft are admitted first, then one operation is
//! reserved in the journal, and only then is the provider contacted. The base
//! is re-read after the provider answered, so a concurrent draft change wins
//! and the proposal loses with an actionable conflict.

mod ports;

pub use ports::{
    AuthoringCall, AuthoringCapabilities, AuthoringDrafts, AuthoringInferenceCandidate,
    CandidateDiagnostic, DiagnosticSeverity, severities,
    AuthoringInferenceOperationRecord, AuthoringInferenceProposal,
    AuthoringInferenceProviderRequest, AuthoringJournal, AuthoringPorts, AuthoringProvider,
    ServedInferenceCatalog,
};
mod flow;

pub use flow::{
    admit_candidate_diagnostics, admit_candidate_size, authoring_inference_operation,
    authoring_inference_proposal, candidate_oversized, proposal_flow, reserved_cost,
    AuthoringInferenceRequest,
};
