//! Verified management logic of the live workflow harness: lifecycle command
//! envelopes and their durable intents, readiness waits, save-profile setup
//! admission, the inference-profile revision journal, the live node executor,
//! the served live session and its decision, dispatch and policy fences, the
//! served release of the exact managed application boundary, provider-session
//! policy and inspection ports, and the proposal-only authoring-inference
//! endpoint with its admission fences.

mod error;

pub use error::{ErrorClass, ManagementError, StoreError};
mod identity;
pub use identity::{validate_digest, validate_identifier, MAX_IDENTIFIER_BYTES};
mod readiness_seal;
mod lifecycle_readiness;
pub mod readiness_wait;
pub use readiness_seal::Sealed;
pub use lifecycle_readiness::{
    GameplayReadinessEvidence, LaunchAcknowledgement, LifecycleReadiness, ReadinessError,
    ReadinessObservation,
};
pub mod save_profile_setup;
mod auth;
pub use auth::AuthContext;
pub mod lifecycle;
mod digest;
mod text;
pub mod operation_journal;
pub mod lifecycle_intent;
pub mod live_node;
pub mod served_boundary;
pub mod provider_policy;
pub mod provider_policy_log;
pub mod provider_policy_projection;
pub mod provider_session_inspection;
pub mod served_session;
pub mod managed_render;
pub mod served_live;
mod served_live_log;
pub mod authoring_inference;
pub mod authoring_proposal;
mod inference_profile;
pub use inference_profile::{
    InferenceProfileBudgets, InferenceProfileDescriptor, InferenceProfileGrants,
    InferenceProfileState,
};
pub mod inference_profile_revision;
pub mod revision_journal_memory;
pub use revision_journal_memory::{
    MemoryInferenceProfileRevisionJournal, UnavailableInferenceProfileRevisionJournal,
};
