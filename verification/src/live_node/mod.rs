//! The live node executor's effect discipline: an action dispatch is recorded
//! as a pending operation before it crosses the gateway, and the run advances
//! only on an independently verified settlement.

mod catalog;
mod decision;
mod episode;

pub use catalog::{catalog_digest, decision_input_digest};
pub use decision::{Decision, DecisionInput, DecisionOutcome, DecisionView, PendingDecision};
pub use episode::{
    ActionIdentity, DispatchStatus, EpisodeLegalAction, EpisodeLegalActionSet, EpisodeObservation,
    IdentityView, ObservationView, TransitionReceipt, WaitOutcome, WaitSample,
};
mod logged;
mod node;

pub use logged::{input_view, sample_view, InputView, LoggedSession, NodeCall, SampleView};

pub use node::{
    classify_decision_refusal, settled_receipt, resolve_pending, verify_settlement,
    DecisionProposal, EdgeOutcome, LiveEpisodeSession, LiveNodeState, NodeOutcome,
    OperationView, PendingDispatch, PendingOperation, PendingOperationState, RuntimeFault,
};
