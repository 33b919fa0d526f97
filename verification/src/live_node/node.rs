//! Executing one decided action against the live episode.
//!
//! The operation identity is installed as a pending dispatch, and recorded
//! durably as an intent, before the mutating boundary is crossed, so any
//! transport outcome keeps that exact identity for recovery; a record that is
//! refused keeps the boundary from being crossed. A dispatch the gateway accepted advances the run
//! only once an independent settlement is observed and verified; one that
//! cannot be settled stays pending and is never replaced by a second dispatch.

use vstd::prelude::*;
use vstd::utf8::encode_utf8;
use crate::digest::{sha256_hex, sha256_hex_of};
use crate::error::{ErrorClass, ManagementError, refusal, text_is};
use crate::identity::{is_identifier, is_lower_hex_char, is_portable_char};
use super::catalog::{catalog_digest, catalog_digest_of};
use super::decision::{Decision, DecisionInput, PendingDecision};
use super::logged::{LoggedSession, NodeCall, sample_view};
use super::episode::{
    ActionIdentity, ActionView, CatalogView, DispatchStatus, EpisodeLegalAction,
    EpisodeLegalActionSet, EpisodeObservation, IdentityView, ObservationView, ReceiptView,
    TransitionReceipt, WaitOutcome, WaitSample, find_action, observation_view,
    receipt_view, same_action,
};

verus! {

/// How far a pending operation is known to have got.
#[derive(Clone, Copy, Debug, PartialEq, Eq, Structural)]
pub enum PendingOperationState {
    /// Recorded before the boundary was crossed.
    Intent,
    /// The gateway accepted it; its transition is not yet observed.
    Accepted,
    /// Its effect cannot be known without reconciliation.
    Unknown,
}

/// Why a node could not produce an outcome.
#[derive(Clone, Copy, Debug, PartialEq, Eq, Structural)]
pub enum RuntimeFault {
    ExecutorUnavailable,
    InvalidState,
    TypeMismatch,
    ExecutorRejected,
    UnknownEffect,
    BudgetExceeded,
}

/// Which edge a node's outcome follows.
#[derive(Clone, Copy, Debug, PartialEq, Eq, Structural)]
pub enum EdgeOutcome {
    Success,
    Error,
    Unavailable,
}

/// The outcome of one node.
#[derive(Clone, Copy, Debug, PartialEq, Eq, Structural)]
pub struct NodeOutcome {
    pub outcome: EdgeOutcome,
}

/// A provider's decision, bound to the exact observation and catalog it was
/// made against.
#[derive(Debug)]
pub struct DecisionProposal {
    pub state_id: String,
    pub generation: u64,
    pub catalog_digest: String,
    pub action_id: String,
    pub provider_execution_id: String,
    pub reason_code: Option<String>,
}

/// One dispatched action whose effect is not yet accounted for.
#[derive(Debug)]
pub struct PendingDispatch {
    pub identity: ActionIdentity,
    pub action: EpisodeLegalAction,
    pub state: PendingOperationState,
    pub resolved: Option<TransitionReceipt>,
}

/// A pending dispatch as plain values.
pub struct PendingView {
    pub identity: IdentityView,
    pub action: ActionView,
    pub state: PendingOperationState,
    pub resolved: Option<ReceiptView>,
}

impl View for PendingDispatch {
    type V = PendingView;

    open spec fn view(&self) -> PendingView {
        PendingView {
            identity: self.identity@,
            action: self.action@,
            state: self.state,
            resolved: receipt_view(self.resolved),
        }
    }
}

/// One pending operation as it is recorded durably before a node crosses the
/// gateway or the provider.
#[derive(Debug)]
pub struct PendingOperation {
    pub operation_id: String,
    pub classification: PendingOperationState,
    pub instance_id: String,
    pub original_generation: u64,
    pub payload_digest: String,
}

/// A recorded pending operation as plain values.
pub struct OperationView {
    pub operation_id: Seq<char>,
    pub classification: PendingOperationState,
    pub instance_id: Seq<char>,
    pub original_generation: u64,
    pub payload_digest: Seq<char>,
}

impl View for PendingOperation {
    type V = OperationView;

    open spec fn view(&self) -> OperationView {
        OperationView {
            operation_id: self.operation_id@,
            classification: self.classification,
            instance_id: self.instance_id@,
            original_generation: self.original_generation,
            payload_digest: self.payload_digest@,
        }
    }
}

/// An optional pending dispatch as plain values.
pub open spec fn pending_view(p: Option<PendingDispatch>) -> Option<PendingView> {
    match p {
        Some(x) => Some(x@),
        None => None,
    }
}

/// The episode session a live node drives: the gateway's dispatch, its bounded
/// settlement wait, reconciliation by operation identity, and the note that an
/// action completed.
pub trait LiveEpisodeSession {
    fn dispatch_action(&mut self, identity: &ActionIdentity, action: &EpisodeLegalAction) -> Result<
        TransitionReceipt,
        ManagementError,
    >;

    fn wait_for_transition(&mut self, operation_id: &str, wait_for_millis: u32) -> Result<
        WaitSample,
        ManagementError,
    >;

    fn reconcile(&mut self, operation_id: &str) -> Result<TransitionReceipt, ManagementError>;

    fn action_completed(&mut self, succeeded: bool);

    fn legal_actions(&mut self, state_id: &str, generation: u64) -> Result<
        EpisodeLegalActionSet,
        ManagementError,
    >;

    fn decide_for(
        &mut self,
        input: &DecisionInput,
        decision_profile_ref: &str,
        context_ref: &str,
    ) -> Result<Decision, ManagementError>;

    fn model_execution_id(&self) -> Option<u64>;

    /// Durably records one pending operation before the node crosses the
    /// gateway or the provider; a refusal keeps the node from crossing. A
    /// session with no durable recorder attached accepts without recording.
    fn record_intent(&mut self, pending: &PendingOperation) -> Result<(), ManagementError> {
        Ok(())
    }
}

/// The state one live run's nodes read and change.
pub struct LiveNodeState<S> {
    pub session: LoggedSession<S>,
    pub instance_id: String,
    pub observation: Option<EpisodeObservation>,
    pub actions: Option<EpisodeLegalActionSet>,
    pub pending: Option<PendingDispatch>,
    pub pending_decision: Option<PendingDecision>,
    pub provider_calls: u64,
    pub max_provider_calls: u64,
    pub objective: String,
    pub hard_constraints: Vec<String>,
    pub transition_wait_millis: u32,
}

/// Classifies a refused provider exchange into the fault a decision node
/// reports. Only the boundary owner can tell whether the provider may have been
/// reached, and its class is that report: an unresolved refusal keeps the held
/// attempt as an unknown effect, while any other class refused before it could
/// write. The code is deliberately not consulted.
pub fn classify_decision_refusal(error: &ManagementError) -> (r: RuntimeFault)
    ensures
        error.class == ErrorClass::Unresolved ==> r == RuntimeFault::UnknownEffect,
        error.class != ErrorClass::Unresolved ==> r == RuntimeFault::ExecutorUnavailable,
{
    match error.class {
        ErrorClass::Unresolved => RuntimeFault::UnknownEffect,
        _ => RuntimeFault::ExecutorUnavailable,
    }
}

/// A settlement verifies against the state acted on when it observed a state no
/// older than that one and names the effect the transition had.
pub open spec fn settlement_verified(before: ObservationView, r: ReceiptView) -> bool {
    &&& r.after matches Some(a) && a.generation >= before.generation
    &&& r.effect_kind is Some
}

/// Verifies a settlement against the state acted on; see
/// [`settlement_verified`].
pub fn verify_settlement(before: &EpisodeObservation, receipt: &TransitionReceipt) -> (r: bool)
    ensures
        r == settlement_verified(before@, receipt@),
{
    match &receipt.after {
        Some(after) => after.generation >= before.generation && receipt.effect_kind.is_some(),
        None => false,
    }
}

/// What consuming a receipt yields: the edge, or the fault.
pub open spec fn finish_outcome(before: Option<ObservationView>, r: ReceiptView) -> Result<
    EdgeOutcome,
    RuntimeFault,
> {
    match r.status {
        DispatchStatus::Rejected | DispatchStatus::Cancelled => Ok(EdgeOutcome::Error),
        DispatchStatus::Accepted | DispatchStatus::Unknown => Err(RuntimeFault::UnknownEffect),
        DispatchStatus::Settled => match before {
            None => Err(RuntimeFault::InvalidState),
            Some(b) => if settlement_verified(b, r) {
                Ok(EdgeOutcome::Success)
            } else {
                Err(RuntimeFault::ExecutorRejected)
            },
        },
    }
}

/// The observation after consuming a receipt: the settled one when it was
/// verified, else the one before.
pub open spec fn finish_observation(before: Option<ObservationView>, r: ReceiptView) -> Option<
    ObservationView,
> {
    if finish_outcome(before, r) == Ok::<EdgeOutcome, RuntimeFault>(EdgeOutcome::Success) {
        r.after
    } else {
        before
    }
}

/// A node result as the edge it follows or its fault.
pub open spec fn edge_of(r: Result<NodeOutcome, RuntimeFault>) -> Result<EdgeOutcome, RuntimeFault> {
    match r {
        Ok(o) => Ok(o.outcome),
        Err(f) => Err(f),
    }
}

/// The settled receipt a wait sample supports for a pending dispatch, if any:
/// only an observed successor or same-state mutation, with its observation and
/// effect, settles it.
pub open spec fn sample_settlement(
    p: PendingView,
    outcome: WaitOutcome,
    observation: Option<ObservationView>,
    effect_kind: Option<Seq<char>>,
) -> Option<ReceiptView> {
    if (outcome == WaitOutcome::Successor || outcome == WaitOutcome::SameStateMutation)
        && observation is Some && effect_kind is Some {
        Some(
            ReceiptView {
                operation_id: p.identity.operation_id,
                action: p.action,
                status: DispatchStatus::Settled,
                after: observation,
                effect_kind,
            },
        )
    } else {
        None
    }
}

/// Builds the settled receipt a wait sample supports; see
/// [`sample_settlement`].
pub fn settled_receipt(pending: &PendingDispatch, sample: WaitSample) -> (r: Result<
    TransitionReceipt,
    RuntimeFault,
>)
    ensures
        match sample_settlement(
            pending@,
            sample.outcome,
            observation_view(sample.observation),
            match sample.effect_kind {
                Some(e) => Some(e@),
                None => None,
            },
        ) {
            Some(rc) => r matches Ok(x) && x@ == rc,
            None => r == Err::<TransitionReceipt, RuntimeFault>(RuntimeFault::UnknownEffect),
        },
{
    if !(sample.outcome == WaitOutcome::Successor || sample.outcome
        == WaitOutcome::SameStateMutation) {
        return Err(RuntimeFault::UnknownEffect);
    }
    let after = match sample.observation {
        Some(o) => o,
        None => return Err(RuntimeFault::UnknownEffect),
    };
    let effect = match sample.effect_kind {
        Some(e) => e,
        None => return Err(RuntimeFault::UnknownEffect),
    };
    Ok(
        TransitionReceipt::new(
            pending.identity.operation_id.as_str(),
            pending.action.clone(),
            DispatchStatus::Settled,
            Some(after),
            Some(effect),
        ),
    )
}

/// Whether a receipt is about this pending dispatch: its operation and action.
pub open spec fn receipt_matches(p: PendingView, r: ReceiptView) -> bool {
    r.operation_id == p.identity.operation_id && r.action == p.action
}

/// Resolves a pending dispatch with a reconciliation receipt: a different
/// operation or action is a conflict, a final answer resolves it, and an
/// answer that is still accepted or unknown leaves it unresolved as unknown.
pub fn resolve_pending(pending: &mut PendingDispatch, receipt: TransitionReceipt) -> (r: Result<
    (),
    ManagementError,
>)
    ensures
        final(pending)@.identity == old(pending)@.identity,
        final(pending)@.action == old(pending)@.action,
        !receipt_matches(old(pending)@, receipt@) ==> (r matches Err(e) && e.refusal() == refusal(
            ErrorClass::Conflict,
            "live_reconcile_identity",
        ) && final(pending)@ == old(pending)@),
        receipt_matches(old(pending)@, receipt@) ==> match receipt@.status {
            DispatchStatus::Settled | DispatchStatus::Rejected | DispatchStatus::Cancelled => r is Ok
                && final(pending)@.resolved == Some(receipt@) && final(pending)@.state == old(
                pending,
            )@.state,
            _ => (r matches Err(e) && e.refusal() == refusal(
                ErrorClass::Unresolved,
                "live_operation_unknown",
            ) && final(pending)@.state == PendingOperationState::Unknown && final(pending)@.resolved
                == old(pending)@.resolved),
        },
{
    if !text_is(&receipt.operation_id, pending.identity.operation_id.as_str()) || !same_action(
        &receipt.action,
        &pending.action,
    ) {
        return Err(
            ManagementError::conflict(
                "live_reconcile_identity",
                "reconciliation returned a different operation or action",
            ),
        );
    }
    match receipt.status {
        DispatchStatus::Settled | DispatchStatus::Rejected | DispatchStatus::Cancelled => {
            pending.resolved = Some(receipt);
            Ok(())
        },
        _ => {
            pending.state = PendingOperationState::Unknown;
            Err(
                ManagementError::unresolved(
                    "live_operation_unknown",
                    "accepted mutation remains unresolved; no replacement action is permitted",
                ),
            )
        },
    }
}

/// The calls consuming a receipt makes on the session: a refusal reports an
/// action that did not complete, a verified settlement one that did, and
/// anything else makes none.
pub open spec fn finish_calls(before: Option<ObservationView>, r: ReceiptView) -> Seq<NodeCall> {
    match r.status {
        DispatchStatus::Rejected | DispatchStatus::Cancelled => seq![NodeCall::ActionCompleted(false)],
        DispatchStatus::Settled => match before {
            Some(b) => if settlement_verified(b, r) {
                seq![NodeCall::ActionCompleted(true)]
            } else {
                Seq::empty()
            },
            None => Seq::empty(),
        },
        _ => Seq::empty(),
    }
}

/// What executing an admissible proposal with nothing pending does: exactly
/// one dispatch of the offered action under a fresh operation identity bound
/// to the observed state and generation, recorded as pending before the
/// gateway answers. An unanswered or foreign dispatch stays pending as an
/// unknown effect; a refusal follows the error edge; an unknown outcome stays
/// pending as unknown; a settlement is consumed. An accepted dispatch is
/// awaited exactly once for that operation and the configured bound, stays
/// pending as accepted unless the sample settles it, and a settling sample is
/// consumed. Nothing else is dispatched, awaited or reconciled.
pub open spec fn dispatch_effect(
    operation_id: Seq<char>,
    obs: ObservationView,
    offered: ActionView,
    wait_millis: u32,
    before: Seq<NodeCall>,
    after: Seq<NodeCall>,
    r: Result<NodeOutcome, RuntimeFault>,
    pending_after: Option<PendingView>,
    observation_after: Option<ObservationView>,
) -> bool {
    after.len() >= before.len() + 1 && after.take(before.len() as int) == before && match after[before.len() as int] {
        NodeCall::Dispatch(id, action, answer) => {
            let intent = PendingView {
                identity: id,
                action,
                state: PendingOperationState::Intent,
                resolved: None,
            };
            let unknown = r == Err::<NodeOutcome, RuntimeFault>(RuntimeFault::UnknownEffect)
                && observation_after == Some(obs);
            &&& id.operation_id == operation_id
            &&& id.state_id == obs.state_id
            &&& id.generation == obs.generation
            &&& id.action_id == offered.action_id
            &&& action == offered
            &&& match answer {
                Err(_) => after.len() == before.len() + 1 && unknown && pending_after == Some(intent),
                Ok(rc) => if !receipt_matches(intent, rc) {
                    after.len() == before.len() + 1 && unknown && pending_after == Some(intent)
                } else {
                    match rc.status {
                        DispatchStatus::Rejected | DispatchStatus::Cancelled => after.skip(before.len() + 1 as int) == seq![NodeCall::ActionCompleted(false)] && r == Ok::<
                            NodeOutcome,
                            RuntimeFault,
                        >(NodeOutcome { outcome: EdgeOutcome::Error }) && pending_after is None
                            && observation_after == Some(obs),
                        DispatchStatus::Unknown => after.len() == before.len() + 1 && unknown
                            && pending_after == Some(
                            PendingView { state: PendingOperationState::Unknown, ..intent },
                        ),
                        DispatchStatus::Settled => after.skip(before.len() + 1 as int) == finish_calls(
                            Some(obs),
                            rc,
                        ) && edge_of(r) == finish_outcome(Some(obs), rc) && observation_after
                            == finish_observation(Some(obs), rc) && pending_after is None,
                        DispatchStatus::Accepted => after.len() >= before.len() + 2 && match after[before.len() + 1 as int] {
                            NodeCall::Wait(operation_id, millis, sample) => {
                                let accepted = PendingView {
                                    state: PendingOperationState::Accepted,
                                    ..intent
                                };
                                let settled = match sample {
                                    Err(_) => None,
                                    Ok(sv) => sample_settlement(
                                        accepted,
                                        sv.outcome,
                                        sv.observation,
                                        sv.effect_kind,
                                    ),
                                };
                                &&& operation_id == id.operation_id
                                &&& millis == wait_millis
                                &&& match settled {
                                    None => after.len() == before.len() + 2 && unknown
                                        && pending_after == Some(accepted),
                                    Some(src) => after.skip(before.len() + 2 as int) == finish_calls(
                                        Some(obs),
                                        src,
                                    ) && edge_of(r) == finish_outcome(Some(obs), src)
                                        && observation_after == finish_observation(Some(obs), src)
                                        && pending_after is None,
                                }
                            },
                            _ => false,
                        },
                    }
                },
            }
        },
        _ => false,
    }
}

/// Whether a recorded pending operation is the intent of dispatching an
/// offered action against an observation: a fresh operation identity, the
/// run's instance, the observation's generation, and the SHA-256 of the
/// action's identity as its payload digest.
pub open spec fn intent_of(
    instance_id: Seq<char>,
    obs: ObservationView,
    offered: ActionView,
    op: OperationView,
) -> bool {
    &&& is_uuid_text(op.operation_id)
    &&& op.classification == PendingOperationState::Intent
    &&& op.instance_id == instance_id
    &&& op.original_generation == obs.generation
    &&& op.payload_digest == sha256_hex_of(encode_utf8(offered.action_id))
}

/// What reconciling a pending dispatch does: exactly one reconciliation of
/// its operation identity and nothing else. A failed reconciliation is
/// reported as it came and leaves the dispatch as it was; an answer about
/// another operation or action is a conflict that leaves it as it was; a final
/// answer resolves it; and an answer still accepted or unknown leaves it
/// unresolved as unknown.
pub open spec fn reconcile_effect(
    p: PendingView,
    before: Seq<NodeCall>,
    after: Seq<NodeCall>,
    r: Result<(), ManagementError>,
    pending_after: Option<PendingView>,
) -> bool {
    after.len() == before.len() + 1 && after.drop_last() == before && match after.last() {
        NodeCall::Reconcile(operation_id, answer) => operation_id == p.identity.operation_id
            && match answer {
            Err(e) => r == Err::<(), ManagementError>(e) && pending_after == Some(p),
            Ok(rc) => if !receipt_matches(p, rc) {
                (r matches Err(e) && e.refusal() == refusal(
                    ErrorClass::Conflict,
                    "live_reconcile_identity",
                )) && pending_after == Some(p)
            } else {
                match rc.status {
                    DispatchStatus::Settled | DispatchStatus::Rejected
                    | DispatchStatus::Cancelled => r is Ok && pending_after == Some(
                        PendingView { resolved: Some(rc), ..p },
                    ),
                    _ => (r matches Err(e) && e.refusal() == refusal(
                        ErrorClass::Unresolved,
                        "live_operation_unknown",
                    )) && pending_after == Some(
                        PendingView { state: PendingOperationState::Unknown, ..p },
                    ),
                }
            },
        },
        _ => false,
    }
}

/// Whether a proposal is admissible against the retained observation and
/// catalog: same state, same generation, same catalog, and an offered action.
pub open spec fn proposal_admissible(
    observation: Option<ObservationView>,
    actions: Option<CatalogView>,
    state_id: Seq<char>,
    generation: u64,
    digest: Seq<char>,
    action_id: Seq<char>,
) -> bool {
    &&& observation matches Some(o) && o.state_id == state_id && o.generation == generation
    &&& actions matches Some(c) && catalog_digest_of(c.actions) == digest && find_action(
        c.actions,
        action_id,
    ) is Some
}

/// A hyphenated lowercase version-4 UUID: eight, four, four, four and twelve
/// hexadecimal digits separated by hyphens, with version digit `4`.
pub open spec fn is_uuid_text(s: Seq<char>) -> bool {
    &&& s.len() == 36
    &&& forall|i: int|
        0 <= i < 36 ==> if i == 8 || i == 13 || i == 18 || i == 23 {
            #[trigger] s[i] == '-'
        } else {
            is_lower_hex_char(s[i])
        }
    &&& s[14] == '4'
}

/// Calls `uuid::Uuid::new_v4` and renders the value with `to_string`. The value
/// is random; the contract claims only the shape every outcome has, the
/// hyphenated lowercase form the crate's `Display` writes.
#[verifier::external_body]
pub(crate) fn new_operation_id() -> (r: String)
    ensures
        is_uuid_text(r@),
{
    uuid::Uuid::new_v4().to_string()
}

/// A UUID text is a portable identifier.
proof fn lemma_uuid_is_identifier(s: Seq<char>)
    requires
        is_uuid_text(s),
    ensures
        is_identifier(s),
{
    assert forall|i: int| 0 <= i < s.len() implies is_portable_char(#[trigger] s[i]) by {
        if i == 8 || i == 13 || i == 18 || i == 23 {
            assert(s[i] == '-');
        } else {
            assert(is_lower_hex_char(s[i]));
        }
    }
}

impl<S: LiveEpisodeSession> LiveNodeState<S> {
    /// Consumes a receipt: a refusal follows the error edge, an unsettled one is
    /// an unknown effect, and a settlement advances the run only once it is
    /// verified against the state acted on.
    pub fn finish_receipt(&mut self, receipt: TransitionReceipt) -> (r: Result<
        NodeOutcome,
        RuntimeFault,
    >)
        ensures
            edge_of(r) == finish_outcome(observation_view(old(self).observation), receipt@),
            observation_view(final(self).observation) == finish_observation(
                observation_view(old(self).observation),
                receipt@,
            ),
            pending_view(final(self).pending) == pending_view(old(self).pending),
            final(self).actions == old(self).actions,
            final(self).instance_id == old(self).instance_id,
            final(self).session.intents() == old(self).session.intents(),
            final(self).session.calls() == old(self).session.calls() + finish_calls(
                observation_view(old(self).observation),
                receipt@,
            ),
            final(self).transition_wait_millis == old(self).transition_wait_millis,
    {
        match receipt.status {
            DispatchStatus::Rejected | DispatchStatus::Cancelled => {
                self.session.action_completed(false);
                return Ok(NodeOutcome { outcome: EdgeOutcome::Error });
            },
            DispatchStatus::Settled => {},
            DispatchStatus::Accepted | DispatchStatus::Unknown => {
                return Err(RuntimeFault::UnknownEffect);
            },
        }
        let verified = match &self.observation {
            None => return Err(RuntimeFault::InvalidState),
            Some(before) => verify_settlement(before, &receipt),
        };
        if !verified {
            return Err(RuntimeFault::ExecutorRejected);
        }
        match receipt.after {
            Some(after) => {
                self.observation = Some(after);
            },
            None => {},
        }
        self.session.action_completed(true);
        Ok(NodeOutcome { outcome: EdgeOutcome::Success })
    }

    /// Reconciles the retained pending dispatch by its exact identity, without
    /// ever dispatching a replacement; see [`resolve_pending`]. With nothing
    /// pending there is nothing to do.
    pub fn reconcile_pending(&mut self) -> (r: Result<(), ManagementError>)
        ensures
            old(self).pending is None ==> r is Ok && pending_view(final(self).pending) is None,
            old(self).pending is Some ==> final(self).pending is Some,
            pending_view(old(self).pending) matches Some(p) ==> (pending_view(final(self).pending)
                matches Some(q) && q.identity == p.identity && q.action == p.action),
            r is Ok ==> pending_view(final(self).pending) is None || (pending_view(
                final(self).pending,
            ) matches Some(q) && q.resolved matches Some(rc) && receipt_matches(q, rc)
                && rc.status != DispatchStatus::Accepted && rc.status != DispatchStatus::Unknown),
            pending_view(old(self).pending) matches Some(p) ==> (pending_view(final(self).pending)
                matches Some(q) && (q.state == p.state || q.state
                == PendingOperationState::Unknown) && (r is Err ==> q.resolved == p.resolved)),
            observation_view(final(self).observation) == observation_view(old(self).observation),
            old(self).pending is None ==> final(self).session.calls() == old(self).session.calls(),
            match pending_view(old(self).pending) {
                Some(p) => reconcile_effect(
                    p,
                    old(self).session.calls(),
                    final(self).session.calls(),
                    r,
                    pending_view(final(self).pending),
                ),
                None => true,
            },
    {
        let mut pending = match self.pending.take() {
            None => return Ok(()),
            Some(p) => p,
        };
        let ghost before = self.session.calls();
        let answer = self.session.reconcile(pending.identity.operation_id.as_str());
        assert(self.session.calls().drop_last() =~= before);
        let r = match answer {
            Err(e) => Err(e),
            Ok(receipt) => resolve_pending(&mut pending, receipt),
        };
        self.pending = Some(pending);
        r
    }

    /// Executes the decided action of one `ExecuteAction` node.
    ///
    /// A retained pending dispatch is never replaced: it is consumed once it is
    /// resolved and otherwise reported as an unknown effect. A fresh proposal
    /// must match the retained observation and catalog; its dispatch is
    /// installed as pending before the gateway sees it, stays pending while its
    /// outcome is unknown, and advances the run only through a verified
    /// settlement.
    pub fn execute_action(&mut self, proposal: &DecisionProposal) -> (r: Result<
        NodeOutcome,
        RuntimeFault,
    >)
        ensures
            final(self).actions == old(self).actions,
            r matches Ok(o) ==> o.outcome != EdgeOutcome::Unavailable,
            pending_view(old(self).pending) matches Some(p) ==> (p.resolved is None ==> (r == Err::<
                NodeOutcome,
                RuntimeFault,
            >(RuntimeFault::UnknownEffect) && pending_view(final(self).pending) == pending_view(
                old(self).pending,
            ) && observation_view(final(self).observation) == observation_view(
                old(self).observation,
            ))),
            pending_view(old(self).pending) matches Some(p) ==> (p.resolved matches Some(rc) ==> (
            final(self).pending is None && edge_of(r) == finish_outcome(
                observation_view(old(self).observation),
                rc,
            ) && observation_view(final(self).observation) == finish_observation(
                observation_view(old(self).observation),
                rc,
            ))),
            old(self).pending is None && !proposal_admissible(
                observation_view(old(self).observation),
                match old(self).actions {
                    Some(c) => Some(c@),
                    None => None,
                },
                proposal.state_id@,
                proposal.generation,
                proposal.catalog_digest@,
                proposal.action_id@,
            ) ==> r is Err && final(self).pending is None && observation_view(
                final(self).observation,
            ) == observation_view(old(self).observation),
            old(self).pending is None && r == Ok::<NodeOutcome, RuntimeFault>(
                NodeOutcome { outcome: EdgeOutcome::Success },
            ) ==> final(self).pending is None && (observation_view(old(self).observation) matches Some(b)
                && exists|rc: ReceiptView|
                #[trigger] settlement_verified(b, rc) && rc.status == DispatchStatus::Settled
                    && observation_view(final(self).observation) == rc.after),
            old(self).pending is None && r == Ok::<NodeOutcome, RuntimeFault>(
                NodeOutcome { outcome: EdgeOutcome::Error },
            ) ==> final(self).pending is None && observation_view(final(self).observation)
                == observation_view(old(self).observation),
            old(self).pending is None && r == Err::<NodeOutcome, RuntimeFault>(
                RuntimeFault::UnknownEffect,
            ) ==> (pending_view(final(self).pending) matches Some(p) && p.resolved is None
                && (observation_view(old(self).observation) matches Some(o)
                && p.identity.state_id == o.state_id && p.identity.generation == o.generation)
                && p.action.action_id == proposal.action_id@ && observation_view(
                final(self).observation,
            ) == observation_view(old(self).observation)),
            pending_view(old(self).pending) matches Some(p) ==> final(self).session.calls() == old(
                self,
            ).session.calls() + match p.resolved {
                Some(rc) => finish_calls(observation_view(old(self).observation), rc),
                None => Seq::<NodeCall>::empty(),
            },
            old(self).pending is None && !proposal_admissible(
                observation_view(old(self).observation),
                match old(self).actions {
                    Some(c) => Some(c@),
                    None => None,
                },
                proposal.state_id@,
                proposal.generation,
                proposal.catalog_digest@,
                proposal.action_id@,
            ) ==> final(self).session.calls() == old(self).session.calls()
                && final(self).session.intents() == old(self).session.intents(),
            old(self).pending is Some ==> final(self).session.intents() == old(
                self,
            ).session.intents(),
            old(self).pending is None && proposal_admissible(
                observation_view(old(self).observation),
                match old(self).actions {
                    Some(c) => Some(c@),
                    None => None,
                },
                proposal.state_id@,
                proposal.generation,
                proposal.catalog_digest@,
                proposal.action_id@,
            ) ==> match (observation_view(old(self).observation), old(self).actions) {
                (Some(obs), Some(c)) => match find_action(c@.actions, proposal.action_id@) {
                    Some(offered) => if is_identifier(obs.state_id) && is_identifier(
                        offered.action_id,
                    ) {
                        let intents = final(self).session.intents();
                        &&& intents.len() == old(self).session.intents().len() + 1
                        &&& intents.drop_last() == old(self).session.intents()
                        &&& intent_of(old(self).instance_id@, obs, offered, intents.last().0)
                        &&& if intents.last().1 {
                            dispatch_effect(
                                intents.last().0.operation_id,
                                obs,
                                offered,
                                old(self).transition_wait_millis,
                                old(self).session.calls(),
                                final(self).session.calls(),
                                r,
                                pending_view(final(self).pending),
                                observation_view(final(self).observation),
                            )
                        } else {
                            &&& r == Err::<NodeOutcome, RuntimeFault>(
                                RuntimeFault::ExecutorUnavailable,
                            )
                            &&& final(self).session.calls() == old(self).session.calls()
                            &&& final(self).pending is None
                            &&& observation_view(final(self).observation) == Some(obs)
                        }
                    } else {
                        r == Err::<NodeOutcome, RuntimeFault>(RuntimeFault::InvalidState)
                            && final(self).session.calls() == old(self).session.calls()
                            && final(self).pending is None && final(self).session.intents()
                            == old(self).session.intents()
                    },
                    None => false,
                },
                _ => false,
            },
    {
        match self.pending.take() {
            Some(mut pending) => match pending.resolved.take() {
                Some(receipt) => {
                    return self.finish_receipt(receipt);
                },
                None => {
                    self.pending = Some(pending);
                    return Err(RuntimeFault::UnknownEffect);
                },
            },
            None => {},
        }
        let (state_id, generation) = match &self.observation {
            Some(o) => (o.state_id.clone(), o.generation),
            None => return Err(RuntimeFault::InvalidState),
        };
        let action = match &self.actions {
            None => return Err(RuntimeFault::InvalidState),
            Some(actions) => {
                if !text_is(&proposal.state_id, state_id.as_str()) || proposal.generation
                    != generation {
                    return Err(RuntimeFault::ExecutorRejected);
                }
                let digest = catalog_digest(actions);
                if !(proposal.catalog_digest == digest) {
                    return Err(RuntimeFault::ExecutorRejected);
                }
                match actions.find(proposal.action_id.as_str()) {
                    Some(a) => a.clone(),
                    None => return Err(RuntimeFault::ExecutorRejected),
                }
            },
        };
        let operation_id = new_operation_id();
        proof {
            lemma_uuid_is_identifier(operation_id@);
        }
        let identity = match ActionIdentity::new(
            operation_id.as_str(),
            state_id.as_str(),
            generation,
            action.action_id.as_str(),
        ) {
            Ok(identity) => identity,
            Err(_) => return Err(RuntimeFault::InvalidState),
        };
        let mut pending = PendingDispatch {
            identity: identity.clone(),
            action: action.clone(),
            state: PendingOperationState::Intent,
            resolved: None,
        };
        let intent = PendingOperation {
            operation_id: identity.operation_id.clone(),
            classification: PendingOperationState::Intent,
            instance_id: self.instance_id.clone(),
            original_generation: generation,
            payload_digest: sha256_hex(action.action_id.as_str().as_bytes()),
        };
        match self.session.record_intent(&intent) {
            Err(_) => return Err(RuntimeFault::ExecutorUnavailable),
            Ok(()) => {},
        }
        let ghost before = self.session.calls();
        let answer = self.session.dispatch_action(&identity, &action);
        assert(self.session.calls().take(before.len() as int) =~= before);
        let receipt = match answer {
            Err(_) => {
                self.pending = Some(pending);
                return Err(RuntimeFault::UnknownEffect);
            },
            Ok(receipt) => receipt,
        };
        if !text_is(&receipt.operation_id, identity.operation_id.as_str()) || !same_action(
            &receipt.action,
            &action,
        ) {
            self.pending = Some(pending);
            return Err(RuntimeFault::UnknownEffect);
        }
        let ghost dispatched = self.session.calls();
        match receipt.status {
            DispatchStatus::Rejected | DispatchStatus::Cancelled => {
                self.session.action_completed(false);
                assert(self.session.calls().skip(before.len() + 1 as int) =~= seq![
                    NodeCall::ActionCompleted(false),
                ]);
                assert(self.session.calls().take(before.len() as int) =~= before);
                Ok(NodeOutcome { outcome: EdgeOutcome::Error })
            },
            DispatchStatus::Unknown => {
                pending.state = PendingOperationState::Unknown;
                self.pending = Some(pending);
                Err(RuntimeFault::UnknownEffect)
            },
            DispatchStatus::Accepted => {
                pending.state = PendingOperationState::Accepted;
                let sample = self.session.wait_for_transition(
                    pending.identity.operation_id.as_str(),
                    self.transition_wait_millis,
                );
                let ghost waited = self.session.calls();
                assert(waited.take(before.len() as int) =~= before);
                assert(waited[before.len() as int] == dispatched[before.len() as int]);
                let settled = match sample {
                    Err(_) => {
                        self.pending = Some(pending);
                        return Err(RuntimeFault::UnknownEffect);
                    },
                    Ok(sample) => settled_receipt(&pending, sample),
                };
                match settled {
                    Err(fault) => {
                        self.pending = Some(pending);
                        Err(fault)
                    },
                    Ok(settled) => {
                        let ghost sv = settled@;
                        let ghost ob = observation_view(self.observation);
                        let r = self.finish_receipt(settled);
                        assert(self.session.calls().take(before.len() as int) =~= before);
                        assert(self.session.calls()[before.len() as int] == waited[before.len() as int]);
                        assert(self.session.calls()[before.len() + 1 as int] == waited[before.len() + 1 as int]);
                        assert(self.session.calls().skip(before.len() + 2 as int) =~= finish_calls(
                            ob,
                            sv,
                        ));
                        r
                    },
                }
            },
            DispatchStatus::Settled => {
                let ghost rv = receipt@;
                let ghost ob = observation_view(self.observation);
                let r = self.finish_receipt(receipt);
                assert(self.session.calls().take(before.len() as int) =~= before);
                assert(self.session.calls()[before.len() as int] == dispatched[before.len() as int]);
                assert(self.session.calls().skip(before.len() + 1 as int) =~= finish_calls(ob, rv));
                r
            },
        }
    }
}

} // verus!
