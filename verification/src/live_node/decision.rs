//! Held provider-decision attempts for the `Decide` node.
//!
//! A live decision pays a model runtime for exactly one exchange. The attempt
//! identity is installed before the exchange and released only once a usable
//! decision for that exact admitted request exists, so a lost reply, a
//! re-issued step or a restart cannot become a second paid exchange. Only a
//! refusal the provider owner reported before it could have written releases
//! the hold.

use vstd::prelude::*;
use crate::error::text_is;
use crate::digest::decimal;
use super::catalog::{
    catalog_digest, catalog_digest_of, decision_digest_of, decision_input_digest, string_views,
};
use super::episode::{
    CatalogView, EpisodeLegalActionSet, EpisodeObservation, ObservationView,
    find_action, observation_view,
};
use super::logged::{InputView, NodeCall};
use crate::error::{ErrorClass, ManagementError};
use super::node::{
    DecisionProposal, EdgeOutcome, LiveEpisodeSession, LiveNodeState, PendingOperation,
    PendingOperationState, RuntimeFault, classify_decision_refusal, is_uuid_text,
    new_operation_id,
};

verus! {

/// What the provider decided.
#[derive(Debug)]
pub enum Decision {
    /// Take one offered action, for a stated reason.
    Action { action_id: String, rationale: String },
    /// No action can be decided.
    Unavailable,
}

/// A decision as plain values.
pub enum DecisionView {
    Action { action_id: Seq<char>, rationale: Seq<char> },
    Unavailable,
}

impl View for Decision {
    type V = DecisionView;

    open spec fn view(&self) -> DecisionView {
        match self {
            Decision::Action { action_id, rationale } => DecisionView::Action {
                action_id: action_id@,
                rationale: rationale@,
            },
            Decision::Unavailable => DecisionView::Unavailable,
        }
    }
}

impl Clone for Decision {
    fn clone(&self) -> (r: Self)
        ensures
            r@ == self@,
    {
        match self {
            Decision::Action { action_id, rationale } => Decision::Action {
                action_id: action_id.clone(),
                rationale: rationale.clone(),
            },
            Decision::Unavailable => Decision::Unavailable,
        }
    }
}

/// The exact request one decision is made for.
#[derive(Debug)]
pub struct DecisionInput {
    pub execution_id: u64,
    pub observation: EpisodeObservation,
    pub actions: EpisodeLegalActionSet,
    pub objective: String,
    pub hard_constraints: Vec<String>,
}

/// The held identity of one paid decision attempt.
#[derive(Debug)]
pub struct PendingDecision {
    pub operation_id: String,
    pub execution_id: u64,
    pub generation: u64,
    pub input_digest: String,
    pub state: PendingOperationState,
    pub resolved: Option<Decision>,
}

/// A held attempt as plain values.
pub struct HoldView {
    pub operation_id: Seq<char>,
    pub execution_id: u64,
    pub input_digest: Seq<char>,
    pub state: PendingOperationState,
    pub resolved: Option<DecisionView>,
}

/// An optional held attempt as plain values.
pub open spec fn hold_view(p: Option<PendingDecision>) -> Option<HoldView> {
    match p {
        Some(x) => Some(
            HoldView {
                operation_id: x.operation_id@,
                execution_id: x.execution_id,
                input_digest: x.input_digest@,
                state: x.state,
                resolved: match x.resolved {
                    Some(d) => Some(d@),
                    None => None,
                },
            },
        ),
        None => None,
    }
}

/// What one `Decide` node yields: its edge and, on success, the proposal.
#[derive(Debug)]
pub struct DecisionOutcome {
    pub outcome: EdgeOutcome,
    pub proposal: Option<DecisionProposal>,
}

/// Whether a catalog was offered for the observed state and generation.
pub open spec fn catalog_matches(c: CatalogView, o: ObservationView) -> bool {
    c.state_id == o.state_id && c.generation == o.generation
}

/// The session's answer to the one legal-actions read a node made for an
/// observation, when the calls after `before` are exactly that read.
pub open spec fn admission_answer(
    before: Seq<NodeCall>,
    after: Seq<NodeCall>,
    o: ObservationView,
) -> Option<Result<CatalogView, ManagementError>> {
    if after.len() == before.len() + 1 && after.drop_last() == before {
        match after.last() {
            NodeCall::LegalActions(state_id, generation, answer) => if state_id == o.state_id
                && generation == o.generation {
                Some(answer)
            } else {
                None
            },
            _ => None,
        }
    } else {
        None
    }
}

/// What admitting the catalog read for an observation yields: an unreadable
/// catalog leaves the executor unavailable, and one offered for another state
/// or generation is rejected.
pub open spec fn admission_result(
    o: ObservationView,
    answer: Result<CatalogView, ManagementError>,
) -> Result<CatalogView, RuntimeFault> {
    match answer {
        Err(_) => Err(RuntimeFault::ExecutorUnavailable),
        Ok(c) => if catalog_matches(c, o) {
            Ok(c)
        } else {
            Err(RuntimeFault::ExecutorRejected)
        },
    }
}

/// What one `Decide` node with an observation and budget left does: it reads
/// the catalog offered for the observed state and generation once and admits
/// it; an admitted catalog is followed by exactly one decision request for
/// the next execution, the observation, that catalog, the objective and the
/// constraints. Only an answered request spends a provider call and retains
/// the catalog; no action is an unavailable edge, and an action offered by the
/// catalog becomes a proposal bound to the observation and catalog.
pub open spec fn decide_effect(
    obs: ObservationView,
    provider_calls: u64,
    objective: Seq<char>,
    hard_constraints: Seq<Seq<char>>,
    decision_profile_ref: Seq<char>,
    context_ref: Seq<char>,
    before: Seq<NodeCall>,
    after: Seq<NodeCall>,
    calls_after: u64,
    actions_after: Option<CatalogView>,
    r: Result<DecisionOutcome, RuntimeFault>,
) -> bool {
    after.len() >= before.len() + 1 && match admission_answer(
        before,
        after.take(before.len() + 1 as int),
        obs,
    ) {
        None => false,
        Some(answer) => match admission_result(obs, answer) {
            Err(f) => r == Err::<DecisionOutcome, RuntimeFault>(f) && after.len() == before.len()
                + 1 && calls_after == provider_calls,
            Ok(c) => after.len() == before.len() + 2 && match after[before.len() + 1 as int] {
                NodeCall::DecideFor(input, profile_ref, ctx_ref, decided) => input == (InputView {
                    execution_id: (provider_calls + 1) as u64,
                    observation: obs,
                    actions: c,
                    objective,
                    hard_constraints,
                }) && profile_ref == decision_profile_ref && ctx_ref == context_ref && match decided {
                    Err(_) => r == Err::<DecisionOutcome, RuntimeFault>(
                        RuntimeFault::ExecutorUnavailable,
                    ) && calls_after == provider_calls,
                    Ok(d) => calls_after == provider_calls + 1 && actions_after == Some(c) && match d {
                        DecisionView::Unavailable => r matches Ok(o) && o.outcome
                            == EdgeOutcome::Unavailable && o.proposal is None,
                        DecisionView::Action { action_id, .. } => if find_action(
                            c.actions,
                            action_id,
                        ) is Some {
                            match r {
                                Ok(o) => o.outcome == EdgeOutcome::Success && match o.proposal {
                                    Some(p) => proposal_binds(p, obs, c, action_id),
                                    None => false,
                                },
                                Err(_) => false,
                            }
                        } else {
                            r == Err::<DecisionOutcome, RuntimeFault>(RuntimeFault::ExecutorRejected)
                        },
                    },
                },
                _ => false,
            },
        },
    }
}

/// The reason code a rationale is carried as: a non-empty rationale only.
pub open spec fn reason_code_of(rationale: Seq<char>) -> Option<Seq<char>> {
    if rationale.len() > 0 {
        Some(rationale)
    } else {
        None
    }
}

/// Whether a proposal binds the action it decided to the observation and
/// catalog it was made against.
pub open spec fn proposal_binds(
    p: DecisionProposal,
    o: ObservationView,
    c: CatalogView,
    action_id: Seq<char>,
) -> bool {
    &&& p.state_id@ == o.state_id
    &&& p.generation == o.generation
    &&& p.catalog_digest@ == catalog_digest_of(c.actions)
    &&& p.action_id@ == action_id
    &&& find_action(c.actions, action_id) is Some
}

impl<S: LiveEpisodeSession> LiveNodeState<S> {
    /// The legal actions of the observed state, refused unless the catalog was
    /// offered for that exact state and generation.
    fn admitted_actions(&mut self, observation: &EpisodeObservation) -> (r: Result<
        EpisodeLegalActionSet,
        RuntimeFault,
    >)
        ensures
            final(self).instance_id == old(self).instance_id,
            final(self).session.intents() == old(self).session.intents(),
            r matches Ok(c) ==> catalog_matches(c@, observation@),
            r matches Err(f) ==> f == RuntimeFault::ExecutorUnavailable || f
                == RuntimeFault::ExecutorRejected,
            admission_answer(old(self).session.calls(), final(self).session.calls(), observation@)
                matches Some(answer) && match r {
                Ok(x) => admission_result(observation@, answer) == Ok::<
                    CatalogView,
                    RuntimeFault,
                >(x@),
                Err(f) => admission_result(observation@, answer) == Err::<
                    CatalogView,
                    RuntimeFault,
                >(f),
            },
            final(self).observation == old(self).observation,
            final(self).actions == old(self).actions,
            final(self).pending == old(self).pending,
            final(self).pending_decision == old(self).pending_decision,
            final(self).provider_calls == old(self).provider_calls,
            final(self).max_provider_calls == old(self).max_provider_calls,
            final(self).objective == old(self).objective,
            final(self).hard_constraints == old(self).hard_constraints,
    {
        let ghost before = self.session.calls();
        let actions = match self.session.legal_actions(
            observation.state_id.as_str(),
            observation.generation,
        ) {
            Ok(actions) => actions,
            Err(_) => {
                assert(self.session.calls().drop_last() =~= before);
                return Err(RuntimeFault::ExecutorUnavailable);
            },
        };
        assert(self.session.calls().drop_last() =~= before);
        if !text_is(&actions.state_id, observation.state_id.as_str()) || actions.generation
            != observation.generation {
            return Err(RuntimeFault::ExecutorRejected);
        }
        Ok(actions)
    }

    /// The proposal binding a decided action to the observation and the
    /// retained catalog: the action must be offered by that catalog.
    fn build_proposal(
        &mut self,
        observation: &EpisodeObservation,
        execution_id: u64,
        action_id: &String,
        rationale: &String,
    ) -> (r: Result<DecisionProposal, RuntimeFault>)
        ensures
            final(self).session.intents() == old(self).session.intents(),
            final(self).observation == old(self).observation,
            final(self).actions == old(self).actions,
            final(self).pending == old(self).pending,
            final(self).pending_decision == old(self).pending_decision,
            final(self).provider_calls == old(self).provider_calls,
            final(self).max_provider_calls == old(self).max_provider_calls,
            final(self).session.calls() == old(self).session.calls(),
            old(self).actions matches Some(c) && find_action(c@.actions, action_id@) is Some ==> r
                is Ok,
            r matches Ok(p) ==> (old(self).actions matches Some(c) && proposal_binds(
                p,
                observation@,
                c@,
                action_id@,
            )) && match p.reason_code {
                Some(c) => Some(c@),
                None => None,
            } == reason_code_of(rationale@),
            r matches Err(f) ==> f == RuntimeFault::InvalidState || f
                == RuntimeFault::ExecutorRejected,
            r == Err::<DecisionProposal, RuntimeFault>(RuntimeFault::InvalidState) ==> old(self).actions is None,
    {
        let (digest, offered) = match &self.actions {
            None => return Err(RuntimeFault::InvalidState),
            Some(actions) => match actions.find(action_id.as_str()) {
                None => return Err(RuntimeFault::ExecutorRejected),
                Some(action) => (catalog_digest(actions), action.action_id.clone()),
            },
        };
        let model_id = match self.session.model_execution_id() {
            Some(id) => id,
            None => execution_id,
        };
        let reason_code = if rationale.as_str().unicode_len() > 0 {
            Some(rationale.clone())
        } else {
            None
        };
        Ok(
            DecisionProposal {
                state_id: observation.state_id.clone(),
                generation: observation.generation,
                catalog_digest: digest,
                action_id: offered,
                provider_execution_id: decimal(model_id),
                reason_code,
            },
        )
    }

    /// Executes one `Decide` node with one provider exchange and no held
    /// attempt: the observation and the catalog offered for it are admitted,
    /// the budget of provider calls is enforced, and a decided action becomes
    /// a proposal bound to both.
    pub fn decide(&mut self, decision_profile_ref: &str, context_ref: &str) -> (r: Result<
        DecisionOutcome,
        RuntimeFault,
    >)
        ensures
            final(self).session.intents() == old(self).session.intents(),
            final(self).pending == old(self).pending,
            final(self).pending_decision == old(self).pending_decision,
            final(self).max_provider_calls == old(self).max_provider_calls,
            old(self).observation is None ==> r == Err::<DecisionOutcome, RuntimeFault>(
                RuntimeFault::InvalidState,
            ),
            old(self).observation is Some && old(self).provider_calls >= old(self).max_provider_calls ==> r == Err::<DecisionOutcome, RuntimeFault>(
                RuntimeFault::BudgetExceeded,
            ),
            final(self).provider_calls == old(self).provider_calls || final(self).provider_calls
                == old(self).provider_calls + 1,
            r is Ok ==> final(self).provider_calls == old(self).provider_calls + 1,
            r matches Ok(o) ==> o.outcome != EdgeOutcome::Error && (o.outcome
                == EdgeOutcome::Success <==> o.proposal is Some),
            r matches Ok(o) ==> (o.proposal matches Some(p) ==> (observation_view(
                old(self).observation,
            ) matches Some(obs) && final(self).actions matches Some(c) && catalog_matches(
                c@,
                obs,
            ) && proposal_binds(p, obs, c@, p.action_id@))),
            old(self).observation is None || old(self).provider_calls >= old(self).max_provider_calls ==> final(self).session.calls() == old(self).session.calls()
                && final(self).provider_calls == old(self).provider_calls,
            match observation_view(old(self).observation) {
                Some(obs) => old(self).provider_calls < old(self).max_provider_calls ==> decide_effect(
                    obs,
                    old(self).provider_calls,
                    old(self).objective@,
                    string_views(old(self).hard_constraints@),
                    decision_profile_ref@,
                    context_ref@,
                    old(self).session.calls(),
                    final(self).session.calls(),
                    final(self).provider_calls,
                    match final(self).actions {
                        Some(c) => Some(c@),
                        None => None,
                    },
                    r,
                ),
                None => true,
            },
    {
        let observation = match &self.observation {
            Some(o) => o.clone(),
            None => return Err(RuntimeFault::InvalidState),
        };
        if self.provider_calls >= self.max_provider_calls {
            return Err(RuntimeFault::BudgetExceeded);
        }
        let ghost before = self.session.calls();
        let actions = match self.admitted_actions(&observation) {
            Ok(a) => a,
            Err(f) => {
                assert(self.session.calls().take(before.len() + 1 as int) =~= self.session.calls());
                return Err(f);
            },
        };
        let ghost admitted = self.session.calls();
        assert(admitted.take(before.len() + 1 as int) =~= admitted);
        let execution_id = self.provider_calls + 1;
        let input = DecisionInput {
            execution_id,
            observation: observation.clone(),
            actions: actions.clone(),
            objective: self.objective.clone(),
            hard_constraints: clone_texts(&self.hard_constraints),
        };
        let decision = match self.session.decide_for(&input, decision_profile_ref, context_ref) {
            Ok(d) => d,
            Err(_) => {
                assert(self.session.calls().take(before.len() + 1 as int) =~= admitted);
                return Err(RuntimeFault::ExecutorUnavailable);
            },
        };
        assert(self.session.calls().take(before.len() + 1 as int) =~= admitted);
        self.provider_calls = execution_id;
        self.actions = Some(actions);
        match &decision {
            Decision::Unavailable => Ok(
                DecisionOutcome { outcome: EdgeOutcome::Unavailable, proposal: None },
            ),
            Decision::Action { action_id, rationale } => {
                match self.build_proposal(&observation, execution_id, action_id, rationale) {
                    Ok(p) => Ok(DecisionOutcome { outcome: EdgeOutcome::Success, proposal: Some(p) }),
                    Err(f) => Err(f),
                }
            },
        }
    }

    /// Turns one usable decision into the node outcome and releases the
    /// attempt: no action is an unavailable edge; an action must be offered by
    /// the admitted catalog and becomes a proposal bound to the observation.
    fn finish_decision(
        &mut self,
        observation: &EpisodeObservation,
        execution_id: u64,
        decision: &Decision,
    ) -> (r: Result<DecisionOutcome, RuntimeFault>)
        ensures
            final(self).session.intents() == old(self).session.intents(),
            final(self).observation == old(self).observation,
            final(self).actions == old(self).actions,
            final(self).pending == old(self).pending,
            final(self).provider_calls == old(self).provider_calls,
            final(self).max_provider_calls == old(self).max_provider_calls,
            r is Ok ==> final(self).pending_decision is None,
            r is Err ==> final(self).pending_decision == old(self).pending_decision,
            r == Err::<DecisionOutcome, RuntimeFault>(RuntimeFault::InvalidState) ==> old(self).actions is None,
            final(self).session.calls() == old(self).session.calls(),
            decision@ matches DecisionView::Action { action_id, .. } ==> (old(self).actions matches Some(
                c,
            ) && find_action(c@.actions, action_id) is Some ==> r is Ok),
            decision@ is Unavailable ==> (r matches Ok(o) && o.outcome == EdgeOutcome::Unavailable
                && o.proposal is None),
            r matches Ok(o) ==> o.outcome != EdgeOutcome::Error,
            r matches Ok(o) ==> (o.outcome == EdgeOutcome::Success <==> o.proposal is Some),
            r matches Ok(o) ==> (o.proposal matches Some(p) ==> (decision@ matches DecisionView::Action {
                action_id,
                ..
            } && (old(self).actions matches Some(c) && proposal_binds(
                p,
                observation@,
                c@,
                action_id,
            )))),
    {
        let (action_id, rationale) = match decision {
            Decision::Unavailable => {
                self.pending_decision = None;
                return Ok(DecisionOutcome { outcome: EdgeOutcome::Unavailable, proposal: None });
            },
            Decision::Action { action_id, rationale } => (action_id, rationale),
        };
        let proposal = match self.build_proposal(observation, execution_id, action_id, rationale) {
            Ok(p) => p,
            Err(f) => return Err(f),
        };
        self.pending_decision = None;
        Ok(DecisionOutcome { outcome: EdgeOutcome::Success, proposal: Some(proposal) })
    }

    /// Executes one `Decide` node under the held-attempt discipline; see the
    /// module documentation.
    pub fn decide_with_held_attempt(&mut self, decision_profile_ref: &str, context_ref: &str) -> (r:
        Result<DecisionOutcome, RuntimeFault>)
        ensures
            old(self).pending_decision is Some ==> final(self).session.intents() == old(self).session.intents(),
            final(self).session.intents() == old(self).session.intents() || (final(self).session.intents().len() == old(self).session.intents().len() + 1 && final(self).session.intents().drop_last() == old(self).session.intents()),
            final(self).session.intents().len() > old(self).session.intents().len() ==> ({
                let op = final(self).session.intents().last().0;
                &&& is_uuid_text(op.operation_id)
                &&& op.classification == PendingOperationState::Intent
                &&& op.instance_id == old(self).instance_id@
                &&& observation_view(old(self).observation) matches Some(o)
                &&& op.original_generation == o.generation
            }),
            (final(self).session.intents().len() > old(self).session.intents().len() && !final(self).session.intents().last().1) ==> r == Err::<DecisionOutcome, RuntimeFault>(
                RuntimeFault::ExecutorUnavailable,
            ) && final(self).pending_decision is None && final(self).session.calls().len() == old(self).session.calls().len() + 1 && final(self).provider_calls == old(self).provider_calls,
            (old(self).pending_decision is None && final(self).session.calls().len() > old(self).session.calls().len() + 1) ==> final(self).session.intents().len() == old(self).session.intents().len() + 1 && final(self).session.intents().last().1,
            old(self).pending_decision is None ==> (hold_view(final(self).pending_decision) matches Some(
                h,
            ) ==> final(self).session.intents().len() == old(self).session.intents().len() + 1
                && final(self).session.intents().last().0.operation_id == h.operation_id
                && final(self).session.intents().last().0.payload_digest == h.input_digest),
            final(self).pending == old(self).pending,
            final(self).max_provider_calls == old(self).max_provider_calls,
            hold_view(old(self).pending_decision) matches Some(h) ==> (hold_view(
                final(self).pending_decision,
            ) is None || hold_view(final(self).pending_decision) == Some(h)),
            hold_view(old(self).pending_decision) matches Some(h) ==> (h.resolved is None ==> (r
                is Err && hold_view(final(self).pending_decision) == Some(h))),
            hold_view(old(self).pending_decision) is Some ==> final(self).provider_calls == old(self).provider_calls,
            old(self).pending_decision is None && old(self).observation is Some && old(self).provider_calls >= old(self).max_provider_calls ==> r == Err::<
                DecisionOutcome,
                RuntimeFault,
            >(RuntimeFault::BudgetExceeded) && final(self).pending_decision is None,
            old(self).pending_decision is None && r == Err::<DecisionOutcome, RuntimeFault>(
                RuntimeFault::UnknownEffect,
            ) ==> (hold_view(final(self).pending_decision) matches Some(h) && h.execution_id
                == old(self).provider_calls + 1),
            old(self).pending_decision is None && r is Ok ==> final(self).pending_decision is None
                && final(self).provider_calls == old(self).provider_calls + 1,
            r matches Ok(o) ==> o.outcome != EdgeOutcome::Error,
            old(self).pending_decision is None ==> match final(self).session.calls().last() {
                NodeCall::DecideFor(_, _, _, Err(e)) => final(self).session.calls().len() > old(self).session.calls().len() ==> final(self).provider_calls == old(self).provider_calls
                    && if e.class == ErrorClass::Unresolved {
                    r == Err::<DecisionOutcome, RuntimeFault>(RuntimeFault::UnknownEffect)
                        && final(self).pending_decision is Some
                } else {
                    r == Err::<DecisionOutcome, RuntimeFault>(RuntimeFault::ExecutorUnavailable)
                        && final(self).pending_decision is None
                },
                _ => true,
            },
    {
        if self.pending_decision.is_some() {
            return self.retry_held_decision();
        }
        let observation = match &self.observation {
            Some(o) => o.clone(),
            None => return Err(RuntimeFault::InvalidState),
        };
        if self.provider_calls >= self.max_provider_calls {
            return Err(RuntimeFault::BudgetExceeded);
        }
        let actions = match self.admitted_actions(&observation) {
            Ok(a) => a,
            Err(f) => return Err(f),
        };
        let execution_id = self.provider_calls + 1;
        let input_digest = decision_input_digest(
            execution_id,
            observation.state_id.as_str(),
            observation.generation,
            &actions,
            self.objective.as_str(),
            &self.hard_constraints,
        );
        let input = DecisionInput {
            execution_id,
            observation: observation.clone(),
            actions: actions.clone(),
            objective: self.objective.clone(),
            hard_constraints: clone_texts(&self.hard_constraints),
        };
        let operation_id = new_operation_id();
        let intent = PendingOperation {
            operation_id: operation_id.clone(),
            classification: PendingOperationState::Intent,
            instance_id: self.instance_id.clone(),
            original_generation: observation.generation,
            payload_digest: input_digest.clone(),
        };
        match self.session.record_intent(&intent) {
            Err(_) => return Err(RuntimeFault::ExecutorUnavailable),
            Ok(()) => {},
        }
        self.pending_decision = Some(
            PendingDecision {
                operation_id,
                execution_id,
                generation: observation.generation,
                input_digest,
                state: PendingOperationState::Intent,
                resolved: None,
            },
        );
        let decision = match self.session.decide_for(&input, decision_profile_ref, context_ref) {
            Ok(d) => d,
            Err(error) => {
                let fault = classify_decision_refusal(&error);
                if fault != RuntimeFault::UnknownEffect {
                    self.pending_decision = None;
                }
                return Err(fault);
            },
        };
        self.provider_calls = execution_id;
        self.actions = Some(actions);
        let held = match self.pending_decision.take() {
            Some(h) => h,
            None => return Err(RuntimeFault::InvalidState),
        };
        self.pending_decision = Some(
            PendingDecision {
                operation_id: held.operation_id,
                execution_id: held.execution_id,
                generation: held.generation,
                input_digest: held.input_digest,
                state: PendingOperationState::Accepted,
                resolved: Some(decision.clone()),
            },
        );
        self.finish_decision(&observation, execution_id, &decision)
    }

    /// Re-enters a held attempt without paying for a second exchange: the
    /// admitted request must be the one the attempt was paid for, and only a
    /// resolved attempt yields an outcome.
    fn retry_held_decision(&mut self) -> (r: Result<DecisionOutcome, RuntimeFault>)
        requires
            old(self).pending_decision is Some,
        ensures
            final(self).session.intents() == old(self).session.intents(),
            final(self).pending == old(self).pending,
            final(self).provider_calls == old(self).provider_calls,
            final(self).max_provider_calls == old(self).max_provider_calls,
            final(self).observation == old(self).observation,
            hold_view(final(self).pending_decision) is None || hold_view(final(self).pending_decision)
                == hold_view(old(self).pending_decision),
            hold_view(old(self).pending_decision) matches Some(h) ==> (h.resolved is None ==> (r
                is Err && hold_view(final(self).pending_decision) == Some(h))),
            r == Err::<DecisionOutcome, RuntimeFault>(RuntimeFault::InvalidState) <==> old(self).observation is None,
            old(self).observation is None ==> hold_view(final(self).pending_decision) == hold_view(
                old(self).pending_decision,
            ),
            r matches Ok(o) ==> o.outcome != EdgeOutcome::Error,
            r matches Ok(o) ==> {
                &&& final(self).pending_decision is None
                &&& hold_view(old(self).pending_decision) matches Some(h)
                &&& h.resolved matches Some(d)
                &&& observation_view(old(self).observation) matches Some(obs)
                &&& final(self).actions matches Some(c)
                &&& catalog_matches(c@, obs)
                &&& h.input_digest == decision_digest_of(
                    h.execution_id,
                    obs.state_id,
                    obs.generation,
                    c@.actions,
                    old(self).objective@,
                    string_views(old(self).hard_constraints@),
                )
                &&& (d is Unavailable ==> o.outcome == EdgeOutcome::Unavailable && o.proposal
                    is None)
                &&& (o.outcome == EdgeOutcome::Success <==> o.proposal is Some)
                &&& (o.proposal matches Some(p) ==> (d matches DecisionView::Action {
                    action_id,
                    ..
                } && proposal_binds(p, obs, c@, action_id)))
            },
    {
        let (held_execution_id, held_digest) = match &self.pending_decision {
            Some(h) => (h.execution_id, h.input_digest.clone()),
            None => return Err(RuntimeFault::InvalidState),
        };
        let observation = match &self.observation {
            Some(o) => o.clone(),
            None => return Err(RuntimeFault::InvalidState),
        };
        let actions = match self.admitted_actions(&observation) {
            Ok(a) => a,
            Err(f) => return Err(f),
        };
        let digest = decision_input_digest(
            held_execution_id,
            observation.state_id.as_str(),
            observation.generation,
            &actions,
            self.objective.as_str(),
            &self.hard_constraints,
        );
        if !(digest == held_digest) {
            return Err(RuntimeFault::UnknownEffect);
        }
        let held = match self.pending_decision.take() {
            Some(h) => h,
            None => return Err(RuntimeFault::InvalidState),
        };
        self.actions = Some(actions);
        match held.resolved {
            Some(decision) => self.finish_decision(&observation, held_execution_id, &decision),
            None => {
                self.pending_decision = Some(
                    PendingDecision {
                        operation_id: held.operation_id,
                        execution_id: held.execution_id,
                        generation: held.generation,
                        input_digest: held.input_digest,
                        state: held.state,
                        resolved: None,
                    },
                );
                Err(RuntimeFault::UnknownEffect)
            },
        }
    }
}

/// Copies a list of texts.
fn clone_texts(v: &Vec<String>) -> (r: Vec<String>)
    ensures
        string_views(r@) == string_views(v@),
{
    let mut out: Vec<String> = Vec::new();
    let mut i: usize = 0;
    while i < v.len()
        invariant
            i <= v.len(),
            out.len() == i,
            forall|k: int| 0 <= k < i ==> #[trigger] out@[k]@ == v@[k]@,
        decreases v.len() - i,
    {
        out.push(v[i].clone());
        i = i + 1;
    }
    assert(string_views(out@) =~= string_views(v@));
    out
}

} // verus!
