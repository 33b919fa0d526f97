//! The episode session a live node drives, held with the log of the calls the
//! node made on it and what the session answered. Only the methods here add
//! to the log, one entry for each call they make.

use vstd::prelude::*;
use crate::error::ManagementError;
use super::catalog::string_views;
use super::decision::{Decision, DecisionInput, DecisionView};
use super::episode::{
    ActionIdentity, ActionView, CatalogView, EpisodeLegalAction, EpisodeLegalActionSet,
    IdentityView, ObservationView, ReceiptView, TransitionReceipt, WaitOutcome, WaitSample,
    observation_view,
};
use super::node::{LiveEpisodeSession, OperationView, PendingOperation};

verus! {

/// A decision request as plain values.
pub struct InputView {
    pub execution_id: u64,
    pub observation: ObservationView,
    pub actions: CatalogView,
    pub objective: Seq<char>,
    pub hard_constraints: Seq<Seq<char>>,
}

/// The plain values of a decision request.
pub open spec fn input_view(input: DecisionInput) -> InputView {
    InputView {
        execution_id: input.execution_id,
        observation: input.observation@,
        actions: input.actions@,
        objective: input.objective@,
        hard_constraints: string_views(input.hard_constraints@),
    }
}

/// A wait sample as plain values.
pub struct SampleView {
    pub outcome: WaitOutcome,
    pub observation: Option<ObservationView>,
    pub effect_kind: Option<Seq<char>>,
}

/// The plain values of a wait sample.
pub open spec fn sample_view(s: WaitSample) -> SampleView {
    SampleView {
        outcome: s.outcome,
        observation: observation_view(s.observation),
        effect_kind: match s.effect_kind {
            Some(e) => Some(e@),
            None => None,
        },
    }
}

/// One call a live node made on its episode session, with the answer.
pub enum NodeCall {
    /// An action was dispatched under an identity.
    Dispatch(IdentityView, ActionView, Result<ReceiptView, ManagementError>),
    /// The transition of an operation was awaited for some milliseconds.
    Wait(Seq<char>, u32, Result<SampleView, ManagementError>),
    /// An operation was reconciled by its identity.
    Reconcile(Seq<char>, Result<ReceiptView, ManagementError>),
    /// The session was told whether the action completed.
    ActionCompleted(bool),
    /// The legal actions of a state and generation were read.
    LegalActions(Seq<char>, u64, Result<CatalogView, ManagementError>),
    /// One decision was requested, under a profile and a context.
    DecideFor(InputView, Seq<char>, Seq<char>, Result<DecisionView, ManagementError>),
}

/// An episode session with the log of the calls a node made on it, and the
/// log of the pending operations it was asked to record durably, each with
/// whether the record was accepted.
pub struct LoggedSession<S> {
    session: S,
    calls: Ghost<Seq<NodeCall>>,
    intents: Ghost<Seq<(OperationView, bool)>>,
}

impl<S: LiveEpisodeSession> LoggedSession<S> {
    /// Holds one session, with nothing asked of it yet.
    pub fn new(session: S) -> (r: Self)
        ensures
            r.calls() == Seq::<NodeCall>::empty(),
            r.intents() == Seq::<(OperationView, bool)>::empty(),
    {
        LoggedSession { session, calls: Ghost(Seq::empty()), intents: Ghost(Seq::empty()) }
    }

    /// The calls made on the session, in order, with its answers.
    pub closed spec fn calls(&self) -> Seq<NodeCall> {
        self.calls@
    }

    /// The pending operations the session was asked to record, in order,
    /// with whether each record was accepted.
    pub closed spec fn intents(&self) -> Seq<(OperationView, bool)> {
        self.intents@
    }

    /// The held session.
    pub closed spec fn held(&self) -> S {
        self.session
    }

    /// The session, for its owner to inspect.
    pub fn session(&self) -> (r: &S)
        ensures
            *r == self.held(),
    {
        &self.session
    }

    pub fn record_intent(&mut self, pending: &PendingOperation) -> (r: Result<(), ManagementError>)
        ensures
            final(self).intents() == old(self).intents().push((pending@, r is Ok)),
            final(self).calls() == old(self).calls(),
    {
        let r = self.session.record_intent(pending);
        self.intents = Ghost(self.intents@.push((pending@, r is Ok)));
        r
    }

    pub fn dispatch_action(&mut self, identity: &ActionIdentity, action: &EpisodeLegalAction) -> (r:
        Result<TransitionReceipt, ManagementError>)
        ensures
            final(self).intents() == old(self).intents(),
            final(self).calls() == old(self).calls().push(
                NodeCall::Dispatch(
                    identity@,
                    action@,
                    match r {
                        Ok(x) => Ok(x@),
                        Err(e) => Err(e),
                    },
                ),
            ),
    {
        let r = self.session.dispatch_action(identity, action);
        let ghost answer = match &r {
            Ok(x) => Ok(x@),
            Err(e) => Err(*e),
        };
        self.calls = Ghost(self.calls@.push(NodeCall::Dispatch(identity@, action@, answer)));
        r
    }

    pub fn wait_for_transition(&mut self, operation_id: &str, wait_for_millis: u32) -> (r: Result<
        WaitSample,
        ManagementError,
    >)
        ensures
            final(self).intents() == old(self).intents(),
            final(self).calls() == old(self).calls().push(
                NodeCall::Wait(
                    operation_id@,
                    wait_for_millis,
                    match r {
                        Ok(x) => Ok(sample_view(x)),
                        Err(e) => Err(e),
                    },
                ),
            ),
    {
        let r = self.session.wait_for_transition(operation_id, wait_for_millis);
        let ghost answer = match &r {
            Ok(x) => Ok(sample_view(*x)),
            Err(e) => Err(*e),
        };
        self.calls = Ghost(self.calls@.push(NodeCall::Wait(operation_id@, wait_for_millis, answer)));
        r
    }

    pub fn reconcile(&mut self, operation_id: &str) -> (r: Result<TransitionReceipt, ManagementError>)
        ensures
            final(self).intents() == old(self).intents(),
            final(self).calls() == old(self).calls().push(
                NodeCall::Reconcile(
                    operation_id@,
                    match r {
                        Ok(x) => Ok(x@),
                        Err(e) => Err(e),
                    },
                ),
            ),
    {
        let r = self.session.reconcile(operation_id);
        let ghost answer = match &r {
            Ok(x) => Ok(x@),
            Err(e) => Err(*e),
        };
        self.calls = Ghost(self.calls@.push(NodeCall::Reconcile(operation_id@, answer)));
        r
    }

    pub fn action_completed(&mut self, succeeded: bool)
        ensures
            final(self).intents() == old(self).intents(),
            final(self).calls() == old(self).calls().push(NodeCall::ActionCompleted(succeeded)),
    {
        self.session.action_completed(succeeded);
        self.calls = Ghost(self.calls@.push(NodeCall::ActionCompleted(succeeded)));
    }

    pub fn legal_actions(&mut self, state_id: &str, generation: u64) -> (r: Result<
        EpisodeLegalActionSet,
        ManagementError,
    >)
        ensures
            final(self).intents() == old(self).intents(),
            final(self).calls() == old(self).calls().push(
                NodeCall::LegalActions(
                    state_id@,
                    generation,
                    match r {
                        Ok(x) => Ok(x@),
                        Err(e) => Err(e),
                    },
                ),
            ),
    {
        let r = self.session.legal_actions(state_id, generation);
        let ghost answer = match &r {
            Ok(x) => Ok(x@),
            Err(e) => Err(*e),
        };
        self.calls = Ghost(self.calls@.push(NodeCall::LegalActions(state_id@, generation, answer)));
        r
    }

    pub fn decide_for(
        &mut self,
        input: &DecisionInput,
        decision_profile_ref: &str,
        context_ref: &str,
    ) -> (r: Result<Decision, ManagementError>)
        ensures
            final(self).intents() == old(self).intents(),
            final(self).calls() == old(self).calls().push(
                NodeCall::DecideFor(
                    input_view(*input),
                    decision_profile_ref@,
                    context_ref@,
                    match r {
                        Ok(x) => Ok(x@),
                        Err(e) => Err(e),
                    },
                ),
            ),
    {
        let r = self.session.decide_for(input, decision_profile_ref, context_ref);
        let ghost answer = match &r {
            Ok(x) => Ok(x@),
            Err(e) => Err(*e),
        };
        self.calls = Ghost(
            self.calls@.push(
                NodeCall::DecideFor(input_view(*input), decision_profile_ref@, context_ref@, answer),
            ),
        );
        r
    }

    /// The model execution the held session reports for its last decision:
    /// the session's own answer, passed on unchanged.
    pub fn model_execution_id(&self) -> Option<u64> {
        self.session.model_execution_id()
    }
}

} // verus!
