use std::sync::{Arc, Mutex};

use harness::live_node::{
    catalog_digest, decision_input_digest, ActionIdentity, Decision, DecisionInput, DecisionProposal, DispatchStatus, EdgeOutcome,
    EpisodeLegalAction, EpisodeLegalActionSet, EpisodeObservation, LiveEpisodeSession,
    LiveNodeState, LoggedSession, PendingDispatch, PendingOperation, PendingOperationState,
    RuntimeFault,
    TransitionReceipt,
    WaitOutcome, WaitSample,
};
use harness::{ErrorClass, ManagementError};
use sha2::{Digest, Sha256};

/// Bounded transport log for the runtime double.
#[derive(Default)]
struct SettlementLog {
    dispatches: Vec<(String, String)>,
    waits: Vec<String>,
    reconciles: Vec<String>,
    completions: Vec<bool>,
    decisions: Vec<u64>,
    intents: Vec<(String, String, u64, String)>,
}

#[derive(Clone, Copy)]
enum WaitMode {
    Settled,
    Timeout,
}

#[derive(Clone, Copy)]
enum DecideMode {
    EndTurn,
    LostReply,
    RefusedBeforeWrite,
}

#[derive(Clone, Copy)]
enum ReconcileMode {
    Settled,
    Accepted,
}

struct SettlementRuntime {
    decide_mode: Arc<Mutex<DecideMode>>,
    after: EpisodeObservation,
    wait_mode: WaitMode,
    reconcile_mode: ReconcileMode,
    refuse_intents: bool,
    log: Arc<Mutex<SettlementLog>>,
}

fn end_turn() -> EpisodeLegalAction {
    EpisodeLegalAction::new("combat.end-turn", "EndTurn")
}

impl LiveEpisodeSession for SettlementRuntime {
    fn dispatch_action(
        &mut self,
        identity: &ActionIdentity,
        action: &EpisodeLegalAction,
    ) -> Result<TransitionReceipt, ManagementError> {
        self.log
            .lock()
            .expect("log lock")
            .dispatches
            .push((identity.operation_id.clone(), action.action_id().to_owned()));
        Ok(TransitionReceipt::new(
            &identity.operation_id,
            action.clone(),
            DispatchStatus::Accepted,
            None,
            None,
        ))
    }

    fn wait_for_transition(
        &mut self,
        operation_id: &str,
        _wait_for_millis: u32,
    ) -> Result<WaitSample, ManagementError> {
        self.log
            .lock()
            .expect("log lock")
            .waits
            .push(operation_id.to_owned());
        Ok(match self.wait_mode {
            WaitMode::Settled => WaitSample::new(WaitOutcome::Successor, Some(self.after.clone()))
                .with_effect_kind("end_turn"),
            WaitMode::Timeout => WaitSample::new(WaitOutcome::Timeout, None),
        })
    }

    fn reconcile(&mut self, operation_id: &str) -> Result<TransitionReceipt, ManagementError> {
        self.log
            .lock()
            .expect("log lock")
            .reconciles
            .push(operation_id.to_owned());
        Ok(match self.reconcile_mode {
            ReconcileMode::Settled => TransitionReceipt::new(
                operation_id,
                end_turn(),
                DispatchStatus::Settled,
                Some(self.after.clone()),
                Some("end_turn".to_owned()),
            ),
            ReconcileMode::Accepted => TransitionReceipt::new(
                operation_id,
                end_turn(),
                DispatchStatus::Accepted,
                None,
                None,
            ),
        })
    }

    fn action_completed(&mut self, succeeded: bool) {
        self.log.lock().expect("log lock").completions.push(succeeded);
    }

    fn legal_actions(
        &mut self,
        _state_id: &str,
        _generation: u64,
    ) -> Result<EpisodeLegalActionSet, ManagementError> {
        Ok(catalog())
    }

    fn decide_for(
        &mut self,
        input: &DecisionInput,
        _decision_profile_ref: &str,
        _context_ref: &str,
    ) -> Result<Decision, ManagementError> {
        self.log
            .lock()
            .expect("log lock")
            .decisions
            .push(input.execution_id);
        let mode = *self.decide_mode.lock().expect("mode lock");
        match mode {
            DecideMode::EndTurn => Ok(Decision::Action {
                action_id: "combat.end-turn".to_owned(),
                rationale: "nothing playable".to_owned(),
            }),
            DecideMode::LostReply => Err(ManagementError {
                class: ErrorClass::Unresolved,
                code: "provider_decision_failed".to_owned(),
                message: "reply lost".to_owned(),
            }),
            DecideMode::RefusedBeforeWrite => Err(ManagementError {
                class: ErrorClass::Capability,
                code: "prepared_boundary_unsupported".to_owned(),
                message: "no sink".to_owned(),
            }),
        }
    }

    fn model_execution_id(&self) -> Option<u64> {
        None
    }

    fn record_intent(&mut self, pending: &PendingOperation) -> Result<(), ManagementError> {
        assert_eq!(pending.classification, PendingOperationState::Intent);
        if self.refuse_intents {
            return Err(ManagementError {
                class: ErrorClass::Unavailable,
                code: "intent_journal_unavailable".to_owned(),
                message: "journal offline".to_owned(),
            });
        }
        self.log.lock().expect("log lock").intents.push((
            pending.operation_id.clone(),
            pending.instance_id.clone(),
            pending.original_generation,
            pending.payload_digest.clone(),
        ));
        Ok(())
    }
}

fn observation(generation: u64) -> EpisodeObservation {
    EpisodeObservation::new("combat-1", generation)
}

fn catalog() -> EpisodeLegalActionSet {
    EpisodeLegalActionSet::new("combat-1", 1, vec![end_turn()])
}

fn served_state(
    wait_mode: WaitMode,
    reconcile_mode: ReconcileMode,
) -> (LiveNodeState<SettlementRuntime>, Arc<Mutex<SettlementLog>>) {
    served_state_with_journal(wait_mode, reconcile_mode, false)
}

fn served_state_with_journal(
    wait_mode: WaitMode,
    reconcile_mode: ReconcileMode,
    refuse_intents: bool,
) -> (LiveNodeState<SettlementRuntime>, Arc<Mutex<SettlementLog>>) {
    let log = Arc::new(Mutex::new(SettlementLog::default()));
    let runtime = SettlementRuntime {
        decide_mode: Arc::new(Mutex::new(DecideMode::EndTurn)),
        after: observation(2),
        wait_mode,
        reconcile_mode,
        refuse_intents,
        log: Arc::clone(&log),
    };
    let state = LiveNodeState {
        session: LoggedSession::new(runtime),
        instance_id: "test-instance".to_owned(),
        observation: Some(observation(1)),
        actions: Some(catalog()),
        pending: None,
        pending_decision: None,
        provider_calls: 0,
        max_provider_calls: 8,
        objective: "win the combat".to_owned(),
        hard_constraints: Vec::new(),
        transition_wait_millis: 1_000,
    };
    (state, log)
}

fn proposal() -> DecisionProposal {
    let actions = catalog();
    DecisionProposal {
        state_id: "combat-1".to_owned(),
        generation: 1,
        catalog_digest: catalog_digest(&actions),
        action_id: "combat.end-turn".to_owned(),
        provider_execution_id: "execution-1".to_owned(),
        reason_code: None,
    }
}

#[test]
fn served_live_execute_action_advances_only_after_verified_settlement() {
    let (mut state, log) = served_state(WaitMode::Settled, ReconcileMode::Settled);

    let outcome = state
        .execute_action(&proposal())
        .expect("a settled accepted action advances");

    assert_eq!(outcome.outcome, EdgeOutcome::Success);
    let log = log.lock().expect("log lock");
    assert_eq!(log.dispatches.len(), 1, "exactly one mutating dispatch");
    assert_eq!(log.dispatches[0].1, "combat.end-turn");
    assert_eq!(log.waits.len(), 1, "exactly one settlement wait");
    assert_eq!(
        log.waits[0], log.dispatches[0].0,
        "the wait observes the same operation the dispatch installed"
    );
    drop(log);
    assert!(state.pending.is_none(), "the settled operation is released");
    assert_eq!(
        state
            .observation
            .as_ref()
            .expect("advanced observation")
            .generation(),
        2,
        "the run advanced only to the settled observation"
    );
}

#[test]
fn served_live_execute_action_refuses_to_advance_without_settlement() {
    let (mut state, log) = served_state(WaitMode::Timeout, ReconcileMode::Settled);

    let fault = state
        .execute_action(&proposal())
        .expect_err("an unobserved settlement is unknown, never success");

    assert_eq!(fault, RuntimeFault::UnknownEffect);
    let log = log.lock().expect("log lock");
    assert_eq!(log.dispatches.len(), 1, "the mutation was attempted once");
    assert!(
        log.reconciles.is_empty(),
        "no replacement or reconciliation effect is fabricated at the node"
    );
    drop(log);
    assert_eq!(
        state
            .observation
            .as_ref()
            .expect("retained observation")
            .generation(),
        1,
        "the run did not advance past the accepted dispatch"
    );
    let pending = state.pending.as_ref().expect("accepted operation retained");
    assert_eq!(pending.state, PendingOperationState::Accepted);
    assert!(pending.resolved.is_none());
}

#[test]
fn served_live_cancel_reconciles_the_accepted_operation_once() {
    let (mut state, log) = served_state(WaitMode::Timeout, ReconcileMode::Settled);
    let identity =
        ActionIdentity::new("op-accepted-1", "combat-1", 1, "combat.end-turn").expect("identity");
    state.pending = Some(PendingDispatch {
        identity: identity.clone(),
        action: end_turn(),
        state: PendingOperationState::Accepted,
        resolved: None,
    });

    state
        .reconcile_pending()
        .expect("a served settlement resolves the operation");

    let log = log.lock().expect("log lock");
    assert_eq!(log.reconciles, ["op-accepted-1"]);
    assert!(
        log.dispatches.is_empty(),
        "cancellation never re-dispatches"
    );
    drop(log);
    let pending = state.pending.as_ref().expect("retained operation");
    let resolved = pending.resolved.as_ref().expect("resolved settlement");
    assert_eq!(resolved.status(), DispatchStatus::Settled);
    assert_eq!(resolved.operation_id(), "op-accepted-1");
}

#[test]
fn served_live_cancel_retains_an_unresolved_accepted_operation() {
    let (mut state, log) = served_state(WaitMode::Timeout, ReconcileMode::Accepted);
    let identity =
        ActionIdentity::new("op-accepted-2", "combat-1", 1, "combat.end-turn").expect("identity");
    state.pending = Some(PendingDispatch {
        identity: identity.clone(),
        action: end_turn(),
        state: PendingOperationState::Accepted,
        resolved: None,
    });

    let error = state
        .reconcile_pending()
        .expect_err("still-accepted stays unresolved");

    assert_eq!(error.class, ErrorClass::Unresolved);
    assert_eq!(error.code, "live_operation_unknown");
    let log = log.lock().expect("log lock");
    assert_eq!(log.reconciles, ["op-accepted-2"]);
    assert!(
        log.dispatches.is_empty(),
        "an unresolved operation is never replaced"
    );
    drop(log);
    let pending = state
        .pending
        .as_ref()
        .expect("operation retained for the operator");
    assert_eq!(pending.state, PendingOperationState::Unknown);
    assert!(pending.resolved.is_none());
}

#[test]
fn a_retained_unresolved_operation_is_never_dispatched_again() {
    let (mut state, log) = served_state(WaitMode::Timeout, ReconcileMode::Accepted);
    let first = state.execute_action(&proposal());
    assert_eq!(first.err(), Some(RuntimeFault::UnknownEffect));
    let second = state.execute_action(&proposal());
    assert_eq!(second.err(), Some(RuntimeFault::UnknownEffect));
    assert_eq!(log.lock().expect("log lock").dispatches.len(), 1);
}

#[test]
fn a_resolved_pending_operation_is_consumed_without_a_new_dispatch() {
    let (mut state, log) = served_state(WaitMode::Timeout, ReconcileMode::Settled);
    let identity =
        ActionIdentity::new("op-accepted-3", "combat-1", 1, "combat.end-turn").expect("identity");
    state.pending = Some(PendingDispatch {
        identity,
        action: end_turn(),
        state: PendingOperationState::Accepted,
        resolved: None,
    });
    state.reconcile_pending().expect("settles");
    let outcome = state.execute_action(&proposal()).expect("the settlement is consumed");
    assert_eq!(outcome.outcome, EdgeOutcome::Success);
    assert!(state.pending.is_none());
    assert_eq!(state.observation.as_ref().expect("observation").generation(), 2);
    assert!(log.lock().expect("log lock").dispatches.is_empty());
}

#[test]
fn a_stale_proposal_is_refused_before_any_dispatch() {
    let (mut state, log) = served_state(WaitMode::Settled, ReconcileMode::Settled);
    let mut stale = proposal();
    stale.generation = 2;
    assert_eq!(
        state.execute_action(&stale).err(),
        Some(RuntimeFault::ExecutorRejected)
    );
    let mut other_catalog = proposal();
    other_catalog.catalog_digest = "0".repeat(64);
    assert_eq!(
        state.execute_action(&other_catalog).err(),
        Some(RuntimeFault::ExecutorRejected)
    );
    let mut unknown_action = proposal();
    unknown_action.action_id = "combat.play-card".to_owned();
    assert_eq!(
        state.execute_action(&unknown_action).err(),
        Some(RuntimeFault::ExecutorRejected)
    );
    assert!(log.lock().expect("log lock").dispatches.is_empty());
    assert!(state.pending.is_none());
}

#[test]
fn a_reconciled_receipt_for_another_operation_is_a_conflict() {
    let (mut state, _log) = served_state(WaitMode::Timeout, ReconcileMode::Settled);
    let identity =
        ActionIdentity::new("op-accepted-4", "combat-1", 1, "combat.end-turn").expect("identity");
    let mut pending = PendingDispatch {
        identity,
        action: end_turn(),
        state: PendingOperationState::Accepted,
        resolved: None,
    };
    let foreign = TransitionReceipt::new(
        "op-other",
        end_turn(),
        DispatchStatus::Settled,
        Some(observation(2)),
        Some("end_turn".to_owned()),
    );
    let error = harness::live_node::resolve_pending(&mut pending, foreign)
        .expect_err("another operation cannot resolve this one");
    assert_eq!(error.code, "live_reconcile_identity");
    assert_eq!(error.class, ErrorClass::Conflict);
    assert!(pending.resolved.is_none());
    drop(state.pending.take());
}

#[test]
fn the_catalog_digest_is_the_sha256_of_its_compact_json() {
    let json = "[{\"action_id\":\"combat.end-turn\",\"kind\":\"EndTurn\"}]";
    let expected: String = Sha256::digest(json.as_bytes())
        .iter()
        .map(|b| format!("{b:02x}"))
        .collect();
    assert_eq!(catalog_digest(&catalog()), expected);
    let quoted = EpisodeLegalActionSet::new(
        "s",
        1,
        vec![EpisodeLegalAction::new("a\"b\\c\n", "K")],
    );
    let json = "[{\"action_id\":\"a\\\"b\\\\c\\n\",\"kind\":\"K\"}]";
    let expected: String = Sha256::digest(json.as_bytes())
        .iter()
        .map(|b| format!("{b:02x}"))
        .collect();
    assert_eq!(catalog_digest(&quoted), expected);
}

#[test]
fn a_decision_refusal_holds_the_attempt_only_when_unresolved() {
    let unresolved = ManagementError {
        class: ErrorClass::Unresolved,
        code: "context_render_source_unavailable".to_owned(),
        message: String::new(),
    };
    let refused = ManagementError {
        class: ErrorClass::Unavailable,
        code: "context_render_source_unavailable".to_owned(),
        message: String::new(),
    };
    assert_eq!(
        harness::live_node::classify_decision_refusal(&unresolved),
        RuntimeFault::UnknownEffect
    );
    assert_eq!(
        harness::live_node::classify_decision_refusal(&refused),
        RuntimeFault::ExecutorUnavailable
    );
}

#[test]
fn a_decided_action_becomes_a_proposal_bound_to_the_observation() {
    let (mut state, log) = served_state(WaitMode::Settled, ReconcileMode::Settled);
    let outcome = state
        .decide("decision.live.v1", "context.live.v1")
        .expect("the provider decided");
    assert_eq!(outcome.outcome, EdgeOutcome::Success);
    let proposal = outcome.proposal.expect("a proposal");
    assert_eq!(proposal.state_id, "combat-1");
    assert_eq!(proposal.generation, 1);
    assert_eq!(proposal.catalog_digest, catalog_digest(&catalog()));
    assert_eq!(proposal.action_id, "combat.end-turn");
    assert_eq!(proposal.provider_execution_id, "1");
    assert_eq!(proposal.reason_code.as_deref(), Some("nothing playable"));
    assert_eq!(state.provider_calls, 1);
    assert_eq!(log.lock().expect("log lock").decisions, vec![1]);
    let executed = state.execute_action(&proposal).expect("the proposal executes");
    assert_eq!(executed.outcome, EdgeOutcome::Success);
}

#[test]
fn the_provider_call_budget_is_enforced_before_any_exchange() {
    let (mut state, log) = served_state(WaitMode::Settled, ReconcileMode::Settled);
    state.provider_calls = 8;
    assert_eq!(
        state.decide("decision.live.v1", "context.live.v1").err(),
        Some(RuntimeFault::BudgetExceeded)
    );
    assert_eq!(
        state
            .decide_with_held_attempt("decision.live.v1", "context.live.v1")
            .err(),
        Some(RuntimeFault::BudgetExceeded)
    );
    assert!(log.lock().expect("log lock").decisions.is_empty());
}

#[test]
fn a_lost_decision_reply_holds_the_attempt_and_never_pays_again() {
    let (mut state, log) = served_state(WaitMode::Settled, ReconcileMode::Settled);
    *state.session.session().decide_mode.lock().expect("mode lock") = DecideMode::LostReply;
    let fault = state
        .decide_with_held_attempt("decision.live.v1", "context.live.v1")
        .expect_err("a lost reply is an unknown effect");
    assert_eq!(fault, RuntimeFault::UnknownEffect);
    let held = state.pending_decision.as_ref().expect("the attempt is held");
    assert_eq!(held.execution_id, 1);
    assert_eq!(held.operation_id.len(), 36);
    let held_id = held.operation_id.clone();
    let again = state
        .decide_with_held_attempt("decision.live.v1", "context.live.v1")
        .expect_err("the held attempt is not replaced");
    assert_eq!(again, RuntimeFault::UnknownEffect);
    assert_eq!(
        state.pending_decision.as_ref().expect("still held").operation_id,
        held_id
    );
    assert_eq!(log.lock().expect("log lock").decisions, vec![1], "one paid exchange");
}

#[test]
fn a_refusal_before_the_write_releases_the_attempt() {
    let (mut state, log) = served_state(WaitMode::Settled, ReconcileMode::Settled);
    *state.session.session().decide_mode.lock().expect("mode lock") = DecideMode::RefusedBeforeWrite;
    let fault = state
        .decide_with_held_attempt("decision.live.v1", "context.live.v1")
        .expect_err("a refusal before the write is retryable");
    assert_eq!(fault, RuntimeFault::ExecutorUnavailable);
    assert!(state.pending_decision.is_none());
    *state.session.session().decide_mode.lock().expect("mode lock") = DecideMode::EndTurn;
    let outcome = state
        .decide_with_held_attempt("decision.live.v1", "context.live.v1")
        .expect("the retried decision is paid once");
    assert_eq!(outcome.outcome, EdgeOutcome::Success);
    assert!(state.pending_decision.is_none());
    assert_eq!(state.provider_calls, 1);
    assert_eq!(log.lock().expect("log lock").decisions, vec![1, 1]);
}

#[test]
fn the_decision_input_digest_is_the_sha256_of_the_sorted_envelope() {
    let json = "{\"catalog\":[{\"action_id\":\"combat.end-turn\",\"kind\":\"EndTurn\"}],\"execution_id\":3,\"generation\":1,\"hard_constraints\":[\"a\",\"b\"],\"objective\":\"win\",\"state_id\":\"combat-1\"}";
    let expected: String = Sha256::digest(json.as_bytes())
        .iter()
        .map(|b| format!("{b:02x}"))
        .collect();
    assert_eq!(
        decision_input_digest(
            3,
            "combat-1",
            1,
            &catalog(),
            "win",
            &vec!["a".to_owned(), "b".to_owned()]
        ),
        expected
    );
}

fn sha256_hex(bytes: &[u8]) -> String {
    Sha256::digest(bytes).iter().map(|b| format!("{b:02x}")).collect()
}

#[test]
fn an_action_intent_is_recorded_before_the_dispatch_under_the_same_identity() {
    let (mut state, log) = served_state(WaitMode::Settled, ReconcileMode::Settled);
    state.execute_action(&proposal()).expect("a settled accepted action advances");
    let log = log.lock().expect("log lock");
    assert_eq!(log.intents.len(), 1);
    let (operation_id, instance_id, generation, payload_digest) = &log.intents[0];
    assert_eq!(operation_id, &log.dispatches[0].0);
    assert_eq!(instance_id, "test-instance");
    assert_eq!(*generation, 1);
    assert_eq!(payload_digest, &sha256_hex(b"combat.end-turn"));
}

#[test]
fn a_refused_action_intent_keeps_the_gateway_uncrossed() {
    let (mut state, log) =
        served_state_with_journal(WaitMode::Settled, ReconcileMode::Settled, true);
    let fault = state
        .execute_action(&proposal())
        .expect_err("an intent that cannot be recorded refuses the dispatch");
    assert_eq!(fault, RuntimeFault::ExecutorUnavailable);
    assert!(state.pending.is_none());
    let log = log.lock().expect("log lock");
    assert!(log.dispatches.is_empty());
    assert!(log.intents.is_empty());
}

#[test]
fn a_refused_decision_intent_is_never_paid_for() {
    let (mut state, log) =
        served_state_with_journal(WaitMode::Settled, ReconcileMode::Settled, true);
    let fault = state
        .decide_with_held_attempt("decision.live.v1", "context.live.v1")
        .expect_err("an intent that cannot be recorded refuses the decision");
    assert_eq!(fault, RuntimeFault::ExecutorUnavailable);
    assert!(state.pending_decision.is_none());
    assert_eq!(state.provider_calls, 0);
    assert!(log.lock().expect("log lock").decisions.is_empty());
}

#[test]
fn a_decision_intent_carries_the_held_attempt_identity_and_input_digest() {
    let (mut state, log) = served_state(WaitMode::Settled, ReconcileMode::Settled);
    *state
        .session
        .session()
        .decide_mode
        .lock()
        .expect("mode lock") = DecideMode::LostReply;
    let fault = state
        .decide_with_held_attempt("decision.live.v1", "context.live.v1")
        .expect_err("a lost reply stays held");
    assert_eq!(fault, RuntimeFault::UnknownEffect);
    let held = state.pending_decision.as_ref().expect("held attempt");
    let log = log.lock().expect("log lock");
    assert_eq!(log.intents.len(), 1);
    assert_eq!(log.intents[0].0, held.operation_id);
    assert_eq!(log.intents[0].3, held.input_digest);
    assert_eq!(log.intents[0].2, 1);
}
