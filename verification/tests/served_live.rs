use harness::live_node::{
    ActionIdentity, Decision, DecisionInput, DispatchStatus, EdgeOutcome, EpisodeLegalAction,
    EpisodeLegalActionSet, EpisodeObservation, LiveEpisodeSession, LiveNodeState, LoggedSession, RuntimeFault,
    TransitionReceipt, WaitOutcome, WaitSample,
};
use harness::managed_render::{
    ContextRenderLimits, ContextRenderSource, LiveContextRenderPort, PreparedContext,
};
use harness::served_boundary::{ContextRenderSourceIdentity, RenderBoundary};
use harness::served_live::{
    decision_provider_error, provider_error, LiveProviderPolicyPort, LiveContextObservationPort,
    DecisionSource, EpisodeRuntimePort, LiveInferenceProfileCatalogPort, ProviderFailure,
    LiveProviderSessionFactory, LiveRunScope, LiveRuntimeSessionFactory, LoggedRuntimeFactory,
    ProductionLiveWorkflowSession,
};
use harness::served_session::{
    AdmittedProfileBinding, PolicyBinding, RuntimeAuthorityBinding, RuntimeLeaseBinding,
};
use harness::{
    AuthContext, ErrorClass, InferenceProfileBudgets, InferenceProfileDescriptor, InferenceProfileGrants,
    InferenceProfileState, ManagementError,
};
use std::cell::{Cell, RefCell};
use std::rc::Rc;

const RUN_ID: &str = "run.live.admitted";
const INSTANCE_ID: &str = "test-instance";

fn scope() -> LiveRunScope {
    LiveRunScope {
        actor: AuthContext {
            actor_id: "operator-1".to_owned(),
            scopes: vec!["run:start".to_owned()],
            runs: None,
        },
        instance_id: INSTANCE_ID.to_owned(),
        workflow_run_id: RUN_ID.to_owned(),
        definition_digest: "d".repeat(64),
    }
}

#[derive(Default)]
struct Counters {
    authority_reads: usize,
    runtime_opens: usize,
    dispatch_calls: usize,
    decide_calls: usize,
    provider_opens: usize,
    recorded_observations: usize,
    sent: Vec<Vec<u8>>,
}

type Shared<T> = Rc<RefCell<T>>;

/// How the active policy moves while the provider decides.
#[derive(Clone, Copy)]
enum Change {
    Unchanged,
    AdoptDuringInference,
}

struct PolicyState {
    active: PolicyBinding,
    change: Change,
}

fn binding(sha: &str, generation: u64) -> PolicyBinding {
    PolicyBinding {
        policy_sha256: sha.repeat(64),
        adoption_generation: generation,
    }
}

fn observation(state_id: &str, generation: u64) -> EpisodeObservation {
    EpisodeObservation::new(state_id, generation)
}

fn action() -> EpisodeLegalAction {
    EpisodeLegalAction::new("combat.end-turn", "end_turn")
}

struct Runtime {
    observation: EpisodeObservation,
    acquired: RuntimeLeaseBinding,
    counters: Shared<Counters>,
}

impl EpisodeRuntimePort for Runtime {
    fn launch(&mut self) -> Result<(), String> {
        Ok(())
    }

    fn current_lease_binding(&mut self) -> Result<RuntimeLeaseBinding, String> {
        Ok(self.acquired.clone())
    }

    fn observe(&mut self) -> Result<EpisodeObservation, String> {
        Ok(self.observation.clone())
    }

    fn observe_projection(&mut self, _projection_ref: &str) -> Result<EpisodeObservation, String> {
        Ok(self.observation.clone())
    }

    fn legal_actions(
        &mut self,
        state_id: &str,
        generation: u64,
    ) -> Result<EpisodeLegalActionSet, String> {
        Ok(EpisodeLegalActionSet {
            state_id: state_id.to_owned(),
            generation,
            actions: vec![action()],
        })
    }

    fn dispatch_action(
        &mut self,
        identity: &ActionIdentity,
        action: &EpisodeLegalAction,
    ) -> Result<TransitionReceipt, String> {
        self.counters.borrow_mut().dispatch_calls += 1;
        Ok(TransitionReceipt::new(
            &identity.operation_id,
            action.clone(),
            DispatchStatus::Accepted,
            None,
            None,
        ))
    }

    fn wait_for_transition(
        &mut self,
        _operation_id: &str,
        _wait_for_millis: u32,
    ) -> Result<WaitSample, String> {
        Ok(WaitSample::new(WaitOutcome::Timeout, None))
    }

    fn reconcile(&mut self, _operation_id: &str) -> Result<TransitionReceipt, String> {
        Err("the gateway lost the operation".to_owned())
    }

    fn release_lease(&mut self) -> Result<(), String> {
        Ok(())
    }

    fn stop_episode(&mut self) -> Result<(), String> {
        Err("stop refused".to_owned())
    }
}

struct RuntimeFactory {
    authority: RuntimeAuthorityBinding,
    runtime: RefCell<Option<Runtime>>,
    counters: Shared<Counters>,
}

impl LiveRuntimeSessionFactory<Runtime> for &RuntimeFactory {
    fn authority_binding(&self, scope: &LiveRunScope) -> Result<RuntimeAuthorityBinding, ManagementError> {
        assert_eq!(scope.instance_id, INSTANCE_ID);
        assert_eq!(scope.workflow_run_id, RUN_ID);
        self.counters.borrow_mut().authority_reads += 1;
        Ok(self.authority.clone())
    }

    fn open_runtime(&self, scope: &LiveRunScope) -> Result<Runtime, ManagementError> {
        assert_eq!(scope.actor.actor_id, "operator-1");
        let counters = self.counters.borrow();
        assert!(
            counters.authority_reads > counters.runtime_opens,
            "the authority is read before the runtime is opened"
        );
        drop(counters);
        self.counters.borrow_mut().runtime_opens += 1;
        Ok(self.runtime.borrow_mut().take().expect("one runtime per factory"))
    }
}

/// The bytes the fake provider assembles for a managed decision.
const PREPARED: &[u8] = b"{\"managed\":\"request\"}";

struct Provider {
    counters: Shared<Counters>,
    policy: Shared<PolicyState>,
    overage: bool,
    stale_on_exchange: Option<Rc<Cell<bool>>>,
}

impl Provider {
    fn decided(&mut self) -> Result<Decision, ProviderFailure> {
        self.counters.borrow_mut().decide_calls += 1;
        let mut policy = self.policy.borrow_mut();
        if let Change::AdoptDuringInference = policy.change {
            let next = policy.active.adoption_generation + 1;
            policy.active = binding("f", next);
        }
        Ok(Decision::Action {
            action_id: "combat.end-turn".to_owned(),
            rationale: "end the turn".to_owned(),
        })
    }
}

impl DecisionSource for Provider {
    fn decide(&mut self, _input: &DecisionInput) -> Result<Decision, ProviderFailure> {
        self.decided()
    }

    fn decide_for(
        &mut self,
        _input: &DecisionInput,
        _decision_profile_ref: &str,
        _context_ref: &str,
    ) -> Result<Decision, ProviderFailure> {
        self.decided()
    }

    fn prepare_managed_context(
        &mut self,
        _input: &DecisionInput,
        _source: &ContextRenderSource,
    ) -> Result<PreparedContext, ProviderFailure> {
        if self.overage {
            return Err(ProviderFailure::SelectedContextLimit {
                limit: "max_items=1 admits fewer than the 2 retained items".to_owned(),
            });
        }
        Ok(PreparedContext {
            provider_bytes: PREPARED.to_vec(),
            provider_revision: "provider-rev".to_owned(),
        })
    }

    fn decide_prepared_for(
        &mut self,
        _input: &DecisionInput,
        _decision_profile_ref: &str,
        _context_ref: &str,
        prepared: &PreparedContext,
    ) -> Result<Decision, ProviderFailure> {
        self.counters.borrow_mut().sent.push(prepared.provider_bytes.clone());
        if let Some(stale) = &self.stale_on_exchange {
            stale.set(true);
        }
        self.decided()
    }

    fn action_completed(&mut self, _settled: bool) {}

    fn model_execution_id(&self) -> Option<u64> {
        Some(1)
    }
}

struct ProviderFactory {
    counters: Shared<Counters>,
    policy: Shared<PolicyState>,
    unavailable: bool,
    overage: bool,
    stale_on_exchange: Option<Rc<Cell<bool>>>,
}

impl LiveProviderSessionFactory<Provider> for ProviderFactory {
    fn open_provider(&self) -> Result<Provider, ManagementError> {
        self.counters.borrow_mut().provider_opens += 1;
        if self.unavailable {
            return Err(ManagementError {
                class: ErrorClass::Unavailable,
                code: "test_provider_unavailable".to_owned(),
                message: "the provider session could not be opened".to_owned(),
            });
        }
        Ok(Provider {
            counters: Rc::clone(&self.counters),
            policy: Rc::clone(&self.policy),
            overage: self.overage,
            stale_on_exchange: self.stale_on_exchange.clone(),
        })
    }
}

struct Policy(Shared<PolicyState>);

impl LiveProviderPolicyPort for Policy {
    fn load_active_policy(&self) -> Result<PolicyBinding, ManagementError> {
        Ok(self.0.borrow().active.clone())
    }
}

struct Owner(Shared<Counters>);

impl LiveContextObservationPort for Owner {
    fn record_observation(&self, _observation: &EpisodeObservation) -> Result<(), ManagementError> {
        self.0.borrow_mut().recorded_observations += 1;
        Ok(())
    }

    fn record_legal_actions(&self, _actions: &EpisodeLegalActionSet) -> Result<(), ManagementError> {
        Ok(())
    }

    fn invalidate(&self) {}
}

fn descriptor(version: &str) -> InferenceProfileDescriptor {
    InferenceProfileDescriptor {
        profile_id: "decision.synthetic.v1".to_owned(),
        version: version.to_owned(),
        digest: "a".repeat(64),
        adapter: "exo".to_owned(),
        requested_model: "model-1".to_owned(),
        resolved_model: "model-1".to_owned(),
        node_kinds: vec!["decide".to_owned()],
        operations: vec!["decision".to_owned()],
        context_compatibility: vec![],
        continuity: "stateless".to_owned(),
        state: InferenceProfileState::Available,
        grants: InferenceProfileGrants { edit: false },
        prompt_revision: "prompt-1".to_owned(),
        settings_revision: "settings-1".to_owned(),
        supported_settings: vec![],
        effective_budgets: InferenceProfileBudgets {
            max_input_tokens: 1000,
            max_output_tokens: 100,
        },
    }
}

/// The owner-served catalog: the decision revision it serves now.
struct ProfileCatalog(Shared<String>);

impl LiveInferenceProfileCatalogPort for ProfileCatalog {
    fn resolve_decision_profile(
        &self,
        _decision_profile_ref: &str,
    ) -> Result<InferenceProfileDescriptor, ManagementError> {
        Ok(descriptor(&self.0.borrow()))
    }
}

fn render_identity() -> ContextRenderSourceIdentity {
    ContextRenderSourceIdentity {
        boundary: RenderBoundary {
            state_id: "combat-1".to_owned(),
            generation: 1,
            control_version: 1,
            model_revision: "test-model".to_owned(),
            configuration_sha256: "c".repeat(64),
            adapter_revision: "test-adapter".to_owned(),
            output_schema_sha256: "o".repeat(64),
            observation_sha256: "s".repeat(64),
            catalog_sha256: "k".repeat(64),
            controller_epoch: 1,
            gate_epoch: 1,
        },
        invocation_id: "invocation1".to_owned(),
        instance_id: INSTANCE_ID.to_owned(),
        lease_id: "gateway-recovery-lease".to_owned(),
        lease_epoch: 3,
        binding_digest: "b".repeat(64),
        active_revision_id: "revision-1".to_owned(),
        source_id: "source-1".to_owned(),
        source_digest: "d".repeat(64),
        membership_digest: None,
        owner_id: "owner-1".to_owned(),
        binding_id: "binding-1".to_owned(),
        binding_version: 1,
    }
}

/// An owner-authored render port whose source may go stale.
struct Render {
    limits: ContextRenderLimits,
    stale: Rc<Cell<bool>>,
}

impl LiveContextRenderPort for Render {
    fn render_required(&self) -> bool {
        true
    }

    fn render_source_for_decision(
        &self,
        _input: &DecisionInput,
        _context_ref: &str,
    ) -> Result<ContextRenderSource, ManagementError> {
        Ok(ContextRenderSource {
            identity: render_identity(),
            limits: self.limits,
        })
    }

    fn assert_render_source_current(
        &self,
        _input: &DecisionInput,
        _context_ref: &str,
        _identity: &ContextRenderSourceIdentity,
    ) -> Result<(), ManagementError> {
        if self.stale.get() {
            return Err(ManagementError {
                class: ErrorClass::Conflict,
                code: "context_render_source_stale".to_owned(),
                message: "the render source changed".to_owned(),
            });
        }
        Ok(())
    }
}

type Session = ProductionLiveWorkflowSession<
    Runtime,
    Provider,
    ProviderFactory,
    Policy,
    Owner,
    ProfileCatalog,
    Render,
>;

struct Served {
    counters: Shared<Counters>,
    policy: Shared<PolicyState>,
    catalog_version: Shared<String>,
}

impl Served {
    fn new(change: Change) -> Self {
        Served {
            counters: Rc::new(RefCell::new(Counters::default())),
            policy: Rc::new(RefCell::new(PolicyState {
                active: binding("a", 0),
                change,
            })),
            catalog_version: Rc::new(RefCell::new("1.0.0".to_owned())),
        }
    }

    fn authority(&self) -> RuntimeAuthorityBinding {
        RuntimeAuthorityBinding {
            instance_id: INSTANCE_ID.to_owned(),
            session_id: "runtime-session".to_owned(),
            lease_id: "configured-lease".to_owned(),
            lease_epoch: 1,
            run_id: RUN_ID.to_owned(),
            episode_id: "test-episode".to_owned(),
            trajectory_id: "test-trajectory".to_owned(),
            trace_id: "test-trace".to_owned(),
            artifact_id: "test-artifact".to_owned(),
            agent_id: "test-agent".to_owned(),
            adapter_revision: "test-adapter".to_owned(),
            model_revision: "test-model".to_owned(),
            configuration_digest: "b".repeat(64),
            output_schema_digest: "c".repeat(64),
        }
    }

    fn acquired(&self) -> RuntimeLeaseBinding {
        RuntimeLeaseBinding {
            instance_id: INSTANCE_ID.to_owned(),
            session_id: "runtime-session".to_owned(),
            run_id: RUN_ID.to_owned(),
            lease_id: "gateway-recovery-lease".to_owned(),
            lease_epoch: 3,
        }
    }

    fn factory(
        &self,
        authority: RuntimeAuthorityBinding,
        acquired: RuntimeLeaseBinding,
        observation: EpisodeObservation,
    ) -> RuntimeFactory {
        RuntimeFactory {
            authority,
            runtime: RefCell::new(Some(Runtime {
                observation,
                acquired,
                counters: Rc::clone(&self.counters),
            })),
            counters: Rc::clone(&self.counters),
        }
    }

    fn open(
        &self,
        factory: &RuntimeFactory,
        provider_unavailable: bool,
        with_catalog: bool,
    ) -> Result<Session, ManagementError> {
        self.open_with(factory, provider_unavailable, with_catalog, None, false, None)
    }

    fn open_with(
        &self,
        factory: &RuntimeFactory,
        provider_unavailable: bool,
        with_catalog: bool,
        render: Option<Render>,
        overage: bool,
        stale_on_exchange: Option<Rc<Cell<bool>>>,
    ) -> Result<Session, ManagementError> {
        let admitted = vec![AdmittedProfileBinding {
            node_kind: "decide".to_owned(),
            profile_ref: "decision.synthetic.v1".to_owned(),
            version: "1.0.0".to_owned(),
            digest: "a".repeat(64),
        }];
        ProductionLiveWorkflowSession::open(
            &mut LoggedRuntimeFactory::new(factory),
            &scope(),
            ProviderFactory {
                counters: Rc::clone(&self.counters),
                policy: Rc::clone(&self.policy),
                unavailable: provider_unavailable,
                overage,
                stale_on_exchange,
            },
            Policy(Rc::clone(&self.policy)),
            Some(Owner(Rc::clone(&self.counters))),
            true,
            render,
            if with_catalog {
                Some(ProfileCatalog(Rc::clone(&self.catalog_version)))
            } else {
                None
            },
            true,
            Ok(admitted),
        )
    }

    fn counts(&self) -> (usize, usize, usize, usize) {
        let c = self.counters.borrow();
        (c.runtime_opens, c.dispatch_calls, c.decide_calls, c.provider_opens)
    }

    fn launched(&self, change_catalog: bool) -> Session {
        let factory = self.factory(self.authority(), self.acquired(), observation("combat-1", 1));
        let mut session = self.open(&factory, false, change_catalog).expect("admitted session");
        session.launch().expect("session launch");
        session
    }
}

fn input(observation: EpisodeObservation) -> DecisionInput {
    DecisionInput {
        execution_id: 1,
        actions: EpisodeLegalActionSet {
            state_id: observation.state_id.clone(),
            generation: observation.generation,
            actions: vec![action()],
        },
        observation,
        objective: "execute the authored workflow".to_owned(),
        hard_constraints: Vec::new(),
    }
}

#[test]
fn served_open_refuses_an_authority_scope_outside_the_admitted_run() {
    let cases: [(&str, fn(&mut RuntimeAuthorityBinding)); 7] = [
        ("empty lease id", |binding| binding.lease_id.clear()),
        ("zero lease epoch", |binding| binding.lease_epoch = 0),
        ("empty session id", |binding| binding.session_id.clear()),
        ("foreign run id", |binding| {
            binding.run_id = "run.live.foreign".to_owned();
        }),
        ("foreign instance", |binding| {
            binding.instance_id = "other-instance".to_owned();
        }),
        ("short configuration digest", |binding| {
            binding.configuration_digest = "short".to_owned();
        }),
        ("empty adapter revision", |binding| {
            binding.adapter_revision.clear();
        }),
    ];
    for (field, mutate) in cases {
        let served = Served::new(Change::Unchanged);
        let mut authority = served.authority();
        mutate(&mut authority);
        let factory = served.factory(authority, served.acquired(), observation("combat-1", 1));
        let error = served.open(&factory, false, false).map(drop).expect_err(field);
        assert_eq!(error.code, "runtime_authority_scope_mismatch", "{field}");
        assert_eq!(
            served.counts(),
            (0, 0, 0, 0),
            "{field}: an out-of-scope authority must not open the runtime"
        );
    }
}

#[test]
fn served_launch_refuses_a_post_allocation_lease_outside_the_admitted_scope() {
    let cases: [(&str, fn(&mut RuntimeLeaseBinding)); 5] = [
        ("foreign session", |lease| {
            lease.session_id = "other-session".to_owned();
        }),
        ("zero lease epoch", |lease| lease.lease_epoch = 0),
        ("empty lease id", |lease| lease.lease_id.clear()),
        ("foreign run", |lease| {
            lease.run_id = "run.live.foreign".to_owned();
        }),
        ("foreign instance", |lease| {
            lease.instance_id = "other-instance".to_owned();
        }),
    ];
    for (field, mutate) in cases {
        let served = Served::new(Change::Unchanged);
        let mut acquired = served.acquired();
        mutate(&mut acquired);
        let factory = served.factory(served.authority(), acquired, observation("combat-1", 1));
        let mut session = served.open(&factory, false, false).expect("admitted session");
        let error = session.launch().expect_err(field);
        assert_eq!(error.code, "runtime_lease_binding_mismatch", "{field}");
        let (_, _, decide_calls, provider_opens) = served.counts();
        assert_eq!(
            (decide_calls, provider_opens),
            (0, 0),
            "{field}: a stale lease must not open a paid provider session"
        );
    }
}

#[test]
fn served_dispatch_refuses_a_stale_observation_before_the_gateway_sees_the_action() {
    let served = Served::new(Change::Unchanged);
    // The identity was produced from generation 1; the gateway has already advanced to generation 2.
    let factory = served.factory(served.authority(), served.acquired(), observation("combat-1", 2));
    let mut session = served.open(&factory, false, false).expect("admitted session");
    session.launch().expect("session launch");

    let identity = ActionIdentity::new("operation-1", "combat-1", 1, "combat.end-turn")
        .expect("action identity");
    let error = session
        .dispatch_action(&identity, &action())
        .expect_err("stale dispatch");
    assert_eq!(error.code, "live_action_generation_stale");
    let (_, dispatch_calls, ..) = served.counts();
    assert_eq!(
        dispatch_calls, 0,
        "the fenced dispatch must never reach the gateway/MCP runtime"
    );

    let current = ActionIdentity::new("operation-2", "combat-1", 2, "combat.end-turn")
        .expect("action identity");
    session.dispatch_action(&current, &action()).expect("a current dispatch is admitted");
    assert_eq!(served.counts().1, 1);
}

#[test]
fn served_decide_refuses_a_stale_observation_without_reaching_the_provider() {
    let served = Served::new(Change::Unchanged);
    let factory = served.factory(served.authority(), served.acquired(), observation("combat-1", 2));
    let mut session = served.open(&factory, false, false).expect("admitted session");
    session.launch().expect("session launch");

    let error = session
        .decide(&input(observation("combat-1", 1)))
        .expect_err("stale inference");
    assert_eq!(error.code, "live_provider_generation_stale");
    let (_, _, decide_calls, _) = served.counts();
    assert_eq!(
        decide_calls, 0,
        "a stale observation must not be paid for at the provider"
    );
}

#[test]
fn served_launch_reports_an_unavailable_provider_without_a_paid_decision() {
    let served = Served::new(Change::Unchanged);
    let factory = served.factory(served.authority(), served.acquired(), observation("combat-1", 1));
    let mut session = served.open(&factory, true, false).expect("admitted session");
    let error = session.launch().expect_err("unavailable provider");
    assert_eq!(error.code, "test_provider_unavailable");
    let (runtime_opens, dispatch_calls, decide_calls, provider_opens) = served.counts();
    assert_eq!((runtime_opens, provider_opens), (1, 1));
    assert_eq!(
        (dispatch_calls, decide_calls),
        (0, 0),
        "an unavailable provider must not yield a synthetic success"
    );
    let error = session
        .decide(&input(observation("combat-1", 1)))
        .expect_err("no provider");
    assert_eq!(error.code, "provider_session_not_open");
}

#[test]
fn adoption_during_inference_discards_result_and_fences_next_decision() {
    let served = Served::new(Change::AdoptDuringInference);
    let mut session = served.launched(false);
    let error = session
        .decide(&input(observation("combat-1", 1)))
        .expect_err("changed adoption");
    assert_eq!(error.code, "provider_session_policy_changed");
    assert_eq!(error.class, ErrorClass::Unresolved);
    assert_eq!(served.counts().2, 1);

    let error = session
        .decide_for(&input(observation("combat-1", 1)), "decision.live.v1", "context.live.v1")
        .expect_err("session remains fenced");
    assert_eq!(error.code, "provider_session_policy_changed");
    assert_eq!(served.counts().2, 1);
}

#[test]
fn adopted_policy_before_idle_decide_is_picked_up_without_fencing() {
    let served = Served::new(Change::Unchanged);
    let mut session = served.launched(false);
    served.policy.borrow_mut().active = binding("b", 1);

    let decision = session
        .decide(&input(observation("combat-1", 1)))
        .expect("idle adoption is admitted");
    assert!(matches!(decision, Decision::Action { .. }));
    assert_eq!(served.counts().2, 1);

    let decision = session
        .decide_for(&input(observation("combat-1", 1)), "decision.live.v1", "context.live.v1")
        .expect("unchanged adopted policy stays admitted");
    assert!(matches!(decision, Decision::Action { .. }));
    assert_eq!(served.counts().2, 2);
}

#[test]
fn in_flight_change_after_idle_rebind_still_fences_and_stays_fenced() {
    let served = Served::new(Change::AdoptDuringInference);
    let mut session = served.launched(false);
    served.policy.borrow_mut().active = binding("b", 1);

    let error = session
        .decide(&input(observation("combat-1", 1)))
        .expect_err("in-flight change");
    assert_eq!(error.code, "provider_session_policy_changed");
    assert_eq!(served.counts().2, 1);

    served.policy.borrow_mut().active = binding("b", 1);
    let error = session
        .decide_for(&input(observation("combat-1", 1)), "decision.live.v1", "context.live.v1")
        .expect_err("fence is sticky");
    assert_eq!(error.code, "provider_session_policy_changed");
    assert_eq!(served.counts().2, 1);
}

#[test]
fn journal_only_change_with_same_active_generation_does_not_fence_decision() {
    let served = Served::new(Change::Unchanged);
    let mut session = served.launched(false);
    let decision = session
        .decide_for(&input(observation("combat-1", 1)), "decision.live.v1", "context.live.v1")
        .expect("unchanged active policy");
    assert!(matches!(decision, Decision::Action { .. }));
    assert_eq!(served.counts().2, 1);
    assert_eq!(served.policy.borrow().active.adoption_generation, 0);
}

#[test]
fn served_decide_for_refuses_a_profile_revision_replaced_after_admission() {
    let served = Served::new(Change::Unchanged);
    let mut session = served.launched(true);
    // The owner replaces the admitted decision revision before the decision.
    *served.catalog_version.borrow_mut() = "1.0.1".to_owned();

    let error = session
        .decide_for(&input(observation("combat-1", 1)), "decision.synthetic.v1", "context.synthetic.v1")
        .expect_err("replaced revision");
    assert_eq!(error.code, "inference_profile_binding_changed");
    assert_eq!(
        served.counts().2,
        0,
        "a replaced revision must not be re-bound or paid for at the provider"
    );
}

#[test]
fn served_decide_for_refuses_a_profile_outside_the_admitted_bindings() {
    let served = Served::new(Change::Unchanged);
    let mut session = served.launched(true);

    let error = session
        .decide_for(&input(observation("combat-1", 1)), "decision.unadmitted.v1", "context.synthetic.v1")
        .expect_err("unadmitted profile");
    assert_eq!(error.code, "inference_profile_binding_unknown");
    assert_eq!(
        served.counts().2,
        0,
        "an unadmitted profile must not reach the provider"
    );
    session
        .decide_for(&input(observation("combat-1", 1)), "decision.synthetic.v1", "context.synthetic.v1")
        .expect("the admitted revision is still served");
    assert_eq!(served.counts().2, 1);
}

#[test]
fn launch_retains_its_observation_for_the_first_observe_and_records_each_read() {
    let served = Served::new(Change::Unchanged);
    let mut session = served.launched(false);
    assert_eq!(served.counters.borrow().recorded_observations, 1);
    let first = session.observe().expect("the launch observation");
    assert_eq!((first.state_id.as_str(), first.generation), ("combat-1", 1));
    assert_eq!(served.counters.borrow().recorded_observations, 1);
    session.observe().expect("a fresh observation");
    assert_eq!(served.counters.borrow().recorded_observations, 2);
    session.observe_projection("summary").expect("a projection");
    assert_eq!(served.counters.borrow().recorded_observations, 3);
    let catalog = session.legal_actions("combat-1", 1).expect("catalog");
    assert_eq!(catalog.actions.len(), 1);
    assert_eq!(session.model_execution_id(), Some(1));
}

#[test]
fn runtime_failures_after_an_effect_are_unresolved() {
    let served = Served::new(Change::Unchanged);
    let mut session = served.launched(false);
    let error = session.reconcile("operation-1").expect_err("lost operation");
    assert_eq!(error.class, ErrorClass::Unresolved);
    assert_eq!(error.code, "live_reconcile_failed");
    assert_eq!(error.message, "the gateway lost the operation");
    let sample = session.wait_for_transition("operation-1", 10).expect("a bounded wait");
    assert_eq!(sample.outcome, WaitOutcome::Timeout);
    session.release_lease().expect("released");
    let error = session.stop_episode().expect_err("stop refused");
    assert_eq!(error.code, "live_stop_failed");
    assert_eq!(error.class, ErrorClass::Unavailable);
}

#[test]
fn the_composition_of_context_owners_is_checked_at_open() {
    let served = Served::new(Change::Unchanged);
    let factory = served.factory(served.authority(), served.acquired(), observation("combat-1", 1));
    let refused = Session::open(
        &mut LoggedRuntimeFactory::new(&factory),
        &scope(),
        ProviderFactory {
            counters: Rc::clone(&served.counters),
            policy: Rc::clone(&served.policy),
            unavailable: false,
            overage: false,
            stale_on_exchange: None,
        },
        Policy(Rc::clone(&served.policy)),
        Some(Owner(Rc::clone(&served.counters))),
        false,
        None,
        None,
        true,
        Ok(Vec::new()),
    );
    assert_eq!(
        refused.err().expect("no limits").code,
        "selected_context_control_limits_required"
    );
    let refused = Session::open(
        &mut LoggedRuntimeFactory::new(&factory),
        &scope(),
        ProviderFactory {
            counters: Rc::clone(&served.counters),
            policy: Rc::clone(&served.policy),
            unavailable: false,
            overage: false,
            stale_on_exchange: None,
        },
        Policy(Rc::clone(&served.policy)),
        Some(Owner(Rc::clone(&served.counters))),
        true,
        None,
        Some(ProfileCatalog(Rc::clone(&served.catalog_version))),
        false,
        Ok(Vec::new()),
    );
    assert_eq!(refused.err().expect("no target admission").code, "target_admission_required");
    let refused = Session::open(
        &mut LoggedRuntimeFactory::new(&factory),
        &scope(),
        ProviderFactory {
            counters: Rc::clone(&served.counters),
            policy: Rc::clone(&served.policy),
            unavailable: false,
            overage: false,
            stale_on_exchange: None,
        },
        Policy(Rc::clone(&served.policy)),
        None,
        false,
        Some(Render {
            limits: reserved_limits(4096, 512),
            stale: Rc::new(Cell::new(false)),
        }),
        None,
        true,
        Ok(Vec::new()),
    );
    assert_eq!(
        refused.err().expect("a render owner without the observation owner").code,
        "selected_context_render_owner_unavailable"
    );
    assert_eq!(served.counts().0, 0, "a refused composition opens no runtime");
    assert_eq!(
        served.counters.borrow().authority_reads,
        0,
        "a refused composition asks the factory nothing"
    );
}

#[test]
fn provider_failures_map_by_whether_anything_was_sent() {
    let not_started = decision_provider_error(ProviderFailure::NotStarted);
    assert_eq!(
        (not_started.class, not_started.code.as_str()),
        (ErrorClass::Unavailable, "provider_decision_not_started")
    );
    let failed = decision_provider_error(ProviderFailure::Failed {
        message: "timeout".to_owned(),
    });
    assert_eq!(
        (failed.class, failed.code.as_str(), failed.message.as_str()),
        (ErrorClass::Unresolved, "provider_decision_failed", "timeout")
    );
    let limit = provider_error(ProviderFailure::SelectedContextLimit {
        limit: "max_context_bytes".to_owned(),
    });
    assert_eq!(limit.class, ErrorClass::Capability);
    assert_eq!(limit.code, "context_render_limit_exceeded");
    assert_eq!(
        limit.message,
        "prepared context exceeds the selected owner limit: max_context_bytes"
    );
    let paid = decision_provider_error(ProviderFailure::SelectedContextLimit {
        limit: "max_context_bytes".to_owned(),
    });
    assert_eq!(paid.class, ErrorClass::Unresolved);
}

#[test]
fn a_decide_node_and_an_action_node_run_through_the_served_fences() {
    let served = Served::new(Change::Unchanged);
    let session = served.launched(false);
    let mut state = LiveNodeState {
        session: LoggedSession::new(session),
        instance_id: INSTANCE_ID.to_owned(),
        observation: Some(observation("combat-1", 1)),
        actions: None,
        pending: None,
        pending_decision: None,
        provider_calls: 0,
        max_provider_calls: 4,
        objective: "execute the authored workflow".to_owned(),
        hard_constraints: Vec::new(),
        transition_wait_millis: 10,
    };
    let decided = state
        .decide("decision.live.v1", "context.live.v1")
        .expect("the current observation is decided once");
    assert_eq!(decided.outcome, EdgeOutcome::Success);
    assert_eq!(served.counts().2, 1);
    let proposal = decided.proposal.expect("a proposal");
    assert_eq!((proposal.state_id.as_str(), proposal.generation), ("combat-1", 1));
    assert_eq!(proposal.action_id, "combat.end-turn");

    // The gateway accepts the action but no settlement is observed within the bound.
    let fault = state
        .execute_action(&proposal)
        .expect_err("an unobserved settlement is unknown, never success");
    assert_eq!(fault, RuntimeFault::UnknownEffect);
    assert_eq!(served.counts().1, 1, "exactly one dispatch crossed the gateway");
}

fn managed_session(
    served: &Served,
    limits: ContextRenderLimits,
    overage: bool,
    stale: Rc<Cell<bool>>,
    stale_on_exchange: bool,
) -> Session {
    let factory = served.factory(served.authority(), served.acquired(), observation("combat-1", 1));
    let render = Render {
        limits,
        stale: Rc::clone(&stale),
    };
    let mut session = served
        .open_with(
            &factory,
            false,
            false,
            Some(render),
            overage,
            if stale_on_exchange { Some(stale) } else { None },
        )
        .expect("admitted session");
    session.launch().expect("session launch");
    session
}

fn reserved_limits(max_context_bytes: u64, reserve: u64) -> ContextRenderLimits {
    ContextRenderLimits {
        max_context_bytes,
        output_reserve_bytes: Some(reserve),
    }
}

#[test]
fn served_managed_render_admits_the_exact_whole_input_bound_and_refuses_one_byte_over() {
    let assembled = PREPARED.len() as u64;
    let reserve = 64u64;

    let served = Served::new(Change::Unchanged);
    let mut session = managed_session(
        &served,
        reserved_limits(assembled + reserve, reserve),
        false,
        Rc::new(Cell::new(false)),
        false,
    );
    let decision = session
        .decide_for(&input(observation("combat-1", 1)), "decision.live.v1", "context.live.v1")
        .expect("the exact combined bound is admitted");
    assert!(matches!(decision, Decision::Action { .. }));
    assert_eq!(served.counts().2, 1);

    let served = Served::new(Change::Unchanged);
    let mut session = managed_session(
        &served,
        reserved_limits(assembled + reserve - 1, reserve),
        false,
        Rc::new(Cell::new(false)),
        false,
    );
    let error = session
        .decide_for(&input(observation("combat-1", 1)), "decision.live.v1", "context.live.v1")
        .expect_err("one byte over the combined bound must refuse");
    assert_eq!(error.code, "context_whole_input_budget_exceeded");
    assert!(
        error.message.contains(&format!(
            "input {assembled} plus output reserve {reserve} exceeds the combined window {}",
            assembled + reserve - 1
        )),
        "the refusal names the served bound and its bytes: {}",
        error.message
    );
    assert_eq!(served.counts().2, 0);
}

#[test]
fn served_managed_render_refuses_an_unusable_advertised_reserve_before_provider_exchange() {
    let served = Served::new(Change::Unchanged);
    let assembled = PREPARED.len() as u64;
    let mut session = managed_session(
        &served,
        reserved_limits(assembled + 1024, 0),
        false,
        Rc::new(Cell::new(false)),
        false,
    );
    let error = session
        .decide_for(&input(observation("combat-1", 1)), "decision.live.v1", "context.live.v1")
        .expect_err("a zero reserve is not an admissible bound");
    assert_eq!(error.code, "context_whole_input_budget_invalid");
    assert!(error.message.contains("output_reserve_bytes"));
    assert_eq!(served.counts().2, 0);
}

#[test]
fn served_managed_render_refuses_selected_item_overage_before_provider_exchange() {
    let served = Served::new(Change::Unchanged);
    let mut session = managed_session(
        &served,
        ContextRenderLimits {
            max_context_bytes: 4096,
            output_reserve_bytes: None,
        },
        true,
        Rc::new(Cell::new(false)),
        false,
    );
    let error = session
        .decide_for(&input(observation("combat-1", 1)), "decision.live.v1", "context.live.v1")
        .expect_err("selected max_items=1 must reject two retained items");
    assert_eq!(error.code, "context_render_limit_exceeded");
    assert!(error.message.contains("max_items"));
    assert_eq!(served.counts().2, 0);
}

#[test]
fn served_managed_render_sends_the_exact_prepared_bytes_once() {
    let served = Served::new(Change::Unchanged);
    let mut session = managed_session(
        &served,
        ContextRenderLimits {
            max_context_bytes: 4096,
            output_reserve_bytes: None,
        },
        false,
        Rc::new(Cell::new(false)),
        false,
    );
    session
        .decide_for(&input(observation("combat-1", 1)), "decision.live.v1", "context.live.v1")
        .expect("managed decision");
    assert_eq!(served.counters.borrow().sent, vec![PREPARED.to_vec()]);
    assert_eq!(served.counts().2, 1);
}

#[test]
fn served_managed_render_discards_result_when_source_changes_during_inference() {
    let served = Served::new(Change::Unchanged);
    let stale = Rc::new(Cell::new(false));
    let mut session = managed_session(
        &served,
        ContextRenderLimits {
            max_context_bytes: 4096,
            output_reserve_bytes: None,
        },
        false,
        Rc::clone(&stale),
        true,
    );
    let error = session
        .decide_for(&input(observation("combat-1", 1)), "decision.live.v1", "context.live.v1")
        .expect_err("changed source must fence the provider result");
    assert_eq!(error.code, "context_render_source_stale");
    assert_eq!(served.counts().2, 1);
    assert!(stale.get());
}

#[test]
fn served_managed_boundary_fences_a_stale_source_before_the_write() {
    let served = Served::new(Change::Unchanged);
    let mut session = managed_session(
        &served,
        ContextRenderLimits {
            max_context_bytes: 4096,
            output_reserve_bytes: None,
        },
        false,
        Rc::new(Cell::new(true)),
        false,
    );
    let error = session
        .decide_for(&input(observation("combat-1", 1)), "decision.live.v1", "context.live.v1")
        .expect_err("a source that drifted is fenced before the boundary is written");
    assert_eq!(error.code, "context_render_source_stale");
    assert_eq!(served.counts().2, 0);
    assert!(served.counters.borrow().sent.is_empty());
}
