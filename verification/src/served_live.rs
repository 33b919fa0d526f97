//! The served live session: one admitted run joined to its gateway runtime,
//! its provider decision source and its provider-policy owner.
//!
//! Every effect crosses a fence first. An action reaches the gateway only when
//! a fresh observation still shows the state and generation it was admitted
//! against; a provider decision is requested only for the current observation,
//! under the admitted policy and the admitted inference-profile revision, and
//! is consumed only when the policy did not change while it was made. Every
//! call the session makes to its ports goes through its call log, which makes
//! the call and records it, so these orders are part of each method's
//! contract.

use vstd::prelude::*;
use crate::auth::AuthContext;
use crate::error::{ErrorClass, ManagementError, Refusal, exchange_unresolved, refusal};
use crate::inference_profile::InferenceProfileDescriptor;
use crate::managed_render::{
    ContextRenderLimits, ContextRenderSource, LiveContextRenderPort, PreparedContext,
    admit_assembled_managed_input, input_admitted,
};
use crate::live_node::{
    ActionIdentity, Decision, DecisionInput, DecisionView, EpisodeLegalAction,
    EpisodeLegalActionSet, EpisodeObservation, IdentityView, LiveEpisodeSession, ObservationView,
    TransitionReceipt, WaitSample,
};
use crate::served_live_log::CallLog;
pub use crate::served_live_log::LoggedRuntimeFactory;
use crate::served_session::{
    AdmittedProfileBinding, PolicyBinding, PolicyFence, RuntimeAuthorityBinding, policy_changed,
    RuntimeLeaseBinding, admitted_decision_binding, authority_in_scope, check_resolved,
    decision_binding,
    refresh_authority_lease_binding, validate_runtime_authority_binding,
    validate_served_owner_composition,
};

verus! {

/// Why the provider decision source failed.
#[derive(Clone, Debug, PartialEq, Eq)]
pub enum ProviderFailure {
    /// The provider transport never started, so nothing was transmitted.
    NotStarted,
    /// The prepared context exceeds the selected owner limit.
    SelectedContextLimit { limit: String },
    /// Any other failure, with its message.
    Failed { message: String },
}

/// The message a provider failure is reported with.
pub open spec fn provider_failure_message(error: ProviderFailure) -> Seq<char> {
    match error {
        ProviderFailure::SelectedContextLimit { limit } => "prepared context exceeds the selected owner limit: "@
            + limit@,
        ProviderFailure::NotStarted => "the provider transport never started"@,
        ProviderFailure::Failed { message } => message@,
    }
}

/// Maps a provider failure before a paid exchange.
pub fn provider_error(error: ProviderFailure) -> (e: ManagementError)
    ensures
        e.message@ == provider_failure_message(error),
        error is SelectedContextLimit ==> e.refusal() == refusal(
            ErrorClass::Capability,
            "context_render_limit_exceeded",
        ),
        !(error is SelectedContextLimit) ==> e.refusal() == refusal(
            ErrorClass::Unavailable,
            "provider_decision_failed",
        ),
        error matches ProviderFailure::Failed { message } ==> e.message@ == message@,
{
    proof {
        reveal_strlit("prepared context exceeds the selected owner limit: ");
        reveal_strlit("the provider transport never started");
    }
    match error {
        ProviderFailure::SelectedContextLimit { limit } => {
            let mut message = "prepared context exceeds the selected owner limit: ".to_owned();
            message.append(limit.as_str());
            ManagementError::capability("context_render_limit_exceeded", message.as_str())
        },
        ProviderFailure::NotStarted => ManagementError::unavailable(
            "provider_decision_failed",
            "the provider transport never started",
        ),
        ProviderFailure::Failed { message } => ManagementError::unavailable(
            "provider_decision_failed",
            message.as_str(),
        ),
    }
}

/// The refusal a provider failure on the paid decision boundary maps to.
pub open spec fn decision_provider_refusal(error: ProviderFailure) -> Refusal {
    match error {
        ProviderFailure::NotStarted => refusal(
            ErrorClass::Unavailable,
            "provider_decision_not_started",
        ),
        ProviderFailure::SelectedContextLimit { .. } => refusal(
            ErrorClass::Unresolved,
            "context_render_limit_exceeded",
        ),
        ProviderFailure::Failed { .. } => refusal(ErrorClass::Unresolved, "provider_decision_failed"),
    }
}

/// Maps a provider failure on the paid decision boundary. Almost every failure
/// there may follow a request already on the wire, so it is unresolved; a
/// transport that never started is the exception, since nothing was sent.
pub fn decision_provider_error(error: ProviderFailure) -> (e: ManagementError)
    ensures
        e.refusal() == decision_provider_refusal(error),
        error matches ProviderFailure::Failed { message } ==> e.message@ == message@,
        !(error is NotStarted) ==> e.message@ == provider_failure_message(error),
        error is NotStarted ==> e.message@
            == "the provider transport never started, so no inference was requested"@,
{
    proof {
        reveal_strlit("the provider transport never started, so no inference was requested");
    }
    match error {
        ProviderFailure::NotStarted => ManagementError::unavailable(
            "provider_decision_not_started",
            "the provider transport never started, so no inference was requested",
        ),
        _ => exchange_unresolved(provider_error(error)),
    }
}

/// Maps a runtime port failure to an unavailable outcome under `code`,
/// keeping the port's message.
fn runtime_error(code: &str, message: String) -> (e: ManagementError)
    ensures
        e.class == ErrorClass::Unavailable,
        e.code@ == code@,
        e.message@ == message@,
{
    ManagementError::unavailable(code, message.as_str())
}

/// The gateway/MCP runtime of one admitted run. Failures carry the port's
/// message.
pub trait EpisodeRuntimePort {
    fn launch(&mut self) -> Result<(), String>;

    fn current_lease_binding(&mut self) -> Result<RuntimeLeaseBinding, String>;

    fn observe(&mut self) -> Result<EpisodeObservation, String>;

    fn observe_projection(&mut self, projection_ref: &str) -> Result<EpisodeObservation, String>;

    fn legal_actions(&mut self, state_id: &str, generation: u64) -> Result<
        EpisodeLegalActionSet,
        String,
    >;

    fn dispatch_action(&mut self, identity: &ActionIdentity, action: &EpisodeLegalAction) -> Result<
        TransitionReceipt,
        String,
    >;

    fn wait_for_transition(&mut self, operation_id: &str, wait_for_millis: u32) -> Result<
        WaitSample,
        String,
    >;

    fn reconcile(&mut self, operation_id: &str) -> Result<TransitionReceipt, String>;

    fn release_lease(&mut self) -> Result<(), String>;

    fn stop_episode(&mut self) -> Result<(), String>;
}

/// The provider decision source, opened after the gateway fence.
pub trait DecisionSource {
    fn decide(&mut self, input: &DecisionInput) -> Result<Decision, ProviderFailure>;

    fn decide_for(
        &mut self,
        input: &DecisionInput,
        decision_profile_ref: &str,
        context_ref: &str,
    ) -> Result<Decision, ProviderFailure>;

    /// Assembles the exact bytes a managed decision will send.
    fn prepare_managed_context(
        &mut self,
        input: &DecisionInput,
        source: &ContextRenderSource,
    ) -> Result<PreparedContext, ProviderFailure>;

    /// Requests one paid decision with the prepared bytes.
    fn decide_prepared_for(
        &mut self,
        input: &DecisionInput,
        decision_profile_ref: &str,
        context_ref: &str,
        prepared: &PreparedContext,
    ) -> Result<Decision, ProviderFailure>;

    fn action_completed(&mut self, settled: bool);

    fn model_execution_id(&self) -> Option<u64>;
}

/// Opens the provider decision source of one admitted run.
pub trait LiveProviderSessionFactory<D> {
    fn open_provider(&self) -> Result<D, ManagementError>;
}

/// Loads the active provider policy of one admitted run.
pub trait LiveProviderPolicyPort {
    fn load_active_policy(&self) -> Result<PolicyBinding, ManagementError>;
}

/// The context owner that records what the run observed.
pub trait LiveContextObservationPort {
    fn record_observation(&self, observation: &EpisodeObservation) -> Result<(), ManagementError>;

    fn record_legal_actions(&self, actions: &EpisodeLegalActionSet) -> Result<(), ManagementError>;

    fn invalidate(&self);
}

/// The owner-served inference-profile catalog: what a decision reference
/// resolves to now.
pub trait LiveInferenceProfileCatalogPort {
    fn resolve_decision_profile(&self, decision_profile_ref: &str) -> Result<
        InferenceProfileDescriptor,
        ManagementError,
    >;
}

/// The admitted run a runtime is opened for: the actor that requested it, the
/// target instance, the workflow run identity and the digest of the admitted
/// definition.
#[derive(Debug)]
pub struct LiveRunScope {
    pub actor: AuthContext,
    pub instance_id: String,
    pub workflow_run_id: String,
    pub definition_digest: String,
}

/// Opens the gateway runtime of one admitted run and reports the runtime
/// authority it will run under.
pub trait LiveRuntimeSessionFactory<R> {
    fn authority_binding(&self, scope: &LiveRunScope) -> Result<
        RuntimeAuthorityBinding,
        ManagementError,
    >;

    fn open_runtime(&self, scope: &LiveRunScope) -> Result<R, ManagementError>;
}

/// One call opening a session made, with what came back.
pub enum OpenCall {
    /// The render owner said whether decisions must be rendered.
    RenderMode(bool),
    /// The runtime factory was asked for the authority of a run.
    AuthorityBinding(LiveRunScope, Result<RuntimeAuthorityBinding, ManagementError>),
    /// The runtime factory was asked to open the runtime of a run: whether it
    /// did, or its error.
    OpenRuntime(LiveRunScope, Result<(), ManagementError>),
}

/// The factory steps of opening an admitted run, and the error opening
/// returns (`None` when it opens): the authority is asked for first, under the
/// run's scope; a failure is returned, and a binding outside the run's scope is
/// refused; only a bound authority opens the runtime, under the same scope,
/// and the factory's failure to open it is returned.
pub open spec fn factory_steps(
    scope: LiveRunScope,
    calls: Seq<OpenCall>,
    outcome: Option<ManagementError>,
) -> bool {
    calls.len() >= 1 && match calls[0] {
        OpenCall::AuthorityBinding(asked, answer) => asked == scope && match answer {
            Err(e) => calls.len() == 1 && outcome == Some(e),
            Ok(b) => if !authority_in_scope(b, scope.instance_id@, scope.workflow_run_id@) {
                calls.len() == 1 && (outcome matches Some(e) && e.refusal() == refusal(
                    ErrorClass::Conflict,
                    "runtime_authority_scope_mismatch",
                ))
            } else {
                calls.len() == 2 && match calls[1] {
                    OpenCall::OpenRuntime(opened_for, opened) => opened_for == scope
                        && match opened {
                        Err(e) => outcome == Some(e),
                        Ok(()) => outcome is None,
                    },
                    _ => false,
                }
            },
        },
        _ => false,
    }
}

/// The steps of opening an admitted run once the render mode is known, and the
/// error opening returns (`None` when it opens). The composition of context
/// owners is checked first: an observation owner needs admitted control
/// limits, admitted limits need the owner that enforces them, and a render
/// owner that requires rendering needs both. With a catalog attached the run
/// must carry an exact target admission and its profiles must have resolved.
/// Each of these refusals asks the factory nothing; see [`factory_steps`] for
/// what follows.
pub open spec fn owner_steps(
    render_required: bool,
    observed: bool,
    limits_admitted: bool,
    profiles_attached: bool,
    target_admitted: bool,
    unresolved: Option<ManagementError>,
    scope: LiveRunScope,
    calls: Seq<OpenCall>,
    outcome: Option<ManagementError>,
) -> bool {
    if observed && !limits_admitted {
        calls.len() == 0 && (outcome matches Some(e) && e.refusal() == refusal(
            ErrorClass::Capability,
            "selected_context_control_limits_required",
        ))
    } else if !observed && limits_admitted {
        calls.len() == 0 && (outcome matches Some(e) && e.refusal() == refusal(
            ErrorClass::Capability,
            "selected_context_control_owner_unavailable",
        ))
    } else if render_required && !observed {
        calls.len() == 0 && (outcome matches Some(e) && e.refusal() == refusal(
            ErrorClass::Capability,
            "selected_context_render_owner_unavailable",
        ))
    } else if profiles_attached && !target_admitted {
        calls.len() == 0 && (outcome matches Some(e) && e.refusal() == refusal(
            ErrorClass::Conflict,
            "target_admission_required",
        ))
    } else if profiles_attached && unresolved is Some {
        calls.len() == 0 && outcome == unresolved
    } else {
        factory_steps(scope, calls, outcome)
    }
}

/// Every step of opening an admitted run: an attached render owner is asked
/// first whether decisions must be rendered; see [`owner_steps`].
pub open spec fn open_steps(
    render_attached: bool,
    observed: bool,
    limits_admitted: bool,
    profiles_attached: bool,
    target_admitted: bool,
    unresolved: Option<ManagementError>,
    scope: LiveRunScope,
    calls: Seq<OpenCall>,
    outcome: Option<ManagementError>,
) -> bool {
    if render_attached {
        calls.len() >= 1 && match calls[0] {
            OpenCall::RenderMode(required) => owner_steps(
                required,
                observed,
                limits_admitted,
                profiles_attached,
                target_admitted,
                unresolved,
                scope,
                calls.skip(1),
                outcome,
            ),
            _ => false,
        }
    } else {
        owner_steps(
            false,
            observed,
            limits_admitted,
            profiles_attached,
            target_admitted,
            unresolved,
            scope,
            calls,
            outcome,
        )
    }
}

/// One call the session made to its ports, with what came back where the
/// session's decisions depend on it.
pub enum SessionCall {
    /// The runtime launched, or failed to.
    Launch,
    /// The runtime's post-launch lease was read.
    LeaseRead,
    /// A fresh observation: what it showed, or `None` when the port failed.
    Observe(Option<ObservationView>),
    /// A projected observation.
    ObserveProjection,
    /// The legal actions of one state were read.
    Catalog,
    /// One action crossed the gateway.
    Dispatch(IdentityView),
    /// A bounded wait for a transition.
    Wait,
    /// A reconciliation by operation identity.
    Reconcile,
    /// The lease was released.
    ReleaseLease,
    /// The episode was stopped.
    StopEpisode,
    /// The context owner recorded an observation.
    RecordObservation,
    /// The context owner recorded a legal-action catalog.
    RecordActions,
    /// The context owner dropped what it recorded.
    Invalidate,
    /// The active policy was loaded: its digest and generation, or `None`
    /// when the load failed.
    PolicyLoad(Option<(Seq<char>, u64)>),
    /// The provider decision source was opened.
    ProviderOpen,
    /// One paid decision was requested from the provider: the prepared bytes
    /// it was handed, or `None` for a decision the provider assembled itself;
    /// then the decision it answered, or `None` when it failed.
    ProviderDecide(Option<Seq<u8>>, Option<DecisionView>),
    /// The decision profile reference was resolved in the catalog: the
    /// version and digest it resolved to, or `None` when resolution failed.
    ProfileResolve(Option<(Seq<char>, Seq<char>)>),
    /// The provider was told how the last action settled.
    ActionCompleted,
    /// The render port said whether decisions must be rendered.
    RenderMode(bool),
    /// The render source of a decision was read: its limits, or `None` when
    /// it could not be read.
    RenderSource(Option<ContextRenderLimits>),
    /// The provider assembled the prepared bytes: the bytes, or `None` when
    /// it could not.
    Prepare(Option<Seq<u8>>),
    /// The render port checked the source is current: whether it is.
    RenderCheck(bool),
}

/// The first steps of one managed decision and where it stops: without
/// admitted control limits it is refused before anything is asked; otherwise
/// the render source is read, then, with a provider open, the provider
/// assembles the prepared bytes; bytes over the source's whole-input bound are
/// refused; the source is checked current, and only a current source reaches
/// the paid decision.
pub open spec fn managed_steps(
    control_limits_admitted: bool,
    provider_open: bool,
    new: Seq<SessionCall>,
    r: Result<Decision, ManagementError>,
) -> bool {
    if !control_limits_admitted {
        new.len() == 0 && (r matches Err(e) && e.refusal() == refusal(
            ErrorClass::Capability,
            "selected_context_control_limits_required",
        ))
    } else {
        new.len() >= 1 && match new[0] {
            SessionCall::RenderSource(None) => new.len() == 1 && r is Err,
            SessionCall::RenderSource(Some(limits)) => if !provider_open {
                new.len() == 1 && (r matches Err(e) && e.refusal() == refusal(
                    ErrorClass::Unavailable,
                    "provider_session_not_open",
                ))
            } else {
                new.len() >= 2 && match new[1] {
                    SessionCall::Prepare(None) => new.len() == 2 && r is Err,
                    SessionCall::Prepare(Some(bytes)) => if !input_admitted(limits, bytes.len()) {
                        new.len() == 2 && r is Err
                    } else {
                        new.len() >= 3 && match new[2] {
                            SessionCall::RenderCheck(false) => new.len() == 3 && r is Err,
                            SessionCall::RenderCheck(true) => new.len() >= 4 && match new[3] {
                                SessionCall::ProviderDecide(Some(sent), answer) => sent == bytes
                                    && match r {
                                    Ok(d) => answer == Some(d@),
                                    Err(_) => true,
                                },
                                _ => false,
                            },
                            _ => false,
                        }
                    },
                    _ => false,
                }
            },
            _ => false,
        }
    }
}

/// The calls made since a log had `old` calls.
pub open spec fn appended(old: Seq<SessionCall>, new: Seq<SessionCall>) -> Seq<SessionCall> {
    new.skip(old.len() as int)
}

/// Whether a log only grew.
pub open spec fn extends(old: Seq<SessionCall>, new: Seq<SessionCall>) -> bool {
    old.len() <= new.len() && new.subrange(0, old.len() as int) == old
}

/// Whether a paid decision was requested.
pub open spec fn reaches_provider(calls: Seq<SessionCall>) -> bool {
    exists|i: int| 0 <= i < calls.len() && #[trigger] calls[i] is ProviderDecide
}

/// What the provider answered to a paid decision, as it is logged.
pub open spec fn decision_seen(r: Result<Decision, ProviderFailure>) -> Option<DecisionView> {
    match r {
        Ok(d) => Some(d@),
        Err(_) => None,
    }
}

/// Whether the provider answered a paid decision among these calls with `d`.
pub open spec fn provider_answered(calls: Seq<SessionCall>, d: DecisionView) -> bool {
    exists|i: int|
        0 <= i < calls.len() && #[trigger] calls[i] is ProviderDecide && calls[i]->ProviderDecide_1
            == Some(d)
}

/// Whether an action crossed the gateway.
pub open spec fn reaches_gateway(calls: Seq<SessionCall>) -> bool {
    exists|i: int| 0 <= i < calls.len() && #[trigger] calls[i] is Dispatch
}

/// The fresh observation a sequence of calls starts with, if it starts with
/// one that succeeded.
pub open spec fn fresh_observation(calls: Seq<SessionCall>) -> Option<ObservationView> {
    if calls.len() > 0 && calls[0] is Observe {
        calls[0]->Observe_0
    } else {
        None
    }
}

/// Whether no call in a sequence consulted the render mode.
pub open spec fn no_render_mode(calls: Seq<SessionCall>) -> bool {
    forall|i: int| 0 <= i < calls.len() ==> !(#[trigger] calls[i] is RenderMode)
}

/// Whether an observation shows a state at a generation.
pub open spec fn shows(o: ObservationView, state_id: Seq<char>, generation: u64) -> bool {
    o.state_id == state_id && o.generation == generation
}

/// Appending in two steps appends the two segments.
proof fn lemma_appended_twice(a: Seq<SessionCall>, b: Seq<SessionCall>, c: Seq<SessionCall>)
    requires
        extends(a, b),
        extends(b, c),
    ensures
        extends(a, c),
        appended(a, c) == appended(a, b) + appended(b, c),
{
    assert(c.subrange(0, a.len() as int) =~= b.subrange(0, a.len() as int));
    assert(appended(a, c) =~= appended(a, b) + appended(b, c));
}

/// A log extended by a sequence of calls appended exactly those calls.
proof fn lemma_appended_concat(a: Seq<SessionCall>, b: Seq<SessionCall>)
    ensures
        extends(a, a + b),
        appended(a, a + b) == b,
{
    assert((a + b).subrange(0, a.len() as int) =~= a);
    assert(appended(a, a + b) =~= b);
}

/// Pushing one call extends a log by that call.
proof fn lemma_appended_push(a: Seq<SessionCall>, b: Seq<SessionCall>, x: SessionCall)
    requires
        extends(a, b),
    ensures
        extends(a, b.push(x)),
        appended(a, b.push(x)) == appended(a, b).push(x),
{
    assert(b.push(x).subrange(0, a.len() as int) =~= b.subrange(0, a.len() as int));
    assert(appended(a, b.push(x)) =~= appended(a, b).push(x));
}

/// What a concatenation of calls reaches, and the observation it starts with.
proof fn lemma_concat_calls(a: Seq<SessionCall>, b: Seq<SessionCall>)
    ensures
        reaches_provider(a + b) == (reaches_provider(a) || reaches_provider(b)),
        reaches_gateway(a + b) == (reaches_gateway(a) || reaches_gateway(b)),
        a.len() > 0 ==> fresh_observation(a + b) == fresh_observation(a),
        a.len() > 0 ==> (a + b)[0] == a[0],
{
    let s = a + b;
    if reaches_provider(s) {
        let i = choose|i: int| 0 <= i < s.len() && #[trigger] s[i] is ProviderDecide;
        if i < a.len() {
            assert(a[i] is ProviderDecide);
        } else {
            assert(b[i - a.len()] is ProviderDecide);
        }
    }
    if reaches_provider(a) {
        let i = choose|i: int| 0 <= i < a.len() && #[trigger] a[i] is ProviderDecide;
        assert(s[i] is ProviderDecide);
    }
    if reaches_provider(b) {
        let i = choose|i: int| 0 <= i < b.len() && #[trigger] b[i] is ProviderDecide;
        assert(s[a.len() + i] is ProviderDecide);
    }
    if reaches_gateway(s) {
        let i = choose|i: int| 0 <= i < s.len() && #[trigger] s[i] is Dispatch;
        if i < a.len() {
            assert(a[i] is Dispatch);
        } else {
            assert(b[i - a.len()] is Dispatch);
        }
    }
    if reaches_gateway(a) {
        let i = choose|i: int| 0 <= i < a.len() && #[trigger] a[i] is Dispatch;
        assert(s[i] is Dispatch);
    }
    if reaches_gateway(b) {
        let i = choose|i: int| 0 <= i < b.len() && #[trigger] b[i] is Dispatch;
        assert(s[a.len() + i] is Dispatch);
    }
}

/// What a policy load reported, as it is logged.
pub open spec fn policy_seen(r: Result<PolicyBinding, ManagementError>) -> Option<(Seq<char>, u64)> {
    match r {
        Ok(b) => Some((b.policy_sha256@, b.adoption_generation)),
        Err(_) => None,
    }
}

/// Whether a sequence of calls neither paid for a decision nor crossed the
/// gateway.
pub open spec fn quiet(calls: Seq<SessionCall>) -> bool {
    forall|i: int| 0 <= i < calls.len() ==> !(#[trigger] calls[i] is ProviderDecide) && !(
    calls[i] is Dispatch)
}

/// Logging one more call that is neither keeps a log quiet.
proof fn lemma_quiet_push(a: Seq<SessionCall>, b: Seq<SessionCall>, x: SessionCall)
    requires
        extends(a, b),
        quiet(appended(a, b)),
        !(x is ProviderDecide),
        !(x is Dispatch),
    ensures
        extends(a, b.push(x)),
        quiet(appended(a, b.push(x))),
{
    lemma_appended_push(a, b, x);
}

/// The served live session of one admitted run.
pub struct ProductionLiveWorkflowSession<R, D, F, P, O, C, X> {
    runtime: R,
    provider: Option<D>,
    provider_factory: F,
    policy_port: P,
    observations: Option<O>,
    control_limits_admitted: bool,
    profiles: Option<C>,
    admitted_profiles: Option<Vec<AdmittedProfileBinding>>,
    render: Option<X>,
    policy: PolicyFence,
    authority: RuntimeAuthorityBinding,
    instance_id: String,
    workflow_run_id: String,
    launch_observation: Option<EpisodeObservation>,
    calls: CallLog,
}

impl<R, D, F, P, O, C, X> ProductionLiveWorkflowSession<R, D, F, P, O, C, X> where
    R: EpisodeRuntimePort,
    D: DecisionSource,
    F: LiveProviderSessionFactory<D>,
    P: LiveProviderPolicyPort,
    O: LiveContextObservationPort,
    C: LiveInferenceProfileCatalogPort,
    X: LiveContextRenderPort,
 {
    /// Every call this session made to its ports, in order.
    pub closed spec fn calls(&self) -> Seq<SessionCall> {
        self.calls@
    }

    /// Whether an in-flight policy change fenced this session.
    pub closed spec fn policy_fenced(&self) -> bool {
        self.policy.fenced()
    }

    /// The active-policy identity inference results are validated against.
    pub closed spec fn active_policy(&self) -> Option<(Seq<char>, u64)> {
        match self.policy.active() {
            Some(b) => Some((b.policy_sha256@, b.adoption_generation)),
            None => None,
        }
    }

    /// The runtime authority this session runs under.
    pub closed spec fn authority(&self) -> RuntimeAuthorityBinding {
        self.authority
    }

    /// The instance this session's run targets.
    pub closed spec fn instance(&self) -> Seq<char> {
        self.instance_id@
    }

    /// The workflow run this session serves.
    pub closed spec fn workflow_run(&self) -> Seq<char> {
        self.workflow_run_id@
    }

    /// Whether the provider decision source is open.
    pub closed spec fn provider_open(&self) -> bool {
        self.provider is Some
    }

    /// Whether the run's context control limits were admitted.
    pub closed spec fn limits_admitted(&self) -> bool {
        self.control_limits_admitted
    }

    /// Whether a context owner records what the session observes.
    pub closed spec fn observed(&self) -> bool {
        self.observations is Some
    }

    /// Whether an inference-profile catalog is attached.
    pub closed spec fn profiles_attached(&self) -> bool {
        self.profiles is Some
    }

    /// The inference-profile bindings admitted for the run, if any.
    pub closed spec fn admitted_profiles(&self) -> Option<Seq<AdmittedProfileBinding>> {
        match self.admitted_profiles {
            Some(b) => Some(b@),
            None => None,
        }
    }

    /// The observation launch retained for the first `observe`.
    pub closed spec fn launch_observation(&self) -> Option<ObservationView> {
        match self.launch_observation {
            Some(o) => Some(o@),
            None => None,
        }
    }

    /// Opens one admitted run; see [`open_steps`] for every call it makes and
    /// every refusal. The composition of context owners must be coherent; with
    /// a catalog attached the run must carry an exact target admission and its
    /// definition must have resolved; the runtime authority must be bound to
    /// the run. Only then is the runtime opened.
    pub fn open<RF: LiveRuntimeSessionFactory<R>>(
        runtime_factory: &mut LoggedRuntimeFactory<RF>,
        scope: &LiveRunScope,
        provider_factory: F,
        policy_port: P,
        observations: Option<O>,
        control_limits_admitted: bool,
        render: Option<X>,
        profiles: Option<C>,
        target_admitted: bool,
        resolved_profiles: Result<Vec<AdmittedProfileBinding>, ManagementError>,
    ) -> (r: Result<Self, ManagementError>)
        ensures
            final(runtime_factory).calls().take(old(runtime_factory).calls().len() as int) == old(
                runtime_factory,
            ).calls(),
            open_steps(
                render is Some,
                observations is Some,
                control_limits_admitted,
                profiles is Some,
                target_admitted,
                match resolved_profiles {
                    Ok(_) => None,
                    Err(e) => Some(e),
                },
                *scope,
                final(runtime_factory).calls().skip(old(runtime_factory).calls().len() as int),
                match r {
                    Ok(_) => None,
                    Err(e) => Some(e),
                },
            ),
            r matches Ok(s) ==> {
                &&& s.calls() == Seq::<SessionCall>::empty()
                &&& s.instance() == scope.instance_id@
                &&& s.workflow_run() == scope.workflow_run_id@
                &&& authority_in_scope(s.authority(), scope.instance_id@, scope.workflow_run_id@)
                &&& final(runtime_factory).calls().len() >= 2
                &&& final(runtime_factory).calls()[final(runtime_factory).calls().len() - 2]
                    == OpenCall::AuthorityBinding(*scope, Ok(s.authority()))
                &&& !s.policy_fenced()
                &&& s.active_policy() is None
                &&& !s.provider_open()
                &&& s.observed() == (observations is Some)
                &&& s.launch_observation() is None
                &&& (observations is Some == control_limits_admitted)
                &&& (profiles is Some ==> target_admitted && resolved_profiles is Ok)
            },
    {
        let ghost start = runtime_factory.calls();
        let render_required = match &render {
            Some(port) => runtime_factory.render_required(port),
            None => false,
        };
        let ghost owned = runtime_factory.calls();
        proof {
            assert(owned.take(start.len() as int) =~= start);
            if render is Some {
                assert(owned.skip(start.len() as int) =~= seq![OpenCall::RenderMode(render_required)]);
                assert(owned.skip(start.len() as int).skip(1) =~= Seq::<OpenCall>::empty());
            } else {
                assert(owned.skip(start.len() as int) =~= Seq::<OpenCall>::empty());
            }
        }
        match validate_served_owner_composition(
            observations.is_some(),
            render_required,
            control_limits_admitted,
        ) {
            Err(e) => return Err(e),
            Ok(()) => {},
        }
        let admitted_profiles = match profiles {
            None => None,
            Some(_) => {
                if !target_admitted {
                    return Err(
                        ManagementError::conflict(
                            "target_admission_required",
                            "served inference-profile admission requires an exact target admission binding",
                        ),
                    );
                }
                match resolved_profiles {
                    Ok(bindings) => Some(bindings),
                    Err(e) => return Err(e),
                }
            },
        };
        let bound = runtime_factory.authority_binding(scope);
        let ghost asked = runtime_factory.calls();
        proof {
            assert(asked.take(start.len() as int) =~= start);
            if render is Some {
                assert(asked.skip(start.len() as int).skip(1) =~= seq![asked.last()]);
            } else {
                assert(asked.skip(start.len() as int) =~= seq![asked.last()]);
            }
        }
        let authority = match bound {
            Err(e) => return Err(e),
            Ok(b) => b,
        };
        match validate_runtime_authority_binding(
            scope.instance_id.as_str(),
            scope.workflow_run_id.as_str(),
            &authority,
        ) {
            Err(e) => return Err(e),
            Ok(()) => {},
        }
        let opened = runtime_factory.open_runtime(scope);
        proof {
            let all = runtime_factory.calls();
            assert(all.take(start.len() as int) =~= start);
            assert(all[all.len() - 2] == asked.last());
            if render is Some {
                assert(all.skip(start.len() as int).skip(1) =~= seq![asked.last(), all.last()]);
            } else {
                assert(all.skip(start.len() as int) =~= seq![asked.last(), all.last()]);
            }
        }
        let runtime = match opened {
            Err(e) => return Err(e),
            Ok(rt) => rt,
        };
        Ok(
            ProductionLiveWorkflowSession {
                runtime,
                provider: None,
                provider_factory,
                policy_port,
                observations,
                control_limits_admitted,
                profiles,
                admitted_profiles,
                render,
                policy: PolicyFence::new(None),
                authority,
                instance_id: scope.instance_id.clone(),
                workflow_run_id: scope.workflow_run_id.clone(),
                launch_observation: None,
                calls: CallLog::new(),
            },
        )
    }
}

impl<R, D, F, P, O, C, X> ProductionLiveWorkflowSession<R, D, F, P, O, C, X> where
    R: EpisodeRuntimePort,
    D: DecisionSource,
    F: LiveProviderSessionFactory<D>,
    P: LiveProviderPolicyPort,
    O: LiveContextObservationPort,
    C: LiveInferenceProfileCatalogPort,
    X: LiveContextRenderPort,
 {
    /// Everything but the ports' own state and the call log is as it was.
    pub closed spec fn keeps(self, other: Self) -> bool {
        &&& self.policy == other.policy
        &&& self.authority == other.authority
        &&& (self.provider is Some) == (other.provider is Some)
        &&& self.observations == other.observations
        &&& self.control_limits_admitted == other.control_limits_admitted
        &&& self.profiles == other.profiles
        &&& self.admitted_profiles == other.admitted_profiles
        &&& self.render == other.render
        &&& self.launch_observation == other.launch_observation
        &&& self.instance_id == other.instance_id
        &&& self.workflow_run_id == other.workflow_run_id
    }

    /// A fence an in-flight policy change set is never cleared. Every method of
    /// a session keeps everything but its ports' state and its log, or else,
    /// as [`ProductionLiveWorkflowSession::decide`] and `decide_for` do, keeps a
    /// set fence set and refuses before the provider is reached; a session that
    /// kept its state kept its fence.
    pub proof fn lemma_fence_is_never_cleared(before: Self, after: Self)
        requires
            after.keeps(before),
        ensures
            after.policy_fenced() == before.policy_fenced(),
            after.active_policy() == before.active_policy(),
    {
    }

    /// Whether an observation reaches the context owner.
    spec fn records(self) -> bool {
        self.observations is Some && self.control_limits_admitted
    }

    /// Hands one observation to the context owner, when one is attached.
    fn record_context_observation(&mut self, observation: &EpisodeObservation) -> (r: Result<
        (),
        ManagementError,
    >)
        ensures
            final(self).calls@ == if old(self).records() {
                old(self).calls@.push(SessionCall::RecordObservation)
            } else {
                old(self).calls@
            },
            old(self).observations is Some && !old(self).control_limits_admitted ==> (r matches Err(
                e,
            ) && e.refusal() == refusal(
                ErrorClass::Capability,
                "selected_context_control_limits_required",
            )),
            old(self).observations is None ==> r is Ok,
            final(self).keeps(*old(self)),
            final(self).runtime == old(self).runtime,
            final(self).provider == old(self).provider,
    {
        if self.observations.is_none() {
            return Ok(());
        }
        if !self.control_limits_admitted {
            return Err(
                ManagementError::capability(
                    "selected_context_control_limits_required",
                    "served context observation has no admitted control limits",
                ),
            );
        }
        match &self.observations {
            Some(owner) => self.calls.record_observation(owner, observation),
            None => Ok(()),
        }
    }

    /// Hands one legal-action catalog to the context owner, when one is
    /// attached.
    fn record_context_legal_actions(&mut self, actions: &EpisodeLegalActionSet) -> (r: Result<
        (),
        ManagementError,
    >)
        ensures
            final(self).calls@ == if old(self).observations is Some {
                old(self).calls@.push(SessionCall::RecordActions)
            } else {
                old(self).calls@
            },
            old(self).observations is None ==> r is Ok,
            final(self).keeps(*old(self)),
            final(self).runtime == old(self).runtime,
            final(self).provider == old(self).provider,
    {
        match &self.observations {
            Some(owner) => self.calls.record_legal_actions(owner, actions),
            None => Ok(()),
        }
    }

    /// Everything but the policy fence, the ports' own state and the call log
    /// is as it was.
    spec fn keeps_but_policy(self, other: Self) -> bool {
        &&& self.authority == other.authority
        &&& (self.provider is Some) == (other.provider is Some)
        &&& self.observations == other.observations
        &&& self.control_limits_admitted == other.control_limits_admitted
        &&& self.profiles == other.profiles
        &&& self.admitted_profiles == other.admitted_profiles
        &&& self.render == other.render
        &&& self.launch_observation == other.launch_observation
        &&& self.instance_id == other.instance_id
        &&& self.workflow_run_id == other.workflow_run_id
    }

    /// Loads the active provider policy and logs what came back.
    fn load_active_policy_binding(&mut self) -> (r: Result<PolicyBinding, ManagementError>)
        ensures
            final(self).calls@ == old(self).calls@.push(SessionCall::PolicyLoad(policy_seen(r))),
            final(self).keeps(*old(self)),
            final(self).runtime == old(self).runtime,
            final(self).provider == old(self).provider,
    {
        self.calls.load_active_policy(&self.policy_port)
    }

    /// Reads a fresh observation and refuses unless it still shows the state
    /// and generation a provider request was built from.
    fn assert_current_observation(&mut self, expected: &EpisodeObservation) -> (r: Result<
        (),
        ManagementError,
    >)
        ensures
            extends(old(self).calls@, final(self).calls@),
            ({
                let new = appended(old(self).calls@, final(self).calls@);
                &&& new.len() >= 1
                &&& new[0] is Observe
                &&& new.len() <= 2
                &&& new.len() == 2 ==> new[1] == SessionCall::RecordObservation
                &&& !reaches_provider(new)
                &&& !reaches_gateway(new)
                &&& fresh_observation(new) is None ==> (r matches Err(e) && e.refusal() == refusal(
                    ErrorClass::Unavailable,
                    "live_provider_fence_failed",
                ))
                &&& r is Ok ==> (fresh_observation(new) matches Some(o) && shows(
                    o,
                    expected.state_id@,
                    expected.generation,
                ))
                &&& (fresh_observation(new) matches Some(o) && !shows(
                    o,
                    expected.state_id@,
                    expected.generation,
                )) ==> r is Err
                &&& (old(self).observations is None && (fresh_observation(new) matches Some(o) && !shows(
                    o,
                    expected.state_id@,
                    expected.generation,
                ))) ==> (r matches Err(e) && e.refusal() == refusal(
                    ErrorClass::Conflict,
                    "live_provider_generation_stale",
                ))
                &&& (old(self).observations is None && (fresh_observation(new) matches Some(o)
                    && shows(o, expected.state_id@, expected.generation))) ==> r is Ok
            }),
            final(self).keeps(*old(self)),
            final(self).provider == old(self).provider,
    {
        let ghost start = self.calls@;
        let current = match self.calls.observe(&mut self.runtime) {
            Ok(o) => o,
            Err(message) => {
                proof {
                    assert(appended(start, self.calls@) =~= seq![SessionCall::Observe(None)]);
                    assert(self.calls@.subrange(0, start.len() as int) =~= start);
                }
                return Err(runtime_error("live_provider_fence_failed", message));
            },
        };
        let recorded = self.record_context_observation(&current);
        proof {
            let new = appended(start, self.calls@);
            if old(self).records() {
                assert(new =~= seq![
                    SessionCall::Observe(Some(current@)),
                    SessionCall::RecordObservation,
                ]);
            } else {
                assert(new =~= seq![SessionCall::Observe(Some(current@))]);
            }
            assert(self.calls@.subrange(0, start.len() as int) =~= start);
        }
        match recorded {
            Err(e) => return Err(e),
            Ok(()) => {},
        }
        if !(current.state_id == expected.state_id) || current.generation != expected.generation {
            return Err(
                ManagementError::conflict(
                    "live_provider_generation_stale",
                    "the gateway/MCP observation changed before provider inference; re-observe is required",
                ),
            );
        }
        Ok(())
    }

    /// Admits one provider request: the observation it was built from is
    /// still current, the session is not fenced, and the active policy is
    /// loaded as the identity its result will be validated against.
    fn admit_decision_request(&mut self, expected: &EpisodeObservation) -> (r: Result<
        (),
        ManagementError,
    >)
        ensures
            extends(old(self).calls@, final(self).calls@),
            ({
                let new = appended(old(self).calls@, final(self).calls@);
                &&& new.len() >= 1
                &&& new[0] is Observe
                &&& !reaches_provider(new)
                &&& !reaches_gateway(new)
                &&& no_render_mode(new)
                &&& fresh_observation(new) is None ==> (r matches Err(e) && e.refusal() == refusal(
                    ErrorClass::Unavailable,
                    "live_provider_fence_failed",
                ))
                &&& (fresh_observation(new) matches Some(o) && !shows(
                    o,
                    expected.state_id@,
                    expected.generation,
                )) ==> r is Err
                &&& (old(self).observations is None && (fresh_observation(new) matches Some(o)
                    && !shows(o, expected.state_id@, expected.generation))) ==> (r matches Err(e)
                    && e.refusal() == refusal(ErrorClass::Conflict, "live_provider_generation_stale"))
                &&& (old(self).observations is None && old(self).policy.fenced() && (
                fresh_observation(new) matches Some(o) && shows(
                    o,
                    expected.state_id@,
                    expected.generation,
                ))) ==> (r matches Err(e) && e.refusal() == policy_changed())
                &&& r is Ok ==> {
                    &&& fresh_observation(new) matches Some(o) && shows(
                        o,
                        expected.state_id@,
                        expected.generation,
                    )
                    &&& !old(self).policy.fenced()
                    &&& old(self).policy.active() is Some
                    &&& final(self).policy.active() is Some
                    &&& new.last() == SessionCall::PolicyLoad(
                        Some(
                            (
                                final(self).policy.active()->0.policy_sha256@,
                                final(self).policy.active()->0.adoption_generation,
                            ),
                        ),
                    )
                }
            }),
            final(self).policy.fenced() == old(self).policy.fenced(),
            old(self).policy.active() is None ==> final(self).policy.active() is None,
            final(self).keeps_but_policy(*old(self)),
            final(self).provider == old(self).provider,
    {
        let ghost start = self.calls@;
        self.assert_current_observation(expected)?;
        let ghost observed = self.calls@;
        proof {
            lemma_concat_calls(appended(start, observed), Seq::empty());
            assert(appended(start, observed) + Seq::<SessionCall>::empty() =~= appended(start, observed));
        }
        self.policy.check_admission()?;
        let loaded = self.load_active_policy_binding();
        proof {
            lemma_appended_push(start, observed, SessionCall::PolicyLoad(policy_seen(loaded)));
            lemma_concat_calls(
                appended(start, observed),
                seq![SessionCall::PolicyLoad(policy_seen(loaded))],
            );
            assert(appended(start, observed).push(SessionCall::PolicyLoad(policy_seen(loaded)))
                =~= appended(start, observed) + seq![
                SessionCall::PolicyLoad(policy_seen(loaded)),
            ]);
            assert(!reaches_provider(seq![SessionCall::PolicyLoad(policy_seen(loaded))]));
            assert(!reaches_gateway(seq![SessionCall::PolicyLoad(policy_seen(loaded))]));
        }
        self.policy.admit_request(loaded)
    }

    /// Settles what the provider answered: a failure is mapped as a paid
    /// exchange; a decision is consumed only when the active policy is still
    /// the one it was admitted under, and a change in flight fences the
    /// session.
    fn settle_decision(&mut self, decided: Result<Decision, ProviderFailure>) -> (r: Result<
        Decision,
        ManagementError,
    >)
        ensures
            decided matches Err(f) ==> final(self).calls@ == old(self).calls@ && (r matches Err(e)
                && e.refusal() == decision_provider_refusal(f)) && final(self).policy == old(self).policy,
            decided is Ok ==> final(self).calls@.len() == old(self).calls@.len() + 1
                && final(self).calls@.drop_last() == old(self).calls@
                && final(self).calls@.last() is PolicyLoad,
            final(self).policy.active() == old(self).policy.active(),
            old(self).policy.fenced() ==> final(self).policy.fenced(),
            r matches Ok(x) ==> (decided matches Ok(d) && x == d) && final(self).policy.fenced()
                == old(self).policy.fenced() && (old(self).policy.active() matches Some(a)
                && final(self).calls@.last() == SessionCall::PolicyLoad(
                Some((a.policy_sha256@, a.adoption_generation)),
            )),
            (decided is Ok && (old(self).policy.active() matches Some(a) && (final(self).calls@.last()->PolicyLoad_0 matches Some(b) && b != (
                a.policy_sha256@,
                a.adoption_generation,
            )))) ==> final(self).policy.fenced() && (r matches Err(e) && e.refusal() == refusal(
                ErrorClass::Unresolved,
                "provider_session_policy_changed",
            )),
            decided is Ok ==> (r matches Err(e) ==> e.class == ErrorClass::Unresolved),
            final(self).keeps_but_policy(*old(self)),
            final(self).provider == old(self).provider,
            final(self).runtime == old(self).runtime,
    {
        let decision = match decided {
            Err(f) => return Err(decision_provider_error(f)),
            Ok(d) => d,
        };
        let loaded = self.load_active_policy_binding();
        proof {
            assert(self.calls@.drop_last() =~= old(self).calls@);
        }
        match self.policy.assert_current(loaded) {
            Err(e) => Err(exchange_unresolved(e)),
            Ok(()) => Ok(decision),
        }
    }

    /// The refusal of a request made before launch opened the provider.
    fn provider_not_open() -> (e: ManagementError)
        ensures
            e.refusal() == refusal(ErrorClass::Unavailable, "provider_session_not_open"),
    {
        ManagementError::unavailable(
            "provider_session_not_open",
            "provider construction must follow the authoritative launch observation",
        )
    }

    /// Requests one paid decision for the current observation. The provider is
    /// reached only when a fresh observation still shows the input's state and
    /// generation, the session is not fenced, and the active policy is
    /// admitted; its decision is returned only when that policy did not change
    /// while it was made.
    pub fn decide(&mut self, input: &DecisionInput) -> (r: Result<Decision, ManagementError>)
        ensures
            extends(old(self).calls(), final(self).calls()),
            ({
                let new = appended(old(self).calls(), final(self).calls());
                let expected = input.observation@;
                &&& new.len() >= 1
                &&& new[0] is Observe
                &&& !reaches_gateway(new)
                &&& reaches_provider(new) ==> {
                    &&& fresh_observation(new) matches Some(o) && shows(
                        o,
                        expected.state_id,
                        expected.generation,
                    )
                    &&& !old(self).policy_fenced()
                    &&& old(self).active_policy() is Some
                    &&& old(self).provider_open()
                }
                &&& fresh_observation(new) is None ==> (r matches Err(e) && e.refusal() == refusal(
                    ErrorClass::Unavailable,
                    "live_provider_fence_failed",
                )) && !reaches_provider(new)
                &&& (fresh_observation(new) matches Some(o) && !shows(
                    o,
                    expected.state_id,
                    expected.generation,
                )) ==> r is Err && !reaches_provider(new)
                &&& (!old(self).observed() && (fresh_observation(new) matches Some(o) && !shows(
                    o,
                    expected.state_id,
                    expected.generation,
                ))) ==> (r matches Err(e) && e.refusal() == refusal(
                    ErrorClass::Conflict,
                    "live_provider_generation_stale",
                ))
                &&& old(self).policy_fenced() ==> r is Err && !reaches_provider(new)
                &&& (old(self).policy_fenced() && !old(self).observed() && (fresh_observation(
                    new,
                ) matches Some(o) && shows(o, expected.state_id, expected.generation))) ==> (
                r matches Err(e) && e.refusal() == policy_changed())
                &&& r is Ok ==> reaches_provider(new) && !final(self).policy_fenced()
                    && new.last() == SessionCall::PolicyLoad(final(self).active_policy())
                &&& r matches Ok(d) ==> new.len() >= 2 && new[new.len() - 2]
                    == SessionCall::ProviderDecide(None, Some(d@))
                &&& (reaches_provider(new) && (new.last() matches SessionCall::PolicyLoad(Some(b))
                    && final(self).active_policy() != Some(b))) ==> final(self).policy_fenced() && (
                r matches Err(e) && e.refusal() == refusal(
                    ErrorClass::Unresolved,
                    "provider_session_policy_changed",
                ))
            }),
            old(self).policy_fenced() ==> final(self).policy_fenced(),
            final(self).provider_open() == old(self).provider_open(),
            final(self).authority() == old(self).authority(),
            final(self).observed() == old(self).observed(),
            final(self).launch_observation() == old(self).launch_observation(),
    {
        let ghost start = self.calls@;
        match self.admit_decision_request(&input.observation) {
            Err(e) => return Err(e),
            Ok(()) => {},
        }
        let ghost admitted = self.calls@;
        let ghost seg1 = appended(start, admitted);
        let decided = match &mut self.provider {
            Some(p) => self.calls.decide(p, input),
            None => return Err(Self::provider_not_open()),
        };
        let ghost asked = self.calls@;
        let ghost ask = SessionCall::ProviderDecide(None, decision_seen(decided));
        proof {
            lemma_appended_push(start, admitted, ask);
        }
        let r = self.settle_decision(decided);
        proof {
            let new = appended(start, self.calls@);
            if decided is Ok {
                let last = self.calls@.last();
                assert(self.calls@ =~= asked.push(last));
                lemma_appended_push(start, asked, last);
                assert(new =~= seg1 + seq![ask, last]);
                lemma_concat_calls(seg1, seq![ask, last]);
                assert(seq![ask, last][0] is ProviderDecide);
                assert(!reaches_gateway(seq![ask, last]));
                assert(new.last() == last);
                assert(new[new.len() - 2] == ask);
            } else {
                assert(new =~= seg1 + seq![ask]);
                lemma_concat_calls(seg1, seq![ask]);
                assert(seq![ask][0] is ProviderDecide);
                assert(!reaches_gateway(seq![ask]));
                assert(new.last() is ProviderDecide);
            }
        }
        r
    }
}

impl<R, D, F, P, O, C, X> ProductionLiveWorkflowSession<R, D, F, P, O, C, X> where
    R: EpisodeRuntimePort,
    D: DecisionSource,
    F: LiveProviderSessionFactory<D>,
    P: LiveProviderPolicyPort,
    O: LiveContextObservationPort,
    C: LiveInferenceProfileCatalogPort,
    X: LiveContextRenderPort,
 {
    /// Re-resolves the authored decision reference, when a catalog is
    /// attached, and refuses unless it is still the admitted revision.
    fn admit_profile_binding(&mut self, decision_profile_ref: &str) -> (r: Result<
        (),
        ManagementError,
    >)
        ensures
            extends(old(self).calls@, final(self).calls@),
            ({
                let new = appended(old(self).calls@, final(self).calls@);
                &&& !reaches_provider(new)
                &&& !reaches_gateway(new)
                &&& new.len() == 0 || new.len() == 1
                &&& old(self).profiles is None ==> r is Ok && new.len() == 0
                &&& old(self).profiles is Some ==> match old(self).admitted_profiles() {
                    None => (r matches Err(e) && e.refusal() == refusal(
                        ErrorClass::Unavailable,
                        "inference_profile_binding_unavailable",
                    )) && new.len() == 0,
                    Some(bindings) => match decision_binding(bindings, decision_profile_ref@) {
                        None => (r matches Err(e) && e.refusal() == refusal(
                            ErrorClass::Conflict,
                            "inference_profile_binding_unknown",
                        )) && new.len() == 0,
                        Some(b) => new.len() == 1 && (new[0] matches SessionCall::ProfileResolve(x)
                            && (r is Ok <==> x == Some((b.version@, b.digest@))) && (x is Some ==> (
                        r matches Err(e) ==> e.refusal() == refusal(
                            ErrorClass::Conflict,
                            "inference_profile_binding_changed",
                        )))),
                    },
                }
            }),
            final(self).keeps(*old(self)),
            final(self).provider == old(self).provider,
    {
        if self.profiles.is_none() {
            proof {
                assert(appended(self.calls@, self.calls@) =~= Seq::<SessionCall>::empty());
                assert(self.calls@.subrange(0, self.calls@.len() as int) =~= self.calls@);
            }
            return Ok(());
        }
        let binding = match admitted_decision_binding(
            self.admitted_profiles.as_ref(),
            decision_profile_ref,
        ) {
            Ok(b) => AdmittedProfileBinding {
                node_kind: b.node_kind.clone(),
                profile_ref: b.profile_ref.clone(),
                version: b.version.clone(),
                digest: b.digest.clone(),
            },
            Err(e) => {
                proof {
                    assert(appended(self.calls@, self.calls@) =~= Seq::<SessionCall>::empty());
                    assert(self.calls@.subrange(0, self.calls@.len() as int) =~= self.calls@);
                }
                return Err(e);
            },
        };
        let resolved = self.calls.resolve_decision_profile(&self.profiles, decision_profile_ref);
        proof {
            assert(appended(old(self).calls@, self.calls@) =~= seq![
                SessionCall::ProfileResolve(profile_seen(resolved)),
            ]);
            assert(self.calls@.subrange(0, old(self).calls@.len() as int) =~= old(self).calls@);
            assert(!reaches_provider(seq![SessionCall::ProfileResolve(profile_seen(resolved))]));
            assert(!reaches_gateway(seq![SessionCall::ProfileResolve(profile_seen(resolved))]));
        }
        check_resolved(&binding, resolved)
    }
}

impl<R, D, F, P, O, C, X> ProductionLiveWorkflowSession<R, D, F, P, O, C, X> where
    R: EpisodeRuntimePort,
    D: DecisionSource,
    F: LiveProviderSessionFactory<D>,
    P: LiveProviderPolicyPort,
    O: LiveContextObservationPort,
    C: LiveInferenceProfileCatalogPort,
    X: LiveContextRenderPort,
 {
    /// The active policy identity as it is logged.
    spec fn active_pair(self) -> Option<(Seq<char>, u64)> {
        match self.policy.active() {
            Some(b) => Some((b.policy_sha256@, b.adoption_generation)),
            None => None,
        }
    }

    /// Decides through the managed render of an admitted request: the render
    /// source is read under the admitted control limits, the provider
    /// assembles the exact bytes, the bytes are admitted against the selected
    /// whole-input bound, and the source is confirmed current before the one
    /// paid exchange. After it, the observation, the active policy and the
    /// source are each confirmed again before the decision is returned.
    fn decide_with_managed_context(
        &mut self,
        input: &DecisionInput,
        decision_profile_ref: &str,
        context_ref: &str,
    ) -> (r: Result<Decision, ManagementError>)
        requires
            old(self).render is Some,
            !old(self).policy.fenced(),
        ensures
            extends(old(self).calls@, final(self).calls@),
            !reaches_gateway(appended(old(self).calls@, final(self).calls@)),
            reaches_provider(appended(old(self).calls@, final(self).calls@)) ==> old(
                self,
            ).control_limits_admitted,
            reaches_provider(appended(old(self).calls@, final(self).calls@)) ==> old(
                self,
            ).provider is Some,
            reaches_provider(appended(old(self).calls@, final(self).calls@)) ==> appended(
                old(self).calls@,
                final(self).calls@,
            ).contains(SessionCall::RenderCheck(true)),
            r is Ok ==> reaches_provider(appended(old(self).calls@, final(self).calls@)),
            r is Ok ==> appended(old(self).calls@, final(self).calls@).last()
                == SessionCall::RenderCheck(true),
            r is Ok ==> appended(old(self).calls@, final(self).calls@).contains(
                SessionCall::PolicyLoad(final(self).active_pair()),
            ),
            r is Ok ==> appended(old(self).calls@, final(self).calls@).contains(
                SessionCall::Observe(Some(input.observation@)),
            ),
            r is Ok ==> !final(self).policy.fenced(),
            (reaches_provider(appended(old(self).calls@, final(self).calls@)) && (appended(
                old(self).calls@,
                final(self).calls@,
            ).last() matches SessionCall::PolicyLoad(Some(b)) && final(self).active_pair() != Some(
                b,
            ) && old(self).policy.active() is Some)) ==> (final(self).policy.fenced() && (r matches Err(
                e,
            ) && e.code@ == "provider_session_policy_changed"@)),
            final(self).policy.active() == old(self).policy.active(),
            old(self).policy.fenced() ==> final(self).policy.fenced(),
            final(self).keeps_but_policy(*old(self)),
            managed_steps(
                old(self).control_limits_admitted,
                old(self).provider is Some,
                appended(old(self).calls@, final(self).calls@),
                r,
            ),
    {
        let ghost start = self.calls@;
        proof {
            lemma_appended_concat(start, Seq::empty());
            assert(start + Seq::<SessionCall>::empty() =~= start);
        }
        if !self.control_limits_admitted {
            return Err(
                ManagementError::capability(
                    "selected_context_control_limits_required",
                    "managed rendering has no admitted context control limits",
                ),
            );
        }
        let source = self.calls.render_source_for_decision(&self.render, input, context_ref);
        let ghost read = match &source {
            Ok(s) => Some(s.limits),
            Err(_) => None,
        };
        let ghost pre = seq![SessionCall::RenderSource(read)];
        proof {
            assert(self.calls@ =~= start + pre);
            lemma_appended_concat(start, pre);
        }
        let source = match source {
            Ok(s) => s,
            Err(e) => return Err(e),
        };
        let prepared = match &mut self.provider {
            Some(provider) => self.calls.prepare_managed_context(provider, input, &source),
            None => return Err(Self::provider_not_open()),
        };
        let ghost assembled = match &prepared {
            Ok(p) => Some(p.provider_bytes@),
            Err(_) => None,
        };
        let ghost pre = pre.push(SessionCall::Prepare(assembled));
        proof {
            assert(self.calls@ =~= start + pre);
            lemma_appended_concat(start, pre);
        }
        let prepared = match prepared {
            Ok(p) => p,
            Err(f) => return Err(provider_error(f)),
        };
        match admit_assembled_managed_input(&source.limits, prepared.provider_bytes.len() as u64) {
            Err(e) => return Err(e),
            Ok(()) => {},
        }
        let checked = self.calls.assert_render_source_current(
            &self.render,
            input,
            context_ref,
            &source.identity,
        );
        let ghost pre = pre.push(SessionCall::RenderCheck(checked is Ok));
        proof {
            assert(self.calls@ =~= start + pre);
            lemma_appended_concat(start, pre);
        }
        match checked {
            Err(e) => return Err(e),
            Ok(()) => {},
        }
        let decided = match &mut self.provider {
            Some(provider) => self.calls.decide_prepared_for(
                provider,
                input,
                decision_profile_ref,
                context_ref,
                &prepared,
            ),
            None => return Err(Self::provider_not_open()),
        };
        let ghost pre = pre.push(
            SessionCall::ProviderDecide(Some(prepared.provider_bytes@), decision_seen(decided)),
        );
        proof {
            assert(self.calls@ =~= start + pre);
            lemma_appended_concat(start, pre);
            assert(pre[2] == SessionCall::RenderCheck(true));
            assert(pre[3] is ProviderDecide);
            assert(!reaches_gateway(pre));
        }
        let ghost asked = self.calls@;
        let decision = match decided {
            Ok(d) => d,
            Err(f) => return Err(provider_error(f)),
        };
        let observed = self.assert_current_observation(&input.observation);
        let ghost fenced_at = self.calls@;
        let ghost seg_a = appended(asked, fenced_at);
        proof {
            lemma_appended_twice(start, asked, fenced_at);
            lemma_concat_calls(pre, seg_a);
            assert(appended(start, fenced_at) == pre + seg_a);
            assert((pre + seg_a)[2] == SessionCall::RenderCheck(true));
        }
        match observed {
            Err(e) => return Err(e),
            Ok(()) => {},
        }
        proof {
            assert(seg_a[0] == SessionCall::Observe(Some(input.observation@)));
            assert((pre + seg_a)[4] == SessionCall::Observe(Some(input.observation@)));
        }
        let loaded = self.load_active_policy_binding();
        let ghost loaded_call = SessionCall::PolicyLoad(policy_seen(loaded));
        let ghost post = seg_a.push(loaded_call);
        proof {
            lemma_appended_push(start, fenced_at, loaded_call);
            assert(appended(start, self.calls@) =~= pre + post);
            lemma_concat_calls(pre, post);
            assert(!reaches_provider(seq![loaded_call]));
            assert(!reaches_gateway(seq![loaded_call]));
            lemma_concat_calls(seg_a, seq![loaded_call]);
            assert(post =~= seg_a + seq![loaded_call]);
            assert((pre + post)[2] == SessionCall::RenderCheck(true));
            assert((pre + post)[4] == SessionCall::Observe(Some(input.observation@)));
            assert((pre + post).last() == loaded_call);
        }
        match self.policy.assert_current(loaded) {
            Err(e) => return Err(e),
            Ok(()) => {},
        }
        let ghost loaded_at = self.calls@;
        let checked = self.calls.assert_render_source_current(
            &self.render,
            input,
            context_ref,
            &source.identity,
        );
        proof {
            let last = SessionCall::RenderCheck(checked is Ok);
            lemma_appended_push(start, loaded_at, last);
            assert(appended(start, self.calls@) =~= pre + post.push(last));
            assert(!reaches_provider(seq![last]));
            assert(!reaches_gateway(seq![last]));
            lemma_concat_calls(post, seq![last]);
            assert(post.push(last) =~= post + seq![last]);
            lemma_concat_calls(pre, post.push(last));
            let whole = pre + post.push(last);
            assert(whole[2] == SessionCall::RenderCheck(true));
            assert(whole[4] == SessionCall::Observe(Some(input.observation@)));
            assert(whole[whole.len() - 2] == loaded_call);
            assert(whole[3] == pre[3]);
        }
        match checked {
            Err(e) => Err(e),
            Ok(()) => Ok(decision),
        }
    }
}

impl<R, D, F, P, O, C, X> LiveEpisodeSession for ProductionLiveWorkflowSession<R, D, F, P, O, C, X> where
    R: EpisodeRuntimePort,
    D: DecisionSource,
    F: LiveProviderSessionFactory<D>,
    P: LiveProviderPolicyPort,
    O: LiveContextObservationPort,
    C: LiveInferenceProfileCatalogPort,
    X: LiveContextRenderPort,
 {
    /// Dispatches one action, only when a fresh observation still shows the
    /// state and generation the action was admitted against.
    fn dispatch_action(&mut self, identity: &ActionIdentity, action: &EpisodeLegalAction) -> (r:
        Result<TransitionReceipt, ManagementError>)
        ensures
            extends(old(self).calls(), final(self).calls()),
            ({
                let new = appended(old(self).calls(), final(self).calls());
                &&& new.len() >= 1
                &&& new[0] is Observe
                &&& !reaches_provider(new)
                &&& reaches_gateway(new) ==> (fresh_observation(new) matches Some(o) && shows(
                    o,
                    identity.state_id@,
                    identity.generation,
                )) && new.last() == SessionCall::Dispatch(identity@)
                &&& fresh_observation(new) is None ==> (r matches Err(e) && e.refusal() == refusal(
                    ErrorClass::Unavailable,
                    "live_action_fence_failed",
                )) && !reaches_gateway(new)
                &&& (fresh_observation(new) matches Some(o) && !shows(
                    o,
                    identity.state_id@,
                    identity.generation,
                )) ==> r is Err && !reaches_gateway(new)
                &&& (!old(self).observed() && (fresh_observation(new) matches Some(o) && !shows(
                    o,
                    identity.state_id@,
                    identity.generation,
                ))) ==> (r matches Err(e) && e.refusal() == refusal(
                    ErrorClass::Conflict,
                    "live_action_generation_stale",
                ))
                &&& (!old(self).observed() && (fresh_observation(new) matches Some(o) && shows(
                    o,
                    identity.state_id@,
                    identity.generation,
                ))) ==> reaches_gateway(new)
                &&& r is Ok ==> reaches_gateway(new)
                &&& reaches_gateway(new) ==> (r matches Err(e) ==> e.refusal() == refusal(
                    ErrorClass::Unavailable,
                    "live_dispatch_failed",
                ))
            }),
            final(self).keeps(*old(self)),
    {
        let ghost start = self.calls@;
        let current = match self.calls.observe(&mut self.runtime) {
            Ok(o) => o,
            Err(message) => {
                proof {
                    assert(appended(start, self.calls@) =~= seq![SessionCall::Observe(None)]);
                    assert(self.calls@.subrange(0, start.len() as int) =~= start);
                    assert(!reaches_provider(seq![SessionCall::Observe(None)]));
                    assert(!reaches_gateway(seq![SessionCall::Observe(None)]));
                }
                return Err(runtime_error("live_action_fence_failed", message));
            },
        };
        let recorded = self.record_context_observation(&current);
        let ghost seen = self.calls@;
        let ghost seg1 = appended(start, seen);
        proof {
            if old(self).records() {
                assert(seg1 =~= seq![
                    SessionCall::Observe(Some(current@)),
                    SessionCall::RecordObservation,
                ]);
            } else {
                assert(seg1 =~= seq![SessionCall::Observe(Some(current@))]);
            }
            assert(seen.subrange(0, start.len() as int) =~= start);
            assert(!reaches_provider(seg1));
            assert(!reaches_gateway(seg1));
        }
        match recorded {
            Err(e) => return Err(e),
            Ok(()) => {},
        }
        if !(current.state_id == identity.state_id) || current.generation != identity.generation {
            return Err(
                ManagementError::conflict(
                    "live_action_generation_stale",
                    "the gateway/MCP observation changed before action dispatch; re-observe is required",
                ),
            );
        }
        let dispatched = self.calls.dispatch_action(&mut self.runtime, identity, action);
        proof {
            lemma_appended_push(start, seen, SessionCall::Dispatch(identity@));
            lemma_concat_calls(seg1, seq![SessionCall::Dispatch(identity@)]);
            assert(appended(start, self.calls@) =~= seg1 + seq![SessionCall::Dispatch(identity@)]);
            assert(seq![SessionCall::Dispatch(identity@)][0] is Dispatch);
            assert(!reaches_provider(seq![SessionCall::Dispatch(identity@)]));
        }
        match dispatched {
            Ok(receipt) => Ok(receipt),
            Err(message) => Err(runtime_error("live_dispatch_failed", message)),
        }
    }

    /// Waits a bounded time for a dispatched action's transition; a failed
    /// wait is unresolved, and an observed state reaches the context owner.
    fn wait_for_transition(&mut self, operation_id: &str, wait_for_millis: u32) -> (r: Result<
        WaitSample,
        ManagementError,
    >)
        ensures
            extends(old(self).calls(), final(self).calls()),
            ({
                let new = appended(old(self).calls(), final(self).calls());
                &&& new.len() >= 1
                &&& new[0] is Wait
                &&& !reaches_provider(new)
                &&& !reaches_gateway(new)
            }),
            !old(self).observed() ==> (r matches Err(e) ==> e.refusal() == refusal(
                ErrorClass::Unresolved,
                "live_transition_wait_failed",
            )),
            final(self).keeps(*old(self)),
    {
        let ghost start = self.calls@;
        let result = self.calls.wait_for_transition(&mut self.runtime, operation_id, wait_for_millis);
        let ghost waited = self.calls@;
        proof {
            assert(appended(start, waited) =~= seq![SessionCall::Wait]);
            assert(waited.subrange(0, start.len() as int) =~= start);
            assert(!reaches_provider(seq![SessionCall::Wait]));
            assert(!reaches_gateway(seq![SessionCall::Wait]));
        }
        match result {
            Err(message) => Err(
                ManagementError::unresolved("live_transition_wait_failed", message.as_str()),
            ),
            Ok(sample) => {
                let recorded = match &sample.observation {
                    Some(observation) => self.record_context_observation(observation),
                    None => Ok(()),
                };
                proof {
                    if self.calls@ != waited {
                        lemma_appended_push(start, waited, SessionCall::RecordObservation);
                        assert(appended(start, self.calls@) =~= seq![
                            SessionCall::Wait,
                            SessionCall::RecordObservation,
                        ]);
                        assert(!reaches_provider(
                            seq![SessionCall::Wait, SessionCall::RecordObservation],
                        ));
                        assert(!reaches_gateway(
                            seq![SessionCall::Wait, SessionCall::RecordObservation],
                        ));
                    }
                }
                match recorded {
                    Err(e) => Err(e),
                    Ok(()) => Ok(sample),
                }
            },
        }
    }

    /// Reconciles a dispatched operation by its identity; a failed
    /// reconciliation is unresolved.
    fn reconcile(&mut self, operation_id: &str) -> (r: Result<TransitionReceipt, ManagementError>)
        ensures
            final(self).calls() == old(self).calls().push(SessionCall::Reconcile),
            r matches Err(e) ==> e.refusal() == refusal(
                ErrorClass::Unresolved,
                "live_reconcile_failed",
            ),
            final(self).keeps(*old(self)),
    {
        let result = self.calls.reconcile(&mut self.runtime, operation_id);
        match result {
            Ok(receipt) => Ok(receipt),
            Err(message) => Err(
                ManagementError::unresolved("live_reconcile_failed", message.as_str()),
            ),
        }
    }

    /// Tells an open provider how the last action settled.
    fn action_completed(&mut self, succeeded: bool)
        ensures
            final(self).calls() == if old(self).provider_open() {
                old(self).calls().push(SessionCall::ActionCompleted)
            } else {
                old(self).calls()
            },
            final(self).keeps(*old(self)),
    {
        match &mut self.provider {
            Some(provider) => self.calls.action_completed(provider, succeeded),
            None => {},
        }
    }

    /// Reads the legal actions of one state and hands them to the context
    /// owner.
    fn legal_actions(&mut self, state_id: &str, generation: u64) -> (r: Result<
        EpisodeLegalActionSet,
        ManagementError,
    >)
        ensures
            extends(old(self).calls(), final(self).calls()),
            ({
                let new = appended(old(self).calls(), final(self).calls());
                &&& new.len() >= 1
                &&& new[0] is Catalog
                &&& !reaches_provider(new)
                &&& !reaches_gateway(new)
            }),
            !old(self).observed() ==> (r matches Err(e) ==> e.refusal() == refusal(
                ErrorClass::Unavailable,
                "live_catalog_failed",
            )),
            final(self).keeps(*old(self)),
    {
        let ghost start = self.calls@;
        let read = self.calls.legal_actions(&mut self.runtime, state_id, generation);
        let ghost caught = self.calls@;
        proof {
            assert(appended(start, caught) =~= seq![SessionCall::Catalog]);
            assert(caught.subrange(0, start.len() as int) =~= start);
            assert(!reaches_provider(seq![SessionCall::Catalog]));
            assert(!reaches_gateway(seq![SessionCall::Catalog]));
        }
        let actions = match read {
            Ok(a) => a,
            Err(message) => return Err(runtime_error("live_catalog_failed", message)),
        };
        let recorded = self.record_context_legal_actions(&actions);
        proof {
            if self.calls@ != caught {
                lemma_appended_push(start, caught, SessionCall::RecordActions);
                assert(appended(start, self.calls@) =~= seq![
                    SessionCall::Catalog,
                    SessionCall::RecordActions,
                ]);
                assert(!reaches_provider(seq![SessionCall::Catalog, SessionCall::RecordActions]));
                assert(!reaches_gateway(seq![SessionCall::Catalog, SessionCall::RecordActions]));
            }
        }
        match recorded {
            Err(e) => Err(e),
            Ok(()) => Ok(actions),
        }
    }

    /// Requests one paid decision for an authored decision profile; see
    /// [`ProductionLiveWorkflowSession::decide`]. With a catalog attached, the provider is
    /// reached only when the reference still resolves to the revision admitted
    /// for the run.
    #[verifier::rlimit(60)]
    fn decide_for(
        &mut self,
        input: &DecisionInput,
        decision_profile_ref: &str,
        context_ref: &str,
    ) -> (r: Result<Decision, ManagementError>)
        ensures
            extends(old(self).calls(), final(self).calls()),
            ({
                let new = appended(old(self).calls(), final(self).calls());
                let expected = input.observation@;
                &&& new.len() >= 1
                &&& new[0] is Observe
                &&& !reaches_gateway(new)
                &&& reaches_provider(new) ==> {
                    &&& fresh_observation(new) matches Some(o) && shows(
                        o,
                        expected.state_id,
                        expected.generation,
                    )
                    &&& !old(self).policy_fenced()
                    &&& old(self).active_policy() is Some
                    &&& old(self).provider_open()
                    &&& old(self).profiles_attached() ==> (old(
                        self,
                    ).admitted_profiles() matches Some(bindings) && (decision_binding(
                        bindings,
                        decision_profile_ref@,
                    ) matches Some(b) && resolved_to(new, b)))
                    &&& new.contains(SessionCall::RenderMode(true)) ==> old(self).limits_admitted()
                        && new.contains(SessionCall::RenderCheck(true))
                }
                &&& fresh_observation(new) is None ==> (r matches Err(e) && e.refusal() == refusal(
                    ErrorClass::Unavailable,
                    "live_provider_fence_failed",
                )) && !reaches_provider(new)
                &&& (fresh_observation(new) matches Some(o) && !shows(
                    o,
                    expected.state_id,
                    expected.generation,
                )) ==> r is Err && !reaches_provider(new)
                &&& old(self).policy_fenced() ==> r is Err && !reaches_provider(new)
                &&& (old(self).policy_fenced() && !old(self).observed() && (fresh_observation(
                    new,
                ) matches Some(o) && shows(o, expected.state_id, expected.generation))) ==> (
                r matches Err(e) && e.refusal() == policy_changed())
                &&& r is Ok ==> reaches_provider(new) && !final(self).policy_fenced()
                    && new.contains(SessionCall::PolicyLoad(final(self).active_policy()))
                &&& r matches Ok(d) ==> provider_answered(new, d@)
                &&& (r is Ok && !new.contains(SessionCall::RenderMode(true))) ==> new.last()
                    == SessionCall::PolicyLoad(final(self).active_policy())
                &&& (r is Ok && new.contains(SessionCall::RenderMode(true))) ==> new.last()
                    == SessionCall::RenderCheck(true) && new.contains(
                    SessionCall::Observe(Some(expected)),
                )
                &&& (reaches_provider(new) && (new.last() matches SessionCall::PolicyLoad(Some(b))
                    && final(self).active_policy() != Some(b))) ==> final(self).policy_fenced() && (
                r matches Err(e) && e.code@ == "provider_session_policy_changed"@)
            }),
            old(self).policy_fenced() ==> final(self).policy_fenced(),
            final(self).provider_open() == old(self).provider_open(),
            final(self).authority() == old(self).authority(),
            final(self).observed() == old(self).observed(),
            final(self).launch_observation() == old(self).launch_observation(),
    {
        let ghost start = self.calls@;
        match self.admit_decision_request(&input.observation) {
            Err(e) => return Err(e),
            Ok(()) => {},
        }
        let ghost admitted = self.calls@;
        let ghost seg1 = appended(start, admitted);
        match self.admit_profile_binding(decision_profile_ref) {
            Err(e) => {
                proof {
                    lemma_appended_twice(start, admitted, self.calls@);
                    lemma_concat_calls(seg1, appended(admitted, self.calls@));
                }
                return Err(e);
            },
            Ok(()) => {},
        }
        let ghost profiled = self.calls@;
        let ghost seg2 = appended(admitted, profiled);
        proof {
            lemma_appended_twice(start, admitted, profiled);
            lemma_concat_calls(seg1, seg2);
        }
        let managed = self.calls.render_required(&self.render);
        let ghost moded = self.calls@;
        let ghost seg_m = appended(profiled, moded);
        let ghost prefix = seg1 + seg2 + seg_m;
        proof {
            assert(profiled.subrange(0, profiled.len() as int) =~= profiled);
            if self.render is Some {
                lemma_appended_push(profiled, profiled, SessionCall::RenderMode(managed));
                assert(appended(profiled, profiled) =~= Seq::<SessionCall>::empty());
                assert(seg_m =~= seq![SessionCall::RenderMode(managed)]);
            } else {
                assert(profiled.subrange(0, profiled.len() as int) =~= profiled);
                assert(seg_m =~= Seq::<SessionCall>::empty());
            }
            lemma_appended_twice(start, profiled, moded);
            lemma_concat_calls(seg1 + seg2, seg_m);
            assert(appended(start, moded) == prefix);
            assert(!reaches_provider(seg_m));
            assert(!reaches_gateway(seg_m));
            assert(prefix[0] == seg1[0]);
            assert(fresh_observation(prefix) == fresh_observation(seg1));
            assert(no_render_mode(seg2));
            assert forall|i: int| 0 <= i < prefix.len() && #[trigger] prefix[i] is RenderMode
                implies prefix[i] == SessionCall::RenderMode(managed) by {
                if i < seg1.len() {
                    assert(prefix[i] == seg1[i]);
                } else if i < seg1.len() + seg2.len() {
                    assert(prefix[i] == seg2[i - seg1.len()]);
                } else {
                    assert(prefix[i] == seg_m[i - seg1.len() - seg2.len()]);
                }
            }
            if old(self).profiles is Some {
                let b = decision_binding(old(self).admitted_profiles->0@, decision_profile_ref@)->0;
                assert(prefix[seg1.len() as int] == seg2[0]);
            }
        }
        if managed {
            let r = self.decide_with_managed_context(input, decision_profile_ref, context_ref);
            proof {
                let seg3 = appended(moded, self.calls@);
                let new = appended(start, self.calls@);
                lemma_appended_twice(start, moded, self.calls@);
                lemma_concat_calls(prefix, seg3);
                assert(new == prefix + seg3);
                assert(prefix.last() == SessionCall::RenderMode(true));
                assert(new[prefix.len() - 1] == SessionCall::RenderMode(true));
                if reaches_provider(new) {
                    assert(reaches_provider(seg3));
                    let i = choose|i: int|
                        0 <= i < seg3.len() && seg3[i] == SessionCall::RenderCheck(true);
                    assert(new[prefix.len() + i] == seg3[i]);
                    assert(seg3.len() > 0);
                    assert(new.last() == seg3.last());
                    if old(self).profiles is Some {
                        let b = decision_binding(
                            old(self).admitted_profiles->0@,
                            decision_profile_ref@,
                        )->0;
                        assert(new[seg1.len() as int] == prefix[seg1.len() as int]);
                    }
                }
                if r is Ok {
                    assert(seg3[3] is ProviderDecide);
                    assert(new[prefix.len() + 3int] == seg3[3]);
                    let i = choose|i: int|
                        0 <= i < seg3.len() && seg3[i] == SessionCall::PolicyLoad(
                            self.active_pair(),
                        );
                    assert(new[prefix.len() + i] == seg3[i]);
                    let j = choose|j: int|
                        0 <= j < seg3.len() && seg3[j] == SessionCall::Observe(
                            Some(input.observation@),
                        );
                    assert(new[prefix.len() + j] == seg3[j]);
                }
            }
            return r;
        }
        let decided = match &mut self.provider {
            Some(p) => self.calls.decide_for(p, input, decision_profile_ref, context_ref),
            None => return Err(Self::provider_not_open()),
        };
        let ghost asked = self.calls@;
        let ghost ask = SessionCall::ProviderDecide(None, decision_seen(decided));
        proof {
            lemma_appended_push(start, moded, ask);
        }
        let r = self.settle_decision(decided);
        proof {
            let new = appended(start, self.calls@);
            let tail = if decided is Ok {
                seq![ask, self.calls@.last()]
            } else {
                seq![ask]
            };
            if decided is Ok {
                assert(self.calls@ =~= asked.push(self.calls@.last()));
                lemma_appended_push(start, asked, self.calls@.last());
            }
            assert(new =~= prefix + tail);
            lemma_concat_calls(prefix, tail);
            assert(tail[0] is ProviderDecide);
            assert(!reaches_gateway(tail));
            assert(new.last() == tail.last());
            assert(no_render_mode(tail));
            assert forall|i: int| 0 <= i < new.len() && #[trigger] new[i] is RenderMode implies new[i]
                == SessionCall::RenderMode(false) by {
                if i < prefix.len() {
                    assert(new[i] == prefix[i]);
                } else {
                    assert(new[i] == tail[i - prefix.len()]);
                }
            }
            if old(self).profiles is Some {
                let b = decision_binding(old(self).admitted_profiles->0@, decision_profile_ref@)->0;
                assert(new[seg1.len() as int] == prefix[seg1.len() as int]);
            }
            if r is Ok {
                assert(new[new.len() - 1] == SessionCall::PolicyLoad(self.active_policy()));
                assert(new[prefix.len() as int] == ask);
            }
        }
        r
    }

    fn model_execution_id(&self) -> (r: Option<u64>)
        ensures
            !self.provider_open() ==> r is None,
    {
        match &self.provider {
            Some(provider) => provider.model_execution_id(),
            None => None,
        }
    }
}

impl<R, D, F, P, O, C, X> ProductionLiveWorkflowSession<R, D, F, P, O, C, X> where
    R: EpisodeRuntimePort,
    D: DecisionSource,
    F: LiveProviderSessionFactory<D>,
    P: LiveProviderPolicyPort,
    O: LiveContextObservationPort,
    C: LiveInferenceProfileCatalogPort,
    X: LiveContextRenderPort,
 {
    /// Launches the runtime and opens the provider only after the gateway
    /// fence: with a context owner attached the post-allocation lease is
    /// adopted into the runtime authority first; the first observation and its
    /// legal actions reach the owner and the observation is retained; the
    /// active policy is loaded as the session's binding; the provider is opened
    /// last. Launch never pays for a decision or dispatches an action.
    pub fn launch(&mut self) -> (r: Result<(), ManagementError>)
        ensures
            extends(old(self).calls(), final(self).calls()),
            ({
                let new = appended(old(self).calls(), final(self).calls());
                &&& new.len() >= 1
                &&& new[0] is Launch
                &&& quiet(new)
                &&& r is Ok ==> {
                    &&& new.last() is ProviderOpen
                    &&& final(self).launch_observation() matches Some(o) && new.contains(
                        SessionCall::Observe(Some(o)),
                    )
                    &&& final(self).active_policy() is Some
                    &&& new.contains(SessionCall::PolicyLoad(final(self).active_policy()))
                }
                &&& old(self).observed() ==> (new.len() >= 2 ==> new[1] is LeaseRead)
            }),
            final(self).provider_open() == (old(self).provider_open() || r is Ok),
            final(self).policy_fenced() == old(self).policy_fenced(),
            final(self).observed() == old(self).observed(),
            !old(self).observed() ==> final(self).authority() == old(self).authority(),
            old(self).observed() && r is Ok ==> authority_in_scope(
                final(self).authority(),
                old(self).instance(),
                old(self).workflow_run(),
            ),
    {
        let ghost start = self.calls@;
        let launched = self.calls.launch(&mut self.runtime);
        proof {
            assert(start.push(SessionCall::Launch).subrange(0, start.len() as int) =~= start);
            assert(appended(start, self.calls@) =~= seq![SessionCall::Launch]);
        }
        match launched {
            Err(message) => return Err(runtime_error("live_launch_failed", message)),
            Ok(()) => {},
        }
        if self.observations.is_some() {
            let ghost before = self.calls@;
            let lease = self.calls.current_lease_binding(&mut self.runtime);
            proof {
                lemma_quiet_push(start, before, SessionCall::LeaseRead);
                assert(appended(start, self.calls@)[1] == SessionCall::LeaseRead);
            }
            let instance_id = self.instance_id.clone();
            let workflow_run_id = self.workflow_run_id.clone();
            refresh_authority_lease_binding(
                &mut self.authority,
                instance_id.as_str(),
                workflow_run_id.as_str(),
                lease,
            )?;
        }
        let ghost before_observe = self.calls@;
        let observed = self.calls.observe(&mut self.runtime);
        let observation = match observed {
            Ok(o) => {
                proof {
                    lemma_quiet_push(start, before_observe, SessionCall::Observe(Some(o@)));
                }
                o
            },
            Err(message) => {
                proof {
                    lemma_quiet_push(start, before_observe, SessionCall::Observe(None));
                    assert(appended(start, self.calls@)[0] == SessionCall::Launch);
                }
                return Err(runtime_error("live_launch_fence_failed", message));
            },
        };
        let ghost observed_at = appended(start, self.calls@).len() - 1;
        proof {
            assert(appended(start, self.calls@)[observed_at] == SessionCall::Observe(
                Some(observation@),
            ));
        }
        let ghost before_record = self.calls@;
        let recorded = self.record_context_observation(&observation);
        proof {
            if self.calls@ != before_record {
                lemma_quiet_push(start, before_record, SessionCall::RecordObservation);
            }
            assert(appended(start, self.calls@)[observed_at] == SessionCall::Observe(
                Some(observation@),
            ));
        }
        match recorded {
            Err(e) => return Err(e),
            Ok(()) => {},
        }
        let ghost before_catalog = self.calls@;
        let read = self.calls.legal_actions(
            &mut self.runtime,
            observation.state_id(),
            observation.generation(),
        );
        proof {
            lemma_quiet_push(start, before_catalog, SessionCall::Catalog);
        }
        let actions = match read {
            Ok(a) => a,
            Err(message) => return Err(runtime_error("live_launch_catalog_failed", message)),
        };
        let ghost before_actions = self.calls@;
        let recorded = self.record_context_legal_actions(&actions);
        proof {
            if self.calls@ != before_actions {
                lemma_quiet_push(start, before_actions, SessionCall::RecordActions);
            }
            assert(appended(start, self.calls@)[observed_at] == SessionCall::Observe(
                Some(observation@),
            ));
        }
        match recorded {
            Err(e) => return Err(e),
            Ok(()) => {},
        }
        self.launch_observation = Some(observation);
        let ghost before_policy = self.calls@;
        let loaded = self.load_active_policy_binding();
        proof {
            lemma_quiet_push(start, before_policy, SessionCall::PolicyLoad(policy_seen(loaded)));
            assert(appended(start, self.calls@)[observed_at] == SessionCall::Observe(
                Some(observation@),
            ));
        }
        let ghost policy_at = appended(start, self.calls@).len() - 1;
        let active = match loaded {
            Ok(b) => b,
            Err(e) => return Err(e),
        };
        self.policy.bind_launched(active);
        let ghost before_open = self.calls@;
        let opened = self.calls.open_provider(&self.provider_factory);
        proof {
            lemma_quiet_push(start, before_open, SessionCall::ProviderOpen);
            let new = appended(start, self.calls@);
            assert(new[observed_at] == SessionCall::Observe(Some(observation@)));
            assert(new[policy_at] == SessionCall::PolicyLoad(self.active_policy()));
            assert(new[0] == SessionCall::Launch);
        }
        match opened {
            Ok(provider) => {
                self.provider = Some(provider);
                Ok(())
            },
            Err(e) => Err(e),
        }
    }
}

impl<R, D, F, P, O, C, X> ProductionLiveWorkflowSession<R, D, F, P, O, C, X> where
    R: EpisodeRuntimePort,
    D: DecisionSource,
    F: LiveProviderSessionFactory<D>,
    P: LiveProviderPolicyPort,
    O: LiveContextObservationPort,
    C: LiveInferenceProfileCatalogPort,
    X: LiveContextRenderPort,
 {
    /// The current observation: the one launch retained, once, and a fresh
    /// one after that, which reaches the context owner.
    pub fn observe(&mut self) -> (r: Result<EpisodeObservation, ManagementError>)
        ensures
            extends(old(self).calls(), final(self).calls()),
            final(self).launch_observation() is None,
            old(self).launch_observation() matches Some(o) ==> (r matches Ok(x) && x@ == o)
                && final(self).calls() == old(self).calls(),
            old(self).launch_observation() is None ==> ({
                let new = appended(old(self).calls(), final(self).calls());
                &&& new.len() >= 1
                &&& new[0] is Observe
                &&& quiet(new)
                &&& r matches Ok(x) ==> fresh_observation(new) == Some(x@)
                &&& fresh_observation(new) is None ==> (r matches Err(e) && e.refusal()
                    == refusal(ErrorClass::Unavailable, "live_observe_failed"))
            }),
            final(self).provider_open() == old(self).provider_open(),
            final(self).policy_fenced() == old(self).policy_fenced(),
            final(self).active_policy() == old(self).active_policy(),
            final(self).authority() == old(self).authority(),
    {
        let retained = self.launch_observation.take();
        match retained {
            Some(observation) => {
                proof {
                    assert(self.calls@.subrange(0, self.calls@.len() as int) =~= self.calls@);
                }
                return Ok(observation);
            },
            None => {},
        }
        let ghost start = self.calls@;
        let observed = self.calls.observe(&mut self.runtime);
        let observation = match observed {
            Ok(o) => o,
            Err(message) => {
                proof {
                    assert(start.push(SessionCall::Observe(None)).subrange(0, start.len() as int)
                        =~= start);
                    assert(appended(start, self.calls@) =~= seq![SessionCall::Observe(None)]);
                }
                return Err(runtime_error("live_observe_failed", message));
            },
        };
        proof {
            assert(start.push(SessionCall::Observe(Some(observation@))).subrange(
                0,
                start.len() as int,
            ) =~= start);
            assert(appended(start, self.calls@) =~= seq![SessionCall::Observe(Some(observation@))]);
        }
        let ghost before_record = self.calls@;
        let recorded = self.record_context_observation(&observation);
        proof {
            if self.calls@ != before_record {
                lemma_quiet_push(start, before_record, SessionCall::RecordObservation);
                assert(appended(start, self.calls@)[0] == SessionCall::Observe(
                    Some(observation@),
                ));
            }
        }
        match recorded {
            Err(e) => Err(e),
            Ok(()) => Ok(observation),
        }
    }

    /// Observes one projection of the current state; the observation and its
    /// legal actions reach the context owner.
    pub fn observe_projection(&mut self, projection_ref: &str) -> (r: Result<
        EpisodeObservation,
        ManagementError,
    >)
        ensures
            extends(old(self).calls(), final(self).calls()),
            ({
                let new = appended(old(self).calls(), final(self).calls());
                &&& new.len() >= 1
                &&& new[0] is ObserveProjection
                &&& quiet(new)
                &&& r is Ok ==> new.contains(SessionCall::Catalog)
            }),
            !old(self).observed() ==> (r matches Err(e) ==> e.refusal() == refusal(
                ErrorClass::Unavailable,
                "live_observe_failed",
            ) || e.refusal() == refusal(ErrorClass::Unavailable, "live_catalog_failed")),
            final(self).keeps(*old(self)),
    {
        let ghost start = self.calls@;
        let observed = self.calls.observe_projection(&mut self.runtime, projection_ref);
        proof {
            assert(start.push(SessionCall::ObserveProjection).subrange(0, start.len() as int)
                =~= start);
            assert(appended(start, self.calls@) =~= seq![SessionCall::ObserveProjection]);
        }
        let observation = match observed {
            Ok(o) => o,
            Err(message) => return Err(runtime_error("live_observe_failed", message)),
        };
        let ghost before_record = self.calls@;
        let recorded = self.record_context_observation(&observation);
        proof {
            if self.calls@ != before_record {
                lemma_quiet_push(start, before_record, SessionCall::RecordObservation);
            }
            assert(appended(start, self.calls@)[0] == SessionCall::ObserveProjection);
        }
        match recorded {
            Err(e) => return Err(e),
            Ok(()) => {},
        }
        let ghost before_catalog = self.calls@;
        let read = self.calls.legal_actions(
            &mut self.runtime,
            observation.state_id(),
            observation.generation(),
        );
        let ghost catalog_at = appended(start, self.calls@).len() - 1;
        proof {
            lemma_quiet_push(start, before_catalog, SessionCall::Catalog);
            assert(appended(start, self.calls@)[0] == SessionCall::ObserveProjection);
            assert(appended(start, self.calls@)[catalog_at] == SessionCall::Catalog);
        }
        let actions = match read {
            Ok(a) => a,
            Err(message) => return Err(runtime_error("live_catalog_failed", message)),
        };
        let ghost before_actions = self.calls@;
        let recorded = self.record_context_legal_actions(&actions);
        proof {
            if self.calls@ != before_actions {
                lemma_quiet_push(start, before_actions, SessionCall::RecordActions);
            }
            assert(appended(start, self.calls@)[0] == SessionCall::ObserveProjection);
            assert(appended(start, self.calls@)[catalog_at] == SessionCall::Catalog);
        }
        match recorded {
            Err(e) => Err(e),
            Ok(()) => Ok(observation),
        }
    }

    /// Drops what the context owner recorded and releases the runtime lease.
    pub fn release_lease(&mut self) -> (r: Result<(), ManagementError>)
        ensures
            final(self).calls() == if old(self).observed() {
                old(self).calls().push(SessionCall::Invalidate).push(SessionCall::ReleaseLease)
            } else {
                old(self).calls().push(SessionCall::ReleaseLease)
            },
            r matches Err(e) ==> e.refusal() == refusal(
                ErrorClass::Unavailable,
                "live_release_failed",
            ),
            final(self).keeps(*old(self)),
    {
        self.invalidate_context_observation();
        let released = self.calls.release_lease(&mut self.runtime);
        match released {
            Ok(()) => Ok(()),
            Err(message) => Err(runtime_error("live_release_failed", message)),
        }
    }

    /// Drops what the context owner recorded and stops the episode.
    pub fn stop_episode(&mut self) -> (r: Result<(), ManagementError>)
        ensures
            final(self).calls() == if old(self).observed() {
                old(self).calls().push(SessionCall::Invalidate).push(SessionCall::StopEpisode)
            } else {
                old(self).calls().push(SessionCall::StopEpisode)
            },
            r matches Err(e) ==> e.refusal() == refusal(ErrorClass::Unavailable, "live_stop_failed"),
            final(self).keeps(*old(self)),
    {
        self.invalidate_context_observation();
        let stopped = self.calls.stop_episode(&mut self.runtime);
        match stopped {
            Ok(()) => Ok(()),
            Err(message) => Err(runtime_error("live_stop_failed", message)),
        }
    }

    fn invalidate_context_observation(&mut self)
        ensures
            final(self).calls@ == if old(self).observations is Some {
                old(self).calls@.push(SessionCall::Invalidate)
            } else {
                old(self).calls@
            },
            final(self).keeps(*old(self)),
            final(self).runtime == old(self).runtime,
            final(self).provider == old(self).provider,
    {
        match &self.observations {
            Some(owner) => self.calls.invalidate(owner),
            None => {},
        }
    }
}

/// What a profile resolution reported, as it is logged.
pub open spec fn profile_seen(r: Result<InferenceProfileDescriptor, ManagementError>) -> Option<
    (Seq<char>, Seq<char>),
> {
    match r {
        Ok(d) => Some((d.version@, d.digest@)),
        Err(_) => None,
    }
}

/// Whether a profile resolution matched one admitted binding.
pub open spec fn resolved_to(calls: Seq<SessionCall>, b: AdmittedProfileBinding) -> bool {
    exists|i: int|
        0 <= i < calls.len() && #[trigger] calls[i] == SessionCall::ProfileResolve(
            Some((b.version@, b.digest@)),
        )
}

} // verus!
