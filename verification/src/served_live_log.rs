//! The log of the calls a served live session made on its ports. Only the
//! methods here add to it, and each one makes the call it records, so the
//! log is the record of what the ports were asked and what they said.

use vstd::prelude::*;
use crate::error::ManagementError;
use crate::inference_profile::InferenceProfileDescriptor;
use crate::live_node::{
    ActionIdentity, Decision, DecisionInput, EpisodeLegalAction, EpisodeLegalActionSet,
    EpisodeObservation, TransitionReceipt, WaitSample,
};
use crate::managed_render::{
    ContextRenderSource, LiveContextRenderPort, PreparedContext,
};
use crate::served_boundary::ContextRenderSourceIdentity;
use crate::served_session::{PolicyBinding, RuntimeAuthorityBinding, RuntimeLeaseBinding};
use crate::served_live::{
    DecisionSource, EpisodeRuntimePort, LiveContextObservationPort,
    LiveInferenceProfileCatalogPort, LiveProviderPolicyPort, LiveProviderSessionFactory,
    LiveRunScope, LiveRuntimeSessionFactory, OpenCall, ProviderFailure, SessionCall, decision_seen, policy_seen, profile_seen,
};

verus! {

/// A runtime factory with the log of what opening sessions asked of it, and of
/// the render owner's mode each opening read.
pub struct LoggedRuntimeFactory<RF> {
    factory: RF,
    calls: Ghost<Seq<OpenCall>>,
}

impl<RF> LoggedRuntimeFactory<RF> {
    /// Holds one runtime factory, with nothing asked of it yet.
    pub fn new(factory: RF) -> (r: Self)
        ensures
            r.calls() == Seq::<OpenCall>::empty(),
    {
        LoggedRuntimeFactory { factory, calls: Ghost(Seq::empty()) }
    }

    /// What was asked, in order, with the answers.
    pub closed spec fn calls(&self) -> Seq<OpenCall> {
        self.calls@
    }

    /// The held factory, for its owner to inspect.
    pub closed spec fn held(&self) -> RF {
        self.factory
    }

    /// The held factory, for its owner to inspect.
    pub fn factory(&self) -> (r: &RF)
        ensures
            *r == self.held(),
    {
        &self.factory
    }

    pub fn render_required<X: LiveContextRenderPort>(&mut self, render: &X) -> (r: bool)
        ensures
            final(self).calls() == old(self).calls().push(OpenCall::RenderMode(r)),
    {
        let r = render.render_required();
        self.calls = Ghost(self.calls@.push(OpenCall::RenderMode(r)));
        r
    }

    pub fn authority_binding<R>(&mut self, scope: &LiveRunScope) -> (r: Result<
        RuntimeAuthorityBinding,
        ManagementError,
    >) where RF: LiveRuntimeSessionFactory<R>
        ensures
            final(self).calls() == old(self).calls().push(OpenCall::AuthorityBinding(*scope, r)),
    {
        let r = self.factory.authority_binding(scope);
        self.calls = Ghost(self.calls@.push(OpenCall::AuthorityBinding(*scope, r)));
        r
    }

    pub fn open_runtime<R>(&mut self, scope: &LiveRunScope) -> (r: Result<R, ManagementError>) where
        RF: LiveRuntimeSessionFactory<R>,
        ensures
            final(self).calls() == old(self).calls().push(
                OpenCall::OpenRuntime(
                    *scope,
                    match r {
                        Ok(_) => Ok(()),
                        Err(e) => Err(e),
                    },
                ),
            ),
    {
        let r = self.factory.open_runtime(scope);
        let ghost answer = match &r {
            Ok(_) => Ok(()),
            Err(e) => Err(*e),
        };
        self.calls = Ghost(self.calls@.push(OpenCall::OpenRuntime(*scope, answer)));
        r
    }
}

/// The calls a served live session made on its ports, in order.
pub struct CallLog {
    entries: Ghost<Seq<SessionCall>>,
}

impl View for CallLog {
    type V = Seq<SessionCall>;

    closed spec fn view(&self) -> Seq<SessionCall> {
        self.entries@
    }
}

impl CallLog {
    /// A log with no calls.
    pub fn new() -> (r: Self)
        ensures
            r@ == Seq::<SessionCall>::empty(),
    {
        CallLog { entries: Ghost(Seq::empty()) }
    }

    pub fn launch<R: EpisodeRuntimePort>(&mut self, runtime: &mut R) -> (r: Result<(), String>)
        ensures
            final(self)@ == old(self)@.push(SessionCall::Launch),
    {
        let r = runtime.launch();
        self.entries = Ghost(self.entries@.push(SessionCall::Launch));
        r
    }

    pub fn current_lease_binding<R: EpisodeRuntimePort>(&mut self, runtime: &mut R) -> (r: Result<
        RuntimeLeaseBinding,
        String,
    >)
        ensures
            final(self)@ == old(self)@.push(SessionCall::LeaseRead),
    {
        let r = runtime.current_lease_binding();
        self.entries = Ghost(self.entries@.push(SessionCall::LeaseRead));
        r
    }

    pub fn observe<R: EpisodeRuntimePort>(&mut self, runtime: &mut R) -> (r: Result<
        EpisodeObservation,
        String,
    >)
        ensures
            final(self)@ == old(self)@.push(
                SessionCall::Observe(
                    match r {
                        Ok(o) => Some(o@),
                        Err(_) => None,
                    },
                ),
            ),
    {
        let r = runtime.observe();
        let ghost seen = match &r {
            Ok(o) => Some(o@),
            Err(_) => None,
        };
        self.entries = Ghost(self.entries@.push(SessionCall::Observe(seen)));
        r
    }

    pub fn observe_projection<R: EpisodeRuntimePort>(
        &mut self,
        runtime: &mut R,
        projection_ref: &str,
    ) -> (r: Result<EpisodeObservation, String>)
        ensures
            final(self)@ == old(self)@.push(SessionCall::ObserveProjection),
    {
        let r = runtime.observe_projection(projection_ref);
        self.entries = Ghost(self.entries@.push(SessionCall::ObserveProjection));
        r
    }

    pub fn legal_actions<R: EpisodeRuntimePort>(
        &mut self,
        runtime: &mut R,
        state_id: &str,
        generation: u64,
    ) -> (r: Result<EpisodeLegalActionSet, String>)
        ensures
            final(self)@ == old(self)@.push(SessionCall::Catalog),
    {
        let r = runtime.legal_actions(state_id, generation);
        self.entries = Ghost(self.entries@.push(SessionCall::Catalog));
        r
    }

    pub fn dispatch_action<R: EpisodeRuntimePort>(
        &mut self,
        runtime: &mut R,
        identity: &ActionIdentity,
        action: &EpisodeLegalAction,
    ) -> (r: Result<TransitionReceipt, String>)
        ensures
            final(self)@ == old(self)@.push(SessionCall::Dispatch(identity@)),
    {
        let r = runtime.dispatch_action(identity, action);
        self.entries = Ghost(self.entries@.push(SessionCall::Dispatch(identity@)));
        r
    }

    pub fn wait_for_transition<R: EpisodeRuntimePort>(
        &mut self,
        runtime: &mut R,
        operation_id: &str,
        wait_for_millis: u32,
    ) -> (r: Result<WaitSample, String>)
        ensures
            final(self)@ == old(self)@.push(SessionCall::Wait),
    {
        let r = runtime.wait_for_transition(operation_id, wait_for_millis);
        self.entries = Ghost(self.entries@.push(SessionCall::Wait));
        r
    }

    pub fn reconcile<R: EpisodeRuntimePort>(&mut self, runtime: &mut R, operation_id: &str) -> (r:
        Result<TransitionReceipt, String>)
        ensures
            final(self)@ == old(self)@.push(SessionCall::Reconcile),
    {
        let r = runtime.reconcile(operation_id);
        self.entries = Ghost(self.entries@.push(SessionCall::Reconcile));
        r
    }

    pub fn release_lease<R: EpisodeRuntimePort>(&mut self, runtime: &mut R) -> (r: Result<
        (),
        String,
    >)
        ensures
            final(self)@ == old(self)@.push(SessionCall::ReleaseLease),
    {
        let r = runtime.release_lease();
        self.entries = Ghost(self.entries@.push(SessionCall::ReleaseLease));
        r
    }

    pub fn stop_episode<R: EpisodeRuntimePort>(&mut self, runtime: &mut R) -> (r: Result<
        (),
        String,
    >)
        ensures
            final(self)@ == old(self)@.push(SessionCall::StopEpisode),
    {
        let r = runtime.stop_episode();
        self.entries = Ghost(self.entries@.push(SessionCall::StopEpisode));
        r
    }

    pub fn record_observation<O: LiveContextObservationPort>(
        &mut self,
        owner: &O,
        observation: &EpisodeObservation,
    ) -> (r: Result<(), ManagementError>)
        ensures
            final(self)@ == old(self)@.push(SessionCall::RecordObservation),
    {
        let r = owner.record_observation(observation);
        self.entries = Ghost(self.entries@.push(SessionCall::RecordObservation));
        r
    }

    pub fn record_legal_actions<O: LiveContextObservationPort>(
        &mut self,
        owner: &O,
        actions: &EpisodeLegalActionSet,
    ) -> (r: Result<(), ManagementError>)
        ensures
            final(self)@ == old(self)@.push(SessionCall::RecordActions),
    {
        let r = owner.record_legal_actions(actions);
        self.entries = Ghost(self.entries@.push(SessionCall::RecordActions));
        r
    }

    pub fn invalidate<O: LiveContextObservationPort>(&mut self, owner: &O)
        ensures
            final(self)@ == old(self)@.push(SessionCall::Invalidate),
    {
        owner.invalidate();
        self.entries = Ghost(self.entries@.push(SessionCall::Invalidate));
    }

    pub fn load_active_policy<P: LiveProviderPolicyPort>(&mut self, port: &P) -> (r: Result<
        PolicyBinding,
        ManagementError,
    >)
        ensures
            final(self)@ == old(self)@.push(SessionCall::PolicyLoad(policy_seen(r))),
    {
        let r = port.load_active_policy();
        self.entries = Ghost(self.entries@.push(SessionCall::PolicyLoad(policy_seen(r))));
        r
    }

    pub fn open_provider<D, F: LiveProviderSessionFactory<D>>(&mut self, factory: &F) -> (r: Result<
        D,
        ManagementError,
    >)
        ensures
            final(self)@ == old(self)@.push(SessionCall::ProviderOpen),
    {
        let r = factory.open_provider();
        self.entries = Ghost(self.entries@.push(SessionCall::ProviderOpen));
        r
    }

    /// Resolves a decision profile in the attached catalog; with no catalog the
    /// resolution fails as unavailable.
    pub fn resolve_decision_profile<C: LiveInferenceProfileCatalogPort>(
        &mut self,
        profiles: &Option<C>,
        decision_profile_ref: &str,
    ) -> (r: Result<InferenceProfileDescriptor, ManagementError>)
        ensures
            final(self)@ == old(self)@.push(SessionCall::ProfileResolve(profile_seen(r))),
            profiles is None ==> r is Err,
    {
        let r = match profiles {
            Some(catalog) => catalog.resolve_decision_profile(decision_profile_ref),
            None => Err(
                ManagementError::unavailable(
                    "inference_profile_binding_unavailable",
                    "live session has no inference-profile catalog",
                ),
            ),
        };
        self.entries = Ghost(self.entries@.push(SessionCall::ProfileResolve(profile_seen(r))));
        r
    }

    pub fn decide<D: DecisionSource>(&mut self, provider: &mut D, input: &DecisionInput) -> (r:
        Result<Decision, ProviderFailure>)
        ensures
            final(self)@ == old(self)@.push(SessionCall::ProviderDecide(None, decision_seen(r))),
    {
        let r = provider.decide(input);
        self.entries = Ghost(self.entries@.push(SessionCall::ProviderDecide(None, decision_seen(r))));
        r
    }

    pub fn decide_for<D: DecisionSource>(
        &mut self,
        provider: &mut D,
        input: &DecisionInput,
        decision_profile_ref: &str,
        context_ref: &str,
    ) -> (r: Result<Decision, ProviderFailure>)
        ensures
            final(self)@ == old(self)@.push(SessionCall::ProviderDecide(None, decision_seen(r))),
    {
        let r = provider.decide_for(input, decision_profile_ref, context_ref);
        self.entries = Ghost(self.entries@.push(SessionCall::ProviderDecide(None, decision_seen(r))));
        r
    }

    pub fn prepare_managed_context<D: DecisionSource>(
        &mut self,
        provider: &mut D,
        input: &DecisionInput,
        source: &ContextRenderSource,
    ) -> (r: Result<PreparedContext, ProviderFailure>)
        ensures
            final(self)@ == old(self)@.push(
                SessionCall::Prepare(
                    match r {
                        Ok(p) => Some(p.provider_bytes@),
                        Err(_) => None,
                    },
                ),
            ),
    {
        let r = provider.prepare_managed_context(input, source);
        let ghost assembled = match &r {
            Ok(p) => Some(p.provider_bytes@),
            Err(_) => None,
        };
        self.entries = Ghost(self.entries@.push(SessionCall::Prepare(assembled)));
        r
    }

    pub fn decide_prepared_for<D: DecisionSource>(
        &mut self,
        provider: &mut D,
        input: &DecisionInput,
        decision_profile_ref: &str,
        context_ref: &str,
        prepared: &PreparedContext,
    ) -> (r: Result<Decision, ProviderFailure>)
        ensures
            final(self)@ == old(self)@.push(
                SessionCall::ProviderDecide(Some(prepared.provider_bytes@), decision_seen(r)),
            ),
    {
        let r = provider.decide_prepared_for(input, decision_profile_ref, context_ref, prepared);
        self.entries = Ghost(
            self.entries@.push(
                SessionCall::ProviderDecide(Some(prepared.provider_bytes@), decision_seen(r)),
            ),
        );
        r
    }

    pub fn action_completed<D: DecisionSource>(&mut self, provider: &mut D, settled: bool)
        ensures
            final(self)@ == old(self)@.push(SessionCall::ActionCompleted),
    {
        provider.action_completed(settled);
        self.entries = Ghost(self.entries@.push(SessionCall::ActionCompleted));
    }

    /// Asks the render port whether decisions must be rendered; with no port
    /// nothing is asked and nothing need be.
    pub fn render_required<X: LiveContextRenderPort>(&mut self, render: &Option<X>) -> (r: bool)
        ensures
            render is Some ==> final(self)@ == old(self)@.push(SessionCall::RenderMode(r)),
            render is None ==> final(self)@ == old(self)@ && !r,
    {
        match render {
            Some(port) => {
                let r = port.render_required();
                self.entries = Ghost(self.entries@.push(SessionCall::RenderMode(r)));
                r
            },
            None => false,
        }
    }

    /// Reads the render source of a decision; with no render port it is
    /// unavailable.
    pub fn render_source_for_decision<X: LiveContextRenderPort>(
        &mut self,
        render: &Option<X>,
        input: &DecisionInput,
        context_ref: &str,
    ) -> (r: Result<ContextRenderSource, ManagementError>)
        ensures
            final(self)@ == old(self)@.push(
                SessionCall::RenderSource(
                    match r {
                        Ok(s) => Some(s.limits),
                        Err(_) => None,
                    },
                ),
            ),
    {
        let r = match render {
            Some(port) => port.render_source_for_decision(input, context_ref),
            None => Err(
                ManagementError::capability(
                    "selected_context_render_owner_unavailable",
                    "managed rendering requires the admitted observation and control owner",
                ),
            ),
        };
        let ghost read = match &r {
            Ok(s) => Some(s.limits),
            Err(_) => None,
        };
        self.entries = Ghost(self.entries@.push(SessionCall::RenderSource(read)));
        r
    }

    /// Checks a render source is still current; with no render port there is
    /// nothing to check against.
    pub fn assert_render_source_current<X: LiveContextRenderPort>(
        &mut self,
        render: &Option<X>,
        input: &DecisionInput,
        context_ref: &str,
        identity: &ContextRenderSourceIdentity,
    ) -> (r: Result<(), ManagementError>)
        ensures
            final(self)@ == old(self)@.push(SessionCall::RenderCheck(r is Ok)),
    {
        let r = match render {
            Some(port) => port.assert_render_source_current(input, context_ref, identity),
            None => Ok(()),
        };
        self.entries = Ghost(self.entries@.push(SessionCall::RenderCheck(r is Ok)));
        r
    }
}

} // verus!
