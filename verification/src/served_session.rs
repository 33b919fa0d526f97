//! Admission and dispatch fences of one served live session: the runtime
//! authority a run is opened under, the active provider-policy identity an
//! inference result is validated against, the coherence of the attached
//! context owners, and the inference-profile revision a decision is bound to.

use vstd::prelude::*;
use vstd::utf8::encode_utf8;
use crate::error::{ErrorClass, ManagementError, Refusal, refusal, text_is};
use crate::inference_profile::InferenceProfileDescriptor;

verus! {

/// Provenance captured from runtime configuration and admitted provider policy.
#[derive(Clone, Debug, PartialEq, Eq)]
pub struct RuntimeAuthorityBinding {
    pub instance_id: String,
    pub session_id: String,
    pub lease_id: String,
    pub lease_epoch: u64,
    pub run_id: String,
    pub episode_id: String,
    pub trajectory_id: String,
    pub trace_id: String,
    pub artifact_id: String,
    pub agent_id: String,
    pub adapter_revision: String,
    pub model_revision: String,
    pub configuration_digest: String,
    pub output_schema_digest: String,
}

/// Whether a runtime authority is bound to the admitted run: the instance and
/// workflow run match, every identity is present, the lease epoch is live, and
/// both digests have the 64-character length.
pub open spec fn authority_in_scope(
    b: RuntimeAuthorityBinding,
    instance_id: Seq<char>,
    workflow_run_id: Seq<char>,
) -> bool {
    &&& b.instance_id@ == instance_id
    &&& b.run_id@ == workflow_run_id
    &&& b.session_id@.len() > 0
    &&& b.lease_id@.len() > 0
    &&& b.lease_epoch != 0
    &&& b.episode_id@.len() > 0
    &&& b.trajectory_id@.len() > 0
    &&& b.trace_id@.len() > 0
    &&& b.artifact_id@.len() > 0
    &&& b.agent_id@.len() > 0
    &&& b.adapter_revision@.len() > 0
    &&& b.model_revision@.len() > 0
    &&& encode_utf8(b.configuration_digest@).len() == 64
    &&& encode_utf8(b.output_schema_digest@).len() == 64
}

fn present(s: &String) -> (r: bool)
    ensures
        r == (s@.len() > 0),
{
    s.as_str().unicode_len() > 0
}

/// Admits the runtime authority one served run is opened under, for the run's
/// instance and its workflow run identity; see [`authority_in_scope`].
pub fn validate_runtime_authority_binding(
    instance_id: &str,
    workflow_run_id: &str,
    binding: &RuntimeAuthorityBinding,
) -> (r: Result<(), ManagementError>)
    ensures
        r is Ok <==> authority_in_scope(*binding, instance_id@, workflow_run_id@),
        r matches Err(e) ==> e.refusal() == refusal(
            ErrorClass::Conflict,
            "runtime_authority_scope_mismatch",
        ),
{
    if !text_is(&binding.instance_id, instance_id) || !text_is(&binding.run_id, workflow_run_id)
        || !present(&binding.session_id) || !present(&binding.lease_id) || binding.lease_epoch == 0
        || !present(&binding.episode_id) || !present(&binding.trajectory_id) || !present(
        &binding.trace_id,
    ) || !present(&binding.artifact_id) || !present(&binding.agent_id) || !present(
        &binding.adapter_revision,
    ) || !present(&binding.model_revision) || binding.configuration_digest.as_str().as_bytes().len()
        != 64 || binding.output_schema_digest.as_str().as_bytes().len() != 64 {
        return Err(
            ManagementError::conflict(
                "runtime_authority_scope_mismatch",
                "runtime authority is not bound to the admitted workflow run",
            ),
        );
    }
    Ok(())
}

/// The gateway lease the runtime holds after launch allocated it.
#[derive(Clone, Debug, PartialEq, Eq)]
pub struct RuntimeLeaseBinding {
    pub instance_id: String,
    pub session_id: String,
    pub run_id: String,
    pub lease_id: String,
    pub lease_epoch: u64,
}

/// Whether a post-launch lease belongs to the admitted runtime scope: the same
/// instance, runtime session and run, with a named lease at a live epoch.
pub open spec fn lease_in_scope(lease: RuntimeLeaseBinding, b: RuntimeAuthorityBinding) -> bool {
    &&& lease.instance_id@ == b.instance_id@
    &&& lease.session_id@ == b.session_id@
    &&& lease.run_id@ == b.run_id@
    &&& lease.lease_id@.len() > 0
    &&& lease.lease_epoch != 0
}

/// Adopts the lease the runtime reports after launch into the admitted runtime
/// authority and admits the result again. `current` is what the runtime
/// reported: the lease, or the message of the port failure that kept it from
/// reading one. A lease outside the admitted scope leaves the authority as it
/// was.
pub fn refresh_authority_lease_binding(
    binding: &mut RuntimeAuthorityBinding,
    instance_id: &str,
    workflow_run_id: &str,
    current: Result<RuntimeLeaseBinding, String>,
) -> (r: Result<(), ManagementError>)
    ensures
        match current {
            Err(message) => *final(binding) == *old(binding) && (r matches Err(e) && e.refusal()
                == refusal(ErrorClass::Unavailable, "runtime_lease_binding_unavailable")
                && e.message@ == message@),
            Ok(lease) => if lease_in_scope(lease, *old(binding)) {
                *final(binding) == (RuntimeAuthorityBinding {
                    lease_id: lease.lease_id,
                    lease_epoch: lease.lease_epoch,
                    ..*old(binding)
                }) && (r is Ok <==> authority_in_scope(
                    *final(binding),
                    instance_id@,
                    workflow_run_id@,
                )) && (r matches Err(e) ==> e.refusal() == refusal(
                    ErrorClass::Conflict,
                    "runtime_authority_scope_mismatch",
                ))
            } else {
                *final(binding) == *old(binding) && (r matches Err(e) && e.refusal() == refusal(
                    ErrorClass::Conflict,
                    "runtime_lease_binding_mismatch",
                ))
            },
        },
{
    let lease = match current {
        Err(message) => {
            return Err(
                ManagementError::unavailable("runtime_lease_binding_unavailable", message.as_str()),
            );
        },
        Ok(lease) => lease,
    };
    if !(lease.instance_id == binding.instance_id) || !(lease.session_id == binding.session_id)
        || !(lease.run_id == binding.run_id) || lease.lease_id.as_str().unicode_len() == 0
        || lease.lease_epoch == 0 {
        return Err(
            ManagementError::conflict(
                "runtime_lease_binding_mismatch",
                "post-launch gateway lease does not match the admitted runtime scope",
            ),
        );
    }
    binding.lease_id = lease.lease_id;
    binding.lease_epoch = lease.lease_epoch;
    validate_runtime_authority_binding(instance_id, workflow_run_id, binding)
}

/// The identity of an adopted provider policy: its digest and its adoption
/// generation.
#[derive(Clone, Debug, PartialEq, Eq)]
pub struct PolicyBinding {
    pub policy_sha256: String,
    pub adoption_generation: u64,
}

/// The refusal of a session whose active policy changed while a result was in
/// flight.
pub open spec fn policy_changed() -> Refusal {
    refusal(ErrorClass::Conflict, "provider_session_policy_changed")
}

/// The refusal of a session with no retained active-policy identity.
pub open spec fn policy_binding_missing() -> Refusal {
    refusal(ErrorClass::Unavailable, "provider_session_policy_unavailable")
}

fn policy_changed_error() -> (e: ManagementError)
    ensures
        e.refusal() == policy_changed(),
{
    ManagementError::conflict(
        "provider_session_policy_changed",
        "active provider policy changed; inference results are discarded and a fresh live session is required",
    )
}

fn missing_binding_error() -> (e: ManagementError)
    ensures
        e.refusal() == policy_binding_missing(),
{
    ManagementError::unavailable(
        "provider_session_policy_unavailable",
        "live session has no retained active-policy identity",
    )
}

/// The active provider-policy fence of one live session: the policy identity
/// inference results are validated against, and whether an in-flight change
/// already fenced the session.
#[derive(Debug)]
pub struct PolicyFence {
    fenced: bool,
    active: Option<PolicyBinding>,
}

impl PolicyFence {
    /// Whether an in-flight change fenced the session. No method clears it:
    /// only a fresh session starts unfenced.
    pub closed spec fn fenced(&self) -> bool {
        self.fenced
    }

    /// The policy identity inference results are validated against.
    pub closed spec fn active(&self) -> Option<PolicyBinding> {
        self.active
    }

    /// Whether an in-flight change fenced the session.
    pub fn is_fenced(&self) -> (r: bool)
        ensures
            r == self.fenced(),
    {
        self.fenced
    }

    /// The policy identity inference results are validated against.
    pub fn active_binding(&self) -> (r: &Option<PolicyBinding>)
        ensures
            *r == self.active(),
    {
        &self.active
    }

    /// Binds the policy identity the launch observed; the fence is kept.
    pub fn bind_launched(&mut self, active: PolicyBinding)
        ensures
            final(self).active() == Some(active),
            final(self).fenced() == old(self).fenced(),
    {
        self.active = Some(active);
    }

    /// A fence over the policy identity the session was launched under.
    pub fn new(active: Option<PolicyBinding>) -> (r: Self)
        ensures
            !r.fenced(),
            r.active() == active,
    {
        PolicyFence { fenced: false, active }
    }

    /// Refuses a request before the active policy is even loaded: a fenced
    /// session, or one with no retained policy identity.
    pub fn check_admission(&self) -> (r: Result<(), ManagementError>)
        ensures
            self.fenced() ==> (r matches Err(e) && e.refusal() == policy_changed()),
            !self.fenced() && self.active() is None ==> (r matches Err(e) && e.refusal()
                == policy_binding_missing()),
            r is Ok <==> (!self.fenced() && self.active() is Some),
    {
        if self.fenced {
            return Err(policy_changed_error());
        }
        if self.active.is_none() {
            return Err(missing_binding_error());
        }
        Ok(())
    }

    /// Admits one inference request against the policy currently loaded. A
    /// policy adopted since launch is picked up, since no result exists yet
    /// under the previous one; a fenced session stays refused.
    pub fn admit_request(&mut self, loaded: Result<PolicyBinding, ManagementError>) -> (r: Result<
        (),
        ManagementError,
    >)
        ensures
            final(self).fenced() == old(self).fenced(),
            old(self).fenced() ==> (r matches Err(e) && e.refusal() == policy_changed())
                && final(self).active() == old(self).active(),
            !old(self).fenced() && old(self).active() is None ==> (r matches Err(e) && e.refusal()
                == policy_binding_missing()) && final(self).active() == old(self).active(),
            !old(self).fenced() && old(self).active() is Some ==> match loaded {
                Ok(b) => r is Ok && final(self).active() == Some(b),
                Err(e) => r == Err::<(), ManagementError>(e) && final(self).active() == old(
                    self,
                ).active(),
            },
    {
        if self.fenced {
            return Err(policy_changed_error());
        }
        if self.active.is_none() {
            return Err(missing_binding_error());
        }
        match loaded {
            Ok(binding) => {
                self.active = Some(binding);
                Ok(())
            },
            Err(e) => Err(e),
        }
    }

    /// Checks the active policy again before an inference result is consumed.
    /// A policy that changed in flight discards the result and fences the
    /// session until a fresh one is opened.
    pub fn assert_current(&mut self, loaded: Result<PolicyBinding, ManagementError>) -> (r:
        Result<(), ManagementError>)
        ensures
            final(self).active() == old(self).active(),
            old(self).fenced() ==> final(self).fenced(),
            old(self).active() is None ==> (r matches Err(e) && e.refusal()
                == policy_binding_missing()) && final(self).fenced() == old(self).fenced(),
            old(self).active() matches Some(a) ==> match loaded {
                Ok(b) => if b.policy_sha256@ == a.policy_sha256@ && b.adoption_generation
                    == a.adoption_generation {
                    r is Ok && final(self).fenced() == old(self).fenced()
                } else {
                    (r matches Err(e) && e.refusal() == policy_changed()) && final(self).fenced()
                },
                Err(e) => r == Err::<(), ManagementError>(e) && final(self).fenced() == old(
                    self,
                ).fenced(),
            },
    {
        let (expected_sha256, expected_generation) = match &self.active {
            None => return Err(missing_binding_error()),
            Some(a) => (a.policy_sha256.clone(), a.adoption_generation),
        };
        let current = match loaded {
            Err(e) => return Err(e),
            Ok(b) => b,
        };
        if !(current.policy_sha256 == expected_sha256) || current.adoption_generation
            != expected_generation {
            self.fenced = true;
            return Err(policy_changed_error());
        }
        Ok(())
    }
}

/// Confirms a served composition attaches a coherent observation, render and
/// control set: an enforcing owner needs the admitted control limits,
/// admitted limits need the owner that enforces them, and managed rendering
/// needs both.
pub fn validate_served_owner_composition(observed: bool, render_required: bool, admitted: bool) -> (r:
    Result<(), ManagementError>)
    ensures
        observed && !admitted ==> (r matches Err(e) && e.refusal() == refusal(
            ErrorClass::Capability,
            "selected_context_control_limits_required",
        )),
        !observed && admitted ==> (r matches Err(e) && e.refusal() == refusal(
            ErrorClass::Capability,
            "selected_context_control_owner_unavailable",
        )),
        observed == admitted && render_required && !observed ==> (r matches Err(e) && e.refusal()
            == refusal(ErrorClass::Capability, "selected_context_render_owner_unavailable")),
        r is Ok <==> (observed == admitted && (render_required ==> observed)),
{
    if observed && !admitted {
        return Err(
            ManagementError::capability(
                "selected_context_control_limits_required",
                "served context observations require the admitted control limits",
            ),
        );
    }
    if admitted && !observed {
        return Err(
            ManagementError::capability(
                "selected_context_control_owner_unavailable",
                "admitted context control limits have no attached enforcing owner",
            ),
        );
    }
    if render_required && !(observed && admitted) {
        return Err(
            ManagementError::capability(
                "selected_context_render_owner_unavailable",
                "managed rendering requires the admitted observation and control owner",
            ),
        );
    }
    Ok(())
}

/// One inference-profile binding admitted for a run.
#[derive(Clone, Debug, PartialEq, Eq)]
pub struct AdmittedProfileBinding {
    pub node_kind: String,
    pub profile_ref: String,
    pub version: String,
    pub digest: String,
}

/// Whether a binding is the admitted decision binding of a profile reference.
pub open spec fn binds_decision(b: AdmittedProfileBinding, profile_ref: Seq<char>) -> bool {
    b.node_kind@ == "decide"@ && b.profile_ref@ == profile_ref
}

/// The first admitted decision binding of a profile reference, if any.
pub open spec fn decision_binding(bindings: Seq<AdmittedProfileBinding>, profile_ref: Seq<char>) -> Option<
    AdmittedProfileBinding,
>
    decreases bindings.len(),
{
    if bindings.len() == 0 {
        None
    } else if binds_decision(bindings[0], profile_ref) {
        Some(bindings[0])
    } else {
        decision_binding(bindings.drop_first(), profile_ref)
    }
}

/// The admitted decision binding a reference must still resolve to: refused
/// when the run has no admitted bindings, or none for this reference.
pub fn admitted_decision_binding<'a>(
    admitted: Option<&'a Vec<AdmittedProfileBinding>>,
    decision_profile_ref: &str,
) -> (r: Result<&'a AdmittedProfileBinding, ManagementError>)
    ensures
        match admitted {
            None => r matches Err(e) && e.refusal() == refusal(
                ErrorClass::Unavailable,
                "inference_profile_binding_unavailable",
            ),
            Some(bindings) => match decision_binding(bindings@, decision_profile_ref@) {
                None => r matches Err(e) && e.refusal() == refusal(
                    ErrorClass::Conflict,
                    "inference_profile_binding_unknown",
                ),
                Some(b) => r matches Ok(x) && *x == b,
            },
        },
{
    let bindings = match admitted {
        None => return Err(
            ManagementError::unavailable(
                "inference_profile_binding_unavailable",
                "live session has no admitted inference-profile bindings",
            ),
        ),
        Some(b) => b,
    };
    let ghost s = bindings@;
    let mut i: usize = 0;
    assert(s.skip(0) =~= s);
    while i < bindings.len()
        invariant
            i <= bindings.len(),
            s == bindings@,
            admitted == Some(bindings),
            decision_binding(s, decision_profile_ref@) == decision_binding(
                s.skip(i as int),
                decision_profile_ref@,
            ),
        decreases bindings.len() - i,
    {
        assert(s.skip(i as int).drop_first() =~= s.skip(i + 1));
        assert(s.skip(i as int)[0] == s[i as int]);
        if text_is(&bindings[i].node_kind, "decide") && text_is(
            &bindings[i].profile_ref,
            decision_profile_ref,
        ) {
            return Ok(&bindings[i]);
        }
        i = i + 1;
    }
    assert(s.skip(i as int).len() == 0);
    Err(
        ManagementError::conflict(
            "inference_profile_binding_unknown",
            "the decision profile was not admitted for this run",
        ),
    )
}

/// Re-checks, immediately before a provider request, that the authored
/// decision reference still resolves to the revision admitted for the run.
/// With no catalog attached there is nothing to check. `resolved` is what the
/// attached catalog, once validated, resolved the reference to.
pub fn admit_inference_profile_binding(
    catalog_attached: bool,
    admitted: Option<&Vec<AdmittedProfileBinding>>,
    decision_profile_ref: &str,
    resolved: Result<InferenceProfileDescriptor, ManagementError>,
) -> (r: Result<(), ManagementError>)
    ensures
        !catalog_attached ==> r is Ok,
        catalog_attached ==> match admitted {
            None => r matches Err(e) && e.refusal() == refusal(
                ErrorClass::Unavailable,
                "inference_profile_binding_unavailable",
            ),
            Some(bindings) => match decision_binding(bindings@, decision_profile_ref@) {
                None => r matches Err(e) && e.refusal() == refusal(
                    ErrorClass::Conflict,
                    "inference_profile_binding_unknown",
                ),
                Some(b) => checks_resolved(b, resolved, r),
            },
        },
{
    if !catalog_attached {
        return Ok(());
    }
    let binding = admitted_decision_binding(admitted, decision_profile_ref)?;
    check_resolved(binding, resolved)
}

/// Whether `r` is what comparing a resolved revision with an admitted
/// binding yields: the resolution's own failure, success when version and
/// digest are the admitted ones, and otherwise a changed-binding conflict.
pub open spec fn checks_resolved(
    binding: AdmittedProfileBinding,
    resolved: Result<InferenceProfileDescriptor, ManagementError>,
    r: Result<(), ManagementError>,
) -> bool {
    match resolved {
        Err(e) => r == Err::<(), ManagementError>(e),
        Ok(d) => if d.version@ == binding.version@ && d.digest@ == binding.digest@ {
            r is Ok
        } else {
            r matches Err(e) && e.refusal() == refusal(
                ErrorClass::Conflict,
                "inference_profile_binding_changed",
            )
        },
    }
}

/// Compares the revision a reference resolves to with the admitted binding.
pub fn check_resolved(
    binding: &AdmittedProfileBinding,
    resolved: Result<InferenceProfileDescriptor, ManagementError>,
) -> (r: Result<(), ManagementError>)
    ensures
        checks_resolved(*binding, resolved, r),
{
    let descriptor = match resolved {
        Err(e) => return Err(e),
        Ok(d) => d,
    };
    if !(descriptor.version == binding.version) || !(descriptor.digest == binding.digest) {
        return Err(
            ManagementError::conflict(
                "inference_profile_binding_changed",
                "the inference profile revision changed after admission; the admitted run keeps its bound revision and is not re-bound",
            ),
        );
    }
    Ok(())
}

} // verus!
