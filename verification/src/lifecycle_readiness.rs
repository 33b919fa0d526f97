//! Structural separation between a launch acknowledgement and gameplay readiness.
//!
//! [`LaunchAcknowledgement`] deliberately does not implement
//! [`GameplayReadinessEvidence`], so it cannot be passed where readiness
//! evidence is required, and there is no conversion between the two.

use vstd::prelude::*;
use crate::identity::{is_digest, is_lower_hex_digest};
use crate::readiness_seal::Sealed;

verus! {

/// Evidence that a process was launched, as reported by the lifecycle surface.
/// It is *not* readiness evidence.
#[derive(Clone, Debug)]
pub struct LaunchAcknowledgement {
    pub operation_id: u64,
    pub instance_id: String,
    pub authority_epoch: u64,
    /// True only when the gateway reported the operation as started.
    pub started: bool,
}

/// Evidence a readiness owner vouches for. Sealed: only readiness types of this
/// crate implement it.
pub trait GameplayReadinessEvidence: Sealed {
    /// The instance the evidence was observed for.
    spec fn evidence_instance(&self) -> Seq<char>;

    /// The authority epoch the observation was made under.
    spec fn evidence_epoch(&self) -> u64;

    /// The instance the evidence was observed for.
    fn instance_id(&self) -> (r: &str)
        ensures
            r@ == self.evidence_instance(),
    ;

    /// The authority epoch the observation was made under.
    fn authority_epoch(&self) -> (r: u64)
        ensures
            r == self.evidence_epoch(),
    ;

    /// The identity of the observation.
    spec fn evidence_observation(&self) -> Seq<char>;

    /// The identity of the observation.
    fn evidence_id(&self) -> (r: &str)
        ensures
            r@ == self.evidence_observation(),
    ;
}

/// Readiness observed by an owner that actually inspected gameplay state.
#[derive(Clone, Debug, PartialEq, Eq)]
pub struct ReadinessObservation {
    instance_id: String,
    authority_epoch: u64,
    observation_id: String,
    observation_digest: String,
}

/// Refusals a readiness predicate can report.
#[derive(Clone, Copy, Debug, PartialEq, Eq, Structural)]
pub enum ReadinessError {
    /// The observation identity or digest was missing or malformed, or the
    /// evidence was bound to another instance or epoch.
    InvalidObservation,
}

impl ReadinessError {
    /// The stable human-readable description of this refusal.
    pub fn message(self) -> (r: &'static str)
        ensures
            r@ == "readiness observation is incomplete or malformed"@,
    {
        match self {
            ReadinessError::InvalidObservation => "readiness observation is incomplete or malformed",
        }
    }
}

/// Whether these fields make a well-formed readiness observation.
pub open spec fn observation_is_well_formed(
    instance_id: Seq<char>,
    authority_epoch: u64,
    observation_id: Seq<char>,
    observation_digest: Seq<char>,
) -> bool {
    instance_id.len() > 0 && observation_id.len() > 0 && authority_epoch != 0
        && is_lower_hex_digest(observation_digest)
}

impl ReadinessObservation {
    pub closed spec fn spec_instance_id(&self) -> Seq<char> {
        self.instance_id@
    }

    pub closed spec fn spec_authority_epoch(&self) -> u64 {
        self.authority_epoch
    }

    pub closed spec fn spec_observation_id(&self) -> Seq<char> {
        self.observation_id@
    }

    pub closed spec fn spec_observation_digest(&self) -> Seq<char> {
        self.observation_digest@
    }

    /// Records a readiness observation the owner actually made. The instance,
    /// the observation identity and a lowercase SHA-256 digest of the evidence
    /// are mandatory, and the epoch must be non-zero.
    pub fn new(
        instance_id: String,
        authority_epoch: u64,
        observation_id: String,
        observation_digest: String,
    ) -> (r: Result<Self, ReadinessError>)
        ensures
            r is Ok <==> observation_is_well_formed(
                instance_id@,
                authority_epoch,
                observation_id@,
                observation_digest@,
            ),
            r matches Ok(o) ==> o.spec_instance_id() == instance_id@ && o.spec_authority_epoch()
                == authority_epoch && o.spec_observation_id() == observation_id@
                && o.spec_observation_digest() == observation_digest@,
            r matches Err(e) ==> e == ReadinessError::InvalidObservation,
    {
        if instance_id.as_str().unicode_len() == 0 || observation_id.as_str().unicode_len() == 0
            || authority_epoch == 0 || !is_digest(observation_digest.as_str()) {
            return Err(ReadinessError::InvalidObservation);
        }
        Ok(ReadinessObservation { instance_id, authority_epoch, observation_id, observation_digest })
    }

    /// The observation identity the owner read.
    pub fn observation_id(&self) -> (r: &str)
        ensures
            r@ == self.spec_observation_id(),
    {
        self.observation_id.as_str()
    }

    /// Digest of the gameplay evidence the owner read.
    pub fn observation_digest(&self) -> (r: &str)
        ensures
            r@ == self.spec_observation_digest(),
    {
        self.observation_digest.as_str()
    }
}

impl Sealed for ReadinessObservation {
}

impl GameplayReadinessEvidence for ReadinessObservation {
    open spec fn evidence_instance(&self) -> Seq<char> {
        self.spec_instance_id()
    }

    open spec fn evidence_epoch(&self) -> u64 {
        self.spec_authority_epoch()
    }

    fn instance_id(&self) -> (r: &str) {
        self.instance_id.as_str()
    }

    fn authority_epoch(&self) -> (r: u64) {
        self.authority_epoch
    }

    open spec fn evidence_observation(&self) -> Seq<char> {
        self.spec_observation_id()
    }

    fn evidence_id(&self) -> (r: &str) {
        self.observation_id.as_str()
    }
}

/// A gameplay readiness predicate that only separate authoritative evidence,
/// bound to the same instance and authority epoch, can satisfy.
#[derive(Clone, Debug)]
pub struct LifecycleReadiness {
    instance_id: String,
    authority_epoch: u64,
    satisfied_by: Option<String>,
}

impl LifecycleReadiness {
    pub closed spec fn spec_instance_id(&self) -> Seq<char> {
        self.instance_id@
    }

    pub closed spec fn spec_authority_epoch(&self) -> u64 {
        self.authority_epoch
    }

    /// The identity of the observation that satisfied the predicate, if any.
    pub closed spec fn spec_satisfied_by(&self) -> Option<Seq<char>> {
        match self.satisfied_by {
            Some(s) => Some(s@),
            None => None,
        }
    }

    /// A predicate that is not yet satisfied for one instance and epoch.
    pub fn pending(instance_id: String, authority_epoch: u64) -> (r: Self)
        ensures
            r.spec_instance_id() == instance_id@,
            r.spec_authority_epoch() == authority_epoch,
            r.spec_satisfied_by() is None,
    {
        LifecycleReadiness { instance_id, authority_epoch, satisfied_by: None }
    }

    /// Whether readiness has been established.
    pub fn is_satisfied(&self) -> (r: bool)
        ensures
            r == self.spec_satisfied_by() is Some,
    {
        self.satisfied_by.is_some()
    }

    /// The identity of the observation that satisfied the predicate, if any.
    pub fn satisfied_by(&self) -> (r: Option<&str>)
        ensures
            r is Some == self.spec_satisfied_by() is Some,
            r matches Some(s) ==> Some(s@) == self.spec_satisfied_by(),
    {
        match &self.satisfied_by {
            Some(s) => Some(s.as_str()),
            None => None,
        }
    }

    /// Satisfies the predicate from separate authoritative readiness evidence.
    /// Fails closed, and leaves the predicate unchanged, when the evidence is
    /// for another instance or a superseded authority epoch.
    pub fn satisfy<E: GameplayReadinessEvidence>(&mut self, evidence: &E) -> (r: Result<
        (),
        ReadinessError,
    >)
        ensures
            r is Ok <==> (evidence.evidence_instance() == old(self).spec_instance_id()
                && evidence.evidence_epoch() == old(self).spec_authority_epoch()),
            r is Ok ==> final(self).spec_satisfied_by() == Some(evidence.evidence_observation()),
            r is Err ==> *final(self) == *old(self),
            r matches Err(e) ==> e == ReadinessError::InvalidObservation,
            final(self).spec_instance_id() == old(self).spec_instance_id(),
            final(self).spec_authority_epoch() == old(self).spec_authority_epoch(),
    {
        let instance = evidence.instance_id();
        let epoch = evidence.authority_epoch();
        if !(instance.to_owned() == self.instance_id) || epoch != self.authority_epoch {
            return Err(ReadinessError::InvalidObservation);
        }
        self.satisfied_by = Some(evidence.evidence_id().to_owned());
        Ok(())
    }
}

} // verus!
