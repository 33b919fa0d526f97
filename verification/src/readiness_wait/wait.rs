//! A per-generation bounded readiness wait.
//!
//! A wait settles only from an observation that is bound to its instance and
//! epoch, labelled with its generation and reporting a milestone that reaches
//! the target. A foreign, stale or below-target observation cannot settle it,
//! and a restart invalidates prior readiness so fresh proof is required.

use vstd::prelude::*;
use crate::lifecycle_readiness::GameplayReadinessEvidence;
use super::milestone::milestone_reaches;
use super::target::{target_admission, target_is_valid};
use super::{ReadinessMilestone, ReadinessTarget, ReadinessWaitError};

verus! {

/// How an admitted observation moved the wait.
#[derive(Clone, Copy, Debug, PartialEq, Eq, Structural)]
pub enum ReadinessProgress {
    /// The observation reached the target milestone and settled the wait.
    Satisfied,
    /// The observation was fresh and correctly bound but still below the target.
    AwaitingMore,
}

/// The terminal outcome of a wait, for explicit workflow routing.
#[derive(Clone, Copy, Debug, PartialEq, Eq, Structural)]
pub enum ReadinessTerminal {
    Satisfied,
    Denied,
    Cancelled,
    Invalidated,
    TimedOut,
}

/// The abstract state of a wait.
pub struct ReadinessWaitView {
    pub instance_id: Seq<char>,
    pub authority_epoch: u64,
    pub generation: u64,
    pub target: ReadinessTarget,
    pub attempts: u32,
    pub terminal: Option<ReadinessTerminal>,
}

/// A bounded wait for one readiness milestone, bound to one process generation.
#[derive(Debug)]
pub struct ReadinessWait {
    instance_id: String,
    authority_epoch: u64,
    generation: u64,
    target: ReadinessTarget,
    attempts: u32,
    terminal: Option<ReadinessTerminal>,
}

/// What holds of every wait: its binding is complete, its target admitted, and
/// the observations it admitted never exceed its attempt budget.
pub open spec fn wait_is_well_formed(w: ReadinessWaitView) -> bool {
    &&& w.instance_id.len() > 0
    &&& w.authority_epoch != 0
    &&& w.generation != 0
    &&& target_is_valid(w.target)
    &&& w.attempts <= w.target.max_attempts
}

/// The verdict of `begin` on these arguments.
pub open spec fn begin_outcome(
    instance_id: Seq<char>,
    authority_epoch: u64,
    generation: u64,
    target: ReadinessTarget,
) -> Result<ReadinessWaitView, ReadinessWaitError> {
    if instance_id.len() == 0 || authority_epoch == 0 || generation == 0 {
        Err(ReadinessWaitError::InvalidBinding)
    } else {
        match target_admission(
            target.milestone,
            target.deadline_ms,
            target.max_attempts,
            target.contract_version,
        ) {
            Err(e) => Err(e),
            Ok(t) => Ok(
                ReadinessWaitView {
                    instance_id,
                    authority_epoch,
                    generation,
                    target: t,
                    attempts: 0,
                    terminal: None,
                },
            ),
        }
    }
}

/// The transition one observation makes: the next state and the reported result.
pub open spec fn observe_step(
    w: ReadinessWaitView,
    instance_id: Seq<char>,
    authority_epoch: u64,
    milestone: ReadinessMilestone,
    generation: u64,
    now_ms: u64,
) -> (ReadinessWaitView, Result<ReadinessProgress, ReadinessWaitError>) {
    if w.terminal is Some {
        (w, Err(ReadinessWaitError::Settled))
    } else if instance_id != w.instance_id || authority_epoch != w.authority_epoch {
        (w, Err(ReadinessWaitError::ForeignReadiness))
    } else if generation != w.generation {
        (w, Err(ReadinessWaitError::StaleReadiness))
    } else if now_ms > w.target.deadline_ms {
        (
            ReadinessWaitView { terminal: Some(ReadinessTerminal::TimedOut), ..w },
            Err(ReadinessWaitError::Timeout),
        )
    } else if w.attempts + 1 > w.target.max_attempts {
        (
            ReadinessWaitView { terminal: Some(ReadinessTerminal::TimedOut), ..w },
            Err(ReadinessWaitError::Timeout),
        )
    } else if milestone_reaches(milestone, w.target.milestone) {
        (
            ReadinessWaitView {
                attempts: (w.attempts + 1) as u32,
                terminal: Some(ReadinessTerminal::Satisfied),
                ..w
            },
            Ok(ReadinessProgress::Satisfied),
        )
    } else {
        (ReadinessWaitView { attempts: (w.attempts + 1) as u32, ..w }, Ok(ReadinessProgress::AwaitingMore))
    }
}

/// The transition an owner or workflow verdict (deny, cancel, restart) makes.
pub open spec fn settle_step(w: ReadinessWaitView, terminal: ReadinessTerminal) -> (
    ReadinessWaitView,
    Result<(), ReadinessWaitError>,
) {
    if w.terminal is Some {
        (w, Err(ReadinessWaitError::Settled))
    } else {
        (ReadinessWaitView { terminal: Some(terminal), ..w }, Ok(()))
    }
}

impl View for ReadinessWait {
    type V = ReadinessWaitView;

    closed spec fn view(&self) -> ReadinessWaitView {
        ReadinessWaitView {
            instance_id: self.instance_id@,
            authority_epoch: self.authority_epoch,
            generation: self.generation,
            target: self.target,
            attempts: self.attempts,
            terminal: self.terminal,
        }
    }
}

impl ReadinessWait {
    #[verifier::type_invariant]
    closed spec fn well_formed(&self) -> bool {
        wait_is_well_formed(self@)
    }

    /// Starts a bounded wait for the current instance, epoch and generation,
    /// refusing an incomplete binding or an invalid target before any
    /// observation is admitted.
    pub fn begin(
        instance_id: String,
        authority_epoch: u64,
        generation: u64,
        target: ReadinessTarget,
    ) -> (r: Result<Self, ReadinessWaitError>)
        ensures
            match begin_outcome(instance_id@, authority_epoch, generation, target) {
                Ok(v) => r matches Ok(w) && w@ == v,
                Err(e) => r == Err::<ReadinessWait, ReadinessWaitError>(e),
            },
    {
        if instance_id.as_str().unicode_len() == 0 || authority_epoch == 0 || generation == 0 {
            return Err(ReadinessWaitError::InvalidBinding);
        }
        let target = match target.validate() {
            Ok(t) => t,
            Err(e) => return Err(e),
        };
        Ok(ReadinessWait { instance_id, authority_epoch, generation, target, attempts: 0, terminal: None })
    }

    /// The admitted target.
    pub fn target(&self) -> (r: ReadinessTarget)
        ensures
            r == self@.target,
    {
        self.target
    }

    /// The process generation this wait is bound to.
    pub fn generation(&self) -> (r: u64)
        ensures
            r == self@.generation,
    {
        self.generation
    }

    /// The number of observations admitted so far.
    pub fn attempts(&self) -> (r: u32)
        ensures
            r == self@.attempts,
    {
        self.attempts
    }

    /// The terminal outcome, if the wait has settled.
    pub fn terminal(&self) -> (r: Option<ReadinessTerminal>)
        ensures
            r == self@.terminal,
    {
        self.terminal
    }

    /// Whether the wait has reached any terminal outcome.
    pub fn is_settled(&self) -> (r: bool)
        ensures
            r == self@.terminal is Some,
    {
        self.terminal.is_some()
    }

    /// Admits one owner-observed milestone at `now_ms` milliseconds since start.
    /// A foreign or stale observation is refused without consuming the attempt
    /// budget; exhausting the deadline or the budget times the wait out.
    pub fn observe<E: GameplayReadinessEvidence>(
        &mut self,
        evidence: &E,
        milestone: ReadinessMilestone,
        generation: u64,
        now_ms: u64,
    ) -> (r: Result<ReadinessProgress, ReadinessWaitError>)
        requires
            old(self)@.attempts < u32::MAX,
        ensures
            (final(self)@, r) == observe_step(
                old(self)@,
                evidence.evidence_instance(),
                evidence.evidence_epoch(),
                milestone,
                generation,
                now_ms,
            ),
    {
        proof {
            use_type_invariant(&*self);
        }
        if self.terminal.is_some() {
            return Err(ReadinessWaitError::Settled);
        }
        let instance = evidence.instance_id();
        if !(instance.to_owned() == self.instance_id) || evidence.authority_epoch()
            != self.authority_epoch {
            return Err(ReadinessWaitError::ForeignReadiness);
        }
        if generation != self.generation {
            return Err(ReadinessWaitError::StaleReadiness);
        }
        if now_ms > self.target.deadline_ms {
            self.terminal = Some(ReadinessTerminal::TimedOut);
            return Err(ReadinessWaitError::Timeout);
        }
        let attempts = self.attempts + 1;
        if attempts > self.target.max_attempts {
            self.terminal = Some(ReadinessTerminal::TimedOut);
            return Err(ReadinessWaitError::Timeout);
        }
        if milestone.reaches(self.target.milestone) {
            self.terminal = Some(ReadinessTerminal::Satisfied);
            self.attempts = attempts;
            Ok(ReadinessProgress::Satisfied)
        } else {
            self.attempts = attempts;
            Ok(ReadinessProgress::AwaitingMore)
        }
    }

    /// Records that the owning lifecycle surface denied readiness.
    pub fn deny(&mut self) -> (r: Result<(), ReadinessWaitError>)
        ensures
            (final(self)@, r) == settle_step(old(self)@, ReadinessTerminal::Denied),
    {
        self.settle(ReadinessTerminal::Denied)
    }

    /// Records that the workflow cancelled the wait.
    pub fn cancel(&mut self) -> (r: Result<(), ReadinessWaitError>)
        ensures
            (final(self)@, r) == settle_step(old(self)@, ReadinessTerminal::Cancelled),
    {
        self.settle(ReadinessTerminal::Cancelled)
    }

    /// Records that a restart invalidated prior readiness for this generation;
    /// a fresh wait bound to the new generation is then required.
    pub fn invalidate_for_restart(&mut self) -> (r: Result<(), ReadinessWaitError>)
        ensures
            (final(self)@, r) == settle_step(old(self)@, ReadinessTerminal::Invalidated),
    {
        self.settle(ReadinessTerminal::Invalidated)
    }

    fn settle(&mut self, terminal: ReadinessTerminal) -> (r: Result<(), ReadinessWaitError>)
        ensures
            (final(self)@, r) == settle_step(old(self)@, terminal),
    {
        proof {
            use_type_invariant(&*self);
        }
        if self.terminal.is_some() {
            return Err(ReadinessWaitError::Settled);
        }
        self.terminal = Some(terminal);
        Ok(())
    }
}

impl Clone for ReadinessWait {
    fn clone(&self) -> (r: Self)
        ensures
            r@ == self@,
    {
        proof {
            use_type_invariant(self);
        }
        ReadinessWait {
            instance_id: self.instance_id.clone(),
            authority_epoch: self.authority_epoch,
            generation: self.generation,
            target: self.target,
            attempts: self.attempts,
            terminal: self.terminal,
        }
    }
}

/// A settled wait is final: every later observation or verdict is refused as
/// `Settled` and leaves the wait unchanged.
pub proof fn lemma_settled_wait_is_final(
    w: ReadinessWaitView,
    instance_id: Seq<char>,
    authority_epoch: u64,
    milestone: ReadinessMilestone,
    generation: u64,
    now_ms: u64,
    terminal: ReadinessTerminal,
)
    requires
        w.terminal is Some,
    ensures
        observe_step(w, instance_id, authority_epoch, milestone, generation, now_ms) == (
            w,
            Err::<ReadinessProgress, ReadinessWaitError>(ReadinessWaitError::Settled),
        ),
        settle_step(w, terminal) == (w, Err::<(), ReadinessWaitError>(ReadinessWaitError::Settled)),
{
}

/// Evidence for another instance or epoch, or from a superseded generation,
/// never moves the wait: it settles nothing and consumes no attempt.
pub proof fn lemma_foreign_or_stale_evidence_changes_nothing(
    w: ReadinessWaitView,
    instance_id: Seq<char>,
    authority_epoch: u64,
    milestone: ReadinessMilestone,
    generation: u64,
    now_ms: u64,
)
    requires
        instance_id != w.instance_id || authority_epoch != w.authority_epoch || generation
            != w.generation,
    ensures
        observe_step(w, instance_id, authority_epoch, milestone, generation, now_ms).0 == w,
        observe_step(w, instance_id, authority_epoch, milestone, generation, now_ms).1 is Err,
{
}

/// A wait settles as satisfied only from a fresh, correctly bound observation
/// made within the deadline and budget whose milestone reaches the target.
pub proof fn lemma_satisfaction_requires_bound_fresh_proof(
    w: ReadinessWaitView,
    instance_id: Seq<char>,
    authority_epoch: u64,
    milestone: ReadinessMilestone,
    generation: u64,
    now_ms: u64,
)
    requires
        w.terminal != Some(ReadinessTerminal::Satisfied),
        observe_step(w, instance_id, authority_epoch, milestone, generation, now_ms).0.terminal
            == Some(ReadinessTerminal::Satisfied),
    ensures
        w.terminal is None,
        instance_id == w.instance_id,
        authority_epoch == w.authority_epoch,
        generation == w.generation,
        now_ms <= w.target.deadline_ms,
        w.attempts + 1 <= w.target.max_attempts,
        milestone_reaches(milestone, w.target.milestone),
        observe_step(w, instance_id, authority_epoch, milestone, generation, now_ms).1 == Ok::<
            ReadinessProgress,
            ReadinessWaitError,
        >(ReadinessProgress::Satisfied),
{
}

/// A bound, fresh observation made within the deadline and budget of an open
/// wait settles it as satisfied exactly when its milestone is the target or
/// comes later in the vocabulary, and otherwise counts one attempt and keeps
/// the wait open; either way it is counted once.
pub proof fn lemma_in_budget_observation_settles_by_milestone_order(
    w: ReadinessWaitView,
    milestone: ReadinessMilestone,
    now_ms: u64,
)
    requires
        w.terminal is None,
        now_ms <= w.target.deadline_ms,
        w.attempts + 1 <= w.target.max_attempts,
    ensures
        ({
            let (next, result) = observe_step(
                w,
                w.instance_id,
                w.authority_epoch,
                milestone,
                w.generation,
                now_ms,
            );
            &&& next.attempts == w.attempts + 1
            &&& result == Ok::<ReadinessProgress, ReadinessWaitError>(ReadinessProgress::Satisfied)
                <==> milestone_reaches(milestone, w.target.milestone)
            &&& !milestone_reaches(milestone, w.target.milestone) ==> result == Ok::<
                ReadinessProgress,
                ReadinessWaitError,
            >(ReadinessProgress::AwaitingMore) && next.terminal is None
            &&& milestone_reaches(milestone, w.target.milestone) ==> next.terminal == Some(
                ReadinessTerminal::Satisfied,
            )
        }),
{
}

/// Every step keeps a wait well formed, keeps its binding and target, and never
/// lowers its attempt count; the binding of a begun wait is the requested one.
pub proof fn lemma_steps_preserve_well_formedness(
    w: ReadinessWaitView,
    instance_id: Seq<char>,
    authority_epoch: u64,
    milestone: ReadinessMilestone,
    generation: u64,
    now_ms: u64,
    terminal: ReadinessTerminal,
)
    requires
        wait_is_well_formed(w),
        w.attempts < u32::MAX,
    ensures
        ({
            let next = observe_step(w, instance_id, authority_epoch, milestone, generation, now_ms).0;
            &&& wait_is_well_formed(next)
            &&& next.instance_id == w.instance_id && next.authority_epoch == w.authority_epoch
            &&& next.generation == w.generation && next.target == w.target
            &&& next.attempts >= w.attempts
        }),
        wait_is_well_formed(settle_step(w, terminal).0),
{
}

/// A begun wait is well formed, unsettled and has admitted no observation.
pub proof fn lemma_begin_is_well_formed(
    instance_id: Seq<char>,
    authority_epoch: u64,
    generation: u64,
    target: ReadinessTarget,
)
    ensures
        begin_outcome(instance_id, authority_epoch, generation, target) matches Ok(w) ==> (
        wait_is_well_formed(w) && w.attempts == 0 && w.terminal is None && w.target == target),
{
}

} // verus!
