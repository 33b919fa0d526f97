//! The bounded readiness-milestone vocabulary, ordered from "a process exists"
//! to "gameplay is actionable".

use vstd::prelude::*;

verus! {

/// An authoritative gameplay-readiness milestone.
#[derive(Clone, Copy, Debug, PartialEq, Eq, Structural)]
pub enum ReadinessMilestone {
    /// The game process was born for the current generation.
    Booted,
    /// The mod adapter authenticated and reported a compatible contract.
    AdapterCompatible,
    /// The requested instance holds its current lease.
    LeaseInstalled,
    /// Authored setup settled, so actions may be admitted.
    SetupAvailable,
    /// Gameplay state is actionable, not merely reachable over a port.
    Actionable,
}

/// The position of a milestone in the ordered vocabulary.
pub open spec fn milestone_rank(m: ReadinessMilestone) -> u8 {
    match m {
        ReadinessMilestone::Booted => 0,
        ReadinessMilestone::AdapterCompatible => 1,
        ReadinessMilestone::LeaseInstalled => 2,
        ReadinessMilestone::SetupAvailable => 3,
        ReadinessMilestone::Actionable => 4,
    }
}

/// Whether an observed milestone is strong enough to meet `target`.
pub open spec fn milestone_reaches(observed: ReadinessMilestone, target: ReadinessMilestone) -> bool {
    milestone_rank(observed) >= milestone_rank(target)
}

impl ReadinessMilestone {
    /// Returns the stable lowercase label of this milestone.
    pub fn label(self) -> (r: &'static str)
        ensures
            self == ReadinessMilestone::Booted ==> r@ == "booted"@,
            self == ReadinessMilestone::AdapterCompatible ==> r@ == "adapter_compatible"@,
            self == ReadinessMilestone::LeaseInstalled ==> r@ == "lease_installed"@,
            self == ReadinessMilestone::SetupAvailable ==> r@ == "setup_available"@,
            self == ReadinessMilestone::Actionable ==> r@ == "actionable"@,
    {
        match self {
            ReadinessMilestone::Booted => "booted",
            ReadinessMilestone::AdapterCompatible => "adapter_compatible",
            ReadinessMilestone::LeaseInstalled => "lease_installed",
            ReadinessMilestone::SetupAvailable => "setup_available",
            ReadinessMilestone::Actionable => "actionable",
        }
    }

    /// Returns this milestone's position in the ordered vocabulary.
    pub fn rank(self) -> (r: u8)
        ensures
            r == milestone_rank(self),
    {
        match self {
            ReadinessMilestone::Booted => 0,
            ReadinessMilestone::AdapterCompatible => 1,
            ReadinessMilestone::LeaseInstalled => 2,
            ReadinessMilestone::SetupAvailable => 3,
            ReadinessMilestone::Actionable => 4,
        }
    }

    /// Whether an observed milestone is strong enough to meet `target`.
    pub fn reaches(self, target: Self) -> (r: bool)
        ensures
            r == milestone_reaches(self, target),
    {
        self.rank() >= target.rank()
    }
}

/// The milestone order is total and faithful: distinct milestones have distinct
/// ranks, every milestone reaches itself, and reaching is transitive.
pub proof fn lemma_milestone_order(a: ReadinessMilestone, b: ReadinessMilestone, c: ReadinessMilestone)
    ensures
        milestone_rank(a) == milestone_rank(b) <==> a == b,
        milestone_reaches(a, a),
        milestone_reaches(a, b) && milestone_reaches(b, c) ==> milestone_reaches(a, c),
        milestone_reaches(a, b) || milestone_reaches(b, a),
        milestone_reaches(a, ReadinessMilestone::Booted),
        milestone_reaches(ReadinessMilestone::Actionable, a),
{
}

/// The milestones are ordered as the vocabulary declares them: booted, then
/// adapter compatible, then lease installed, then setup available, then
/// actionable. Each milestone reaches the one declared before it and not the
/// one declared after it, so an observation later in the vocabulary meets every
/// earlier target and never the other way round; a milestone's rank is its
/// position in the vocabulary, counted from zero.
pub proof fn lemma_milestones_follow_the_vocabulary()
    ensures
        milestone_reaches(ReadinessMilestone::AdapterCompatible, ReadinessMilestone::Booted),
        !milestone_reaches(ReadinessMilestone::Booted, ReadinessMilestone::AdapterCompatible),
        milestone_reaches(ReadinessMilestone::LeaseInstalled, ReadinessMilestone::AdapterCompatible),
        !milestone_reaches(ReadinessMilestone::AdapterCompatible, ReadinessMilestone::LeaseInstalled),
        milestone_reaches(ReadinessMilestone::SetupAvailable, ReadinessMilestone::LeaseInstalled),
        !milestone_reaches(ReadinessMilestone::LeaseInstalled, ReadinessMilestone::SetupAvailable),
        milestone_reaches(ReadinessMilestone::Actionable, ReadinessMilestone::SetupAvailable),
        !milestone_reaches(ReadinessMilestone::SetupAvailable, ReadinessMilestone::Actionable),
        milestone_rank(ReadinessMilestone::Booted) == 0,
        milestone_rank(ReadinessMilestone::AdapterCompatible) == 1,
        milestone_rank(ReadinessMilestone::LeaseInstalled) == 2,
        milestone_rank(ReadinessMilestone::SetupAvailable) == 3,
        milestone_rank(ReadinessMilestone::Actionable) == 4,
{
}

} // verus!
