//! In-memory and unavailable inference-profile revision journals. The memory
//! journal is the deterministic implementation of the compare-and-swap contract;
//! the unavailable one refuses every read and write.

use vstd::prelude::*;
use crate::error::StoreError;
use crate::identity::{is_identifier, validate_identifier};
use crate::inference_profile::{DescriptorView, InferenceProfileDescriptor};
use crate::inference_profile_revision::{
    AppendOutcomeView, InferenceProfileRevisionJournal, RevisionAppendOutcome, baseline_refusal,
    request_error, unavailable_error, unknown, validate_baseline,
};

verus! {

/// One applied client mutation.
#[derive(Debug)]
pub struct MutationRecord {
    pub profile_id: String,
    pub mutation_id: String,
    pub digest: String,
    pub revision: InferenceProfileDescriptor,
}

/// The abstract content of one applied client mutation.
pub struct MutationView {
    pub profile_id: Seq<char>,
    pub mutation_id: Seq<char>,
    pub digest: Seq<char>,
    pub revision: DescriptorView,
}

impl View for MutationRecord {
    type V = MutationView;

    open spec fn view(&self) -> MutationView {
        MutationView {
            profile_id: self.profile_id@,
            mutation_id: self.mutation_id@,
            digest: self.digest@,
            revision: self.revision@,
        }
    }
}

/// The abstract content of a journal: every accepted revision of every
/// profile in acceptance order, and every applied client mutation.
pub struct JournalView {
    pub revisions: Seq<DescriptorView>,
    pub mutations: Seq<MutationView>,
}

/// In-memory journal for deterministic component tests.
#[derive(Debug)]
pub struct MemoryInferenceProfileRevisionJournal {
    revisions: Vec<InferenceProfileDescriptor>,
    mutations: Vec<MutationRecord>,
}

pub open spec fn descriptor_views(v: Seq<InferenceProfileDescriptor>) -> Seq<DescriptorView> {
    v.map_values(|d: InferenceProfileDescriptor| d@)
}

impl View for MemoryInferenceProfileRevisionJournal {
    type V = JournalView;

    closed spec fn view(&self) -> JournalView {
        JournalView {
            revisions: descriptor_views(self.revisions@),
            mutations: self.mutations@.map_values(|m: MutationRecord| m@),
        }
    }
}

/// The accepted revisions of one profile, oldest first.
pub open spec fn history_of(revisions: Seq<DescriptorView>, profile_id: Seq<char>) -> Seq<DescriptorView> {
    revisions.filter(|d: DescriptorView| d.profile_id == profile_id)
}

/// The first revision carrying `digest`, if any.
pub open spec fn first_with_digest(revisions: Seq<DescriptorView>, digest: Seq<char>) -> Option<DescriptorView>
    decreases revisions.len(),
{
    if revisions.len() == 0 {
        None
    } else {
        match first_with_digest(revisions.drop_last(), digest) {
            Some(d) => Some(d),
            None => if revisions.last().digest == digest {
                Some(revisions.last())
            } else {
                None
            },
        }
    }
}

/// The accepted head of one profile: the revision the head pointer (the digest
/// of the newest accepted revision) names.
pub open spec fn head_of(j: JournalView, profile_id: Seq<char>) -> Option<DescriptorView> {
    let h = history_of(j.revisions, profile_id);
    if h.len() == 0 {
        None
    } else {
        first_with_digest(h, h.last().digest)
    }
}

/// The first recorded mutation of a profile under a client mutation id.
pub open spec fn recorded_mutation(mutations: Seq<MutationView>, profile_id: Seq<char>, mutation_id: Seq<char>) -> Option<
    MutationView,
>
    decreases mutations.len(),
{
    if mutations.len() == 0 {
        None
    } else {
        match recorded_mutation(mutations.drop_last(), profile_id, mutation_id) {
            Some(m) => Some(m),
            None => if mutations.last().profile_id == profile_id && mutations.last().mutation_id
                == mutation_id {
                Some(mutations.last())
            } else {
                None
            },
        }
    }
}

/// The journal after `baseline` is recorded as the first accepted revision of
/// its profile when none is held.
pub open spec fn seeded(j: JournalView, baseline: DescriptorView) -> JournalView {
    if history_of(j.revisions, baseline.profile_id).len() == 0 {
        JournalView { revisions: j.revisions.push(baseline), ..j }
    } else {
        j
    }
}

/// Whether the history of a profile already holds a revision of this version.
pub open spec fn holds_version(history: Seq<DescriptorView>, version: Seq<char>) -> bool {
    exists|k: int| 0 <= k < history.len() && #[trigger] history[k].version == version
}

/// The compare-and-swap append: the journal afterwards and the reported result
/// (the outcome, or the code of the store refusal).
pub open spec fn append_step(
    j: JournalView,
    profile_id: Seq<char>,
    baseline: DescriptorView,
    expected: Seq<char>,
    mutation_id: Seq<char>,
    candidate: DescriptorView,
) -> (JournalView, Result<AppendOutcomeView, Seq<char>>) {
    if !is_identifier(profile_id) || !is_identifier(mutation_id) {
        (j, Err("inference_profile_revision_request"@))
    } else if baseline_refusal(profile_id, baseline, candidate) is Some {
        (j, Err(baseline_refusal(profile_id, baseline, candidate)->0))
    } else {
        let s = seeded(j, baseline);
        match head_of(s, profile_id) {
            None => (s, Err("inference_profile_unknown"@)),
            Some(current) => match recorded_mutation(s.mutations, profile_id, mutation_id) {
                Some(m) => (
                    s,
                    Ok(
                        if m.digest == candidate.digest {
                            AppendOutcomeView::Replayed(m.revision)
                        } else {
                            AppendOutcomeView::Conflict(current)
                        },
                    ),
                ),
                None => if current.digest != expected {
                    (s, Ok(AppendOutcomeView::Conflict(current)))
                } else if holds_version(history_of(s.revisions, profile_id), candidate.version) {
                    (s, Err("inference_profile_revision_duplicate"@))
                } else {
                    (
                        JournalView {
                            revisions: s.revisions.push(candidate),
                            mutations: s.mutations.push(
                                MutationView {
                                    profile_id,
                                    mutation_id,
                                    digest: candidate.digest,
                                    revision: candidate,
                                },
                            ),
                        },
                        Ok(AppendOutcomeView::Adopted(candidate)),
                    )
                },
            },
        }
    }
}

proof fn lemma_history_step(revs: Seq<InferenceProfileDescriptor>, i: int, profile_id: Seq<char>)
    requires
        0 <= i < revs.len(),
    ensures
        history_of(descriptor_views(revs.take(i + 1)), profile_id) == if revs[i]@.profile_id
            == profile_id {
            history_of(descriptor_views(revs.take(i)), profile_id).push(revs[i]@)
        } else {
            history_of(descriptor_views(revs.take(i)), profile_id)
        },
{
    assert(descriptor_views(revs.take(i + 1)) =~= descriptor_views(revs.take(i)).push(revs[i]@));
    descriptor_views(revs.take(i)).lemma_filter_push(
        revs[i]@,
        |d: DescriptorView| d.profile_id == profile_id,
    );
}

impl MemoryInferenceProfileRevisionJournal {
    /// An empty journal.
    pub fn new() -> (r: Self)
        ensures
            r@.revisions.len() == 0,
            r@.mutations.len() == 0,
    {
        MemoryInferenceProfileRevisionJournal { revisions: Vec::new(), mutations: Vec::new() }
    }

    /// A journal whose accepted head for `descriptor.profile_id` is `descriptor`.
    pub fn seeded(descriptor: InferenceProfileDescriptor) -> (r: Self)
        ensures
            r@.revisions == seq![descriptor@],
            r@.mutations.len() == 0,
    {
        let mut revisions = Vec::new();
        revisions.push(descriptor);
        let r = MemoryInferenceProfileRevisionJournal { revisions, mutations: Vec::new() };
        assert(r@.revisions =~= seq![descriptor@]);
        assert(r@.mutations =~= Seq::<MutationView>::empty());
        r
    }

    /// Every accepted revision of one profile, oldest first.
    fn collect_history(&self, profile_id: &str) -> (r: Vec<InferenceProfileDescriptor>)
        ensures
            descriptor_views(r@) == history_of(self@.revisions, profile_id@),
    {
        let mut out: Vec<InferenceProfileDescriptor> = Vec::new();
        let mut i: usize = 0;
        proof {
            reveal(Seq::filter);
            assert(descriptor_views(self.revisions@.take(0)) =~= Seq::<DescriptorView>::empty());
            assert(descriptor_views(out@) =~= Seq::<DescriptorView>::empty());
        }
        while i < self.revisions.len()
            invariant
                i <= self.revisions@.len(),
                descriptor_views(out@) == history_of(
                    descriptor_views(self.revisions@.take(i as int)),
                    profile_id@,
                ),
            decreases self.revisions@.len() - i,
        {
            proof {
                lemma_history_step(self.revisions@, i as int, profile_id@);
            }
            if self.revisions[i].profile_id == profile_id.to_owned() {
                let d = self.revisions[i].clone();
                let ghost before = out@;
                out.push(d);
                assert(descriptor_views(out@) =~= descriptor_views(before).push(d@));
            }
            i = i + 1;
        }
        assert(self.revisions@.take(self.revisions@.len() as int) =~= self.revisions@);
        out
    }

    /// The first revision of `revisions` carrying `digest`.
    fn find_digest(revisions: &Vec<InferenceProfileDescriptor>, digest: &String) -> (r: Option<
        InferenceProfileDescriptor,
    >)
        ensures
            match first_with_digest(descriptor_views(revisions@), digest@) {
                Some(d) => r matches Some(x) && x@ == d,
                None => r is None,
            },
    {
        let mut i: usize = 0;
        while i < revisions.len()
            invariant
                i <= revisions@.len(),
                first_with_digest(descriptor_views(revisions@.take(i as int)), digest@) is None,
            decreases revisions@.len() - i,
        {
            proof {
                assert(descriptor_views(revisions@.take(i + 1)).drop_last() =~= descriptor_views(
                    revisions@.take(i as int),
                ));
            }
            if revisions[i].digest == *digest {
                proof {
                    assert(descriptor_views(revisions@).take(i as int) =~= descriptor_views(
                        revisions@.take(i as int),
                    ));
                    lemma_first_with_digest_prefix(descriptor_views(revisions@), digest@, i + 1);
                }
                return Some(revisions[i].clone());
            }
            i = i + 1;
        }
        assert(revisions@.take(revisions@.len() as int) =~= revisions@);
        None
    }

    /// The accepted head of a profile.
    fn head_of(&self, profile_id: &str) -> (r: Option<InferenceProfileDescriptor>)
        ensures
            match head_of(self@, profile_id@) {
                Some(d) => r matches Some(x) && x@ == d,
                None => r is None,
            },
    {
        let history = self.collect_history(profile_id);
        if history.len() == 0 {
            return None;
        }
        let last = history[history.len() - 1].digest.clone();
        proof {
            assert(descriptor_views(history@).last() == history@[history@.len() - 1]@);
        }
        Self::find_digest(&history, &last)
    }

    /// The first recorded mutation of a profile under a client mutation id.
    fn find_mutation(&self, profile_id: &str, mutation_id: &str) -> (r: Option<usize>)
        ensures
            match recorded_mutation(self@.mutations, profile_id@, mutation_id@) {
                Some(m) => r matches Some(k) && k < self.mutations@.len() && self.mutations@[k as int]@
                    == m,
                None => r is None,
            },
    {
        let mut i: usize = 0;
        while i < self.mutations.len()
            invariant
                i <= self.mutations@.len(),
                recorded_mutation(
                    self.mutations@.take(i as int).map_values(|m: MutationRecord| m@),
                    profile_id@,
                    mutation_id@,
                ) is None,
            decreases self.mutations@.len() - i,
        {
            let ghost prefix = self.mutations@.take(i + 1).map_values(|m: MutationRecord| m@);
            assert(prefix.drop_last() =~= self.mutations@.take(i as int).map_values(
                |m: MutationRecord| m@,
            ));
            if self.mutations[i].profile_id == profile_id.to_owned() && self.mutations[i].mutation_id
                == mutation_id.to_owned() {
                proof {
                    assert(self.mutations@.map_values(|m: MutationRecord| m@).take(i as int)
                        =~= self.mutations@.take(i as int).map_values(|m: MutationRecord| m@));
                    lemma_recorded_mutation_prefix(
                        self.mutations@.map_values(|m: MutationRecord| m@),
                        profile_id@,
                        mutation_id@,
                        i + 1,
                    );
                    assert(self.mutations@.map_values(|m: MutationRecord| m@).take(i + 1)
                        =~= prefix);
                }
                return Some(i);
            }
            i = i + 1;
        }
        assert(self.mutations@.take(self.mutations@.len() as int).map_values(|m: MutationRecord| m@)
            =~= self.mutations@.map_values(|m: MutationRecord| m@));
        None
    }

    /// Whether a history already holds a revision of this version.
    fn holds_version(history: &Vec<InferenceProfileDescriptor>, version: &String) -> (r: bool)
        ensures
            r == holds_version(descriptor_views(history@), version@),
    {
        let mut i: usize = 0;
        while i < history.len()
            invariant
                i <= history@.len(),
                forall|k: int| 0 <= k < i ==> #[trigger] history@[k]@.version != version@,
            decreases history@.len() - i,
        {
            if history[i].version == *version {
                assert(descriptor_views(history@)[i as int].version == version@);
                return true;
            }
            i = i + 1;
        }
        proof {
            if holds_version(descriptor_views(history@), version@) {
                let k = choose|k: int|
                    0 <= k < descriptor_views(history@).len() && #[trigger] descriptor_views(
                        history@,
                    )[k].version == version@;
                assert(history@[k]@.version == version@);
            }
        }
        false
    }

    /// Records `baseline` as the first accepted revision when none is held.
    fn seed(&mut self, baseline: &InferenceProfileDescriptor)
        ensures
            final(self)@ == seeded(old(self)@, baseline@),
    {
        let held = self.collect_history(baseline.profile_id.as_str());
        if held.len() == 0 {
            let ghost before = self.revisions@;
            self.revisions.push(baseline.clone());
            assert(descriptor_views(self.revisions@) =~= descriptor_views(before).push(baseline@));
        }
    }

    /// The compare-and-swap append; see [`append_step`].
    pub fn append_revision(
        &mut self,
        profile_id: &str,
        baseline: &InferenceProfileDescriptor,
        expected_revision_digest: &str,
        client_mutation_id: &str,
        candidate: &InferenceProfileDescriptor,
    ) -> (r: Result<RevisionAppendOutcome, StoreError>)
        ensures
            ({
                let (next, result) = append_step(
                    old(self)@,
                    profile_id@,
                    baseline@,
                    expected_revision_digest@,
                    client_mutation_id@,
                    candidate@,
                );
                &&& final(self)@ == next
                &&& match result {
                    Ok(o) => r matches Ok(x) && x@ == o,
                    Err(code) => r matches Err(e) && e.code@ == code,
                }
            }),
    {
        match validate_identifier("profile_id", profile_id) {
            Ok(()) => {},
            Err(e) => return Err(request_error(e)),
        }
        match validate_identifier("client_mutation_id", client_mutation_id) {
            Ok(()) => {},
            Err(e) => return Err(request_error(e)),
        }
        validate_baseline(profile_id, baseline, candidate)?;
        self.seed(baseline);
        let current = match self.head_of(profile_id) {
            Some(c) => c,
            None => return Err(unknown()),
        };
        if let Some(k) = self.find_mutation(profile_id, client_mutation_id) {
            let recorded = &self.mutations[k];
            return Ok(
                if recorded.digest == candidate.digest {
                    RevisionAppendOutcome::Replayed(Box::new(recorded.revision.clone()))
                } else {
                    RevisionAppendOutcome::Conflict(Box::new(current))
                },
            );
        }
        if !(current.digest == expected_revision_digest.to_owned()) {
            return Ok(RevisionAppendOutcome::Conflict(Box::new(current)));
        }
        let history = self.collect_history(profile_id);
        if Self::holds_version(&history, &candidate.version) {
            return Err(
                StoreError::new(
                    "inference_profile_revision_duplicate",
                    "the revision journal already holds this profile version",
                ),
            );
        }
        let ghost before = self@;
        self.revisions.push(candidate.clone());
        self.mutations.push(
            MutationRecord {
                profile_id: profile_id.to_owned(),
                mutation_id: client_mutation_id.to_owned(),
                digest: candidate.digest.clone(),
                revision: candidate.clone(),
            },
        );
        assert(self@.revisions =~= before.revisions.push(candidate@));
        assert(self@.mutations =~= before.mutations.push(
            MutationView {
                profile_id: profile_id@,
                mutation_id: client_mutation_id@,
                digest: candidate@.digest,
                revision: candidate@,
            },
        ));
        Ok(RevisionAppendOutcome::Adopted(Box::new(candidate.clone())))
    }
}

impl InferenceProfileRevisionJournal for MemoryInferenceProfileRevisionJournal {
    fn head(&self, profile_id: &str) -> (r: Result<Option<InferenceProfileDescriptor>, StoreError>)
        ensures
            !is_identifier(profile_id@) ==> (r matches Err(e) && e.code@
                == "inference_profile_revision_request"@),
            is_identifier(profile_id@) ==> match head_of(self@, profile_id@) {
                Some(d) => r matches Ok(Some(x)) && x@ == d,
                None => r matches Ok(None),
            },
    {
        match validate_identifier("profile_id", profile_id) {
            Ok(()) => {},
            Err(e) => return Err(request_error(e)),
        }
        Ok(self.head_of(profile_id))
    }

    fn history(&self, profile_id: &str) -> (r: Result<Vec<InferenceProfileDescriptor>, StoreError>)
        ensures
            !is_identifier(profile_id@) ==> (r matches Err(e) && e.code@
                == "inference_profile_revision_request"@),
            is_identifier(profile_id@) ==> (r matches Ok(v) && descriptor_views(v@) == history_of(
                self@.revisions,
                profile_id@,
            )),
    {
        match validate_identifier("profile_id", profile_id) {
            Ok(()) => {},
            Err(e) => return Err(request_error(e)),
        }
        Ok(self.collect_history(profile_id))
    }

    fn append(
        &mut self,
        profile_id: &str,
        baseline: &InferenceProfileDescriptor,
        expected_revision_digest: &str,
        client_mutation_id: &str,
        candidate: &InferenceProfileDescriptor,
    ) -> (r: Result<RevisionAppendOutcome, StoreError>)
        ensures
            ({
                let (next, result) = append_step(
                    old(self)@,
                    profile_id@,
                    baseline@,
                    expected_revision_digest@,
                    client_mutation_id@,
                    candidate@,
                );
                &&& final(self)@ == next
                &&& match result {
                    Ok(o) => r matches Ok(x) && x@ == o,
                    Err(code) => r matches Err(e) && e.code@ == code,
                }
            }),
    {
        self.append_revision(
            profile_id,
            baseline,
            expected_revision_digest,
            client_mutation_id,
            candidate,
        )
    }
}

/// Refuses every read and write when no journal is attached to this owner.
pub struct UnavailableInferenceProfileRevisionJournal;

impl InferenceProfileRevisionJournal for UnavailableInferenceProfileRevisionJournal {
    fn head(&self, profile_id: &str) -> (r: Result<Option<InferenceProfileDescriptor>, StoreError>)
        ensures
            r matches Err(e) && e.code@ == "inference_profile_revision_journal_unavailable"@,
    {
        Err(unavailable_error())
    }

    fn history(&self, profile_id: &str) -> (r: Result<Vec<InferenceProfileDescriptor>, StoreError>)
        ensures
            r matches Err(e) && e.code@ == "inference_profile_revision_journal_unavailable"@,
    {
        Err(unavailable_error())
    }

    fn append(
        &mut self,
        profile_id: &str,
        baseline: &InferenceProfileDescriptor,
        expected_revision_digest: &str,
        client_mutation_id: &str,
        candidate: &InferenceProfileDescriptor,
    ) -> (r: Result<RevisionAppendOutcome, StoreError>)
        ensures
            r matches Err(e) && e.code@ == "inference_profile_revision_journal_unavailable"@,
    {
        Err(unavailable_error())
    }
}

proof fn lemma_first_with_digest_found(revs: Seq<DescriptorView>, digest: Seq<char>)
    ensures
        first_with_digest(revs, digest) matches Some(x) ==> x.digest == digest,
        revs.len() > 0 && revs.last().digest == digest ==> first_with_digest(revs, digest) is Some,
    decreases revs.len(),
{
    if revs.len() > 0 {
        lemma_first_with_digest_found(revs.drop_last(), digest);
    }
}

proof fn lemma_history_of_push(revs: Seq<DescriptorView>, d: DescriptorView, p: Seq<char>)
    ensures
        history_of(revs.push(d), p) == if d.profile_id == p {
            history_of(revs, p).push(d)
        } else {
            history_of(revs, p)
        },
{
    revs.lemma_filter_push(d, |x: DescriptorView| x.profile_id == p);
}

proof fn lemma_recorded_mutation_push(ms: Seq<MutationView>, x: MutationView, p: Seq<char>, m: Seq<char>)
    ensures
        recorded_mutation(ms.push(x), p, m) == match recorded_mutation(ms, p, m) {
            Some(y) => Some(y),
            None => if x.profile_id == p && x.mutation_id == m {
                Some(x)
            } else {
                None
            },
        },
{
    assert(ms.push(x).drop_last() =~= ms);
}

/// The journal is append-only: an append, whatever its outcome, keeps every
/// profile's accepted history as a prefix of its history afterwards, and keeps
/// every recorded mutation.
pub proof fn lemma_journal_is_append_only(
    j: JournalView,
    profile_id: Seq<char>,
    baseline: DescriptorView,
    expected: Seq<char>,
    mutation_id: Seq<char>,
    candidate: DescriptorView,
    any_profile: Seq<char>,
)
    ensures
        ({
            let next = append_step(j, profile_id, baseline, expected, mutation_id, candidate).0;
            let before = history_of(j.revisions, any_profile);
            let after = history_of(next.revisions, any_profile);
            &&& before.len() <= after.len()
            &&& after.subrange(0, before.len() as int) == before
            &&& next.mutations.len() >= j.mutations.len()
            &&& next.mutations.subrange(0, j.mutations.len() as int) == j.mutations
        }),
{
    let next = append_step(j, profile_id, baseline, expected, mutation_id, candidate).0;
    let s = seeded(j, baseline);
    lemma_history_of_push(j.revisions, baseline, any_profile);
    lemma_history_of_push(s.revisions, candidate, any_profile);
    let before = history_of(j.revisions, any_profile);
    let mid = history_of(s.revisions, any_profile);
    assert(mid.subrange(0, before.len() as int) =~= before);
    assert(history_of(s.revisions.push(candidate), any_profile).subrange(0, before.len() as int)
        =~= before);
    assert(s.mutations.push(
        MutationView { profile_id, mutation_id, digest: candidate.digest, revision: candidate },
    ).subrange(0, j.mutations.len() as int) =~= j.mutations);
    assert(j.mutations.subrange(0, j.mutations.len() as int) =~= j.mutations);
    assert(before.subrange(0, before.len() as int) =~= before);
}

/// Adoption is a compare-and-swap: a candidate is adopted only when the
/// expected digest names the accepted head, and it then becomes the newest
/// accepted revision and the head the profile's pointer names.
pub proof fn lemma_adoption_is_compare_and_swap(
    j: JournalView,
    profile_id: Seq<char>,
    baseline: DescriptorView,
    expected: Seq<char>,
    mutation_id: Seq<char>,
    candidate: DescriptorView,
)
    requires
        append_step(j, profile_id, baseline, expected, mutation_id, candidate).1 matches Ok(
            AppendOutcomeView::Adopted(_),
        ),
    ensures
        ({
            let (next, result) = append_step(
                j,
                profile_id,
                baseline,
                expected,
                mutation_id,
                candidate,
            );
            let s = seeded(j, baseline);
            &&& result == Ok::<AppendOutcomeView, Seq<char>>(AppendOutcomeView::Adopted(candidate))
            &&& head_of(s, profile_id) matches Some(h) && h.digest == expected
            &&& history_of(next.revisions, profile_id) == history_of(s.revisions, profile_id).push(
                candidate,
            )
            &&& head_of(next, profile_id) matches Some(h) && h.digest == candidate.digest
            &&& !holds_version(history_of(s.revisions, profile_id), candidate.version)
        }),
{
    let s = seeded(j, baseline);
    let next = append_step(j, profile_id, baseline, expected, mutation_id, candidate).0;
    lemma_first_with_digest_found(history_of(s.revisions, profile_id), history_of(s.revisions, profile_id).last().digest);
    lemma_history_of_push(s.revisions, candidate, profile_id);
    let h = history_of(next.revisions, profile_id);
    lemma_first_with_digest_found(h, h.last().digest);
}

/// Two concurrent edits authored against the same expected revision cannot
/// both win: once one is adopted, an edit under another client mutation that
/// expects the same (now superseded) digest is not adopted and changes nothing.
/// The one input on which this fails is a candidate whose digest equals the
/// digest it replaces, which a sealed revision with a new version only has
/// through a SHA-256 collision.
pub proof fn lemma_lost_swap_cannot_overwrite(
    j: JournalView,
    profile_id: Seq<char>,
    baseline: DescriptorView,
    expected: Seq<char>,
    first_mutation: Seq<char>,
    first: DescriptorView,
    second_mutation: Seq<char>,
    second: DescriptorView,
)
    requires
        append_step(j, profile_id, baseline, expected, first_mutation, first).1 matches Ok(
            AppendOutcomeView::Adopted(_),
        ),
        first.digest != expected,
        second_mutation != first_mutation,
    ensures
        ({
            let j1 = append_step(j, profile_id, baseline, expected, first_mutation, first).0;
            let (j2, result) = append_step(
                j1,
                profile_id,
                baseline,
                expected,
                second_mutation,
                second,
            );
            &&& !(result matches Ok(AppendOutcomeView::Adopted(_)))
            &&& j2 == j1
        }),
{
    lemma_adoption_is_compare_and_swap(j, profile_id, baseline, expected, first_mutation, first);
    let s = seeded(j, baseline);
    let j1 = append_step(j, profile_id, baseline, expected, first_mutation, first).0;
    lemma_history_of_push(s.revisions, first, profile_id);
    assert(seeded(j1, baseline) == j1);
    lemma_recorded_mutation_push(
        s.mutations,
        MutationView { profile_id, mutation_id: first_mutation, digest: first.digest, revision: first },
        profile_id,
        second_mutation,
    );
}

/// A retried edit is replayed, not applied twice: repeating an adopted append
/// with the same client mutation and candidate reports the recorded revision
/// and leaves the journal unchanged.
pub proof fn lemma_retry_is_replayed(
    j: JournalView,
    profile_id: Seq<char>,
    baseline: DescriptorView,
    expected: Seq<char>,
    mutation_id: Seq<char>,
    candidate: DescriptorView,
)
    requires
        append_step(j, profile_id, baseline, expected, mutation_id, candidate).1 matches Ok(
            AppendOutcomeView::Adopted(_),
        ),
    ensures
        ({
            let j1 = append_step(j, profile_id, baseline, expected, mutation_id, candidate).0;
            append_step(j1, profile_id, baseline, expected, mutation_id, candidate) == (
                j1,
                Ok::<AppendOutcomeView, Seq<char>>(AppendOutcomeView::Replayed(candidate)),
            )
        }),
{
    lemma_adoption_is_compare_and_swap(j, profile_id, baseline, expected, mutation_id, candidate);
    let s = seeded(j, baseline);
    let j1 = append_step(j, profile_id, baseline, expected, mutation_id, candidate).0;
    lemma_history_of_push(s.revisions, candidate, profile_id);
    assert(seeded(j1, baseline) == j1);
    lemma_recorded_mutation_push(
        s.mutations,
        MutationView { profile_id, mutation_id, digest: candidate.digest, revision: candidate },
        profile_id,
        mutation_id,
    );
    let h = history_of(j1.revisions, profile_id);
    lemma_first_with_digest_found(h, h.last().digest);
}

/// Appending is idempotent: repeating the same append, with the same client
/// mutation and candidate, leaves the journal as the first append left it.
pub proof fn lemma_append_is_idempotent(
    j: JournalView,
    profile_id: Seq<char>,
    baseline: DescriptorView,
    expected: Seq<char>,
    mutation_id: Seq<char>,
    candidate: DescriptorView,
)
    ensures
        ({
            let j1 = append_step(j, profile_id, baseline, expected, mutation_id, candidate).0;
            append_step(j1, profile_id, baseline, expected, mutation_id, candidate).0 == j1
        }),
{
    if append_step(j, profile_id, baseline, expected, mutation_id, candidate).1 matches Ok(
        AppendOutcomeView::Adopted(_),
    ) {
        lemma_retry_is_replayed(j, profile_id, baseline, expected, mutation_id, candidate);
    } else if is_identifier(profile_id) && is_identifier(mutation_id) && baseline_refusal(
        profile_id,
        baseline,
        candidate,
    ) is None {
        let s = seeded(j, baseline);
        lemma_history_of_push(j.revisions, baseline, baseline.profile_id);
        assert(history_of(s.revisions, baseline.profile_id).len() > 0);
        assert(seeded(s, baseline) == s);
    }
}

/// An append that does not adopt changes nothing beyond recording the owner's
/// baseline as the first accepted revision of a profile the journal did not hold.
pub proof fn lemma_only_adoption_changes_the_journal(
    j: JournalView,
    profile_id: Seq<char>,
    baseline: DescriptorView,
    expected: Seq<char>,
    mutation_id: Seq<char>,
    candidate: DescriptorView,
)
    requires
        !(append_step(j, profile_id, baseline, expected, mutation_id, candidate).1 matches Ok(
            AppendOutcomeView::Adopted(_),
        )),
    ensures
        ({
            let next = append_step(j, profile_id, baseline, expected, mutation_id, candidate).0;
            next == j || next == seeded(j, baseline)
        }),
{
}

/// The arguments of one append, as plain values.
pub struct AppendRequest {
    pub profile_id: Seq<char>,
    pub baseline: DescriptorView,
    pub expected: Seq<char>,
    pub mutation_id: Seq<char>,
    pub candidate: DescriptorView,
}

/// The journal after a sequence of appends, in order, whatever each reported.
pub open spec fn after_appends(j: JournalView, requests: Seq<AppendRequest>) -> JournalView
    decreases requests.len(),
{
    if requests.len() == 0 {
        j
    } else {
        let q = requests.last();
        append_step(
            after_appends(j, requests.drop_last()),
            q.profile_id,
            q.baseline,
            q.expected,
            q.mutation_id,
            q.candidate,
        ).0
    }
}

/// One append keeps a recorded client mutation and a held profile history.
proof fn lemma_append_keeps_mutation(
    j: JournalView,
    q: AppendRequest,
    p: Seq<char>,
    m: Seq<char>,
    x: MutationView,
)
    requires
        recorded_mutation(j.mutations, p, m) == Some(x),
        history_of(j.revisions, p).len() > 0,
    ensures
        ({
            let next = append_step(
                j,
                q.profile_id,
                q.baseline,
                q.expected,
                q.mutation_id,
                q.candidate,
            ).0;
            &&& recorded_mutation(next.mutations, p, m) == Some(x)
            &&& history_of(next.revisions, p).len() > 0
        }),
{
    lemma_journal_is_append_only(j, q.profile_id, q.baseline, q.expected, q.mutation_id, q.candidate, p);
    let s = seeded(j, q.baseline);
    assert(s.mutations == j.mutations);
    lemma_recorded_mutation_push(
        s.mutations,
        MutationView {
            profile_id: q.profile_id,
            mutation_id: q.mutation_id,
            digest: q.candidate.digest,
            revision: q.candidate,
        },
        p,
        m,
    );
}

/// Any sequence of appends keeps a recorded client mutation and a held
/// profile history.
proof fn lemma_appends_keep_mutation(
    j: JournalView,
    requests: Seq<AppendRequest>,
    p: Seq<char>,
    m: Seq<char>,
    x: MutationView,
)
    requires
        recorded_mutation(j.mutations, p, m) == Some(x),
        history_of(j.revisions, p).len() > 0,
    ensures
        recorded_mutation(after_appends(j, requests).mutations, p, m) == Some(x),
        history_of(after_appends(j, requests).revisions, p).len() > 0,
    decreases requests.len(),
{
    if requests.len() > 0 {
        lemma_appends_keep_mutation(j, requests.drop_last(), p, m, x);
        lemma_append_keeps_mutation(after_appends(j, requests.drop_last()), requests.last(), p, m, x);
    }
}

/// A client mutation is applied at most once: replaying a recorded client
/// mutation returns the first adoption and leaves the head and the history
/// unchanged. Once an append adopted a candidate under a client mutation id,
/// every later append of that profile under the same id, after any appends in
/// between and whatever digest it expects, reports the adopted revision when
/// its candidate carries the same digest and the current head as a conflict
/// otherwise, and the profile's head and accepted history afterwards are what
/// they were before it.
pub proof fn lemma_later_retry_is_replayed(
    j: JournalView,
    profile_id: Seq<char>,
    first_baseline: DescriptorView,
    first_expected: Seq<char>,
    mutation_id: Seq<char>,
    adopted: DescriptorView,
    between: Seq<AppendRequest>,
    baseline: DescriptorView,
    expected: Seq<char>,
    candidate: DescriptorView,
)
    requires
        append_step(j, profile_id, first_baseline, first_expected, mutation_id, adopted).1 matches Ok(
            AppendOutcomeView::Adopted(_),
        ),
        baseline_refusal(profile_id, baseline, candidate) is None,
    ensures
        ({
            let later = after_appends(
                append_step(j, profile_id, first_baseline, first_expected, mutation_id, adopted).0,
                between,
            );
            let next = append_step(later, profile_id, baseline, expected, mutation_id, candidate).0;
            &&& head_of(later, profile_id) is Some
            &&& head_of(next, profile_id) == head_of(later, profile_id)
            &&& history_of(next.revisions, profile_id) == history_of(later.revisions, profile_id)
            &&& append_step(later, profile_id, baseline, expected, mutation_id, candidate) == (
                later,
                Ok::<AppendOutcomeView, Seq<char>>(
                    if candidate.digest == adopted.digest {
                        AppendOutcomeView::Replayed(adopted)
                    } else {
                        AppendOutcomeView::Conflict(head_of(later, profile_id)->0)
                    },
                ),
            )
        }),
{
    lemma_adoption_is_compare_and_swap(j, profile_id, first_baseline, first_expected, mutation_id, adopted);
    let s = seeded(j, first_baseline);
    let j1 = append_step(j, profile_id, first_baseline, first_expected, mutation_id, adopted).0;
    let x = MutationView { profile_id, mutation_id, digest: adopted.digest, revision: adopted };
    lemma_history_of_push(s.revisions, adopted, profile_id);
    lemma_recorded_mutation_push(s.mutations, x, profile_id, mutation_id);
    assert(recorded_mutation(j1.mutations, profile_id, mutation_id) == Some(x));
    lemma_appends_keep_mutation(j1, between, profile_id, mutation_id, x);
    let later = after_appends(j1, between);
    assert(seeded(later, baseline) == later);
    let h = history_of(later.revisions, profile_id);
    lemma_first_with_digest_found(h, h.last().digest);
}

proof fn lemma_first_with_digest_prefix(revs: Seq<DescriptorView>, digest: Seq<char>, n: int)
    requires
        0 < n <= revs.len(),
        first_with_digest(revs.take(n - 1), digest) is None,
        revs[n - 1].digest == digest,
    ensures
        first_with_digest(revs, digest) == Some(revs[n - 1]),
    decreases revs.len(),
{
    if revs.len() == n {
        assert(revs.drop_last() =~= revs.take(n - 1));
    } else {
        assert(revs.drop_last().take(n - 1) =~= revs.take(n - 1));
        lemma_first_with_digest_prefix(revs.drop_last(), digest, n);
    }
}

proof fn lemma_recorded_mutation_prefix(ms: Seq<MutationView>, p: Seq<char>, m: Seq<char>, n: int)
    requires
        0 < n <= ms.len(),
        recorded_mutation(ms.take(n - 1), p, m) is None,
        ms[n - 1].profile_id == p && ms[n - 1].mutation_id == m,
    ensures
        recorded_mutation(ms, p, m) == Some(ms[n - 1]),
    decreases ms.len(),
{
    if ms.len() == n {
        assert(ms.drop_last() =~= ms.take(n - 1));
    } else {
        assert(ms.drop_last().take(n - 1) =~= ms.take(n - 1));
        lemma_recorded_mutation_prefix(ms.drop_last(), p, m, n);
    }
}

} // verus!
