//! The append-only operation journal that lifecycle intent is recorded in.
//!
//! Each attempt is keyed by its full scope and retains the digest of the exact
//! request, the sequence it was started under and one outcome. Sequences are
//! issued in order, one per attempt, starting at one.

use vstd::prelude::*;

verus! {

/// The full scope of one journalled attempt.
#[derive(Clone, Debug)]
pub struct JournalKey {
    pub principal: String,
    pub instance: String,
    pub incarnation: String,
    pub operation: String,
    pub idempotency_key: String,
}

/// A journal key as text.
pub struct KeyView {
    pub principal: Seq<char>,
    pub instance: Seq<char>,
    pub incarnation: Seq<char>,
    pub operation: Seq<char>,
    pub idempotency_key: Seq<char>,
}

impl View for JournalKey {
    type V = KeyView;

    open spec fn view(&self) -> KeyView {
        KeyView {
            principal: self.principal@,
            instance: self.instance@,
            incarnation: self.incarnation@,
            operation: self.operation@,
            idempotency_key: self.idempotency_key@,
        }
    }
}

/// The one outcome an attempt retains.
#[derive(Clone, Copy, Debug, PartialEq, Eq, Structural)]
pub enum JournalOutcome {
    Pending,
    Accepted,
    Rejected,
    Unknown,
}

/// Whether an attempt's outcome may move from `from` to `to`: it may stay, a
/// pending attempt may settle or become unknown, and an unknown one may settle.
pub open spec fn transition_allowed(from: JournalOutcome, to: JournalOutcome) -> bool {
    ||| from == to
    ||| from == JournalOutcome::Pending && to != JournalOutcome::Pending
    ||| from == JournalOutcome::Unknown && (to == JournalOutcome::Accepted || to
        == JournalOutcome::Rejected)
}

/// Decides [`transition_allowed`].
pub fn outcome_may_move(from: JournalOutcome, to: JournalOutcome) -> (r: bool)
    ensures
        r == transition_allowed(from, to),
{
    match (from, to) {
        (JournalOutcome::Pending, _) => true,
        (JournalOutcome::Unknown, JournalOutcome::Accepted) => true,
        (JournalOutcome::Unknown, JournalOutcome::Rejected) => true,
        (JournalOutcome::Unknown, JournalOutcome::Unknown) => true,
        (JournalOutcome::Accepted, JournalOutcome::Accepted) => true,
        (JournalOutcome::Rejected, JournalOutcome::Rejected) => true,
        _ => false,
    }
}

/// A settled outcome never changes: an accepted attempt stays accepted and a
/// rejected one stays rejected. Only a pending attempt may move to any
/// outcome, and an unknown one only to a settled outcome; every outcome may be
/// repeated.
pub proof fn lemma_settled_outcomes_never_move(to: JournalOutcome)
    ensures
        transition_allowed(JournalOutcome::Accepted, to) <==> to == JournalOutcome::Accepted,
        transition_allowed(JournalOutcome::Rejected, to) <==> to == JournalOutcome::Rejected,
        transition_allowed(JournalOutcome::Pending, to),
        transition_allowed(JournalOutcome::Unknown, to) <==> to != JournalOutcome::Pending,
{
}

/// One retained attempt.
#[derive(Debug)]
pub struct JournalEntry {
    pub key: JournalKey,
    pub request_digest: String,
    pub sequence: u64,
    pub outcome: JournalOutcome,
}

/// A retained attempt as plain values.
pub struct EntryView {
    pub key: KeyView,
    pub request_digest: Seq<char>,
    pub sequence: u64,
    pub outcome: JournalOutcome,
}

impl View for JournalEntry {
    type V = EntryView;

    open spec fn view(&self) -> EntryView {
        EntryView {
            key: self.key@,
            request_digest: self.request_digest@,
            sequence: self.sequence,
            outcome: self.outcome,
        }
    }
}

impl Clone for JournalEntry {
    fn clone(&self) -> (r: Self)
        ensures
            r@ == self@,
    {
        JournalEntry {
            key: JournalKey {
                principal: self.key.principal.clone(),
                instance: self.key.instance.clone(),
                incarnation: self.key.incarnation.clone(),
                operation: self.key.operation.clone(),
                idempotency_key: self.key.idempotency_key.clone(),
            },
            request_digest: self.request_digest.clone(),
            sequence: self.sequence,
            outcome: self.outcome,
        }
    }
}

/// What starting an attempt found: a new attempt under a fresh sequence, or
/// the attempt already retained under the same key.
#[derive(Debug)]
pub enum JournalDecision {
    Started(u64),
    Existing(JournalEntry),
}

/// Why the journal refused a change.
#[derive(Clone, Copy, Debug, PartialEq, Eq, Structural)]
pub enum JournalError {
    /// No attempt is retained under the key.
    Missing,
    /// The outcome may not move that way.
    Transition,
    /// No further sequence can be issued.
    Exhausted,
    /// A restored image breaks the journal's shape.
    Corrupt,
}

impl JournalError {
    /// A human message for the refusal.
    pub fn message(self) -> (r: String)
        ensures
            self == JournalError::Missing ==> r@ == "journal attempt not found"@,
            self == JournalError::Transition ==> r@ == "journal outcome cannot move that way"@,
            self == JournalError::Exhausted ==> r@ == "journal sequence is exhausted"@,
            self == JournalError::Corrupt ==> r@ == "journal image is inconsistent"@,
    {
        match self {
            JournalError::Missing => "journal attempt not found".to_owned(),
            JournalError::Transition => "journal outcome cannot move that way".to_owned(),
            JournalError::Exhausted => "journal sequence is exhausted".to_owned(),
            JournalError::Corrupt => "journal image is inconsistent".to_owned(),
        }
    }
}

/// The index of the attempt retained under a key, if any.
pub open spec fn find_key(entries: Seq<EntryView>, key: KeyView) -> Option<int> {
    if exists|i: int| 0 <= i < entries.len() && entries[i].key == key {
        Some(choose|i: int| 0 <= i < entries.len() && entries[i].key == key)
    } else {
        None
    }
}

/// The journal's shape: the attempt at position `i` carries sequence `i + 1`,
/// and no key is retained twice.
pub open spec fn journal_wf(entries: Seq<EntryView>) -> bool {
    &&& forall|i: int| 0 <= i < entries.len() ==> #[trigger] entries[i].sequence == i + 1
    &&& forall|i: int, j: int|
        0 <= i < entries.len() && 0 <= j < entries.len() && i != j ==> entries[i].key
            != entries[j].key
}

/// The append-only operation journal.
pub struct OperationJournal {
    entries: Vec<JournalEntry>,
}

impl OperationJournal {
    #[verifier::type_invariant]
    spec fn shaped(self) -> bool {
        journal_wf(self.entries@.map_values(|e: JournalEntry| e@))
    }
}

impl View for OperationJournal {
    type V = Seq<EntryView>;

    closed spec fn view(&self) -> Seq<EntryView> {
        self.entries@.map_values(|e: JournalEntry| e@)
    }
}

/// Whether two keys are the same scope.
pub fn same_key(a: &JournalKey, b: &JournalKey) -> (r: bool)
    ensures
        r == (a@ == b@),
{
    a.principal == b.principal && a.instance == b.instance && a.incarnation == b.incarnation
        && a.operation == b.operation && a.idempotency_key == b.idempotency_key
}

impl OperationJournal {
    /// An empty journal.
    pub fn new() -> (r: Self)
        ensures
            r@ == Seq::<EntryView>::empty(),
    {
        let r = OperationJournal { entries: Vec::new() };
        assert(r@ =~= Seq::<EntryView>::empty());
        r
    }

    /// Restores a journal from its retained attempts, refusing an image whose
    /// sequences are out of order or that retains a key twice.
    pub fn restore(entries: Vec<JournalEntry>) -> (r: Result<Self, JournalError>)
        ensures
            match r {
                Ok(j) => j@ == entries@.map_values(|e: JournalEntry| e@) && journal_wf(j@),
                Err(e) => e == JournalError::Corrupt && !journal_wf(
                    entries@.map_values(|e: JournalEntry| e@),
                ),
            },
    {
        let ghost v = entries@.map_values(|e: JournalEntry| e@);
        let mut i: usize = 0;
        while i < entries.len()
            invariant
                i <= entries.len(),
                v == entries@.map_values(|e: JournalEntry| e@),
                forall|k: int| 0 <= k < i ==> #[trigger] v[k].sequence == k + 1,
                forall|k: int, l: int| 0 <= k < i && 0 <= l < i && k != l ==> v[k].key != v[l].key,
            decreases entries.len() - i,
        {
            if entries[i].sequence as u128 != i as u128 + 1 {
                assert(v[i as int].sequence != i + 1);
                return Err(JournalError::Corrupt);
            }
            let mut k: usize = 0;
            while k < i
                invariant
                    k <= i < entries.len(),
                    v == entries@.map_values(|e: JournalEntry| e@),
                    forall|l: int| 0 <= l < k ==> v[l].key != v[i as int].key,
                decreases i - k,
            {
                if same_key(&entries[k].key, &entries[i].key) {
                    assert(v[k as int].key == v[i as int].key);
                    return Err(JournalError::Corrupt);
                }
                k = k + 1;
            }
            i = i + 1;
        }
        assert(journal_wf(v));
        Ok(OperationJournal { entries })
    }

    /// The number of retained attempts.
    pub fn len(&self) -> (r: usize)
        ensures
            r == self@.len(),
            journal_wf(self@),
    {
        proof {
            use_type_invariant(self);
        }
        self.entries.len()
    }

    /// The index of the attempt retained under a key, if any.
    fn position(&self, key: &JournalKey) -> (r: Option<usize>)
        ensures
            match r {
                Some(k) => k < self@.len() && find_key(self@, key@) == Some(k as int),
                None => find_key(self@, key@) is None,
            },
    {
        proof {
            use_type_invariant(self);
        }
        let mut i: usize = 0;
        while i < self.entries.len()
            invariant
                i <= self.entries.len(),
                journal_wf(self@),
                forall|k: int| 0 <= k < i ==> self@[k].key != key@,
            decreases self.entries.len() - i,
        {
            if same_key(&self.entries[i].key, key) {
                assert(self@[i as int].key == key@);
                assert(find_key(self@, key@) == Some(i as int));
                return Some(i);
            }
            i = i + 1;
        }
        assert(find_key(self@, key@) is None);
        None
    }

    /// The attempt retained under a key, if any.
    pub fn entry(&self, key: &JournalKey) -> (r: Option<JournalEntry>)
        ensures
            journal_wf(self@),
            match find_key(self@, key@) {
                Some(i) => r matches Some(e) && e@ == self@[i],
                None => r is None,
            },
    {
        proof {
            use_type_invariant(self);
        }
        match self.position(key) {
            Some(i) => {
                let e = self.entries[i].clone();
                assert(e@ == self@[i as int]);
                Some(e)
            },
            None => None,
        }
    }

    /// Starts an attempt: the retained one when the key is already journalled,
    /// otherwise a new pending attempt under the next sequence.
    pub fn begin(&mut self, key: JournalKey, request_digest: &str) -> (r: Result<
        JournalDecision,
        JournalError,
    >)
        ensures
            journal_wf(final(self)@),
            match find_key(old(self)@, key@) {
                Some(i) => final(self)@ == old(self)@ && (r matches Ok(JournalDecision::Existing(e))
                    && e@ == old(self)@[i]),
                None => if old(self)@.len() + 1 > u64::MAX {
                    final(self)@ == old(self)@ && r == Err::<JournalDecision, JournalError>(
                        JournalError::Exhausted,
                    )
                } else {
                    r matches Ok(JournalDecision::Started(s)) && s == old(self)@.len() + 1
                        && final(self)@ == #[trigger] old(self)@.push(
                        EntryView {
                            key: key@,
                            request_digest: request_digest@,
                            sequence: s,
                            outcome: JournalOutcome::Pending,
                        },
                    )
                },
            },
    {
        proof {
            use_type_invariant(&*self);
        }
        match self.position(&key) {
            Some(i) => {
                assert(self@[i as int] == self.entries@[i as int]@);
                Ok(JournalDecision::Existing(self.entries[i].clone()))
            },
            None => {
                let n = self.entries.len();
                if n as u128 + 1 > u64::MAX as u128 {
                    return Err(JournalError::Exhausted);
                }
                let sequence: u64 = n as u64 + 1;
                let ghost before = self@;
                let ghost kv = key@;
                let entry = JournalEntry {
                    key,
                    request_digest: request_digest.to_owned(),
                    sequence,
                    outcome: JournalOutcome::Pending,
                };
                proof {
                    let after = before.push(entry@);
                    assert forall|a: int, b: int|
                        0 <= a < after.len() && 0 <= b < after.len() && a != b implies after[a].key
                        != after[b].key by {
                        if a == before.len() {
                            assert(find_key(before, kv) is None);
                            assert(!(before[b].key == kv));
                        } else if b == before.len() {
                            assert(!(before[a].key == kv));
                        }
                    }
                    assert(journal_wf(after));
                }
                let mut entries: Vec<JournalEntry> = Vec::new();
                std::mem::swap(&mut entries, &mut self.entries);
                entries.push(entry);
                proof {
                    assert(entries@.map_values(|e: JournalEntry| e@) =~= before.push(entry@));
                }
                self.entries = entries;
                proof {
                    assert(self@ =~= before.push(entry@));
                }
                Ok(JournalDecision::Started(sequence))
            },
        }
    }

    /// The retained attempts, in sequence order.
    pub fn entries(&self) -> (r: &[JournalEntry])
        ensures
            r@.map_values(|e: JournalEntry| e@) == self@,
            journal_wf(self@),
    {
        proof {
            use_type_invariant(self);
        }
        self.entries.as_slice()
    }

    /// Moves the outcome of a retained attempt, refusing an unknown key and a
    /// move [`transition_allowed`] forbids.
    pub fn complete(&mut self, key: &JournalKey, outcome: JournalOutcome) -> (r: Result<
        (),
        JournalError,
    >)
        ensures
            journal_wf(final(self)@),
            match find_key(old(self)@, key@) {
                None => r == Err::<(), JournalError>(JournalError::Missing) && final(self)@
                    == old(self)@,
                Some(i) => if transition_allowed(old(self)@[i].outcome, outcome) {
                    r is Ok && final(self)@ == old(self)@.update(
                        i,
                        EntryView { outcome, ..old(self)@[i] },
                    )
                } else {
                    r == Err::<(), JournalError>(JournalError::Transition) && final(self)@
                        == old(self)@
                },
            },
    {
        proof {
            use_type_invariant(&*self);
        }
        match self.position(key) {
            None => Err(JournalError::Missing),
            Some(i) => {
                assert(self@[i as int] == self.entries@[i as int]@);
                if !outcome_may_move(self.entries[i].outcome, outcome) {
                    return Err(JournalError::Transition);
                }
                let ghost before = self@;
                let mut entry = self.entries[i].clone();
                entry.outcome = outcome;
                let ghost ev = entry@;
                proof {
                    let after = before.update(i as int, ev);
                    assert forall|a: int, b: int|
                        0 <= a < after.len() && 0 <= b < after.len() && a != b implies after[a].key
                        != after[b].key by {
                        assert(after[a].key == before[a].key);
                        assert(after[b].key == before[b].key);
                    }
                    assert forall|a: int| 0 <= a < after.len() implies #[trigger] after[a].sequence
                        == a + 1 by {
                        assert(before[a].sequence == a + 1);
                    }
                }
                let mut entries: Vec<JournalEntry> = Vec::new();
                std::mem::swap(&mut entries, &mut self.entries);
                entries.set(i, entry);
                proof {
                    assert(entries@.map_values(|e: JournalEntry| e@) =~= before.update(i as int, ev));
                }
                self.entries = entries;
                proof {
                    assert(self@ =~= before.update(i as int, ev));
                }
                Ok(())
            },
        }
    }
}

} // verus!
