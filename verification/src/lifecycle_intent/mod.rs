//! Durable lifecycle intent, recorded before any effect and replayed on restart.
//!
//! A lifecycle submission records intent before the gateway is called, so a
//! crash between the two leaves evidence that an operation may exist rather
//! than an unaccounted effect. Replay reconciles each retained operation by its
//! identity instead of by guessing from similar state.
//!
//! The attempt itself is kept in the shared [`OperationJournal`], which retains
//! the scoping key, a digest of the exact request and one outcome. The intent
//! record beside it retains the action kind and the reported outcome. The two
//! are cross-checked when a store is restored; any disagreement fails closed.
//! Reading and writing the two durable files is the owner's part: the store
//! here is the state they hold and the rules that change it.

mod laws;
mod records;

pub use records::{
    scan_intent_records, IntentScan, ScanStop, MAX_INTENT_RECORD_BYTES, MAX_LIFECYCLE_INTENTS,
};

pub use laws::{
    lemma_agreement_survives_completion, lemma_agreement_survives_new_intent,
    lemma_new_intent_sequence_is_highest, lemma_recording_is_idempotent,
    lemma_refused_recording_changes_nothing,
};

use vstd::prelude::*;
use vstd::utf8::encode_utf8;
use crate::digest::{decimal, decimal_of, sha256_hex, sha256_hex_of};
use crate::error::{ErrorClass, ManagementError, Refusal, refusal, text_is};
use crate::lifecycle::{
    clone_failure, failure_view, FailureView, LifecycleAction, LifecycleClassification,
    LifecycleFailure, LifecycleOperationState, LifecycleState, spec_action_kind,
};
use crate::operation_journal::{
    EntryView, JournalDecision, JournalKey, JournalOutcome, KeyView, OperationJournal, find_key,
    journal_wf, outcome_may_move, transition_allowed,
};

verus! {

/// Namespace that keeps lifecycle attempts distinct from every other journal
/// consumer sharing an owner-controlled directory.
const JOURNAL_NAMESPACE: &'static str = "process-lifecycle";

/// Incarnation field for lifecycle attempts: it names the surface, not a
/// process generation.
const JOURNAL_INCARNATION: &'static str = "process-lifecycle-v1";

/// One durable lifecycle intent, keyed by operation identity.
#[derive(Debug, PartialEq, Eq)]
pub struct LifecycleIntent {
    pub command_id: String,
    pub run_id: String,
    pub operation_id: u64,
    pub authority_epoch: u64,
    pub instance_id: String,
    pub action_kind: String,
    /// Outcome so far. `None` means the intent is durable and the effect is not
    /// yet known to have settled, so it must be reconciled by identity.
    pub classification: Option<LifecycleClassification>,
    pub operation_state: Option<LifecycleOperationState>,
    pub state: Option<LifecycleState>,
    pub failure: Option<LifecycleFailure>,
    /// Sequence number assigned when the intent was first recorded.
    pub sequence: u64,
}

/// A lifecycle intent as plain values.
pub struct IntentView {
    pub command_id: Seq<char>,
    pub run_id: Seq<char>,
    pub operation_id: u64,
    pub authority_epoch: u64,
    pub instance_id: Seq<char>,
    pub action_kind: Seq<char>,
    pub classification: Option<LifecycleClassification>,
    pub operation_state: Option<LifecycleOperationState>,
    pub state: Option<LifecycleState>,
    pub failure: Option<FailureView>,
    pub sequence: u64,
}

impl View for LifecycleIntent {
    type V = IntentView;

    open spec fn view(&self) -> IntentView {
        IntentView {
            command_id: self.command_id@,
            run_id: self.run_id@,
            operation_id: self.operation_id,
            authority_epoch: self.authority_epoch,
            instance_id: self.instance_id@,
            action_kind: self.action_kind@,
            classification: self.classification,
            operation_state: self.operation_state,
            state: self.state,
            failure: failure_view(self.failure),
            sequence: self.sequence,
        }
    }
}

impl Clone for LifecycleIntent {
    fn clone(&self) -> (r: Self)
        ensures
            r@ == self@,
    {
        LifecycleIntent {
            command_id: self.command_id.clone(),
            run_id: self.run_id.clone(),
            operation_id: self.operation_id,
            authority_epoch: self.authority_epoch,
            instance_id: self.instance_id.clone(),
            action_kind: self.action_kind.clone(),
            classification: self.classification,
            operation_state: self.operation_state,
            state: self.state,
            failure: clone_failure(&self.failure),
            sequence: self.sequence,
        }
    }
}

/// An intent is unresolved until it is classified accepted, rejected or stopped.
pub open spec fn unresolved_view(x: IntentView) -> bool {
    !(x.classification matches Some(c) && c != LifecycleClassification::Unknown)
}

impl LifecycleIntent {
    /// True when the outcome is still unknown and must be reconciled.
    pub fn is_unresolved(&self) -> (r: bool)
        ensures
            r == unresolved_view(self@),
    {
        match self.classification {
            Some(LifecycleClassification::Accepted) => false,
            Some(LifecycleClassification::Rejected) => false,
            Some(LifecycleClassification::Stopped) => false,
            _ => true,
        }
    }
}

/// An intent must still be reconciled exactly when nothing settled it: it has
/// no classification yet, or its outcome is unknown. An accepted, rejected or
/// stopped intent is resolved.
pub proof fn lemma_unresolved_exactly_when_unsettled(x: IntentView)
    ensures
        unresolved_view(x) <==> (x.classification is None || x.classification == Some(
            LifecycleClassification::Unknown,
        )),
{
}

/// The journal key of one lifecycle operation.
pub open spec fn key_of(instance_id: Seq<char>, operation_id: u64) -> KeyView {
    KeyView {
        principal: "process-lifecycle"@,
        instance: instance_id,
        incarnation: "process-lifecycle-v1"@,
        operation: "op:"@ + decimal_of(operation_id as nat),
        idempotency_key: "op-"@ + decimal_of(operation_id as nat),
    }
}

/// The text an intent digest is taken over: the bound facts separated by the
/// unit separator.
pub open spec fn intent_material(
    run_id: Seq<char>,
    instance_id: Seq<char>,
    operation_id: u64,
    authority_epoch: u64,
    action_kind: Seq<char>,
) -> Seq<char> {
    run_id + seq!['\u{1f}'] + instance_id + seq!['\u{1f}'] + decimal_of(operation_id as nat)
        + seq!['\u{1f}'] + decimal_of(authority_epoch as nat) + seq!['\u{1f}'] + action_kind
}

/// The digest binding the intent facts that must not change on replay.
pub open spec fn intent_digest_of(
    run_id: Seq<char>,
    instance_id: Seq<char>,
    operation_id: u64,
    authority_epoch: u64,
    action_kind: Seq<char>,
) -> Seq<char> {
    "sha256:"@ + sha256_hex_of(
        encode_utf8(intent_material(run_id, instance_id, operation_id, authority_epoch, action_kind)),
    )
}

/// The journal's coarser outcome for a classification: a stop is journalled as
/// accepted.
pub open spec fn journal_outcome_of(c: LifecycleClassification) -> JournalOutcome {
    match c {
        LifecycleClassification::Accepted => JournalOutcome::Accepted,
        LifecycleClassification::Stopped => JournalOutcome::Accepted,
        LifecycleClassification::Rejected => JournalOutcome::Rejected,
        LifecycleClassification::Unknown => JournalOutcome::Unknown,
    }
}

/// A classification is journalled by whether the command took effect: an
/// accepted command and a completed stop are accepted attempts, only a
/// rejected command is a rejected attempt, and an unknown outcome stays
/// unknown.
pub proof fn lemma_journal_outcome_preserves_acceptance(c: LifecycleClassification)
    ensures
        journal_outcome_of(c) == JournalOutcome::Accepted <==> (c
            == LifecycleClassification::Accepted || c == LifecycleClassification::Stopped),
        journal_outcome_of(c) == JournalOutcome::Rejected <==> c
            == LifecycleClassification::Rejected,
        journal_outcome_of(c) == JournalOutcome::Unknown <==> c == LifecycleClassification::Unknown,
        journal_outcome_of(c) != JournalOutcome::Pending,
{
}

/// The journal outcome an intent's classification so far corresponds to.
pub open spec fn expected_outcome(c: Option<LifecycleClassification>) -> JournalOutcome {
    match c {
        Some(x) => journal_outcome_of(x),
        None => JournalOutcome::Pending,
    }
}

/// Builds the journal key for one lifecycle operation.
fn journal_key(instance_id: &str, operation_id: u64) -> (r: JournalKey)
    ensures
        r@ == key_of(instance_id@, operation_id),
{
    let number = decimal(operation_id);
    let mut operation = "op:".to_owned();
    operation.append(number.as_str());
    let mut idempotency_key = "op-".to_owned();
    idempotency_key.append(number.as_str());
    let r = JournalKey {
        principal: JOURNAL_NAMESPACE.to_owned(),
        instance: instance_id.to_owned(),
        incarnation: JOURNAL_INCARNATION.to_owned(),
        operation,
        idempotency_key,
    };
    assert(r@ == key_of(instance_id@, operation_id));
    r
}

/// Digest binding the intent facts that must not change on replay.
fn intent_digest(
    run_id: &str,
    instance_id: &str,
    operation_id: u64,
    authority_epoch: u64,
    action_kind: &str,
) -> (r: String)
    ensures
        r@ == intent_digest_of(run_id@, instance_id@, operation_id, authority_epoch, action_kind@),
{
    let mut material = run_id.to_owned();
    material.append("\u{1f}");
    material.append(instance_id);
    material.append("\u{1f}");
    material.append(decimal(operation_id).as_str());
    material.append("\u{1f}");
    material.append(decimal(authority_epoch).as_str());
    material.append("\u{1f}");
    material.append(action_kind);
    proof {
        reveal_strlit("\u{1f}");
        assert(material@ =~= intent_material(
            run_id@,
            instance_id@,
            operation_id,
            authority_epoch,
            action_kind@,
        ));
    }
    let mut r = "sha256:".to_owned();
    r.append(sha256_hex(material.as_str().as_bytes()).as_str());
    r
}

/// The journal's outcome for a classification.
fn journal_outcome(c: LifecycleClassification) -> (r: JournalOutcome)
    ensures
        r == journal_outcome_of(c),
{
    match c {
        LifecycleClassification::Accepted | LifecycleClassification::Stopped => {
            JournalOutcome::Accepted
        },
        LifecycleClassification::Rejected => JournalOutcome::Rejected,
        LifecycleClassification::Unknown => JournalOutcome::Unknown,
    }
}

/// The journal outcome of an optional classification.
fn expected(c: Option<LifecycleClassification>) -> (r: JournalOutcome)
    ensures
        r == expected_outcome(c),
{
    match c {
        Some(x) => journal_outcome(x),
        None => JournalOutcome::Pending,
    }
}

/// Whether a retained intent's classification may be followed by another on
/// replay: compared in the journal's domain, where it may stay, settle from
/// pending or unknown, or become unknown from pending.
fn outcome_transition_allowed(
    previous: Option<LifecycleClassification>,
    next: Option<LifecycleClassification>,
) -> (r: bool)
    ensures
        r == transition_allowed(expected_outcome(previous), expected_outcome(next)),
{
    outcome_may_move(expected(previous), expected(next))
}

/// The views of a sequence of intents.
pub open spec fn intent_views(v: Seq<LifecycleIntent>) -> Seq<IntentView> {
    v.map_values(|x: LifecycleIntent| x@)
}

/// Intents ordered by strictly increasing operation identity.
pub open spec fn sorted_ops(s: Seq<IntentView>) -> bool {
    forall|i: int, j: int| 0 <= i < j < s.len() ==> s[i].operation_id < s[j].operation_id
}

/// The retained intent of an operation, if any.
pub open spec fn lookup(s: Seq<IntentView>, operation_id: u64) -> Option<IntentView>
    decreases s.len(),
{
    if s.len() == 0 {
        None
    } else if s.last().operation_id == operation_id {
        Some(s.last())
    } else {
        lookup(s.drop_last(), operation_id)
    }
}

/// The intents with `x` retained for its operation, replacing the one retained
/// before, in operation order.
pub open spec fn put(s: Seq<IntentView>, x: IntentView) -> Seq<IntentView>
    decreases s.len(),
{
    if s.len() == 0 {
        seq![x]
    } else if s.last().operation_id == x.operation_id {
        s.drop_last().push(x)
    } else if s.last().operation_id < x.operation_id {
        s.push(x)
    } else {
        put(s.drop_last(), x).push(s.last())
    }
}

/// After `put`, an operation's retained intent is `x` for its own operation and
/// unchanged for every other.
pub proof fn lemma_lookup_put(s: Seq<IntentView>, x: IntentView, operation_id: u64)
    ensures
        lookup(put(s, x), operation_id) == if operation_id == x.operation_id {
            Some(x)
        } else {
            lookup(s, operation_id)
        },
    decreases s.len(),
{
    let p = put(s, x);
    if s.len() == 0 {
        assert(p.drop_last() =~= Seq::<IntentView>::empty());
        assert(p.last() == x);
        assert(lookup(p.drop_last(), operation_id) is None);
    } else if s.last().operation_id == x.operation_id {
        assert(p.drop_last() =~= s.drop_last());
        assert(p.last() == x);
        assert(lookup(p.drop_last(), operation_id) == lookup(s.drop_last(), operation_id));
    } else if s.last().operation_id < x.operation_id {
        assert(p.drop_last() =~= s);
        assert(p.last() == x);
        assert(lookup(p.drop_last(), operation_id) == lookup(s, operation_id));
    } else {
        lemma_lookup_put(s.drop_last(), x, operation_id);
        assert(p.drop_last() =~= put(s.drop_last(), x));
        assert(p.last() == s.last());
    }
}

/// A retained intent is an element of the sequence and carries its operation.
pub proof fn lemma_lookup_member(s: Seq<IntentView>, operation_id: u64)
    ensures
        lookup(s, operation_id) matches Some(y) ==> y.operation_id == operation_id && exists|k: int|
            0 <= k < s.len() && s[k] == y,
        lookup(s, operation_id) is None ==> forall|k: int|
            0 <= k < s.len() ==> s[k].operation_id != operation_id,
    decreases s.len(),
{
    if s.len() > 0 {
        lemma_lookup_member(s.drop_last(), operation_id);
        if s.last().operation_id == operation_id {
            assert(s[s.len() - 1] == s.last());
        } else {
            assert forall|k: int| 0 <= k < s.len() - 1 implies s.drop_last()[k] == s[k] by {}
            if lookup(s.drop_last(), operation_id) is None {
                assert forall|k: int| 0 <= k < s.len() implies s[k].operation_id != operation_id by {
                    if k < s.len() - 1 {
                        assert(s.drop_last()[k] == s[k]);
                    }
                }
            }
        }
    }
}

/// Placing `x` at the first position whose operation is not below it yields
/// `put`: it replaces an intent of the same operation, else it is inserted.
proof fn lemma_put_at(s: Seq<IntentView>, x: IntentView, i: int)
    requires
        0 <= i <= s.len(),
        forall|k: int| i <= k < s.len() ==> s[k].operation_id > x.operation_id,
        i == 0 || s[i - 1].operation_id <= x.operation_id,
    ensures
        put(s, x) == if i > 0 && s[i - 1].operation_id == x.operation_id {
            s.update(i - 1, x)
        } else {
            s.insert(i, x)
        },
    decreases s.len() - i,
{
    if i == s.len() {
        if s.len() == 0 {
            assert(put(s, x) =~= s.insert(i, x));
        } else if s.last().operation_id == x.operation_id {
            assert(put(s, x) =~= s.update(i - 1, x));
        } else {
            assert(put(s, x) =~= s.insert(i, x));
        }
    } else {
        let d = s.drop_last();
        assert forall|k: int| i <= k < d.len() implies d[k].operation_id > x.operation_id by {
            assert(d[k] == s[k]);
        }
        if i > 0 {
            assert(d[i - 1] == s[i - 1]);
        }
        lemma_put_at(d, x, i);
        if i > 0 && s[i - 1].operation_id == x.operation_id {
            assert(put(s, x) =~= s.update(i - 1, x));
        } else {
            assert(put(s, x) =~= s.insert(i, x));
        }
    }
}

/// The index of the intent retained for an operation, if any.
fn find_intent(v: &Vec<LifecycleIntent>, operation_id: u64) -> (r: Option<usize>)
    ensures
        match lookup(intent_views(v@), operation_id) {
            Some(y) => r matches Some(k) && k < v@.len() && v@[k as int]@ == y,
            None => r is None,
        },
{
    let ghost s = intent_views(v@);
    let mut i: usize = v.len();
    assert(s.take(i as int) =~= s);
    while i > 0
        invariant
            i <= v.len(),
            s == intent_views(v@),
            lookup(s, operation_id) == lookup(s.take(i as int), operation_id),
        decreases i,
    {
        let ghost t = s.take(i as int);
        assert(t.last() == s[i - 1]);
        assert(t.drop_last() =~= s.take(i - 1));
        if v[i - 1].operation_id == operation_id {
            return Some(i - 1);
        }
        i = i - 1;
    }
    assert(s.take(0) =~= Seq::<IntentView>::empty());
    None
}

/// Retains `x` for its operation, in operation order.
fn put_intent(v: &mut Vec<LifecycleIntent>, x: LifecycleIntent)
    requires
        sorted_ops(intent_views(old(v)@)),
    ensures
        intent_views(final(v)@) == put(intent_views(old(v)@), x@),
        sorted_ops(intent_views(final(v)@)),
{
    let ghost s = intent_views(v@);
    let mut i: usize = v.len();
    while i > 0 && v[i - 1].operation_id > x.operation_id
        invariant
            i <= v.len(),
            s == intent_views(v@),
            forall|k: int| i <= k < s.len() ==> s[k].operation_id > x.operation_id,
        decreases i,
    {
        i = i - 1;
    }
    proof {
        lemma_put_at(s, x@, i as int);
    }
    if i > 0 && v[i - 1].operation_id == x.operation_id {
        v.set(i - 1, x);
        proof {
            assert(intent_views(v@) =~= s.update(i - 1, x@));
        }
    } else {
        v.insert(i, x);
        proof {
            assert(intent_views(v@) =~= s.insert(i as int, x@));
        }
    }
}

/// The store's state as plain values: the journal's attempts and the retained
/// intents in operation order.
pub struct StoreView {
    pub journal: Seq<EntryView>,
    pub intents: Seq<IntentView>,
}

/// Durable lifecycle intent: the journal of attempts and the intent records,
/// one per operation, kept in operation order.
pub struct LifecycleIntentStore {
    journal: OperationJournal,
    intents: Vec<LifecycleIntent>,
}

impl View for LifecycleIntentStore {
    type V = StoreView;

    closed spec fn view(&self) -> StoreView {
        StoreView { journal: self.journal@, intents: intent_views(self.intents@) }
    }
}

/// A store's shape: a well-formed journal and intents in operation order.
pub open spec fn store_wf(s: StoreView) -> bool {
    journal_wf(s.journal) && sorted_ops(s.intents)
}

/// Whether the journal retains the attempt of an intent exactly: same
/// sequence, same request digest, and the outcome its classification maps to.
pub open spec fn entry_matches(journal: Seq<EntryView>, y: IntentView) -> bool {
    match find_key(journal, key_of(y.instance_id, y.operation_id)) {
        Some(i) => journal[i].sequence == y.sequence && journal[i].request_digest
            == intent_digest_of(
            y.run_id,
            y.instance_id,
            y.operation_id,
            y.authority_epoch,
            y.action_kind,
        ) && journal[i].outcome == expected_outcome(y.classification),
        None => false,
    }
}

/// The journal and the intent records agree: every intent has its attempt, and
/// the journal holds no attempt without an intent.
pub open spec fn agrees(s: StoreView) -> bool {
    &&& forall|k: int| 0 <= k < s.intents.len() ==> #[trigger] entry_matches(s.journal, s.intents[k])
    &&& s.journal.len() == s.intents.len()
}

/// Whether a later record of an operation continues the earlier one: the same
/// identity and facts, and an outcome the journal may move to.
pub open spec fn continues(previous: IntentView, record: IntentView) -> bool {
    &&& previous.sequence == record.sequence
    &&& previous.command_id == record.command_id
    &&& previous.run_id == record.run_id
    &&& previous.instance_id == record.instance_id
    &&& previous.authority_epoch == record.authority_epoch
    &&& previous.action_kind == record.action_kind
    &&& transition_allowed(
        expected_outcome(previous.classification),
        expected_outcome(record.classification),
    )
}

/// Replays intent records in order, keeping the latest record per operation;
/// `None` when a first record has no journal sequence or a later one does not
/// continue the earlier.
pub open spec fn replay(records: Seq<IntentView>) -> Option<Seq<IntentView>>
    decreases records.len(),
{
    if records.len() == 0 {
        Some(Seq::empty())
    } else {
        match replay(records.drop_last()) {
            None => None,
            Some(s) => {
                let r = records.last();
                match lookup(s, r.operation_id) {
                    None => if r.sequence == 0 {
                        None
                    } else {
                        Some(put(s, r))
                    },
                    Some(p) => if continues(p, r) {
                        Some(put(s, r))
                    } else {
                        None
                    },
                }
            },
        }
    }
}

/// The refusal every disagreement between the durable records is reported as.
pub open spec fn corrupt() -> Refusal {
    refusal(ErrorClass::Store, "lifecycle_intent_corrupt")
}

/// Recording an intent: the store afterwards and the result.
pub open spec fn record_step(
    s: StoreView,
    command_id: Seq<char>,
    run_id: Seq<char>,
    instance_id: Seq<char>,
    operation_id: u64,
    authority_epoch: u64,
    action_kind: Seq<char>,
) -> (StoreView, Result<IntentView, Refusal>) {
    match find_key(s.journal, key_of(instance_id, operation_id)) {
        None => if s.journal.len() + 1 > u64::MAX {
            (s, Err(refusal(ErrorClass::Store, "lifecycle_journal_unavailable")))
        } else {
            let sequence = (s.journal.len() + 1) as u64;
            let x = IntentView {
                command_id,
                run_id,
                operation_id,
                authority_epoch,
                instance_id,
                action_kind,
                classification: None,
                operation_state: None,
                state: None,
                failure: None,
                sequence,
            };
            let entry = EntryView {
                key: key_of(instance_id, operation_id),
                request_digest: intent_digest_of(
                    run_id,
                    instance_id,
                    operation_id,
                    authority_epoch,
                    action_kind,
                ),
                sequence,
                outcome: JournalOutcome::Pending,
            };
            (StoreView { journal: s.journal.push(entry), intents: put(s.intents, x) }, Ok(x))
        },
        Some(_) => match lookup(s.intents, operation_id) {
            None => (s, Err(refusal(ErrorClass::Store, "lifecycle_intent_missing"))),
            Some(retained) => if retained.authority_epoch != authority_epoch
                || retained.action_kind != action_kind || retained.run_id != run_id {
                (s, Err(refusal(ErrorClass::Conflict, "lifecycle_operation_conflict")))
            } else {
                (s, Ok(retained))
            },
        },
    }
}

/// Completing an intent: the store afterwards and the result.
pub open spec fn complete_step(
    s: StoreView,
    instance_id: Seq<char>,
    operation_id: u64,
    classification: LifecycleClassification,
    operation_state: LifecycleOperationState,
    state: LifecycleState,
    failure: Option<FailureView>,
) -> (StoreView, Result<IntentView, Refusal>) {
    match find_key(s.journal, key_of(instance_id, operation_id)) {
        None => (s, Err(refusal(ErrorClass::Store, "lifecycle_journal_unavailable"))),
        Some(i) => if !transition_allowed(
            s.journal[i].outcome,
            journal_outcome_of(classification),
        ) {
            (s, Err(refusal(ErrorClass::Store, "lifecycle_journal_unavailable")))
        } else {
            let journal = s.journal.update(
                i,
                EntryView { outcome: journal_outcome_of(classification), ..s.journal[i] },
            );
            match lookup(s.intents, operation_id) {
                None => (
                    StoreView { journal, intents: s.intents },
                    Err(refusal(ErrorClass::Store, "lifecycle_intent_missing")),
                ),
                Some(retained) => {
                    let x = IntentView {
                        classification: Some(classification),
                        operation_state: Some(operation_state),
                        state: Some(state),
                        failure,
                        ..retained
                    };
                    (StoreView { journal, intents: put(s.intents, x) }, Ok(x))
                },
            }
        },
    }
}

/// A replay that failed on a prefix fails on the whole.
proof fn lemma_replay_prefix(records: Seq<IntentView>, k: int)
    requires
        0 <= k <= records.len(),
        replay(records.take(k)) is None,
    ensures
        replay(records) is None,
    decreases records.len() - k,
{
    if k == records.len() {
        assert(records.take(k) =~= records);
    } else {
        assert(records.take(k + 1).drop_last() =~= records.take(k));
        lemma_replay_prefix(records, k + 1);
    }
}

/// The next step of filtering a prefix.
proof fn lemma_unresolved_step(s: Seq<IntentView>, i: int)
    requires
        0 <= i < s.len(),
    ensures
        s.take(i + 1).filter(|x: IntentView| unresolved_view(x)) == if unresolved_view(s[i]) {
            s.take(i).filter(|x: IntentView| unresolved_view(x)).push(s[i])
        } else {
            s.take(i).filter(|x: IntentView| unresolved_view(x))
        },
{
    reveal(Seq::filter);
    assert(s.take(i + 1).drop_last() =~= s.take(i));
}

fn corrupt_error(message: &str) -> (e: ManagementError)
    ensures
        e.refusal() == corrupt(),
{
    ManagementError::store("lifecycle_intent_corrupt", message)
}

/// Whether a later record continues the earlier one; see [`continues`].
fn record_continues(previous: &LifecycleIntent, record: &LifecycleIntent) -> (r: bool)
    ensures
        r == continues(previous@, record@),
{
    previous.sequence == record.sequence && previous.command_id == record.command_id
        && previous.run_id == record.run_id && previous.instance_id == record.instance_id
        && previous.authority_epoch == record.authority_epoch && previous.action_kind
        == record.action_kind && outcome_transition_allowed(
        previous.classification,
        record.classification,
    )
}

impl LifecycleIntentStore {
    /// An empty store over an empty journal.
    pub fn new() -> (r: Self)
        ensures
            r@.journal.len() == 0,
            r@.intents.len() == 0,
            store_wf(r@),
            agrees(r@),
    {
        let r = LifecycleIntentStore { journal: OperationJournal::new(), intents: Vec::new() };
        proof {
            assert(intent_views(r.intents@) =~= Seq::<IntentView>::empty());
        }
        r
    }

    /// Restores a store from its journal and its intent records in the order
    /// they were written: the latest record per operation is retained, and the
    /// records and the journal must agree exactly. Any disagreement fails
    /// closed as `lifecycle_intent_corrupt`.
    pub fn restore(journal: OperationJournal, records: Vec<LifecycleIntent>) -> (r: Result<
        Self,
        ManagementError,
    >)
        ensures
            match r {
                Ok(s) => replay(intent_views(records@)) == Some(s@.intents) && s@.journal
                    == journal@ && agrees(s@) && store_wf(s@),
                Err(e) => e.refusal() == corrupt() && !(replay(intent_views(records@)) matches Some(
                    t,
                ) && agrees(StoreView { journal: journal@, intents: t })),
            },
    {
        let ghost views = intent_views(records@);
        let mut intents: Vec<LifecycleIntent> = Vec::new();
        let mut k: usize = 0;
        proof {
            assert(views.take(0) =~= Seq::<IntentView>::empty());
            assert(intent_views(intents@) =~= Seq::<IntentView>::empty());
        }
        while k < records.len()
            invariant
                k <= records.len(),
                views == intent_views(records@),
                replay(views.take(k as int)) == Some(intent_views(intents@)),
                sorted_ops(intent_views(intents@)),
            decreases records.len() - k,
        {
            let record = &records[k];
            proof {
                assert(views.take(k + 1).drop_last() =~= views.take(k as int));
                assert(views.take(k + 1).last() == record@);
            }
            match find_intent(&intents, record.operation_id) {
                None => {
                    if record.sequence == 0 {
                        proof {
                            lemma_replay_prefix(views, k + 1);
                        }
                        return Err(corrupt_error("durable lifecycle intent has no journal sequence"));
                    }
                },
                Some(i) => {
                    if !record_continues(&intents[i], record) {
                        proof {
                            lemma_replay_prefix(views, k + 1);
                        }
                        return Err(
                            corrupt_error("durable lifecycle intent history is inconsistent"),
                        );
                    }
                },
            }
            put_intent(&mut intents, record.clone());
            k = k + 1;
        }
        proof {
            assert(views.take(records.len() as int) =~= views);
        }
        let ghost t = intent_views(intents@);
        let mut i: usize = 0;
        while i < intents.len()
            invariant
                i <= intents.len(),
                t == intent_views(intents@),
                views == intent_views(records@),
                replay(views) == Some(t),
                sorted_ops(t),
                forall|j: int| 0 <= j < i ==> #[trigger] entry_matches(journal@, t[j]),
            decreases intents.len() - i,
        {
            let x = &intents[i];
            let key = journal_key(x.instance_id.as_str(), x.operation_id);
            match journal.entry(&key) {
                None => {
                    assert(!entry_matches(journal@, t[i as int]));
                    return Err(corrupt_error("durable lifecycle intent has no journal attempt"));
                },
                Some(e) => {
                    let digest = intent_digest(
                        x.run_id.as_str(),
                        x.instance_id.as_str(),
                        x.operation_id,
                        x.authority_epoch,
                        x.action_kind.as_str(),
                    );
                    if e.sequence != x.sequence || !(e.request_digest == digest) {
                        assert(!entry_matches(journal@, t[i as int]));
                        return Err(
                            corrupt_error(
                                "durable lifecycle intent disagrees with its journal attempt",
                            ),
                        );
                    }
                    if expected(x.classification) != e.outcome {
                        assert(!entry_matches(journal@, t[i as int]));
                        return Err(
                            corrupt_error(
                                "durable lifecycle intent outcome disagrees with its journal attempt",
                            ),
                        );
                    }
                },
            }
            i = i + 1;
        }
        if journal.len() != intents.len() {
            return Err(
                corrupt_error("durable lifecycle journal holds an attempt with no intent record"),
            );
        }
        Ok(LifecycleIntentStore { journal, intents })
    }

    /// Records intent for one operation before any effect is attempted.
    ///
    /// Replaying an identical intent returns the retained record rather than
    /// creating a second one, so a duplicate submission cannot produce two
    /// effects. Reusing the operation identity with a different intent is a
    /// conflict and is refused. See [`record_step`].
    pub fn record_intent(
        &mut self,
        command_id: &str,
        run_id: &str,
        instance_id: &str,
        operation_id: u64,
        authority_epoch: u64,
        action: &LifecycleAction,
    ) -> (r: Result<LifecycleIntent, ManagementError>)
        requires
            store_wf(old(self)@),
        ensures
            store_wf(final(self)@),
            final(self)@ == record_step(
                old(self)@,
                command_id@,
                run_id@,
                instance_id@,
                operation_id,
                authority_epoch,
                spec_action_kind(*action),
            ).0,
            match record_step(
                old(self)@,
                command_id@,
                run_id@,
                instance_id@,
                operation_id,
                authority_epoch,
                spec_action_kind(*action),
            ).1 {
                Ok(x) => r matches Ok(y) && y@ == x,
                Err(f) => r matches Err(e) && e.refusal() == f,
            },
    {
        let kind = action.kind();
        let digest = intent_digest(run_id, instance_id, operation_id, authority_epoch, kind);
        let key = journal_key(instance_id, operation_id);
        match self.journal.begin(key, digest.as_str()) {
            Err(e) => Err(
                ManagementError::store("lifecycle_journal_unavailable", e.message().as_str()),
            ),
            Ok(JournalDecision::Started(sequence)) => {
                let intent = LifecycleIntent {
                    command_id: command_id.to_owned(),
                    run_id: run_id.to_owned(),
                    operation_id,
                    authority_epoch,
                    instance_id: instance_id.to_owned(),
                    action_kind: kind.to_owned(),
                    classification: None,
                    operation_state: None,
                    state: None,
                    failure: None,
                    sequence,
                };
                put_intent(&mut self.intents, intent.clone());
                Ok(intent)
            },
            Ok(JournalDecision::Existing(_)) => {
                match find_intent(&self.intents, operation_id) {
                    None => Err(
                        ManagementError::store(
                            "lifecycle_intent_missing",
                            "durable lifecycle intent could not be reconstructed",
                        ),
                    ),
                    Some(i) => {
                        let retained = &self.intents[i];
                        if retained.authority_epoch != authority_epoch || !text_is(
                            &retained.action_kind,
                            kind,
                        ) || !text_is(&retained.run_id, run_id) {
                            return Err(
                                ManagementError::conflict(
                                    "lifecycle_operation_conflict",
                                    "operation identity was already used for a different lifecycle intent",
                                ),
                            );
                        }
                        Ok(retained.clone())
                    },
                }
            },
        }
    }

    /// Records the settled outcome of a recorded intent. See [`complete_step`].
    pub fn complete(
        &mut self,
        instance_id: &str,
        operation_id: u64,
        classification: LifecycleClassification,
        operation_state: LifecycleOperationState,
        state: LifecycleState,
        failure: Option<LifecycleFailure>,
    ) -> (r: Result<LifecycleIntent, ManagementError>)
        requires
            store_wf(old(self)@),
        ensures
            store_wf(final(self)@),
            final(self)@ == complete_step(
                old(self)@,
                instance_id@,
                operation_id,
                classification,
                operation_state,
                state,
                failure_view(failure),
            ).0,
            match complete_step(
                old(self)@,
                instance_id@,
                operation_id,
                classification,
                operation_state,
                state,
                failure_view(failure),
            ).1 {
                Ok(x) => r matches Ok(y) && y@ == x,
                Err(f) => r matches Err(e) && e.refusal() == f,
            },
    {
        let key = journal_key(instance_id, operation_id);
        match self.journal.complete(&key, journal_outcome(classification)) {
            Err(e) => Err(
                ManagementError::store("lifecycle_journal_unavailable", e.message().as_str()),
            ),
            Ok(()) => match find_intent(&self.intents, operation_id) {
                None => Err(
                    ManagementError::store(
                        "lifecycle_intent_missing",
                        "lifecycle outcome has no durable intent",
                    ),
                ),
                Some(i) => {
                    let mut x = self.intents[i].clone();
                    x.classification = Some(classification);
                    x.operation_state = Some(operation_state);
                    x.state = Some(state);
                    x.failure = failure;
                    put_intent(&mut self.intents, x.clone());
                    Ok(x)
                },
            },
        }
    }

    /// The journal of attempts the intents are recorded in.
    pub fn journal(&self) -> (r: &OperationJournal)
        ensures
            r@ == self@.journal,
    {
        &self.journal
    }

    /// The retained intent for one operation.
    pub fn intent(&self, operation_id: u64) -> (r: Option<&LifecycleIntent>)
        ensures
            match lookup(self@.intents, operation_id) {
                Some(y) => r matches Some(x) && x@ == y,
                None => r is None,
            },
    {
        match find_intent(&self.intents, operation_id) {
            Some(i) => Some(&self.intents[i]),
            None => None,
        }
    }

    /// Every retained intent, ordered by operation identity.
    pub fn intents(&self) -> (r: &[LifecycleIntent])
        ensures
            intent_views(r@) == self@.intents,
    {
        self.intents.as_slice()
    }

    /// The retained intents that still need reconciliation, in operation order.
    pub fn unresolved(&self) -> (r: Vec<LifecycleIntent>)
        ensures
            intent_views(r@) == self@.intents.filter(|x: IntentView| unresolved_view(x)),
    {
        let ghost s = intent_views(self.intents@);
        let mut out: Vec<LifecycleIntent> = Vec::new();
        let mut i: usize = 0;
        proof {
            reveal(Seq::filter);
            assert(s.take(0) =~= Seq::<IntentView>::empty());
            assert(intent_views(out@) =~= Seq::<IntentView>::empty());
        }
        while i < self.intents.len()
            invariant
                i <= self.intents.len(),
                s == intent_views(self.intents@),
                intent_views(out@) == s.take(i as int).filter(|x: IntentView| unresolved_view(x)),
            decreases self.intents.len() - i,
        {
            proof {
                lemma_unresolved_step(s, i as int);
            }
            if self.intents[i].is_unresolved() {
                let ghost before = out@;
                out.push(self.intents[i].clone());
                assert(intent_views(out@) =~= intent_views(before).push(s[i as int]));
            }
            i = i + 1;
        }
        assert(s.take(self.intents.len() as int) =~= s);
        out
    }

    /// True when a stop settled for this instance before the given sequence.
    ///
    /// Stop dominance: a start admitted after a settled stop is refused rather
    /// than issued, because the operator's stop is the earlier, still-standing
    /// decision. Ordering is the durable sequence, so the fence survives a
    /// restart.
    pub fn stop_dominates(&self, instance_id: &str, at_sequence: u64) -> (r: bool)
        ensures
            r == exists|k: int|
                0 <= k < self@.intents.len() && #[trigger] self@.intents[k].instance_id
                    == instance_id@ && self@.intents[k].sequence < at_sequence
                    && self@.intents[k].classification == Some(LifecycleClassification::Stopped),
    {
        let ghost s = intent_views(self.intents@);
        let mut i: usize = 0;
        while i < self.intents.len()
            invariant
                i <= self.intents.len(),
                s == intent_views(self.intents@),
                forall|k: int|
                    0 <= k < i ==> !(#[trigger] s[k].instance_id == instance_id@ && s[k].sequence
                        < at_sequence && s[k].classification == Some(
                        LifecycleClassification::Stopped,
                    )),
            decreases self.intents.len() - i,
        {
            let x = &self.intents[i];
            if text_is(&x.instance_id, instance_id) && x.sequence < at_sequence
                && x.classification == Some(LifecycleClassification::Stopped) {
                assert(s[i as int].instance_id == instance_id@);
                return true;
            }
            i = i + 1;
        }
        false
    }

    /// The highest sequence this store has issued, or zero when it is empty.
    pub fn latest_sequence(&self) -> (r: u64)
        ensures
            forall|k: int| 0 <= k < self@.intents.len() ==> #[trigger] self@.intents[k].sequence <= r,
            self@.intents.len() == 0 ==> r == 0,
            self@.intents.len() > 0 ==> exists|k: int|
                0 <= k < self@.intents.len() && #[trigger] self@.intents[k].sequence == r,
    {
        let ghost s = intent_views(self.intents@);
        let mut best: u64 = 0;
        let mut i: usize = 0;
        while i < self.intents.len()
            invariant
                i <= self.intents.len(),
                s == intent_views(self.intents@),
                forall|k: int| 0 <= k < i ==> #[trigger] s[k].sequence <= best,
                i == 0 ==> best == 0,
                i > 0 ==> exists|k: int| 0 <= k < i && #[trigger] s[k].sequence == best,
            decreases self.intents.len() - i,
        {
            if i == 0 || self.intents[i].sequence > best {
                best = self.intents[i].sequence;
                assert(s[i as int].sequence == best);
            }
            i = i + 1;
        }
        best
    }
}

} // verus!
