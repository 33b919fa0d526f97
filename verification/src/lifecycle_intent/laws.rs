//! What recording and completing lifecycle intent keep true across calls.

use vstd::prelude::*;
use crate::digest::{decimal_char, decimal_of};
use crate::lifecycle::{FailureView, LifecycleClassification, LifecycleOperationState, LifecycleState};
use crate::operation_journal::{EntryView, KeyView, find_key, journal_wf};
use super::{
    IntentView, StoreView, agrees, complete_step, entry_matches, key_of, lookup, put, record_step, sorted_ops, store_wf,
};

verus! {

/// In a well-formed journal the attempt found under a key is the one at the
/// index that carries it.
proof fn lemma_find_key_at(j: Seq<EntryView>, key: KeyView, i: int)
    requires
        journal_wf(j),
        0 <= i < j.len(),
        j[i].key == key,
    ensures
        find_key(j, key) == Some(i),
{
}

/// What `find_key` reports lies inside the journal and carries the key.
proof fn lemma_find_key_some(j: Seq<EntryView>, key: KeyView)
    ensures
        find_key(j, key) matches Some(i) ==> 0 <= i < j.len() && j[i].key == key,
        find_key(j, key) is None ==> forall|i: int| 0 <= i < j.len() ==> j[i].key != key,
{
}

/// A decimal rendering has at least one digit, and two or more from ten on.
proof fn lemma_decimal_len(n: nat)
    ensures
        decimal_of(n).len() >= 1,
        n >= 10 ==> decimal_of(n).len() >= 2,
    decreases n,
{
    if n >= 10 {
        lemma_decimal_len(n / 10);
    }
}

/// Distinct digits are distinct characters.
proof fn lemma_digit_injective(a: nat, b: nat)
    requires
        a < 10,
        b < 10,
        decimal_char(a) == decimal_char(b),
    ensures
        a == b,
{
    assert(decimal_char(a) as nat == '0' as nat + a);
    assert(decimal_char(b) as nat == '0' as nat + b);
}

/// Decimal renderings of distinct numbers differ.
proof fn lemma_decimal_injective(a: nat, b: nat)
    requires
        decimal_of(a) == decimal_of(b),
    ensures
        a == b,
    decreases a,
{
    lemma_decimal_len(a);
    lemma_decimal_len(b);
    if a < 10 && b < 10 {
        assert(decimal_of(a)[0] == decimal_char(a));
        assert(decimal_of(b)[0] == decimal_char(b));
        lemma_digit_injective(a, b);
    } else if a >= 10 && b >= 10 {
        let da = decimal_of(a);
        let db = decimal_of(b);
        assert(da.drop_last() =~= decimal_of(a / 10));
        assert(db.drop_last() =~= decimal_of(b / 10));
        assert(da.last() == decimal_char(a % 10));
        assert(db.last() == decimal_char(b % 10));
        lemma_digit_injective(a % 10, b % 10);
        lemma_decimal_injective(a / 10, b / 10);
    } else {
        assert(decimal_of(a).len() != decimal_of(b).len());
    }
}

/// Distinct operations or instances are journalled under distinct keys.
proof fn lemma_key_injective(i1: Seq<char>, o1: u64, i2: Seq<char>, o2: u64)
    requires
        key_of(i1, o1) == key_of(i2, o2),
    ensures
        i1 == i2,
        o1 == o2,
{
    reveal_strlit("op:");
    let a = "op:"@ + decimal_of(o1 as nat);
    let b = "op:"@ + decimal_of(o2 as nat);
    assert(a == b);
    assert(a.subrange(3, a.len() as int) =~= decimal_of(o1 as nat));
    assert(b.subrange(3, b.len() as int) =~= decimal_of(o2 as nat));
    lemma_decimal_injective(o1 as nat, o2 as nat);
}

/// Retaining an intent for an operation that had none adds one intent.
proof fn lemma_put_len(s: Seq<IntentView>, x: IntentView)
    requires
        lookup(s, x.operation_id) is None,
    ensures
        put(s, x).len() == s.len() + 1,
    decreases s.len(),
{
    if s.len() > 0 && s.last().operation_id > x.operation_id {
        lemma_put_len(s.drop_last(), x);
    }
}

/// Retaining an intent for an operation that had one keeps the count.
proof fn lemma_put_len_replace(s: Seq<IntentView>, x: IntentView)
    requires
        sorted_ops(s),
        lookup(s, x.operation_id) is Some,
    ensures
        put(s, x).len() == s.len(),
    decreases s.len(),
{
    super::lemma_lookup_member(s, x.operation_id);
    if s.len() > 0 && s.last().operation_id != x.operation_id {
        if s.last().operation_id < x.operation_id {
            let k = choose|k: int| 0 <= k < s.len() && s[k] == lookup(s, x.operation_id)->0;
            assert(s[k].operation_id < s.last().operation_id || k == s.len() - 1);
        } else {
            assert(sorted_ops(s.drop_last()));
            lemma_put_len_replace(s.drop_last(), x);
        }
    }
}

/// Every intent `put` retains is `x` or an intent of another operation that was
/// retained before.
proof fn lemma_put_members(s: Seq<IntentView>, x: IntentView)
    requires
        sorted_ops(s),
    ensures
        forall|k: int|
            0 <= k < put(s, x).len() ==> #[trigger] put(s, x)[k] == x || exists|j: int|
                0 <= j < s.len() && s[j] == put(s, x)[k] && s[j].operation_id != x.operation_id,
    decreases s.len(),
{
    let p = put(s, x);
    if s.len() == 0 {
    } else if s.last().operation_id == x.operation_id {
        assert forall|k: int| 0 <= k < p.len() implies #[trigger] p[k] == x || exists|j: int|
            0 <= j < s.len() && s[j] == p[k] && s[j].operation_id != x.operation_id by {
            if k < p.len() - 1 {
                assert(p[k] == s[k]);
                assert(s[k].operation_id < s[s.len() - 1].operation_id);
            }
        }
    } else if s.last().operation_id < x.operation_id {
        assert forall|k: int| 0 <= k < p.len() implies #[trigger] p[k] == x || exists|j: int|
            0 <= j < s.len() && s[j] == p[k] && s[j].operation_id != x.operation_id by {
            if k < p.len() - 1 {
                assert(p[k] == s[k]);
                assert(s[k].operation_id <= s[s.len() - 1].operation_id);
            }
        }
    } else {
        let d = s.drop_last();
        assert(sorted_ops(d));
        lemma_put_members(d, x);
        assert forall|k: int| 0 <= k < p.len() implies #[trigger] p[k] == x || exists|j: int|
            0 <= j < s.len() && s[j] == p[k] && s[j].operation_id != x.operation_id by {
            if k < p.len() - 1 {
                assert(p[k] == put(d, x)[k]);
                if put(d, x)[k] != x {
                    let j = choose|j: int|
                        0 <= j < d.len() && d[j] == put(d, x)[k] && d[j].operation_id
                            != x.operation_id;
                    assert(s[j] == d[j]);
                }
            } else {
                assert(p[k] == s[s.len() - 1]);
            }
        }
    }
}

/// Recording an intent again with the same facts returns the retained record
/// and changes nothing, whatever command carries it: a duplicate submission
/// cannot start a second attempt.
pub proof fn lemma_recording_is_idempotent(
    s: StoreView,
    command_id: Seq<char>,
    other_command_id: Seq<char>,
    run_id: Seq<char>,
    instance_id: Seq<char>,
    operation_id: u64,
    authority_epoch: u64,
    action_kind: Seq<char>,
)
    requires
        store_wf(s),
        record_step(s, command_id, run_id, instance_id, operation_id, authority_epoch, action_kind).1 is Ok,
    ensures
        ({
            let (s1, r1) = record_step(
                s,
                command_id,
                run_id,
                instance_id,
                operation_id,
                authority_epoch,
                action_kind,
            );
            record_step(
                s1,
                other_command_id,
                run_id,
                instance_id,
                operation_id,
                authority_epoch,
                action_kind,
            ) == (s1, r1)
        }),
{
    let key = key_of(instance_id, operation_id);
    let (s1, r1) = record_step(s, command_id, run_id, instance_id, operation_id, authority_epoch, action_kind);
    if find_key(s.journal, key) is None {
        let x = r1->Ok_0;
        assert(s1.journal[s.journal.len() as int].key == key);
        lemma_find_key_some(s1.journal, key);
        assert(find_key(s1.journal, key) is Some);
        super::lemma_lookup_put(s.intents, x, operation_id);
    }
}

/// A refused recording leaves the journal and the intents as they were.
pub proof fn lemma_refused_recording_changes_nothing(
    s: StoreView,
    command_id: Seq<char>,
    run_id: Seq<char>,
    instance_id: Seq<char>,
    operation_id: u64,
    authority_epoch: u64,
    action_kind: Seq<char>,
)
    requires
        record_step(s, command_id, run_id, instance_id, operation_id, authority_epoch, action_kind).1 is Err,
    ensures
        record_step(s, command_id, run_id, instance_id, operation_id, authority_epoch, action_kind).0 == s,
{
}

/// In a store whose records agree with its journal, a newly started intent
/// carries a sequence above every retained one: the newest intent is always
/// the latest in durable order.
pub proof fn lemma_new_intent_sequence_is_highest(
    s: StoreView,
    command_id: Seq<char>,
    run_id: Seq<char>,
    instance_id: Seq<char>,
    operation_id: u64,
    authority_epoch: u64,
    action_kind: Seq<char>,
)
    requires
        store_wf(s),
        agrees(s),
        find_key(s.journal, key_of(instance_id, operation_id)) is None,
        record_step(s, command_id, run_id, instance_id, operation_id, authority_epoch, action_kind).1 is Ok,
    ensures
        forall|k: int|
            0 <= k < s.intents.len() ==> #[trigger] s.intents[k].sequence < record_step(
                s,
                command_id,
                run_id,
                instance_id,
                operation_id,
                authority_epoch,
                action_kind,
            ).1->Ok_0.sequence,
{
    assert forall|k: int| 0 <= k < s.intents.len() implies #[trigger] s.intents[k].sequence
        < s.journal.len() + 1 by {
        let y = s.intents[k];
        assert(entry_matches(s.journal, y));
        lemma_find_key_some(s.journal, key_of(y.instance_id, y.operation_id));
    }
}

/// Starting an intent for an operation no intent is retained for keeps the
/// records in agreement with the journal, so a restart replays them.
pub proof fn lemma_agreement_survives_new_intent(
    s: StoreView,
    command_id: Seq<char>,
    run_id: Seq<char>,
    instance_id: Seq<char>,
    operation_id: u64,
    authority_epoch: u64,
    action_kind: Seq<char>,
)
    requires
        store_wf(s),
        agrees(s),
        lookup(s.intents, operation_id) is None,
    ensures
        agrees(record_step(s, command_id, run_id, instance_id, operation_id, authority_epoch, action_kind).0),
{
    let key = key_of(instance_id, operation_id);
    let (s1, r1) = record_step(s, command_id, run_id, instance_id, operation_id, authority_epoch, action_kind);
    lemma_find_key_some(s.journal, key);
    if find_key(s.journal, key) is None && r1 is Ok {
        let x = r1->Ok_0;
        let n = s.journal.len();
        let j1 = s1.journal;
        assert(j1 == s.journal.push(j1[n as int]));
        assert(journal_wf(j1)) by {
            assert forall|a: int, b: int|
                0 <= a < j1.len() && 0 <= b < j1.len() && a != b implies j1[a].key != j1[b].key by {
                if a == n {
                    assert(j1[b] == s.journal[b]);
                } else if b == n {
                    assert(j1[a] == s.journal[a]);
                } else {
                    assert(j1[a] == s.journal[a]);
                    assert(j1[b] == s.journal[b]);
                }
            }
        }
        lemma_put_len(s.intents, x);
        lemma_put_members(s.intents, x);
        assert forall|k: int| 0 <= k < s1.intents.len() implies #[trigger] entry_matches(
            j1,
            s1.intents[k],
        ) by {
            let y = s1.intents[k];
            if y == x {
                lemma_find_key_at(j1, key, n as int);
            } else {
                let jj = choose|jj: int|
                    0 <= jj < s.intents.len() && s.intents[jj] == y && s.intents[jj].operation_id
                        != x.operation_id;
                assert(entry_matches(s.journal, s.intents[jj]));
                let ky = key_of(y.instance_id, y.operation_id);
                lemma_find_key_some(s.journal, ky);
                let iy = find_key(s.journal, ky)->0;
                assert(j1[iy] == s.journal[iy]);
                lemma_find_key_at(j1, ky, iy);
            }
        }
    }
}

/// Completing the intent retained for an instance's operation keeps the
/// records in agreement with the journal, so a restart replays them.
pub proof fn lemma_agreement_survives_completion(
    s: StoreView,
    instance_id: Seq<char>,
    operation_id: u64,
    classification: LifecycleClassification,
    operation_state: LifecycleOperationState,
    state: LifecycleState,
    failure: Option<FailureView>,
)
    requires
        store_wf(s),
        agrees(s),
        lookup(s.intents, operation_id) matches Some(y) && y.instance_id == instance_id,
    ensures
        agrees(complete_step(s, instance_id, operation_id, classification, operation_state, state, failure).0),
{
    let key = key_of(instance_id, operation_id);
    let (s1, r1) = complete_step(s, instance_id, operation_id, classification, operation_state, state, failure);
    let retained = lookup(s.intents, operation_id)->0;
    super::lemma_lookup_member(s.intents, operation_id);
    let kr = choose|k: int| 0 <= k < s.intents.len() && s.intents[k] == retained;
    assert(entry_matches(s.journal, s.intents[kr]));
    lemma_find_key_some(s.journal, key);
    if r1 is Ok {
        let i = find_key(s.journal, key)->0;
        let x = r1->Ok_0;
        let j1 = s1.journal;
        assert(journal_wf(j1)) by {
            assert forall|a: int| 0 <= a < j1.len() implies #[trigger] j1[a].sequence == a + 1 by {
                assert(s.journal[a].sequence == a + 1);
            }
            assert forall|a: int, b: int|
                0 <= a < j1.len() && 0 <= b < j1.len() && a != b implies j1[a].key != j1[b].key by {
                assert(j1[a].key == s.journal[a].key);
                assert(j1[b].key == s.journal[b].key);
            }
        }
        lemma_put_len_replace(s.intents, x);
        lemma_put_members(s.intents, x);
        assert forall|k: int| 0 <= k < s1.intents.len() implies #[trigger] entry_matches(
            j1,
            s1.intents[k],
        ) by {
            let y = s1.intents[k];
            if y == x {
                lemma_find_key_at(j1, key, i);
            } else {
                let jj = choose|jj: int|
                    0 <= jj < s.intents.len() && s.intents[jj] == y && s.intents[jj].operation_id
                        != x.operation_id;
                assert(entry_matches(s.journal, s.intents[jj]));
                let ky = key_of(y.instance_id, y.operation_id);
                lemma_find_key_some(s.journal, ky);
                let iy = find_key(s.journal, ky)->0;
                if iy == i {
                    lemma_key_injective(y.instance_id, y.operation_id, instance_id, operation_id);
                }
                assert(j1[iy] == s.journal[iy]);
                lemma_find_key_at(j1, ky, iy);
            }
        }
    }
}

} // verus!
