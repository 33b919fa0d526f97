use harness::lifecycle::{
    LaunchProfileId, LifecycleAction, LifecycleClassification, LifecycleFailure,
    LifecycleOperationState, LifecycleState, StopMode,
};
use harness::lifecycle_intent::{
    scan_intent_records, LifecycleIntent, LifecycleIntentStore, ScanStop, MAX_INTENT_RECORD_BYTES,
};
use harness::operation_journal::{JournalEntry, JournalKey, JournalOutcome, OperationJournal};
use harness::ErrorClass;
use sha2::{Digest, Sha256};

fn launch() -> LifecycleAction {
    LifecycleAction::LaunchNew {
        profile_id: LaunchProfileId::new(1).expect("profile"),
    }
}

fn stop() -> LifecycleAction {
    LifecycleAction::Stop {
        mode: StopMode::Graceful,
    }
}

fn hex(bytes: &[u8]) -> String {
    bytes.iter().map(|b| format!("{b:02x}")).collect()
}

#[test]
fn recording_an_intent_starts_one_journal_attempt() {
    let mut store = LifecycleIntentStore::new();
    let intent = store
        .record_intent("cmd-1", "run-1", "instance-1", 7, 3, &launch())
        .expect("a fresh operation is recorded");
    assert_eq!(intent.sequence, 1);
    assert_eq!(intent.action_kind, "launch_new");
    assert!(intent.classification.is_none());
    assert!(intent.is_unresolved());
    assert_eq!(store.latest_sequence(), 1);
    assert_eq!(store.intents().len(), 1);
    assert_eq!(store.unresolved().len(), 1);
    assert_eq!(store.intent(7).expect("retained").run_id, "run-1");
}

#[test]
fn replaying_an_identical_intent_returns_the_retained_record() {
    let mut store = LifecycleIntentStore::new();
    let first = store
        .record_intent("cmd-1", "run-1", "instance-1", 7, 3, &launch())
        .expect("recorded");
    let again = store
        .record_intent("cmd-2", "run-1", "instance-1", 7, 3, &launch())
        .expect("a duplicate submission returns the retained record");
    assert_eq!(again, first);
    assert_eq!(again.command_id, "cmd-1");
    assert_eq!(store.intents().len(), 1);
    assert_eq!(store.latest_sequence(), 1);
}

#[test]
fn reusing_an_operation_identity_for_another_intent_is_a_conflict() {
    let mut store = LifecycleIntentStore::new();
    store
        .record_intent("cmd-1", "run-1", "instance-1", 7, 3, &launch())
        .expect("recorded");
    let error = store
        .record_intent("cmd-2", "run-1", "instance-1", 7, 3, &stop())
        .expect_err("a different action under the same identity conflicts");
    assert_eq!(error.class, ErrorClass::Conflict);
    assert_eq!(error.code, "lifecycle_operation_conflict");
    let error = store
        .record_intent("cmd-3", "run-1", "instance-1", 7, 4, &launch())
        .expect_err("a different epoch under the same identity conflicts");
    assert_eq!(error.code, "lifecycle_operation_conflict");
    let error = store
        .record_intent("cmd-4", "run-2", "instance-1", 7, 3, &launch())
        .expect_err("a different run under the same identity conflicts");
    assert_eq!(error.code, "lifecycle_operation_conflict");
    assert_eq!(store.intents().len(), 1);
}

#[test]
fn completing_an_intent_settles_it_and_a_stop_dominates_later_starts() {
    let mut store = LifecycleIntentStore::new();
    store
        .record_intent("cmd-1", "run-1", "instance-1", 2, 3, &stop())
        .expect("recorded");
    let settled = store
        .complete(
            "instance-1",
            2,
            LifecycleClassification::Stopped,
            LifecycleOperationState::Stopped,
            LifecycleState::Stopped,
            None,
        )
        .expect("settled");
    assert_eq!(settled.classification, Some(LifecycleClassification::Stopped));
    assert!(!settled.is_unresolved());
    let start = store
        .record_intent("cmd-2", "run-1", "instance-1", 5, 3, &launch())
        .expect("recorded");
    assert_eq!(start.sequence, 2);
    assert!(store.stop_dominates("instance-1", start.sequence));
    assert!(!store.stop_dominates("instance-1", 1));
    assert!(!store.stop_dominates("instance-2", start.sequence));
    assert_eq!(store.unresolved().len(), 1);
    assert_eq!(store.unresolved()[0].operation_id, 5);
}

#[test]
fn an_unknown_outcome_may_settle_later_but_a_settled_one_cannot_move() {
    let mut store = LifecycleIntentStore::new();
    store
        .record_intent("cmd-1", "run-1", "instance-1", 9, 1, &launch())
        .expect("recorded");
    let unknown = store
        .complete(
            "instance-1",
            9,
            LifecycleClassification::Unknown,
            LifecycleOperationState::Unknown,
            LifecycleState::Unknown,
            None,
        )
        .expect("unknown");
    assert!(unknown.is_unresolved());
    let accepted = store
        .complete(
            "instance-1",
            9,
            LifecycleClassification::Accepted,
            LifecycleOperationState::Started,
            LifecycleState::Ready,
            None,
        )
        .expect("an unknown outcome settles");
    assert!(!accepted.is_unresolved());
    let error = store
        .complete(
            "instance-1",
            9,
            LifecycleClassification::Rejected,
            LifecycleOperationState::Rejected,
            LifecycleState::Failed,
            Some(LifecycleFailure {
                code: "late".to_owned(),
                detail: None,
            }),
        )
        .expect_err("a settled outcome cannot move");
    assert_eq!(error.code, "lifecycle_journal_unavailable");
    assert_eq!(error.class, ErrorClass::Store);
    let error = store
        .complete(
            "instance-1",
            10,
            LifecycleClassification::Accepted,
            LifecycleOperationState::Started,
            LifecycleState::Ready,
            None,
        )
        .expect_err("an unrecorded operation cannot complete");
    assert_eq!(error.code, "lifecycle_journal_unavailable");
}

fn key(instance: &str, operation: u64) -> JournalKey {
    JournalKey {
        principal: "process-lifecycle".to_owned(),
        instance: instance.to_owned(),
        incarnation: "process-lifecycle-v1".to_owned(),
        operation: format!("op:{operation}"),
        idempotency_key: format!("op-{operation}"),
    }
}

fn digest(run: &str, instance: &str, operation: u64, epoch: u64, kind: &str) -> String {
    let material = format!("{run}\u{1f}{instance}\u{1f}{operation}\u{1f}{epoch}\u{1f}{kind}");
    format!("sha256:{}", hex(&Sha256::digest(material.as_bytes())))
}

fn record(operation: u64, sequence: u64, classification: Option<LifecycleClassification>) -> LifecycleIntent {
    LifecycleIntent {
        command_id: "cmd-1".to_owned(),
        run_id: "run-1".to_owned(),
        operation_id: operation,
        authority_epoch: 3,
        instance_id: "instance-1".to_owned(),
        action_kind: "launch_new".to_owned(),
        classification,
        operation_state: None,
        state: None,
        failure: None,
        sequence,
    }
}

fn journal(entries: Vec<(u64, u64, JournalOutcome)>) -> OperationJournal {
    OperationJournal::restore(
        entries
            .into_iter()
            .map(|(operation, sequence, outcome)| JournalEntry {
                key: key("instance-1", operation),
                request_digest: digest("run-1", "instance-1", operation, 3, "launch_new"),
                sequence,
                outcome,
            })
            .collect(),
    )
    .expect("a shaped journal")
}

#[test]
fn a_restart_replays_the_latest_record_of_each_operation() {
    let store = LifecycleIntentStore::restore(
        journal(vec![(4, 1, JournalOutcome::Accepted), (2, 2, JournalOutcome::Pending)]),
        vec![
            record(4, 1, None),
            record(2, 2, None),
            record(4, 1, Some(LifecycleClassification::Accepted)),
        ],
    )
    .expect("records and journal agree");
    let ids: Vec<u64> = store.intents().iter().map(|i| i.operation_id).collect();
    assert_eq!(ids, vec![2, 4], "intents are ordered by operation identity");
    assert_eq!(
        store.intent(4).expect("retained").classification,
        Some(LifecycleClassification::Accepted)
    );
    assert_eq!(store.latest_sequence(), 2);
}

#[test]
fn a_restart_refuses_records_that_disagree_with_the_journal() {
    let missing_intent = LifecycleIntentStore::restore(
        journal(vec![(4, 1, JournalOutcome::Pending), (5, 2, JournalOutcome::Pending)]),
        vec![record(4, 1, None)],
    );
    assert_eq!(
        missing_intent.err().expect("refused").code,
        "lifecycle_intent_corrupt"
    );
    let wrong_outcome = LifecycleIntentStore::restore(
        journal(vec![(4, 1, JournalOutcome::Pending)]),
        vec![record(4, 1, Some(LifecycleClassification::Rejected))],
    );
    assert_eq!(
        wrong_outcome.err().expect("refused").code,
        "lifecycle_intent_corrupt"
    );
    let no_sequence = LifecycleIntentStore::restore(
        journal(vec![(4, 1, JournalOutcome::Pending)]),
        vec![record(4, 0, None)],
    );
    assert_eq!(no_sequence.err().expect("refused").class, ErrorClass::Store);
    let moved_back = LifecycleIntentStore::restore(
        journal(vec![(4, 1, JournalOutcome::Pending)]),
        vec![
            record(4, 1, Some(LifecycleClassification::Accepted)),
            record(4, 1, None),
        ],
    );
    assert_eq!(
        moved_back.err().expect("refused").code,
        "lifecycle_intent_corrupt"
    );
}

#[test]
fn a_journal_image_out_of_sequence_is_refused() {
    let entries = vec![JournalEntry {
        key: key("instance-1", 1),
        request_digest: "sha256:x".to_owned(),
        sequence: 2,
        outcome: JournalOutcome::Pending,
    }];
    assert!(OperationJournal::restore(entries).is_err());
}

#[test]
fn a_recorded_store_restores_from_what_it_wrote() {
    let mut store = LifecycleIntentStore::new();
    let mut written = Vec::new();
    written.push(
        store
            .record_intent("cmd-1", "run-1", "instance-1", 4, 3, &launch())
            .expect("recorded"),
    );
    written.push(
        store
            .complete(
                "instance-1",
                4,
                LifecycleClassification::Accepted,
                LifecycleOperationState::Started,
                LifecycleState::Ready,
                None,
            )
            .expect("completed"),
    );
    let restored = LifecycleIntentStore::restore(
        journal(vec![(4, 1, JournalOutcome::Accepted)]),
        written,
    )
    .expect("what was written replays");
    assert_eq!(restored.intents(), store.intents());
}

#[test]
fn the_record_scan_keeps_complete_lines_and_reports_a_torn_tail() {
    let scan = scan_intent_records(b"{\"a\":1}\n{\"b\":2}\n{\"c\"", 16);
    assert_eq!(scan.lines, vec![b"{\"a\":1}\n".to_vec(), b"{\"b\":2}\n".to_vec()]);
    assert_eq!(scan.stop, ScanStop::Torn { committed: 16 });

    let whole = scan_intent_records(b"x\ny\n", 16);
    assert_eq!(whole.lines.len(), 2);
    assert_eq!(whole.stop, ScanStop::End);
    assert_eq!(scan_intent_records(b"", 16).stop, ScanStop::End);
}

#[test]
fn the_record_scan_refuses_oversized_lines_and_excess_records() {
    let mut long = vec![b'x'; MAX_INTENT_RECORD_BYTES];
    long.push(b'\n');
    let scan = scan_intent_records(&long, 16);
    assert_eq!(scan.stop, ScanStop::Oversized);
    assert!(scan.lines.is_empty());

    let mut fits = vec![b'x'; MAX_INTENT_RECORD_BYTES - 1];
    fits.push(b'\n');
    assert_eq!(scan_intent_records(&fits, 16).stop, ScanStop::End);

    let scan = scan_intent_records(b"a\nb\nc\n", 2);
    assert_eq!(scan.lines.len(), 2);
    assert_eq!(scan.stop, ScanStop::Capacity);
}
