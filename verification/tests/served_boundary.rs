use harness::ErrorClass;
use harness::served_boundary::{
    adapter_support, advertised_exact_adapters, boundary_attempt_id, boundary_fences, dispatch_id,
    fence_binding, identity_attempt_id, ContextRenderSourceIdentity, RenderBoundary,
    BoundaryCaptureSink, CaptureBoundary, CaptureComponent, CaptureComponentKind, DispatchError,
    DispatchLedger, DispatchLedgerError, DispatchLedgerPort, DispatchOutcome, DispatchReceipt,
    DurableDispatchLedger, EffectiveContextClaim, InMemoryDispatchLedgerPort,
    PreparedApplicationInput, ServedBoundaryLedger, ServedDispatchLedger, DISPATCH_LEDGER_SCHEMA,
};
use harness::served_boundary::{LoggedCapture, LoggedExchange};
use harness::served_boundary::{
    dispatch_refusal, CapturePort, ManagedBoundary, NoopDispatchLedgerPort, PreparedExchange,
    ServedBoundaryPort,
};
use harness::live_node::Decision;
use harness::served_live::ProviderFailure;
use std::cell::RefCell;
use std::rc::Rc;
use sha2::{Digest, Sha256};

/// A durable ledger port whose load and save behaviour is scripted.
#[derive(Debug)]
struct ScriptedLedgerPort {
    loaded: Result<Option<DurableDispatchLedger>, DispatchLedgerError>,
    save_error: Option<DispatchLedgerError>,
}

impl DispatchLedgerPort for ScriptedLedgerPort {
    fn load(&mut self) -> Result<Option<DurableDispatchLedger>, DispatchLedgerError> {
        self.loaded.clone()
    }

    fn save(&mut self, _ledger: &DurableDispatchLedger) -> Result<(), DispatchLedgerError> {
        match self.save_error {
            Some(error) => Err(error),
            None => Ok(()),
        }
    }
}

fn receipt(dispatch: &str, outcome: DispatchOutcome) -> DispatchReceipt {
    DispatchReceipt {
        dispatch_id: dispatch.to_owned(),
        execution_id: "model-execution-1".to_owned(),
        attempt_id: "exo-attempt.1".to_owned(),
        outcome,
    }
}

fn hex(bytes: &[u8]) -> String {
    bytes.iter().map(|b| format!("{b:02x}")).collect()
}

#[test]
fn served_boundary_refuses_a_store_it_cannot_read() {
    let store = ServedDispatchLedger::new(ScriptedLedgerPort {
        loaded: Err(DispatchLedgerError::Unavailable),
        save_error: None,
    });

    let error = ServedBoundaryLedger::restored(store)
        .err()
        .expect("an unreadable store leaves the recorded receipts unknown")
        .error;

    assert_eq!(error.code, "prepared_boundary_ledger_unavailable");
    assert_eq!(error.class, ErrorClass::Unavailable);
}

#[test]
fn served_boundary_refuses_a_store_whose_image_is_inconsistent() {
    let mut image = DispatchLedger::new().durable();
    image.schema = "ascension.dispatch-ledger.v2".to_owned();
    let store = ServedDispatchLedger::new(ScriptedLedgerPort {
        loaded: Ok(Some(image)),
        save_error: None,
    });

    let error = ServedBoundaryLedger::restored(store)
        .err()
        .expect("an image that cannot be trusted refuses")
        .error;

    assert_eq!(error.code, "prepared_boundary_ledger_inconsistent");
    assert_eq!(error.class, ErrorClass::Unavailable);
}

#[test]
fn served_boundary_never_claims_exactness_for_an_unadvertised_adapter() {
    let bytes = b"{\"decision\":\"wait\"}";
    let components = [CaptureComponent {
        kind: CaptureComponentKind::Stdin,
        ordinal: 0,
        media_type: "application/json".to_owned(),
        bytes: bytes.to_vec(),
    }];

    assert_eq!(
        adapter_support("native").claim(),
        EffectiveContextClaim::Unsupported
    );
    assert!(adapter_support("native").exact_boundary().is_none());
    assert!(
        !advertised_exact_adapters()
            .iter()
            .any(|(adapter_id, _)| *adapter_id == "native")
    );
    assert_eq!(
        PreparedApplicationInput::prepare("native", "model-execution-1", None, &components),
        Err(DispatchError::UnsupportedAdapter)
    );
    assert_eq!(
        adapter_support("exo").exact_boundary(),
        Some(CaptureBoundary::ExoSessionRequest)
    );
}

#[test]
fn the_served_recording_default_can_record_a_boundary() {
    let sink =
        BoundaryCaptureSink::memory_ring().expect("the served ring bounds are the module limits");
    assert!(
        sink.enabled(),
        "the served default must be a recording sink, not the inert default"
    );
}

#[test]
fn the_disabled_sink_cannot_record_and_ring_bounds_are_checked() {
    assert!(!BoundaryCaptureSink::disabled().enabled());
    assert!(BoundaryCaptureSink::ring(0, 1).is_err());
    assert!(BoundaryCaptureSink::ring(1, 0).is_err());
    assert!(BoundaryCaptureSink::ring(1, 1).expect("positive bounds").enabled());
}

#[test]
fn an_exo_approval_holds_exactly_one_component() {
    let component = CaptureComponent {
        kind: CaptureComponentKind::Stdin,
        ordinal: 0,
        media_type: "application/json".to_owned(),
        bytes: b"{}".to_vec(),
    };
    let approved = PreparedApplicationInput::prepare(
        "exo",
        "model-execution-1",
        Some("exo-attempt.1"),
        std::slice::from_ref(&component),
    )
    .expect("an advertised adapter with one component is approved");
    assert_eq!(approved.boundary, CaptureBoundary::ExoSessionRequest);
    assert_eq!(approved.components.len(), 1);
    assert_eq!(
        PreparedApplicationInput::prepare("exo", "model-execution-1", None, &[]),
        Err(DispatchError::InvalidMaterial)
    );
    assert_eq!(
        PreparedApplicationInput::prepare("exo", "bad id", None, std::slice::from_ref(&component)),
        Err(DispatchError::InvalidMaterial)
    );
}

#[test]
fn a_restarted_boundary_reloads_the_committed_receipt_and_refuses_a_second_write() {
    let first_store = ServedDispatchLedger::new(InMemoryDispatchLedgerPort::new());
    let mut first = ServedBoundaryLedger::restored(first_store).ok().expect("an empty store restores");
    let id = dispatch_id("model-execution-1");
    first.admit_release(&id).expect("nothing was written yet");
    first
        .retain_receipt(receipt(&id, DispatchOutcome::Completed))
        .expect("the in-memory store accepts the image");
    let error = first.admit_release(&id).expect_err("the approval was already written");
    assert_eq!(error.code, "prepared_boundary_already_recorded");
    assert_eq!(error.class, ErrorClass::Unresolved);

    // A restart reloads the image the first session persisted.
    let mut image_store = InMemoryDispatchLedgerPort::new();
    let mut image = DispatchLedger::new();
    image.record_receipt(receipt(&id, DispatchOutcome::Completed));
    image_store.save(&image.durable()).expect("saved");
    let second = ServedBoundaryLedger::restored(ServedDispatchLedger::new(image_store))
        .ok()
        .expect("a consistent image restores");
    assert!(second.receipt(&id).is_some());
    assert!(second.admit_release(&id).is_err());
}

#[test]
fn an_image_holding_one_dispatch_twice_is_inconsistent() {
    let image = DurableDispatchLedger {
        schema: DISPATCH_LEDGER_SCHEMA.to_owned(),
        receipts: vec![
            receipt("exo.a", DispatchOutcome::Completed),
            receipt("exo.a", DispatchOutcome::Indeterminate),
        ],
    };
    assert_eq!(image.restore().err(), Some(DispatchLedgerError::Inconsistent));
    let error = ServedBoundaryLedger::restored(ServedDispatchLedger::new(ScriptedLedgerPort {
        loaded: Ok(Some(image)),
        save_error: None,
    }))
    .err()
    .expect("a duplicated dispatch cannot be trusted")
    .error;
    assert_eq!(error.code, "prepared_boundary_ledger_inconsistent");
}

#[test]
fn recording_a_receipt_replaces_the_one_retained_for_its_dispatch() {
    let mut ledger = DispatchLedger::new();
    ledger.record_receipt(receipt("exo.a", DispatchOutcome::Indeterminate));
    ledger.record_receipt(receipt("exo.b", DispatchOutcome::Completed));
    ledger.record_receipt(receipt("exo.a", DispatchOutcome::Completed));
    assert_eq!(
        ledger.receipt("exo.a").expect("retained").outcome,
        DispatchOutcome::Completed
    );
    assert_eq!(ledger.durable().receipts.len(), 2);
    assert!(ledger.receipt("exo.c").is_none());
}

#[test]
fn an_unwritable_store_reports_an_unresolved_outcome() {
    let store = ServedDispatchLedger::new(ScriptedLedgerPort {
        loaded: Ok(None),
        save_error: Some(DispatchLedgerError::Unavailable),
    });
    let mut ledger = ServedBoundaryLedger::restored(store).ok().expect("no image restores empty");
    let error = ledger
        .retain_receipt(receipt("exo.a", DispatchOutcome::Completed))
        .expect_err("the image could not be written");
    assert_eq!(error.class, ErrorClass::Unresolved);
    assert_eq!(error.code, "prepared_boundary_ledger_unavailable");
    assert!(ledger.receipt("exo.a").is_some(), "the receipt is still retained");
}

#[test]
fn settling_a_release_retains_only_what_may_have_reached_the_provider() {
    let store = ServedDispatchLedger::new(InMemoryDispatchLedgerPort::new());
    let mut ledger = ServedBoundaryLedger::restored(store).ok().expect("restores");

    let decided = ledger
        .settle_release(Ok((Some(7u32), receipt("exo.a", DispatchOutcome::Completed))), None)
        .expect("a completed release yields its decision");
    assert_eq!(decided, 7);
    assert!(ledger.receipt("exo.a").is_some());

    let without = ledger
        .settle_release::<u32>(Ok((None, receipt("exo.b", DispatchOutcome::Completed))), None)
        .expect_err("a release without a fresh decision was already written");
    assert_eq!(without.code, "prepared_boundary_already_recorded");

    let refused = harness::ManagementError {
        class: ErrorClass::Capability,
        code: "prepared_boundary_unsupported".to_owned(),
        message: "refused".to_owned(),
    };
    let error = ledger
        .settle_release::<u32>(
            Err(refused),
            Some(receipt("exo.c", DispatchOutcome::Indeterminate)),
        )
        .expect_err("a refusal stays a refusal");
    assert_eq!(error.code, "prepared_boundary_unsupported");
    assert!(ledger.receipt("exo.c").is_none(), "a refusal before the write retains nothing");

    let unresolved = harness::ManagementError {
        class: ErrorClass::Unresolved,
        code: "provider_decision_failed".to_owned(),
        message: "lost reply".to_owned(),
    };
    ledger
        .settle_release::<u32>(
            Err(unresolved),
            Some(receipt("exo.d", DispatchOutcome::Indeterminate)),
        )
        .expect_err("an unresolved outcome stays unresolved");
    assert!(ledger.receipt("exo.d").is_some(), "an unresolved write retains its receipt");
}

#[test]
fn the_dispatch_identity_is_the_exo_prefix_of_the_execution_digest() {
    let digest = hex(&Sha256::digest(b"model-execution-1"));
    assert_eq!(dispatch_id("model-execution-1"), format!("exo.{}", &digest[..32]));
}

#[test]
fn the_fence_binding_is_the_length_prefixed_domain_digest() {
    let mut hasher = Sha256::new();
    hasher.update(b"ascension.served-boundary-fence.v1\0");
    hasher.update(7u64.to_be_bytes());
    hasher.update(b"attempt");
    hasher.update(2u64.to_be_bytes());
    hasher.update(11u64.to_be_bytes());
    hasher.update(b"invocation1");
    hasher.update(17u64.to_be_bytes());
    hasher.update(b"model-execution-1");
    let expected = hex(&hasher.finalize());
    assert_eq!(
        fence_binding("attempt", &["invocation1", "model-execution-1"]),
        expected
    );
    assert_eq!(
        boundary_attempt_id("invocation1", "model-execution-1"),
        format!("exo-attempt.{}", &expected[..32])
    );
}

fn identity(membership: Option<&str>) -> ContextRenderSourceIdentity {
    ContextRenderSourceIdentity {
        boundary: RenderBoundary {
            state_id: "combat-1".to_owned(),
            generation: 12,
            control_version: 4,
            model_revision: "model-rev".to_owned(),
            configuration_sha256: "c".repeat(64),
            adapter_revision: "adapter-rev".to_owned(),
            output_schema_sha256: "o".repeat(64),
            observation_sha256: "s".repeat(64),
            catalog_sha256: "k".repeat(64),
            controller_epoch: 5,
            gate_epoch: 6,
        },
        invocation_id: "invocation1".to_owned(),
        instance_id: "instance-1".to_owned(),
        lease_id: "lease-1".to_owned(),
        lease_epoch: 9,
        binding_digest: "b".repeat(64),
        active_revision_id: "revision-1".to_owned(),
        source_id: "source-1".to_owned(),
        source_digest: "d".repeat(64),
        membership_digest: membership.map(str::to_owned),
        owner_id: "owner-1".to_owned(),
        binding_id: "binding-1".to_owned(),
        binding_version: 2,
    }
}

#[test]
fn boundary_fences_bind_every_observed_axis() {
    let id = identity(None);
    let fences = boundary_fences(&id, "provider-rev");
    assert_eq!(fences.adapter_id, "exo");
    assert_eq!(fences.model_id, fence_binding("model", &["model-rev", "provider-rev"]));
    assert_eq!(
        fences.state_digest,
        fence_binding("state", &[&"s".repeat(64), "combat-1:12"])
    );
    assert_eq!(fences.catalog_digest, fence_binding("catalog", &[&"k".repeat(64)]));
    assert_eq!(
        fences.auth_digest,
        fence_binding("auth", &["instance-1", "lease-1", "9"])
    );
    assert_eq!(
        fences.compaction_digest,
        fence_binding("compaction", &["<stateless>", "4"])
    );
    assert_eq!(fences.policy_id, fence_binding("policy", &["owner-1", "binding-1"]));
    assert_eq!(
        (fences.policy_version, fences.controller_epoch, fences.gate_epoch, fences.lease_epoch, fences.revocation_epoch),
        (2, 5, 6, 9, 0)
    );
    let member = boundary_fences(&identity(Some("m1")), "provider-rev");
    assert_eq!(member.compaction_digest, fence_binding("compaction", &["m1", "4"]));
    assert_ne!(member.compaction_digest, fences.compaction_digest);
    assert_eq!(
        identity_attempt_id(&id, "model-execution-1"),
        boundary_attempt_id("invocation1", "model-execution-1")
    );
}

/// A sink whose recording is scripted and whose steps are kept in order.
struct ScriptedCapture {
    enabled: bool,
    accept: bool,
    steps: Rc<RefCell<Vec<&'static str>>>,
}

impl CapturePort for ScriptedCapture {
    fn enabled(&self) -> bool {
        self.enabled
    }

    fn prepared_input(&mut self, _input: &PreparedApplicationInput) -> Result<(), ()> {
        self.steps.borrow_mut().push("prepared");
        if self.accept {
            Ok(())
        } else {
            Err(())
        }
    }

    fn write_completed(&mut self, _input: &PreparedApplicationInput) -> Result<(), ()> {
        self.steps.borrow_mut().push("completed");
        Ok(())
    }

    fn write_unknown(&mut self, _input: &PreparedApplicationInput, reason: &str) {
        assert_eq!(reason, "prepared_boundary_transport_unknown");
        self.steps.borrow_mut().push("unknown");
    }
}

struct ScriptedExchange {
    fail: bool,
    steps: Rc<RefCell<Vec<&'static str>>>,
}

impl PreparedExchange for ScriptedExchange {
    fn decide_prepared(&mut self, _provider_bytes: &[u8]) -> Result<Decision, ProviderFailure> {
        self.steps.borrow_mut().push("exchange");
        if self.fail {
            Err(ProviderFailure::Failed {
                message: "no reply".to_owned(),
            })
        } else {
            Ok(Decision::Unavailable)
        }
    }
}

fn approval(bytes: &[u8]) -> PreparedApplicationInput {
    PreparedApplicationInput::prepare(
        "exo",
        "model-execution-1",
        Some("exo-attempt.1"),
        &[CaptureComponent {
            kind: CaptureComponentKind::Stdin,
            ordinal: 0,
            media_type: "application/json".to_owned(),
            bytes: bytes.to_vec(),
        }],
    )
    .expect("approved")
}

/// A write port together with the scripted sink and provider it writes through.
struct ScriptedPort {
    port: ServedBoundaryPort,
    exchange: LoggedExchange<ScriptedExchange>,
    capture: LoggedCapture<ScriptedCapture>,
}

impl ScriptedPort {
    fn write_prepared(&mut self, material: &PreparedApplicationInput) -> Result<usize, DispatchError> {
        self.port
            .write_prepared(&mut self.exchange, &mut self.capture, material)
    }

    fn take_decision(&mut self) -> Option<Decision> {
        self.port.take_decision()
    }

    fn release_error(&mut self, error: DispatchError) -> harness::ManagementError {
        self.port.release_error(error)
    }
}

fn port(enabled: bool, accept: bool, fail: bool) -> (ScriptedPort, Rc<RefCell<Vec<&'static str>>>) {
    let steps = Rc::new(RefCell::new(Vec::new()));
    let port = ScriptedPort {
        port: ServedBoundaryPort::new(b"{\"request\":1}".to_vec()),
        exchange: LoggedExchange::new(ScriptedExchange {
            fail,
            steps: Rc::clone(&steps),
        }),
        capture: LoggedCapture::new(ScriptedCapture {
            enabled,
            accept,
            steps: Rc::clone(&steps),
        }),
    };
    (port, steps)
}

#[test]
fn the_write_port_records_the_approved_bytes_before_the_exchange() {
    let (mut written, steps) = port(true, true, false);
    assert_eq!(written.write_prepared(&approval(b"{\"request\":1}")), Ok(13));
    assert_eq!(*steps.borrow(), vec!["prepared", "exchange", "completed"]);
    assert!(written.take_decision().is_some());
    assert!(written.take_decision().is_none());
}

#[test]
fn the_write_port_refuses_before_the_provider_when_it_cannot_record() {
    let (mut disabled, steps) = port(false, true, false);
    assert_eq!(
        disabled.write_prepared(&approval(b"{\"request\":1}")),
        Err(DispatchError::CaptureDisabled)
    );
    assert!(steps.borrow().is_empty());
    let error = disabled.release_error(DispatchError::CaptureDisabled);
    assert_eq!((error.class, error.code.as_str()), (ErrorClass::Capability, "prepared_boundary_unsupported"));

    let (mut refusing, steps) = port(true, false, false);
    assert_eq!(
        refusing.write_prepared(&approval(b"{\"request\":1}")),
        Err(DispatchError::Capture)
    );
    assert_eq!(*steps.borrow(), vec!["prepared"]);

    let (mut other, steps) = port(true, true, false);
    assert_eq!(
        other.write_prepared(&approval(b"{\"request\":2}")),
        Err(DispatchError::InvalidMaterial)
    );
    assert!(steps.borrow().is_empty(), "a second serialization is never written");
    let error = other.release_error(DispatchError::InvalidMaterial);
    assert_eq!((error.class, error.code.as_str()), (ErrorClass::Conflict, "prepared_boundary_refused"));
}

#[test]
fn a_failed_exchange_is_recorded_unknown_and_reported_unresolved() {
    let (mut lost, steps) = port(true, true, true);
    assert_eq!(
        lost.write_prepared(&approval(b"{\"request\":1}")),
        Err(DispatchError::Indeterminate)
    );
    assert_eq!(*steps.borrow(), vec!["prepared", "exchange", "unknown"]);
    let error = lost.release_error(DispatchError::Indeterminate);
    assert_eq!(
        (error.class, error.code.as_str(), error.message.as_str()),
        (ErrorClass::Unresolved, "provider_decision_failed", "no reply")
    );
    let error = lost.release_error(DispatchError::Indeterminate);
    assert_eq!(
        (error.class, error.code.as_str()),
        (ErrorClass::Unresolved, "prepared_boundary_refused"),
        "after the exchange was attempted a refusal is never clean"
    );
    assert_eq!(
        dispatch_refusal(DispatchError::UnsupportedAdapter).code,
        "prepared_boundary_unsupported"
    );
}

/// A durable port whose image outlives the session that wrote it.
#[derive(Clone, Default)]
struct SharedPort(Rc<RefCell<Option<DurableDispatchLedger>>>);

impl DispatchLedgerPort for SharedPort {
    fn load(&mut self) -> Result<Option<DurableDispatchLedger>, DispatchLedgerError> {
        Ok(self.0.borrow().clone())
    }

    fn save(&mut self, ledger: &DurableDispatchLedger) -> Result<(), DispatchLedgerError> {
        *self.0.borrow_mut() = Some(ledger.clone());
        Ok(())
    }
}

const EXPECTED: &[u8] = b"{\"request\":1}";

fn capture(enabled: bool, steps: &Rc<RefCell<Vec<&'static str>>>) -> ScriptedCapture {
    ScriptedCapture {
        enabled,
        accept: true,
        steps: Rc::clone(steps),
    }
}

fn exchange(fail: bool, steps: &Rc<RefCell<Vec<&'static str>>>) -> ScriptedExchange {
    ScriptedExchange {
        fail,
        steps: Rc::clone(steps),
    }
}

fn exchanges(steps: &Rc<RefCell<Vec<&'static str>>>) -> usize {
    steps.borrow().iter().filter(|s| **s == "exchange").count()
}

#[test]
fn served_managed_boundary_records_the_exact_approved_bytes_before_the_write() {
    let mut ledger =
        ServedBoundaryLedger::restored(ServedDispatchLedger::new(SharedPort::default()))
            .ok()
            .expect("an empty store restores");
    let steps = Rc::new(RefCell::new(Vec::new()));
    let decision = ledger
        .dispatch_managed_boundary(
            &identity(None),
            EXPECTED,
            "provider-rev",
            "model-execution-1",
            &mut LoggedExchange::new(exchange(false, &steps)),
            &mut LoggedCapture::new(capture(true, &steps)),
        )
        .expect("the recorded managed decision is admitted");
    assert!(matches!(decision, Decision::Unavailable));
    assert_eq!(*steps.borrow(), vec!["prepared", "exchange", "completed"]);
    let retained = ledger
        .receipt(&dispatch_id("model-execution-1"))
        .expect("the write retains its receipt");
    assert_eq!(retained.outcome, DispatchOutcome::Completed);
    assert_eq!(
        retained.attempt_id,
        boundary_attempt_id("invocation1", "model-execution-1")
    );
}

#[test]
fn served_managed_boundary_refuses_without_a_recording_sink() {
    let mut ledger =
        ServedBoundaryLedger::restored(ServedDispatchLedger::new(SharedPort::default()))
            .ok()
            .expect("an empty store restores");
    let steps = Rc::new(RefCell::new(Vec::new()));
    let error = ledger
        .dispatch_managed_boundary(
            &identity(None),
            EXPECTED,
            "provider-rev",
            "model-execution-1",
            &mut LoggedExchange::new(exchange(false, &steps)),
            &mut LoggedCapture::new(capture(false, &steps)),
        )
        .expect_err("the disabled sink cannot record an exact boundary");
    assert_eq!(error.code, "prepared_boundary_unsupported");
    assert_eq!(error.class, ErrorClass::Capability);
    assert_eq!(exchanges(&steps), 0);
    assert!(ledger.receipt(&dispatch_id("model-execution-1")).is_none());
}

#[test]
fn served_managed_boundary_never_writes_one_approval_twice() {
    let mut ledger =
        ServedBoundaryLedger::restored(ServedDispatchLedger::new(SharedPort::default()))
            .ok()
            .expect("an empty store restores");
    let steps = Rc::new(RefCell::new(Vec::new()));
    ledger
        .dispatch_managed_boundary(
            &identity(None),
            EXPECTED,
            "provider-rev",
            "model-execution-1",
            &mut LoggedExchange::new(exchange(false, &steps)),
            &mut LoggedCapture::new(capture(true, &steps)),
        )
        .expect("the first recorded managed decision is admitted");
    let retained = ledger
        .receipt(&dispatch_id("model-execution-1"))
        .expect("the first write retains its receipt")
        .clone();
    let error = ledger
        .dispatch_managed_boundary(
            &identity(None),
            EXPECTED,
            "provider-rev",
            "model-execution-1",
            &mut LoggedExchange::new(exchange(false, &steps)),
            &mut LoggedCapture::new(capture(true, &steps)),
        )
        .expect_err("the retained receipt forbids a second write");
    assert_eq!(error.code, "prepared_boundary_already_recorded");
    assert_eq!(error.class, ErrorClass::Unresolved);
    assert_eq!(exchanges(&steps), 1);
    assert_eq!(
        ledger.receipt(&dispatch_id("model-execution-1")).expect("unchanged"),
        &retained
    );
}

#[test]
fn served_boundary_restart_reloads_the_committed_receipt_and_refuses_a_second_write() {
    let store = SharedPort::default();
    let mut first = ServedBoundaryLedger::restored(ServedDispatchLedger::new(store.clone()))
        .ok()
        .expect("a store with no image restores an empty ledger");
    let steps = Rc::new(RefCell::new(Vec::new()));
    first
        .dispatch_managed_boundary(
            &identity(None),
            EXPECTED,
            "provider-rev",
            "model-execution-1",
            &mut LoggedExchange::new(exchange(false, &steps)),
            &mut LoggedCapture::new(capture(true, &steps)),
        )
        .expect("the first served decision is admitted");
    assert_eq!(exchanges(&steps), 1);
    drop(first);

    let committed = store.0.borrow().clone().expect("the first session persisted its image");
    assert_eq!(committed.receipts.len(), 1);
    assert_eq!(committed.receipts[0].dispatch_id, dispatch_id("model-execution-1"));

    let mut second = ServedBoundaryLedger::restored(ServedDispatchLedger::new(store.clone()))
        .ok()
        .expect("the restarted session reloads the committed receipt");
    let second_steps = Rc::new(RefCell::new(Vec::new()));
    let error = second
        .dispatch_managed_boundary(
            &identity(None),
            EXPECTED,
            "provider-rev",
            "model-execution-1",
            &mut LoggedExchange::new(exchange(false, &second_steps)),
            &mut LoggedCapture::new(capture(true, &second_steps)),
        )
        .expect_err("the reloaded receipt forbids a second write of the same approval");
    assert_eq!(error.code, "prepared_boundary_already_recorded");
    assert_eq!(error.class, ErrorClass::Unresolved);
    assert!(second_steps.borrow().is_empty());
}

#[test]
fn served_boundary_restart_without_a_durable_port_writes_the_approval_again() {
    let steps = Rc::new(RefCell::new(Vec::new()));
    let mut first = ServedBoundaryLedger::restored(ServedDispatchLedger::new(
        NoopDispatchLedgerPort,
    ))
    .ok()
    .expect("no image");
    first
        .dispatch_managed_boundary(
            &identity(None),
            EXPECTED,
            "provider-rev",
            "model-execution-1",
            &mut LoggedExchange::new(exchange(false, &steps)),
            &mut LoggedCapture::new(capture(true, &steps)),
        )
        .expect("the first served decision is admitted");
    drop(first);
    let mut second = ServedBoundaryLedger::restored(ServedDispatchLedger::new(
        NoopDispatchLedgerPort,
    ))
    .ok()
    .expect("no image");
    second
        .dispatch_managed_boundary(
            &identity(None),
            EXPECTED,
            "provider-rev",
            "model-execution-1",
            &mut LoggedExchange::new(exchange(false, &steps)),
            &mut LoggedCapture::new(capture(true, &steps)),
        )
        .expect("without a durable port the restarted session writes the approval again");
    assert_eq!(exchanges(&steps), 2);
    assert!(second.receipt(&dispatch_id("model-execution-1")).is_some());
}

#[test]
fn served_boundary_does_not_persist_a_refusal_that_preceded_the_write() {
    let store = SharedPort::default();
    let mut ledger = ServedBoundaryLedger::restored(ServedDispatchLedger::new(store.clone()))
        .ok()
        .expect("a store with no image restores an empty ledger");
    let steps = Rc::new(RefCell::new(Vec::new()));
    let error = ledger
        .dispatch_managed_boundary(
            &identity(None),
            EXPECTED,
            "provider-rev",
            "model-execution-1",
            &mut LoggedExchange::new(exchange(false, &steps)),
            &mut LoggedCapture::new(capture(false, &steps)),
        )
        .expect_err("a sink that cannot record refuses before the write");
    assert_eq!(error.code, "prepared_boundary_unsupported");
    assert_eq!(error.class, ErrorClass::Capability);
    assert_eq!(exchanges(&steps), 0);
    assert!(ledger.receipt(&dispatch_id("model-execution-1")).is_none());
    assert!(store.0.borrow().is_none());
}

#[test]
fn served_boundary_reports_an_unresolved_outcome_when_the_store_cannot_be_written() {
    let mut ledger = ServedBoundaryLedger::restored(ServedDispatchLedger::new(ScriptedLedgerPort {
        loaded: Ok(None),
        save_error: Some(DispatchLedgerError::Unavailable),
    }))
    .ok()
    .expect("an empty readable store restores an empty ledger");
    let steps = Rc::new(RefCell::new(Vec::new()));
    let error = ledger
        .dispatch_managed_boundary(
            &identity(None),
            EXPECTED,
            "provider-rev",
            "model-execution-1",
            &mut LoggedExchange::new(exchange(false, &steps)),
            &mut LoggedCapture::new(capture(true, &steps)),
        )
        .expect_err("a store that cannot be written leaves the recorded receipt unresolved");
    assert_eq!(exchanges(&steps), 1);
    assert_eq!(error.code, "prepared_boundary_ledger_unavailable");
    assert_eq!(error.class, ErrorClass::Unresolved);
    assert!(ledger.receipt(&dispatch_id("model-execution-1")).is_some());
}

#[test]
fn served_boundary_restart_refuses_again_after_an_indeterminate_write() {
    let store = SharedPort::default();
    let mut first = ServedBoundaryLedger::restored(ServedDispatchLedger::new(store.clone()))
        .ok()
        .expect("a store with no image restores an empty ledger");
    let steps = Rc::new(RefCell::new(Vec::new()));
    let error = first
        .dispatch_managed_boundary(
            &identity(None),
            EXPECTED,
            "provider-rev",
            "model-execution-1",
            &mut LoggedExchange::new(exchange(true, &steps)),
            &mut LoggedCapture::new(capture(true, &steps)),
        )
        .expect_err("a transport that never replies is an indeterminate outcome");
    assert_eq!(exchanges(&steps), 1);
    assert_eq!(error.code, "provider_decision_failed");
    assert_eq!(error.class, ErrorClass::Unresolved);
    let retained = first
        .receipt(&dispatch_id("model-execution-1"))
        .expect("an indeterminate write still records its receipt");
    assert_eq!(retained.outcome, DispatchOutcome::Indeterminate);
    drop(first);

    let committed = store.0.borrow().clone().expect("the indeterminate receipt is persisted");
    assert_eq!(committed.receipts.len(), 1);
    assert_eq!(committed.receipts[0].outcome, DispatchOutcome::Indeterminate);

    let mut second = ServedBoundaryLedger::restored(ServedDispatchLedger::new(store))
        .ok()
        .expect("the restarted session reloads the indeterminate receipt");
    let second_steps = Rc::new(RefCell::new(Vec::new()));
    let error = second
        .dispatch_managed_boundary(
            &identity(None),
            EXPECTED,
            "provider-rev",
            "model-execution-1",
            &mut LoggedExchange::new(exchange(false, &second_steps)),
            &mut LoggedCapture::new(capture(true, &second_steps)),
        )
        .expect_err("a reloaded indeterminate receipt still forbids a second write");
    assert_eq!(error.code, "prepared_boundary_already_recorded");
    assert_eq!(exchanges(&second_steps), 0);
}

#[test]
fn a_held_approval_is_bound_to_its_fences_and_identities() {
    let held = ManagedBoundary::hold(&identity(None), EXPECTED, "provider-rev", "model-execution-1")
        .expect("an advertised boundary with a portable execution identity is held");
    let recorded = held.recorded_receipt();
    assert!(recorded.is_none(), "holding writes nothing");
    let refused = ManagedBoundary::hold(&identity(None), EXPECTED, "provider-rev", "bad id")
        .err()
        .expect("a non-portable execution identity is refused");
    assert_eq!(refused.code, "prepared_boundary_refused");
    assert_eq!(refused.class, ErrorClass::Conflict);
}

#[test]
fn served_managed_boundary_records_the_approval_before_the_provider_exchange() {
    let mut ledger =
        ServedBoundaryLedger::restored(ServedDispatchLedger::new(SharedPort::default()))
            .ok()
            .expect("an empty store restores");
    let steps = Rc::new(RefCell::new(Vec::new()));
    ledger
        .dispatch_managed_boundary(
            &identity(None),
            EXPECTED,
            "provider-rev",
            "model-execution-1",
            &mut LoggedExchange::new(exchange(false, &steps)),
            &mut LoggedCapture::new(capture(true, &steps)),
        )
        .expect("the recorded managed decision is admitted");
    assert_eq!(exchanges(&steps), 1);
    let recorded = steps.borrow();
    let at = recorded
        .iter()
        .position(|s| *s == "exchange")
        .expect("the exchange ran");
    let before = &recorded[..at];
    let depth = (
        before.iter().filter(|s| **s == "prepared").count(),
        before.iter().filter(|s| **s == "completed").count(),
    );
    assert_eq!(
        depth,
        (1, 0),
        "the approval is recorded before the exchange, and the completion only after it"
    );
}

/// A recording sink that keeps what the served boundary handed it.
#[derive(Clone, Default)]
struct ObservingCapture {
    prepared: Rc<RefCell<Vec<(CaptureBoundary, Vec<CaptureComponent>)>>>,
    completed: Rc<RefCell<Vec<CaptureBoundary>>>,
}

impl CapturePort for ObservingCapture {
    fn enabled(&self) -> bool {
        true
    }

    fn prepared_input(&mut self, input: &PreparedApplicationInput) -> Result<(), ()> {
        self.prepared
            .borrow_mut()
            .push((input.boundary, input.components.clone()));
        Ok(())
    }

    fn write_completed(&mut self, input: &PreparedApplicationInput) -> Result<(), ()> {
        self.completed.borrow_mut().push(input.boundary);
        Ok(())
    }

    fn write_unknown(&mut self, _input: &PreparedApplicationInput, _reason: &str) {}
}

#[test]
fn the_served_composition_completes_a_managed_decision_and_records_the_exact_bytes() {
    let mut ledger =
        ServedBoundaryLedger::restored(ServedDispatchLedger::new(SharedPort::default()))
            .ok()
            .expect("an empty store restores");
    let steps = Rc::new(RefCell::new(Vec::new()));
    let sink = ObservingCapture::default();
    let decision = ledger
        .dispatch_managed_boundary(
            &identity(None),
            EXPECTED,
            "provider-rev",
            "model-execution-1",
            &mut LoggedExchange::new(exchange(false, &steps)),
            &mut LoggedCapture::new(sink.clone()),
        )
        .expect("a composition with a recording sink completes the managed decision");
    assert!(matches!(decision, Decision::Unavailable));
    assert_eq!(exchanges(&steps), 1);

    let prepared = sink.prepared.borrow();
    assert_eq!(prepared.len(), 1, "one component reaches the composed sink");
    assert_eq!(prepared[0].0, CaptureBoundary::ExoSessionRequest);
    assert_eq!(prepared[0].1.len(), 1);
    let component = &prepared[0].1[0];
    assert_eq!(component.kind, CaptureComponentKind::Stdin);
    assert_eq!(component.ordinal, 0);
    assert_eq!(component.media_type, "application/json");
    assert_eq!(
        component.bytes,
        EXPECTED.to_vec(),
        "the composed sink recorded the prepared bytes, not a second serialization"
    );
    assert_eq!(
        sink.completed.borrow().len(),
        1,
        "the composed sink records the completion"
    );
}

#[test]
fn the_served_composition_without_a_recording_sink_refuses_before_any_provider_write() {
    let mut ledger =
        ServedBoundaryLedger::restored(ServedDispatchLedger::new(SharedPort::default()))
            .ok()
            .expect("an empty store restores");
    let steps = Rc::new(RefCell::new(Vec::new()));
    let error = ledger
        .dispatch_managed_boundary(
            &identity(None),
            EXPECTED,
            "provider-rev",
            "model-execution-1",
            &mut LoggedExchange::new(exchange(false, &steps)),
            &mut LoggedCapture::new(capture(false, &steps)),
        )
        .expect_err("a composition with no recording sink must refuse the managed decision");
    assert_eq!(error.code, "prepared_boundary_unsupported");
    assert_eq!(error.class, ErrorClass::Capability);
    assert_eq!(exchanges(&steps), 0, "the refusal must precede every provider write");
    assert!(steps.borrow().is_empty());
}

#[test]
fn the_served_composition_records_only_the_advertised_exo_boundary() {
    assert_eq!(
        adapter_support("exo").exact_boundary(),
        Some(CaptureBoundary::ExoSessionRequest)
    );
    assert_eq!(
        adapter_support("ollama").exact_boundary(),
        Some(CaptureBoundary::HttpBody)
    );
    assert!(
        advertised_exact_adapters()
            .iter()
            .any(|(adapter_id, boundary)| *adapter_id == "ollama"
                && *boundary == CaptureBoundary::HttpBody),
        "the unrecorded Ollama boundary is an advertised, accounted residual"
    );

    let mut ledger =
        ServedBoundaryLedger::restored(ServedDispatchLedger::new(SharedPort::default()))
            .ok()
            .expect("an empty store restores");
    let steps = Rc::new(RefCell::new(Vec::new()));
    let sink = ObservingCapture::default();
    ledger
        .dispatch_managed_boundary(
            &identity(None),
            EXPECTED,
            "provider-rev",
            "model-execution-1",
            &mut LoggedExchange::new(exchange(false, &steps)),
            &mut LoggedCapture::new(sink.clone()),
        )
        .expect("the recording sink admits the served managed decision");
    assert_eq!(exchanges(&steps), 1);
    assert!(ledger.receipt(&dispatch_id("model-execution-1")).is_some());
    let boundaries: Vec<CaptureBoundary> = sink
        .prepared
        .borrow()
        .iter()
        .map(|(boundary, _)| *boundary)
        .chain(sink.completed.borrow().iter().copied())
        .collect();
    assert!(boundaries.iter().all(|b| *b == CaptureBoundary::ExoSessionRequest));
    assert!(!boundaries.contains(&CaptureBoundary::HttpBody));
}

#[test]
fn an_ollama_approval_is_taken_at_the_http_body() {
    let approved = PreparedApplicationInput::prepare(
        "ollama",
        "model-execution-1",
        None,
        &[CaptureComponent {
            kind: CaptureComponentKind::Stdin,
            ordinal: 0,
            media_type: "application/json".to_owned(),
            bytes: EXPECTED.to_vec(),
        }],
    )
    .expect("an advertised adapter is approved");
    assert_eq!(approved.boundary, CaptureBoundary::HttpBody);
    assert_eq!(adapter_support("ollama").claim(), EffectiveContextClaim::ApplicationBoundary);
}
