//! Explicit workflow-to-provider-session inspection.
//!
//! A provider session's scope is independent from a workflow management run,
//! so this adapter accepts only an explicit mapping at construction and never
//! searches by a similarly named run or native provider identifier. Its
//! projection is bounded metadata: no game dispatch capability, no game
//! effects, no automatic resume.

use vstd::prelude::*;
use crate::auth::AuthContext;
use crate::error::{ErrorClass, ManagementError, Refusal, refusal, text_is};
use crate::identity::{is_identifier, validate_identifier};

verus! {

/// The lifecycle state of one provider-session binding.
#[derive(Clone, Copy, Debug, PartialEq, Eq, Structural)]
pub enum BindingState {
    Candidate,
    Held,
    Active,
    Recovering,
    Quarantined,
    Retired,
    Closed,
}

/// How much of a binding's history is covered by verified evidence.
#[derive(Clone, Copy, Debug, PartialEq, Eq, Structural)]
pub enum HistoryCoverage {
    ApplicationManifestVerified,
    ReportedPartial,
    Unknown,
}

/// The state of one native provider operation.
#[derive(Clone, Copy, Debug, PartialEq, Eq, Structural)]
pub enum NativeOperationState {
    Planned,
    IntentPersisted,
    Sent,
    Acknowledged,
    Completed,
    Rejected,
    Unknown,
    Cancelled,
    Quarantined,
}

/// The stable label of a binding state.
pub open spec fn binding_state_label(state: BindingState) -> Seq<char> {
    match state {
        BindingState::Candidate => "candidate"@,
        BindingState::Held => "held"@,
        BindingState::Active => "active"@,
        BindingState::Recovering => "recovering"@,
        BindingState::Quarantined => "quarantined"@,
        BindingState::Retired => "retired"@,
        BindingState::Closed => "closed"@,
    }
}

/// The stable label of a history coverage.
pub open spec fn history_coverage_label(coverage: HistoryCoverage) -> Seq<char> {
    match coverage {
        HistoryCoverage::ApplicationManifestVerified => "application_manifest_verified"@,
        HistoryCoverage::ReportedPartial => "reported_partial"@,
        HistoryCoverage::Unknown => "unknown"@,
    }
}

/// The stable label of a native operation state.
pub open spec fn operation_state_label(state: NativeOperationState) -> Seq<char> {
    match state {
        NativeOperationState::Planned => "planned"@,
        NativeOperationState::IntentPersisted => "intent_persisted"@,
        NativeOperationState::Sent => "sent"@,
        NativeOperationState::Acknowledged => "acknowledged"@,
        NativeOperationState::Completed => "completed"@,
        NativeOperationState::Rejected => "rejected"@,
        NativeOperationState::Unknown => "unknown"@,
        NativeOperationState::Cancelled => "cancelled"@,
        NativeOperationState::Quarantined => "quarantined"@,
    }
}

fn binding_state(state: BindingState) -> (r: &'static str)
    ensures
        r@ == binding_state_label(state),
{
    match state {
        BindingState::Candidate => "candidate",
        BindingState::Held => "held",
        BindingState::Active => "active",
        BindingState::Recovering => "recovering",
        BindingState::Quarantined => "quarantined",
        BindingState::Retired => "retired",
        BindingState::Closed => "closed",
    }
}

fn history_coverage(coverage: HistoryCoverage) -> (r: &'static str)
    ensures
        r@ == history_coverage_label(coverage),
{
    match coverage {
        HistoryCoverage::ApplicationManifestVerified => "application_manifest_verified",
        HistoryCoverage::ReportedPartial => "reported_partial",
        HistoryCoverage::Unknown => "unknown",
    }
}

fn operation_state(state: NativeOperationState) -> (r: &'static str)
    ensures
        r@ == operation_state_label(state),
{
    match state {
        NativeOperationState::Planned => "planned",
        NativeOperationState::IntentPersisted => "intent_persisted",
        NativeOperationState::Sent => "sent",
        NativeOperationState::Acknowledged => "acknowledged",
        NativeOperationState::Completed => "completed",
        NativeOperationState::Rejected => "rejected",
        NativeOperationState::Unknown => "unknown",
        NativeOperationState::Cancelled => "cancelled",
        NativeOperationState::Quarantined => "quarantined",
    }
}

/// One binding as the broker reports it.
#[derive(Clone, Debug)]
pub struct BrokerBinding {
    pub binding_id: String,
    pub state: BindingState,
    pub history_coverage: HistoryCoverage,
}

/// One native operation as the broker reports it.
#[derive(Clone, Debug)]
pub struct BrokerOperation {
    pub operation_id: String,
    pub state: NativeOperationState,
}

/// What a broker reports of its bindings and operations.
#[derive(Clone, Debug)]
pub struct BrokerSnapshot {
    pub bindings: Vec<BrokerBinding>,
    pub operations: Vec<BrokerOperation>,
}

/// The provider-session broker of one workflow run.
pub trait ProviderSessionBroker {
    fn snapshot(&self) -> BrokerSnapshot;
}

/// The bounded summary of one binding.
#[derive(Clone, Debug)]
pub struct ProviderSessionBindingSummary {
    pub binding_id: String,
    pub state: String,
    pub history_coverage: String,
    pub game_dispatch_capability: bool,
}

/// The bounded summary of one native operation.
#[derive(Clone, Debug)]
pub struct ProviderSessionOperationSummary {
    pub operation_id: String,
    pub state: String,
    pub game_effects: u64,
    pub auto_resume: bool,
}

/// The provider-session metadata of one workflow run.
#[derive(Clone, Debug)]
pub struct ProviderSessionInspectionResult {
    pub workflow_run_id: String,
    pub bindings: Vec<ProviderSessionBindingSummary>,
    pub operations: Vec<ProviderSessionOperationSummary>,
    pub next_cursor: Option<String>,
}

/// Whether a binding summary projects a reported binding.
pub open spec fn binding_projects(s: ProviderSessionBindingSummary, b: BrokerBinding) -> bool {
    &&& s.binding_id@ == b.binding_id@
    &&& s.state@ == binding_state_label(b.state)
    &&& s.history_coverage@ == history_coverage_label(b.history_coverage)
    &&& !s.game_dispatch_capability
}

/// Whether an operation summary projects a reported operation.
pub open spec fn operation_projects(s: ProviderSessionOperationSummary, o: BrokerOperation) -> bool {
    &&& s.operation_id@ == o.operation_id@
    &&& s.state@ == operation_state_label(o.state)
    &&& s.game_effects == 0
    &&& !s.auto_resume
}

/// Whether a result is the bounded projection of a broker snapshot for a run.
pub open spec fn projects(
    r: ProviderSessionInspectionResult,
    workflow_run_id: Seq<char>,
    snapshot: BrokerSnapshot,
) -> bool {
    &&& r.workflow_run_id@ == workflow_run_id
    &&& r.bindings@.len() == snapshot.bindings@.len()
    &&& forall|i: int|
        0 <= i < r.bindings@.len() ==> binding_projects(
            #[trigger] r.bindings@[i],
            snapshot.bindings@[i],
        )
    &&& r.operations@.len() == snapshot.operations@.len()
    &&& forall|i: int|
        0 <= i < r.operations@.len() ==> operation_projects(
            #[trigger] r.operations@[i],
            snapshot.operations@[i],
        )
    &&& r.next_cursor is None
}

/// Projects a broker snapshot into bounded metadata for a workflow run.
pub fn project_snapshot(workflow_run_id: &str, snapshot: &BrokerSnapshot) -> (r:
    ProviderSessionInspectionResult)
    ensures
        projects(r, workflow_run_id@, *snapshot),
{
    let mut bindings: Vec<ProviderSessionBindingSummary> = Vec::new();
    let mut i: usize = 0;
    while i < snapshot.bindings.len()
        invariant
            i <= snapshot.bindings.len(),
            bindings.len() == i,
            forall|k: int|
                0 <= k < i ==> binding_projects(#[trigger] bindings@[k], snapshot.bindings@[k]),
        decreases snapshot.bindings.len() - i,
    {
        let b = &snapshot.bindings[i];
        bindings.push(
            ProviderSessionBindingSummary {
                binding_id: b.binding_id.clone(),
                state: binding_state(b.state).to_owned(),
                history_coverage: history_coverage(b.history_coverage).to_owned(),
                game_dispatch_capability: false,
            },
        );
        i = i + 1;
    }
    let mut operations: Vec<ProviderSessionOperationSummary> = Vec::new();
    let mut j: usize = 0;
    while j < snapshot.operations.len()
        invariant
            j <= snapshot.operations.len(),
            operations.len() == j,
            forall|k: int|
                0 <= k < j ==> operation_projects(#[trigger] operations@[k], snapshot.operations@[k]),
        decreases snapshot.operations.len() - j,
    {
        let o = &snapshot.operations[j];
        operations.push(
            ProviderSessionOperationSummary {
                operation_id: o.operation_id.clone(),
                state: operation_state(o.state).to_owned(),
                game_effects: 0,
                auto_resume: false,
            },
        );
        j = j + 1;
    }
    ProviderSessionInspectionResult {
        workflow_run_id: workflow_run_id.to_owned(),
        bindings,
        operations,
        next_cursor: None,
    }
}

/// The harness-owned boundary for provider-session metadata of an
/// already-authorized workflow run.
pub trait ProviderSessionInspectionPort {
    fn list(&self, actor: &AuthContext, workflow_run_id: &str) -> Result<
        ProviderSessionInspectionResult,
        ManagementError,
    >;
}

/// The refusal of a list of workflow-run mappings, if any: the first entry that
/// is not a portable identifier, or that repeats an earlier run.
pub open spec fn mapping_refusal(ids: Seq<Seq<char>>) -> Option<Refusal>
    decreases ids.len(),
{
    if ids.len() == 0 {
        None
    } else {
        match mapping_refusal(ids.drop_last()) {
            Some(r) => Some(r),
            None => if !is_identifier(ids.last()) {
                Some(refusal(ErrorClass::InvalidInput, "invalid_identifier"))
            } else if ids.drop_last().contains(ids.last()) {
                Some(refusal(ErrorClass::Conflict, "provider_session_mapping_duplicate"))
            } else {
                None
            },
        }
    }
}

/// The workflow-run identities of a list of mappings.
pub open spec fn mapping_ids<B>(m: Seq<(String, B)>) -> Seq<Seq<char>> {
    m.map_values(|p: (String, B)| p.0@)
}

/// Read-only projection over broker instances explicitly associated with
/// workflow runs.
pub struct ProviderSessionBrokerInspectionPort<B> {
    brokers: Vec<(String, B)>,
}

impl<B: ProviderSessionBroker> ProviderSessionBrokerInspectionPort<B> {
    /// The workflow runs this port maps, in construction order.
    pub closed spec fn runs(&self) -> Seq<Seq<char>> {
        mapping_ids(self.brokers@)
    }

    /// Builds the port from an explicit mapping, refusing an entry whose run is
    /// not a portable identifier or is mapped twice; see [`mapping_refusal`].
    pub fn new(mappings: Vec<(String, B)>) -> (r: Result<Self, ManagementError>)
        ensures
            match mapping_refusal(mapping_ids(mappings@)) {
                Some(f) => r matches Err(e) && e.refusal() == f,
                None => r matches Ok(p) && p.runs() == mapping_ids(mappings@),
            },
    {
        let ghost ids = mapping_ids(mappings@);
        let mut brokers: Vec<(String, B)> = Vec::new();
        let mut rest = mappings;
        let ghost all = rest@;
        let mut i: usize = 0;
        assert(ids.len() == all.len());
        assert(all.len() == rest.len());
        proof {
            assert(ids.take(0) =~= Seq::<Seq<char>>::empty());
            assert(mapping_ids(brokers@) =~= Seq::<Seq<char>>::empty());
        }
        assert(all.skip(0) =~= all);
        while rest.len() > 0
            invariant
                ids == mapping_ids(all),
                ids == mapping_ids(mappings@),
                all.len() <= usize::MAX,
                i + rest.len() == all.len(),
                rest@ == all.skip(i as int),
                mapping_ids(brokers@) == ids.take(i as int),
                mapping_refusal(ids.take(i as int)) is None,
            decreases rest.len(),
        {
            let (run, broker) = rest.remove(0);
            let ghost t = ids.take(i + 1);
            proof {
                assert(rest@ =~= all.skip(i + 1));
                assert(all[i as int].0 == run);
                assert(t.drop_last() =~= ids.take(i as int));
                assert(t.last() == run@);
            }
            match validate_identifier("workflow_run_id", run.as_str()) {
                Err(e) => {
                    proof {
                        assert(!is_identifier(t.last()));
                        assert(mapping_refusal(t) == Some(
                            refusal(ErrorClass::InvalidInput, "invalid_identifier"),
                        ));
                        lemma_mapping_refusal_prefix(ids, i + 1);
                    }
                    return Err(e);
                },
                Ok(()) => {},
            }
            let mut k: usize = 0;
            while k < brokers.len()
                invariant
                    k <= brokers.len(),
                    ids == mapping_ids(mappings@),
                    i < all.len(),
                    ids == mapping_ids(all),
                    t == ids.take(i + 1),
                    t.last() == run@,
                    t.drop_last() == ids.take(i as int),
                    mapping_refusal(ids.take(i as int)) is None,
                    is_identifier(run@),
                    mapping_ids(brokers@) == ids.take(i as int),
                    forall|l: int| 0 <= l < k ==> brokers@[l].0@ != run@,
                decreases brokers.len() - k,
            {
                if text_is(&brokers[k].0, run.as_str()) {
                    proof {
                        assert(mapping_ids(brokers@)[k as int] == brokers@[k as int].0@);
                        assert(t.drop_last()[k as int] == t.last());
                        assert(t.drop_last().contains(t.last()));
                        lemma_mapping_refusal_prefix(ids, i + 1);
                    }
                    return Err(
                        ManagementError::conflict(
                            "provider_session_mapping_duplicate",
                            "a workflow run may have only one provider-session inspection mapping",
                        ),
                    );
                }
                k = k + 1;
            }
            proof {
                assert(!t.drop_last().contains(t.last())) by {
                    if t.drop_last().contains(t.last()) {
                        let l = choose|l: int| 0 <= l < t.drop_last().len() && t.drop_last()[l] == t.last();
                        assert(brokers@[l].0@ == mapping_ids(brokers@)[l]);
                    }
                }
            }
            let ghost before = brokers@;
            brokers.push((run, broker));
            proof {
                assert(mapping_ids(brokers@) =~= ids.take(i + 1));
            }
            i = i + 1;
        }
        proof {
            assert(ids.take(i as int) =~= ids);
        }
        Ok(ProviderSessionBrokerInspectionPort { brokers })
    }
}

/// A refusal found on a prefix of the mappings is the refusal of the whole.
proof fn lemma_mapping_refusal_prefix(ids: Seq<Seq<char>>, k: int)
    requires
        0 <= k <= ids.len(),
        mapping_refusal(ids.take(k)) is Some,
    ensures
        mapping_refusal(ids) == mapping_refusal(ids.take(k)),
    decreases ids.len() - k,
{
    if k == ids.len() {
        assert(ids.take(k) =~= ids);
    } else {
        assert(ids.take(k + 1).drop_last() =~= ids.take(k));
        lemma_mapping_refusal_prefix(ids, k + 1);
    }
}

impl<B: ProviderSessionBroker> ProviderSessionInspectionPort for ProviderSessionBrokerInspectionPort<
    B,
> {
    /// Lists the mapped broker's bindings and operations for a run; a run
    /// with no explicit mapping is refused.
    fn list(&self, actor: &AuthContext, workflow_run_id: &str) -> (r: Result<
        ProviderSessionInspectionResult,
        ManagementError,
    >)
        ensures
            !self.runs().contains(workflow_run_id@) ==> (r matches Err(e) && e.refusal()
                == refusal(ErrorClass::Unavailable, "provider_session_mapping_unavailable")),
            self.runs().contains(workflow_run_id@) ==> r is Ok,
            r matches Ok(x) ==> self.runs().contains(workflow_run_id@) && x.workflow_run_id@
                == workflow_run_id@ && x.next_cursor is None && (forall|i: int|
                0 <= i < x.bindings@.len() ==> !(#[trigger] x.bindings@[i]).game_dispatch_capability)
                && (forall|i: int|
                0 <= i < x.operations@.len() ==> (#[trigger] x.operations@[i]).game_effects == 0
                    && !x.operations@[i].auto_resume),
    {
        let mut i: usize = 0;
        while i < self.brokers.len()
            invariant
                i <= self.brokers.len(),
                forall|k: int| 0 <= k < i ==> #[trigger] self.brokers@[k].0@ != workflow_run_id@,
            decreases self.brokers.len() - i,
        {
            if text_is(&self.brokers[i].0, workflow_run_id) {
                let snapshot = self.brokers[i].1.snapshot();
                proof {
                    assert(self.runs()[i as int] == workflow_run_id@);
                }
                return Ok(project_snapshot(workflow_run_id, &snapshot));
            }
            i = i + 1;
        }
        proof {
            assert forall|k: int| 0 <= k < self.runs().len() implies self.runs()[k]
                != workflow_run_id@ by {
                assert(self.runs()[k] == self.brokers@[k].0@);
            }
        }
        Err(
            ManagementError::unavailable(
                "provider_session_mapping_unavailable",
                "no explicit provider-session mapping exists for this workflow run",
            ),
        )
    }
}

} // verus!
