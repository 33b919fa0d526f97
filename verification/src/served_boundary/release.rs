//! The served release of one managed decision through its held approval: the
//! exact bytes are approved and held under the decision's fences, handed once
//! to the recording write port, and the receipt of a write that may have
//! reached the provider is retained and made durable before the outcome is
//! reported.

use vstd::prelude::*;
use crate::error::{ErrorClass, ManagementError};
use crate::live_node::Decision;
use super::capture::{
    CaptureComponent, CaptureComponentKind, DispatchError, DispatchLedgerPort, DispatchOutcome,
    DispatchReceipt, DispatchReceiptView, PreparedApplicationInput, prepared_refusal, receipt_of,
    receipt_put,
};
use super::fences::{
    BOUNDARY_ADAPTER_ID, ContextRenderSourceIdentity, DispatchFences, attempt_id_of, dispatch_id,
    dispatch_id_of, fences_bind, identity_attempt_id,
};
use super::ledger::{ServedBoundaryLedger, already_recorded};
use super::logged::{CaptureCall, LoggedCapture, LoggedExchange};
use super::port::{
    CapturePort, PreparedExchange, ServedBoundaryPort, dispatch_refusal, dispatch_refusal_of,
    write_effect, lemma_write_effect_bounds,
};
use crate::served_live::decision_provider_refusal;

verus! {

/// A held approval for the exact application bytes of one served decision.
pub struct ManagedBoundary {
    dispatch_id: String,
    approval: PreparedApplicationInput,
    fences: DispatchFences,
    recorded: Option<DispatchReceipt>,
    released: Ghost<bool>,
}

/// Whether held fences bind exactly the axes of a render source; see
/// [`fences_bind`].
#[verifier::opaque]
pub open spec fn fences_held(
    f: DispatchFences,
    identity: ContextRenderSourceIdentity,
    provider_revision: Seq<char>,
) -> bool {
    fences_bind(f, identity, provider_revision)
}

/// The receipt a release of a held approval records.
pub open spec fn release_receipt(
    dispatch_id: Seq<char>,
    execution_id: Seq<char>,
    attempt_id: Seq<char>,
    outcome: DispatchOutcome,
) -> DispatchReceiptView {
    DispatchReceiptView { dispatch_id, execution_id, attempt_id, outcome }
}

impl ManagedBoundary {
    /// The dispatch identity the approval is held under.
    pub closed spec fn dispatch_id(&self) -> Seq<char> {
        self.dispatch_id@
    }

    /// The execution identity the approval was prepared for.
    pub closed spec fn execution_id(&self) -> Seq<char> {
        self.approval.execution_id@
    }

    /// The attempt identity the approval was prepared under.
    pub closed spec fn attempt_id(&self) -> Seq<char> {
        match self.approval.attempt_id {
            Some(a) => a@,
            None => Seq::empty(),
        }
    }

    /// The approved bytes.
    pub closed spec fn approved_bytes(&self) -> Seq<u8> {
        self.approval.components@[0].bytes@
    }

    /// The fences the approval is bound to.
    pub closed spec fn fences(&self) -> DispatchFences {
        self.fences
    }

    /// The receipt a release recorded, if any.
    pub closed spec fn recorded(&self) -> Option<DispatchReceiptView> {
        match self.recorded {
            Some(r) => Some(r@),
            None => None,
        }
    }

    /// Whether the approval was handed to the write port.
    pub closed spec fn released(&self) -> bool {
        self.released@
    }

    /// Whether the approval holds exactly one component.
    pub closed spec fn well_held(&self) -> bool {
        self.approval.components@.len() == 1
    }

    fn receipt(&self, outcome: DispatchOutcome) -> (r: DispatchReceipt)
        ensures
            r@ == release_receipt(self.dispatch_id(), self.execution_id(), self.attempt_id(), outcome),
    {
        let attempt_id = match &self.approval.attempt_id {
            Some(a) => a.clone(),
            None => String::new(),
        };
        DispatchReceipt {
            dispatch_id: self.dispatch_id.clone(),
            execution_id: self.approval.execution_id.clone(),
            attempt_id,
            outcome,
        }
    }

    /// Hands the held material to the recording write port exactly once; see
    /// [`write_effect`] for what the write records and sends. A completed write
    /// yields the decision and its receipt; a write whose outcome is
    /// indeterminate still records its receipt, which
    /// [`Self::recorded_receipt`] then returns, and reports the provider's
    /// failure; any other refusal records nothing and is reported as the
    /// dispatch refusal it was, unresolved once the provider was reached.
    pub fn release<X: PreparedExchange, K: CapturePort>(
        &mut self,
        exchange: &mut LoggedExchange<X>,
        capture: &mut LoggedCapture<K>,
        provider_bytes: Vec<u8>,
    ) -> (r: Result<(Option<Decision>, DispatchReceipt), ManagementError>)
        requires
            old(self).recorded() is None,
            !old(self).released(),
            old(self).well_held(),
        ensures
            final(self).dispatch_id() == old(self).dispatch_id(),
            final(self).execution_id() == old(self).execution_id(),
            final(self).attempt_id() == old(self).attempt_id(),
            final(self).approved_bytes() == old(self).approved_bytes(),
            final(self).well_held(),
            final(self).released(),
            write_effect(
                old(self).approved_bytes() == provider_bytes@,
                provider_bytes@,
                old(capture).log(),
                final(capture).log(),
                old(exchange).log(),
                final(exchange).log(),
            ) matches Some(w) && {
                &&& (w is Ok <==> r is Ok)
                &&& w == Err::<usize, DispatchError>(DispatchError::Indeterminate) ==> {
                    &&& final(self).recorded() == Some(
                        release_receipt(
                            old(self).dispatch_id(),
                            old(self).execution_id(),
                            old(self).attempt_id(),
                            DispatchOutcome::Indeterminate,
                        ),
                    )
                    &&& final(exchange).log().last().failure matches Some(f)
                    &&& r matches Err(e) && e.refusal() == decision_provider_refusal(f)
                }
                &&& (w is Err && w->Err_0 != DispatchError::Indeterminate) ==> {
                    &&& final(self).recorded() is None
                    &&& final(exchange).log().len() > old(exchange).log().len()
                        ==> (r matches Err(e) && e.class == ErrorClass::Unresolved && e.code@
                        == dispatch_refusal_of(w->Err_0).code)
                    &&& final(exchange).log() == old(exchange).log() ==> (r
                        matches Err(e) && e.refusal() == dispatch_refusal_of(w->Err_0))
                }
            },
            r matches Ok((decision, receipt)) ==> decision is Some && receipt@ == release_receipt(
                old(self).dispatch_id(),
                old(self).execution_id(),
                old(self).attempt_id(),
                DispatchOutcome::Completed,
            ) && old(self).approved_bytes() == provider_bytes@ && final(self).recorded() == Some(
                receipt@,
            ),
            r is Err ==> match final(self).recorded() {
                Some(x) => x == release_receipt(
                    old(self).dispatch_id(),
                    old(self).execution_id(),
                    old(self).attempt_id(),
                    DispatchOutcome::Indeterminate,
                ),
                None => true,
            },
    {
        let mut port = ServedBoundaryPort::new(provider_bytes);
        let written = port.write_prepared(exchange, capture, &self.approval);
        self.released = Ghost(true);
        match written {
            Ok(_) => {
                let receipt = self.receipt(DispatchOutcome::Completed);
                self.recorded = Some(receipt.clone());
                Ok((port.take_decision(), receipt))
            },
            Err(error) => {
                if error == DispatchError::Indeterminate {
                    self.recorded = Some(self.receipt(DispatchOutcome::Indeterminate));
                }
                Err(port.release_error(error))
            },
        }
    }

    /// The receipt a release recorded for this boundary, including an
    /// indeterminate outcome.
    pub fn recorded_receipt(&self) -> (r: Option<DispatchReceipt>)
        ensures
            match r {
                Some(x) => self.recorded() == Some(x@),
                None => self.recorded() is None,
            },
    {
        match &self.recorded {
            Some(receipt) => Some(receipt.clone()),
            None => None,
        }
    }

    /// Prepares and holds the exact bytes one decision is about to write,
    /// bound to the fences of its render source.
    pub fn hold(
        identity: &ContextRenderSourceIdentity,
        provider_bytes: &[u8],
        provider_revision: &str,
        execution_id: &str,
    ) -> (r: Result<Self, ManagementError>)
        ensures
            match prepared_refusal(
                "exo"@,
                execution_id@,
                Some(attempt_id_of(identity.invocation_id@, execution_id@)),
                1,
            ) {
                Some(e) => r matches Err(x) && x.refusal() == dispatch_refusal_of(e),
                None => r matches Ok(b) && {
                    &&& b.dispatch_id() == dispatch_id_of(execution_id@)
                    &&& b.execution_id() == execution_id@
                    &&& b.attempt_id() == attempt_id_of(identity.invocation_id@, execution_id@)
                    &&& b.approved_bytes() == provider_bytes@
                    &&& fences_held(b.fences(), *identity, provider_revision@)
                    &&& b.recorded() is None
                    &&& !b.released()
                    &&& b.well_held()
                },
            },
    {
        proof {
            reveal_strlit("exo");
        }
        let bytes = owned_bytes(provider_bytes);
        let component = CaptureComponent {
            kind: CaptureComponentKind::Stdin,
            ordinal: 0,
            media_type: "application/json".to_owned(),
            bytes,
        };
        let attempt = identity_attempt_id(identity, execution_id);
        let components: Vec<CaptureComponent> = vec![component];
        let approval = match PreparedApplicationInput::prepare(
            BOUNDARY_ADAPTER_ID,
            execution_id,
            Some(attempt.as_str()),
            components.as_slice(),
        ) {
            Ok(a) => a,
            Err(e) => return Err(dispatch_refusal(e)),
        };
        let fences = crate::served_boundary::fences::boundary_fences(identity, provider_revision);
        proof {
            reveal(fences_held);
        }
        Ok(
            ManagedBoundary {
                dispatch_id: dispatch_id(execution_id),
                approval,
                fences,
                recorded: None,
                released: Ghost(false),
            },
        )
    }
}

/// What a served release may leave retained: nothing new, the completed
/// receipt, or, only on an unresolved outcome, the indeterminate one.
pub open spec fn settles_as<D>(
    after: Seq<DispatchReceiptView>,
    before: Seq<DispatchReceiptView>,
    completed: DispatchReceiptView,
    indeterminate: DispatchReceiptView,
    r: Result<D, ManagementError>,
) -> bool {
    ||| after == before
    ||| after == receipt_put(before, completed)
    ||| after == receipt_put(before, indeterminate) && r is Err && r->Err_0.class
        == ErrorClass::Unresolved
}

/// An owned copy of a byte slice.
fn owned_bytes(bytes: &[u8]) -> (r: Vec<u8>)
    ensures
        r@ == bytes@,
{
    let mut out: Vec<u8> = Vec::new();
    let mut i: usize = 0;
    while i < bytes.len()
        invariant
            i <= bytes.len(),
            out@ == bytes@.take(i as int),
        decreases bytes.len() - i,
    {
        out.push(bytes[i]);
        assert(out@ =~= bytes@.take(i + 1));
        i = i + 1;
    }
    assert(out@ =~= bytes@);
    out
}

impl<P: DispatchLedgerPort> ServedBoundaryLedger<P> {
    /// Dispatches one managed decision through a held prepared boundary. An
    /// approval this session already recorded is never written again; a
    /// sink that cannot record, or material that is not the bytes being
    /// written, stops the write entirely; the receipt of a write that may have
    /// reached the provider is retained and made durable before the outcome
    /// is reported.
    pub fn dispatch_managed_boundary<X: PreparedExchange, K: CapturePort>(
        &mut self,
        identity: &ContextRenderSourceIdentity,
        provider_bytes: &[u8],
        provider_revision: &str,
        execution_id: &str,
        exchange: &mut LoggedExchange<X>,
        capture: &mut LoggedCapture<K>,
    ) -> (r: Result<Decision, ManagementError>)
        ensures
            receipt_of(old(self).receipts(), dispatch_id_of(execution_id@)) is Some ==> (r matches Err(
                e,
            ) && e.refusal() == already_recorded()) && final(self).receipts() == old(
                self,
            ).receipts() && *final(exchange) == *old(exchange) && *final(capture) == *old(capture),
            final(exchange).log().len() <= old(exchange).log().len() + 1,
            final(exchange).log().len() == old(exchange).log().len() + 1
                ==> final(exchange).log().last().bytes == provider_bytes@,
            final(capture).log() == old(capture).log().push(CaptureCall::Enabled(false))
                ==> final(exchange).log() == old(exchange).log(),
            r is Ok ==> final(self).receipts() == receipt_put(
                old(self).receipts(),
                release_receipt(
                    dispatch_id_of(execution_id@),
                    execution_id@,
                    attempt_id_of(identity.invocation_id@, execution_id@),
                    DispatchOutcome::Completed,
                ),
            ),
            settles_as(
                final(self).receipts(),
                old(self).receipts(),
                release_receipt(
                    dispatch_id_of(execution_id@),
                    execution_id@,
                    attempt_id_of(identity.invocation_id@, execution_id@),
                    DispatchOutcome::Completed,
                ),
                release_receipt(
                    dispatch_id_of(execution_id@),
                    execution_id@,
                    attempt_id_of(identity.invocation_id@, execution_id@),
                    DispatchOutcome::Indeterminate,
                ),
                r,
            ),
    {
        let id = dispatch_id(execution_id);
        self.admit_release(id.as_str())?;
        let mut boundary = ManagedBoundary::hold(
            identity,
            provider_bytes,
            provider_revision,
            execution_id,
        )?;
        let ghost completed = release_receipt(
            dispatch_id_of(execution_id@),
            execution_id@,
            attempt_id_of(identity.invocation_id@, execution_id@),
            DispatchOutcome::Completed,
        );
        let ghost indeterminate = release_receipt(
            dispatch_id_of(execution_id@),
            execution_id@,
            attempt_id_of(identity.invocation_id@, execution_id@),
            DispatchOutcome::Indeterminate,
        );
        assert(boundary.dispatch_id() == dispatch_id_of(execution_id@));
        assert(boundary.attempt_id() == attempt_id_of(identity.invocation_id@, execution_id@));
        let ghost capture_before = capture.log();
        let ghost exchange_before = exchange.log();
        let released = boundary.release(exchange, capture, owned_bytes(provider_bytes));
        proof {
            lemma_write_effect_bounds(
                boundary.approved_bytes() == provider_bytes@,
                provider_bytes@,
                capture_before,
                capture.log(),
                exchange_before,
                exchange.log(),
            );
        }
        let recorded = boundary.recorded_receipt();
        let ghost before = self.receipts();
        let ghost released_view = released;
        let ghost released_ok = released_view is Ok;
        let ghost error_unresolved = released_view is Err && released_view->Err_0.class
            == ErrorClass::Unresolved;
        proof {
            if released is Ok {
                assert(released->Ok_0.1@ == completed);
            } else if recorded is Some {
                assert(recorded->0@ == indeterminate);
            }
        }
        let settled = self.settle_release(released, recorded);
        proof {
            if released_ok {
                assert(self.receipts() =~= receipt_put(before, completed));
            } else if !(error_unresolved && recorded is Some) {
                assert(self.receipts() == before);
            } else {
                assert(self.receipts() == receipt_put(before, recorded->0@));
                assert(recorded->0@ == indeterminate);
                assert(settled matches Err(e) && e.class == ErrorClass::Unresolved);
            }
        }
        settled
    }
}

} // verus!
