//! Recorded receipts for the approvals a served composition already wrote.
//!
//! A receipt is authoritative for its dispatch identity: a repeated release of
//! the same invocation resolves to the retained receipt and never writes that
//! approval a second time. The receipts are carried through an owner-supplied
//! durable store, so a composition that rebuilds its session reloads what its
//! predecessor committed instead of starting empty.

use vstd::prelude::*;
use crate::error::{ErrorClass, ManagementError, Refusal, refusal, exchange_unresolved};
use super::capture::{
    DispatchLedger, DispatchLedgerError, DispatchLedgerPort, DispatchReceipt,
    DispatchReceiptView, DurableDispatchLedger, DISPATCH_LEDGER_SCHEMA, image_restores,
    lemma_receipt_index, receipt_index, receipt_of, receipt_put, receipt_views, receipts_unique,
};

verus! {

/// One call a served ledger made on its store, with the store's answer.
pub enum LedgerCall {
    /// The store was asked for its image: what it answered.
    Load(Result<Option<DurableDispatchLedger>, DispatchLedgerError>),
    /// An image was handed to the store: its schema, its receipts, and whether
    /// the store accepted it.
    Save(Seq<char>, Seq<DispatchReceiptView>, bool),
}

/// The durable prepared-dispatch ledger a served boundary persists its
/// recorded receipts to, around one owner-supplied store.
pub struct ServedDispatchLedger<P> {
    port: P,
    calls: Ghost<Seq<LedgerCall>>,
}

impl<P: DispatchLedgerPort> ServedDispatchLedger<P> {
    /// Wraps one owner-supplied durable ledger port.
    pub fn new(port: P) -> (r: Self)
        ensures
            r.port() == port,
            r.calls() == Seq::<LedgerCall>::empty(),
    {
        ServedDispatchLedger { port, calls: Ghost(Seq::empty()) }
    }

    /// The wrapped store.
    pub closed spec fn port(&self) -> P {
        self.port
    }

    /// The calls made on the store, in order, with its answers.
    pub closed spec fn calls(&self) -> Seq<LedgerCall> {
        self.calls@
    }

    /// The wrapped store, for its owner to inspect.
    pub fn store(&self) -> (r: &P)
        ensures
            *r == self.port(),
    {
        &self.port
    }

    /// The image the store last persisted, or `None` when it holds none: the
    /// store is asked once, and its answer is returned as it is.
    pub fn load(&mut self) -> (r: Result<Option<DurableDispatchLedger>, DispatchLedgerError>)
        ensures
            final(self).calls() == old(self).calls().push(LedgerCall::Load(r)),
    {
        let r = self.port.load();
        self.calls = Ghost(self.calls@.push(LedgerCall::Load(r)));
        r
    }

    /// Persists one image, so a restarted composition reloads the same
    /// receipts: the store is handed exactly this image once, and its answer
    /// is returned as it is.
    pub fn save(&mut self, ledger: &DurableDispatchLedger) -> (r: Result<(), DispatchLedgerError>)
        ensures
            final(self).calls() == old(self).calls().push(
                LedgerCall::Save(ledger.schema@, receipt_views(ledger.receipts@), r is Ok),
            ),
    {
        let r = self.port.save(ledger);
        self.calls = Ghost(
            self.calls@.push(
                LedgerCall::Save(ledger.schema@, receipt_views(ledger.receipts@), r is Ok),
            ),
        );
        r
    }
}

/// The refusal of a served session whose durable receipt store could not be
/// read or written.
pub open spec fn store_unavailable() -> Refusal {
    refusal(ErrorClass::Unavailable, "prepared_boundary_ledger_unavailable")
}

/// The refusal of a served session whose durable receipt store is not a
/// consistent image.
pub open spec fn store_inconsistent() -> Refusal {
    refusal(ErrorClass::Unavailable, "prepared_boundary_ledger_inconsistent")
}

/// The refusal of an approval this served session already wrote: the outcome
/// is unresolved, so nothing new is written and the caller reconciles.
pub open spec fn already_recorded() -> Refusal {
    refusal(ErrorClass::Unresolved, "prepared_boundary_already_recorded")
}

fn store_unavailable_error() -> (e: ManagementError)
    ensures
        e.refusal() == store_unavailable(),
{
    ManagementError::unavailable(
        "prepared_boundary_ledger_unavailable",
        "the durable prepared-dispatch ledger is unavailable, so the recorded receipts are unknown",
    )
}

fn store_inconsistent_error() -> (e: ManagementError)
    ensures
        e.refusal() == store_inconsistent(),
{
    ManagementError::unavailable(
        "prepared_boundary_ledger_inconsistent",
        "the durable prepared-dispatch ledger is inconsistent, so its receipts cannot be trusted",
    )
}

fn already_recorded_error() -> (e: ManagementError)
    ensures
        e.refusal() == already_recorded(),
{
    exchange_unresolved(
        ManagementError::unavailable(
            "prepared_boundary_already_recorded",
            "the served boundary already recorded this approval, so no new provider write exists",
        ),
    )
}

/// The receipts a loaded image restores to: an unreadable store is unknown,
/// not empty; no image is an empty ledger; an image restores only when it is
/// consistent.
pub fn restore_image(loaded: Result<Option<DurableDispatchLedger>, DispatchLedgerError>) -> (r:
    Result<DispatchLedger, ManagementError>)
    ensures
        match loaded {
            Err(_) => r matches Err(e) && e.refusal() == store_unavailable(),
            Ok(None) => r matches Ok(l) && l@ == Seq::<DispatchReceiptView>::empty(),
            Ok(Some(image)) => if image_restores(image.schema@, receipt_views(image.receipts@)) {
                r matches Ok(l) && l@ == receipt_views(image.receipts@)
            } else {
                r matches Err(e) && e.refusal() == store_inconsistent()
            },
        },
{
    match loaded {
        Err(_) => Err(store_unavailable_error()),
        Ok(None) => Ok(DispatchLedger::new()),
        Ok(Some(image)) => match image.restore() {
            Ok(ledger) => Ok(ledger),
            Err(_) => Err(store_inconsistent_error()),
        },
    }
}

/// With no identity retained twice, the receipt found for an identity is the
/// one at the index that carries it.
proof fn lemma_receipt_index_unique(s: Seq<DispatchReceiptView>, i: int)
    requires
        receipts_unique(s),
        0 <= i < s.len(),
    ensures
        receipt_index(s, s[i].dispatch_id) == Some(i),
    decreases s.len(),
{
    if i < s.len() - 1 {
        let d = s.drop_last();
        assert(d[i] == s[i]);
        assert(receipts_unique(d)) by {
            assert forall|a: int, b: int|
                0 <= a < d.len() && 0 <= b < d.len() && a != b implies d[a].dispatch_id
                != d[b].dispatch_id by {
                assert(d[a] == s[a]);
                assert(d[b] == s[b]);
            }
        }
        lemma_receipt_index_unique(d, i);
    }
}

/// Once a receipt is recorded for a dispatch identity, it is the receipt found
/// for that identity, the receipts stay one per identity, and their durable
/// image restores: a release of the same approval is refused in this session
/// and after a restart alike, so one approval is never written twice.
pub proof fn lemma_recorded_approval_is_never_written_again(
    s: Seq<DispatchReceiptView>,
    r: DispatchReceiptView,
)
    requires
        receipts_unique(s),
    ensures
        receipt_of(receipt_put(s, r), r.dispatch_id) == Some(r),
        receipts_unique(receipt_put(s, r)),
        image_restores(DISPATCH_LEDGER_SCHEMA@, receipt_put(s, r)),
{
    lemma_receipt_index(s, r.dispatch_id);
    let t = receipt_put(s, r);
    match receipt_index(s, r.dispatch_id) {
        Some(i) => {
            assert forall|a: int, b: int|
                0 <= a < t.len() && 0 <= b < t.len() && a != b implies t[a].dispatch_id
                != t[b].dispatch_id by {
                if a != i && b != i {
                    assert(t[a] == s[a] && t[b] == s[b]);
                } else if a == i {
                    assert(t[b] == s[b]);
                } else {
                    assert(t[a] == s[a]);
                }
            }
            lemma_receipt_index_unique(t, i);
        },
        None => {
            assert forall|a: int, b: int|
                0 <= a < t.len() && 0 <= b < t.len() && a != b implies t[a].dispatch_id
                != t[b].dispatch_id by {
                if a < s.len() && b < s.len() {
                    assert(t[a] == s[a] && t[b] == s[b]);
                } else if a == s.len() {
                    assert(t[b] == s[b]);
                } else {
                    assert(t[a] == s[a]);
                }
            }
            assert(t.last() == r);
        },
    }
}

/// A refused restore: why, and the store it was asked of.
pub struct LedgerRestoreRefusal<P> {
    pub error: ManagementError,
    pub store: ServedDispatchLedger<P>,
}

/// Recorded receipts for the approvals one served session already wrote, and
/// the durable store they are carried through.
pub struct ServedBoundaryLedger<P> {
    receipts: DispatchLedger,
    store: ServedDispatchLedger<P>,
}

impl<P: DispatchLedgerPort> ServedBoundaryLedger<P> {
    /// The receipts this ledger holds.
    pub closed spec fn receipts(&self) -> Seq<DispatchReceiptView> {
        self.receipts@
    }

    /// The calls made on the durable store, in order, with its answers.
    pub closed spec fn store_calls(&self) -> Seq<LedgerCall> {
        self.store.calls()
    }

    /// Rebuilds the receipts a restarted composition already committed, from
    /// the one image the store is asked for: no image is an empty ledger, and
    /// only a consistent image restores. A store that cannot be read refuses
    /// the session rather than starting empty, and an image that does not
    /// restore is refused as inconsistent; either refusal hands the store back.
    pub fn restored(store: ServedDispatchLedger<P>) -> (r: Result<Self, LedgerRestoreRefusal<P>>)
        ensures
            r matches Ok(l) ==> receipts_unique(l.receipts()),
            r matches Ok(l) ==> l.store_calls().len() == store.calls().len() + 1
                && l.store_calls().drop_last() == store.calls() && match l.store_calls().last() {
                LedgerCall::Load(Ok(None)) => l.receipts() == Seq::<DispatchReceiptView>::empty(),
                LedgerCall::Load(Ok(Some(image))) => image_restores(
                    image.schema@,
                    receipt_views(image.receipts@),
                ) && l.receipts() == receipt_views(image.receipts@),
                _ => false,
            },
            r matches Err(x) ==> x.store.calls().len() == store.calls().len() + 1
                && x.store.calls().drop_last() == store.calls() && match x.store.calls().last() {
                LedgerCall::Load(Err(_)) => x.error.refusal() == store_unavailable(),
                LedgerCall::Load(Ok(Some(image))) => !image_restores(
                    image.schema@,
                    receipt_views(image.receipts@),
                ) && x.error.refusal() == store_inconsistent(),
                _ => false,
            },
    {
        let ghost given = store.calls();
        let mut store = store;
        let loaded = store.load();
        assert(store.calls().drop_last() =~= given);
        proof {
            assert(receipts_unique(Seq::<DispatchReceiptView>::empty()));
        }
        match restore_image(loaded) {
            Ok(receipts) => Ok(ServedBoundaryLedger { receipts, store }),
            Err(error) => Err(LedgerRestoreRefusal { error, store }),
        }
    }

    /// The receipt this served session already recorded for one dispatch
    /// identity.
    pub fn receipt(&self, dispatch_id: &str) -> (r: Option<&DispatchReceipt>)
        ensures
            match receipt_of(self.receipts(), dispatch_id@) {
                Some(x) => r matches Some(y) && y@ == x,
                None => r is None,
            },
    {
        self.receipts.receipt(dispatch_id)
    }

    /// Retains one receipt under the dispatch identity it reconciles.
    pub fn record(&mut self, receipt: DispatchReceipt)
        ensures
            final(self).receipts() == receipt_put(old(self).receipts(), receipt@),
            receipts_unique(old(self).receipts()) ==> receipts_unique(final(self).receipts()),
    {
        proof {
            if receipts_unique(self.receipts()) {
                lemma_recorded_approval_is_never_written_again(self.receipts(), receipt@);
            }
        }
        self.receipts.record_receipt(receipt);
    }

    /// Makes every receipt this served session recorded durable.
    pub fn persist(&mut self) -> (r: Result<(), ManagementError>)
        ensures
            final(self).receipts() == old(self).receipts(),
            final(self).store_calls() == old(self).store_calls().push(
                LedgerCall::Save(DISPATCH_LEDGER_SCHEMA@, old(self).receipts(), r is Ok),
            ),
            r matches Err(e) ==> e.refusal() == store_unavailable(),
    {
        let image = self.receipts.durable();
        match self.store.save(&image) {
            Ok(()) => Ok(()),
            Err(_) => Err(store_unavailable_error()),
        }
    }

    /// Admits a release of one dispatch identity only when no receipt is
    /// retained for it: an approval already written is never written again.
    pub fn admit_release(&self, dispatch_id: &str) -> (r: Result<(), ManagementError>)
        ensures
            r is Ok <==> receipt_of(self.receipts(), dispatch_id@) is None,
            r matches Err(e) ==> e.refusal() == already_recorded(),
    {
        match self.receipt(dispatch_id) {
            Some(_) => Err(already_recorded_error()),
            None => Ok(()),
        }
    }

    /// Retains one recorded receipt and makes the durable image current. The
    /// provider exchange may already have happened, so a store that cannot be
    /// written is reported as an unresolved outcome.
    pub fn retain_receipt(&mut self, receipt: DispatchReceipt) -> (r: Result<(), ManagementError>)
        ensures
            final(self).receipts() == receipt_put(old(self).receipts(), receipt@),
            r matches Err(e) ==> e.class == ErrorClass::Unresolved && e.code@
                == "prepared_boundary_ledger_unavailable"@,
    {
        self.record(receipt);
        match self.persist() {
            Ok(()) => Ok(()),
            Err(e) => Err(exchange_unresolved(e)),
        }
    }

    /// Settles one release of a held approval. A release that reached the
    /// provider retains its receipt and makes it durable before the decision is
    /// reported; a release without a fresh decision is an approval already
    /// written. A failed release retains the receipt it recorded only when the
    /// outcome is unresolved, since the write may already have reached the
    /// provider; a refusal before the write leaves nothing to reconcile and
    /// stays retryable.
    pub fn settle_release<D>(
        &mut self,
        released: Result<(Option<D>, DispatchReceipt), ManagementError>,
        recorded: Option<DispatchReceipt>,
    ) -> (r: Result<D, ManagementError>)
        ensures
            match released {
                Ok((decision, receipt)) => final(self).receipts() == receipt_put(
                    old(self).receipts(),
                    receipt@,
                ) && (r is Ok ==> decision == Some(r->Ok_0)) && (decision is None ==> r is Err),
                Err(error) => r is Err && if error.class == ErrorClass::Unresolved
                    && recorded is Some {
                    final(self).receipts() == receipt_put(old(self).receipts(), recorded->0@) && (
                    r matches Err(e) && e.class == ErrorClass::Unresolved)
                } else {
                    final(self).receipts() == old(self).receipts() && r == Err::<
                        D,
                        ManagementError,
                    >(error)
                },
            },
    {
        match released {
            Ok((decision, receipt)) => {
                match self.retain_receipt(receipt) {
                    Ok(()) => {},
                    Err(e) => return Err(e),
                }
                match decision {
                    Some(d) => Ok(d),
                    None => Err(already_recorded_error()),
                }
            },
            Err(error) => {
                if error.class == ErrorClass::Unresolved {
                    match recorded {
                        Some(receipt) => {
                            match self.retain_receipt(receipt) {
                                Ok(()) => {},
                                Err(e) => return Err(e),
                            }
                        },
                        None => {},
                    }
                }
                Err(error)
            },
        }
    }
}

} // verus!
