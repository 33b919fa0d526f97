//! The prepared-application capture vocabulary the served boundary drives:
//! which adapters advertise an exact boundary, the approved input of one
//! dispatch, the receipts of written approvals and their durable image, and
//! the sink that records what a boundary wrote.

use vstd::prelude::*;
use crate::error::text_is;
use crate::identity::{is_identifier, is_identifier_text};

verus! {

/// The boundary an adapter's exact capture is taken at.
#[derive(Clone, Copy, Debug, PartialEq, Eq, Structural)]
pub enum CaptureBoundary {
    /// The encoded request the harness writes to the Exo session transport.
    ExoSessionRequest,
    /// The HTTP request body written to an Ollama endpoint.
    HttpBody,
}

/// What the harness may claim about an adapter's effective context.
#[derive(Clone, Copy, Debug, PartialEq, Eq, Structural)]
pub enum EffectiveContextClaim {
    /// Nothing is claimed.
    Unsupported,
    /// Exactly the bytes written at the advertised boundary are claimed.
    ApplicationBoundary,
}

/// How far one adapter's exact capture reaches.
#[derive(Clone, Copy, Debug, PartialEq, Eq, Structural)]
pub struct AdapterSupport {
    pub claim: EffectiveContextClaim,
    pub exact_boundary: Option<CaptureBoundary>,
}

impl AdapterSupport {
    pub fn claim(&self) -> (r: EffectiveContextClaim)
        ensures
            r == self.claim,
    {
        self.claim
    }

    pub fn exact_boundary(&self) -> (r: Option<CaptureBoundary>)
        ensures
            r == self.exact_boundary,
    {
        self.exact_boundary
    }
}

/// The exact boundary an adapter advertises: the Exo session request and the
/// Ollama HTTP body; no other adapter has one.
pub open spec fn advertised_boundary(adapter_id: Seq<char>) -> Option<CaptureBoundary> {
    if adapter_id == "exo"@ {
        Some(CaptureBoundary::ExoSessionRequest)
    } else if adapter_id == "ollama"@ {
        Some(CaptureBoundary::HttpBody)
    } else {
        None
    }
}

/// The adapters that advertise an exact boundary, with the boundary each one
/// advertises.
pub fn advertised_exact_adapters() -> (r: Vec<(&'static str, CaptureBoundary)>)
    ensures
        r@.len() == 2,
        r@[0].0@ == "exo"@,
        r@[0].1 == CaptureBoundary::ExoSessionRequest,
        r@[1].0@ == "ollama"@,
        r@[1].1 == CaptureBoundary::HttpBody,
{
    vec![("exo", CaptureBoundary::ExoSessionRequest), ("ollama", CaptureBoundary::HttpBody)]
}

/// What the harness may claim for an adapter: the application boundary of an
/// advertised adapter, and nothing for any other.
pub fn adapter_support(adapter_id: &str) -> (r: AdapterSupport)
    ensures
        r.exact_boundary == advertised_boundary(adapter_id@),
        r.claim == (if advertised_boundary(adapter_id@) is Some {
            EffectiveContextClaim::ApplicationBoundary
        } else {
            EffectiveContextClaim::Unsupported
        }),
{
    proof {
        reveal_strlit("exo");
        reveal_strlit("ollama");
    }
    if text_is(&adapter_id.to_owned(), "exo") {
        AdapterSupport {
            claim: EffectiveContextClaim::ApplicationBoundary,
            exact_boundary: Some(CaptureBoundary::ExoSessionRequest),
        }
    } else if text_is(&adapter_id.to_owned(), "ollama") {
        AdapterSupport {
            claim: EffectiveContextClaim::ApplicationBoundary,
            exact_boundary: Some(CaptureBoundary::HttpBody),
        }
    } else {
        AdapterSupport { claim: EffectiveContextClaim::Unsupported, exact_boundary: None }
    }
}

/// Why a prepared dispatch could not be approved, held or written.
#[derive(Clone, Copy, Debug, PartialEq, Eq, Structural)]
pub enum DispatchError {
    /// The adapter advertises no exact boundary.
    UnsupportedAdapter,
    /// The attached sink cannot record.
    CaptureDisabled,
    /// The approved material is not the single well-formed component written.
    InvalidMaterial,
    /// The write may or may not have reached the provider.
    Indeterminate,
    /// The attached sink refused to record the write.
    Capture,
}

/// The role one captured component plays at the boundary.
#[derive(Clone, Copy, Debug, PartialEq, Eq, Structural)]
pub enum CaptureComponentKind {
    Stdin,
}

/// One component of the bytes written at a boundary.
#[derive(Clone, Debug, PartialEq, Eq)]
pub struct CaptureComponent {
    pub kind: CaptureComponentKind,
    pub ordinal: u32,
    pub media_type: String,
    pub bytes: Vec<u8>,
}

/// The approved input of one dispatch at an advertised boundary.
#[derive(Debug, PartialEq, Eq)]
pub struct PreparedApplicationInput {
    pub adapter_id: String,
    pub boundary: CaptureBoundary,
    pub execution_id: String,
    pub attempt_id: Option<String>,
    pub components: Vec<CaptureComponent>,
}

/// Whether a prepared input is admissible: an advertised adapter, portable
/// execution and attempt identities, and exactly one component.
pub open spec fn prepared_refusal(
    adapter_id: Seq<char>,
    execution_id: Seq<char>,
    attempt_id: Option<Seq<char>>,
    components: nat,
) -> Option<DispatchError> {
    if advertised_boundary(adapter_id) is None {
        Some(DispatchError::UnsupportedAdapter)
    } else if !is_identifier(execution_id) || (attempt_id matches Some(a) && !is_identifier(a))
        || components != 1 {
        Some(DispatchError::InvalidMaterial)
    } else {
        None
    }
}

impl PreparedApplicationInput {
    /// Approves the exact input of one dispatch; see [`prepared_refusal`].
    pub fn prepare(
        adapter_id: &str,
        execution_id: &str,
        attempt_id: Option<&str>,
        components: &[CaptureComponent],
    ) -> (r: Result<Self, DispatchError>)
        ensures
            match prepared_refusal(
                adapter_id@,
                execution_id@,
                match attempt_id {
                    Some(a) => Some(a@),
                    None => None,
                },
                components@.len(),
            ) {
                Some(e) => r == Err::<Self, DispatchError>(e),
                None => r matches Ok(p) && p.adapter_id@ == adapter_id@ && p.execution_id@
                    == execution_id@ && Some(p.boundary) == advertised_boundary(adapter_id@)
                    && p.components@.len() == 1 && p.components@[0].bytes@
                    == components@[0].bytes@ && p.components@[0].kind == components@[0].kind
                    && p.components@[0].ordinal == components@[0].ordinal
                    && p.components@[0].media_type@ == components@[0].media_type@ && match attempt_id {
                    Some(a) => p.attempt_id matches Some(x) && x@ == a@,
                    None => p.attempt_id is None,
                },
            },
    {
        let support = adapter_support(adapter_id);
        let boundary = match support.exact_boundary() {
            Some(b) => b,
            None => return Err(DispatchError::UnsupportedAdapter),
        };
        if !is_identifier_text(execution_id) || components.len() != 1 {
            return Err(DispatchError::InvalidMaterial);
        }
        let attempt = match attempt_id {
            Some(a) => {
                if !is_identifier_text(a) {
                    return Err(DispatchError::InvalidMaterial);
                }
                Some(a.to_owned())
            },
            None => None,
        };
        let mut owned: Vec<CaptureComponent> = Vec::new();
        let first = &components[0];
        let bytes = first.bytes.clone();
        assert(bytes@ =~= first.bytes@);
        owned.push(
            CaptureComponent {
                kind: first.kind,
                ordinal: first.ordinal,
                media_type: first.media_type.clone(),
                bytes,
            },
        );
        Ok(
            PreparedApplicationInput {
                adapter_id: adapter_id.to_owned(),
                boundary,
                execution_id: execution_id.to_owned(),
                attempt_id: attempt,
                components: owned,
            },
        )
    }
}

/// How a recorded dispatch ended.
#[derive(Clone, Copy, Debug, PartialEq, Eq, Structural)]
pub enum DispatchOutcome {
    /// The write completed.
    Completed,
    /// The write may have reached the provider; its outcome is unknown.
    Indeterminate,
}

/// The receipt of one written approval.
#[derive(Debug, PartialEq, Eq)]
pub struct DispatchReceipt {
    pub dispatch_id: String,
    pub execution_id: String,
    pub attempt_id: String,
    pub outcome: DispatchOutcome,
}

/// A receipt as plain values.
pub struct DispatchReceiptView {
    pub dispatch_id: Seq<char>,
    pub execution_id: Seq<char>,
    pub attempt_id: Seq<char>,
    pub outcome: DispatchOutcome,
}

impl View for DispatchReceipt {
    type V = DispatchReceiptView;

    open spec fn view(&self) -> DispatchReceiptView {
        DispatchReceiptView {
            dispatch_id: self.dispatch_id@,
            execution_id: self.execution_id@,
            attempt_id: self.attempt_id@,
            outcome: self.outcome,
        }
    }
}

impl Clone for DispatchReceipt {
    fn clone(&self) -> (r: Self)
        ensures
            r@ == self@,
    {
        DispatchReceipt {
            dispatch_id: self.dispatch_id.clone(),
            execution_id: self.execution_id.clone(),
            attempt_id: self.attempt_id.clone(),
            outcome: self.outcome,
        }
    }
}

/// The views of a sequence of receipts.
pub open spec fn receipt_views(v: Seq<DispatchReceipt>) -> Seq<DispatchReceiptView> {
    v.map_values(|r: DispatchReceipt| r@)
}

/// The index of the receipt retained for a dispatch identity, if any.
pub open spec fn receipt_index(s: Seq<DispatchReceiptView>, dispatch_id: Seq<char>) -> Option<int>
    decreases s.len(),
{
    if s.len() == 0 {
        None
    } else if s.last().dispatch_id == dispatch_id {
        Some(s.len() - 1)
    } else {
        receipt_index(s.drop_last(), dispatch_id)
    }
}

/// The receipt retained for a dispatch identity, if any.
pub open spec fn receipt_of(s: Seq<DispatchReceiptView>, dispatch_id: Seq<char>) -> Option<
    DispatchReceiptView,
> {
    match receipt_index(s, dispatch_id) {
        Some(i) => Some(s[i]),
        None => None,
    }
}

/// The receipts with `r` retained for its dispatch identity: it replaces the
/// receipt retained before, or is added last.
pub open spec fn receipt_put(s: Seq<DispatchReceiptView>, r: DispatchReceiptView) -> Seq<
    DispatchReceiptView,
> {
    match receipt_index(s, r.dispatch_id) {
        Some(i) => s.update(i, r),
        None => s.push(r),
    }
}

/// No dispatch identity is retained twice.
pub open spec fn receipts_unique(s: Seq<DispatchReceiptView>) -> bool {
    forall|i: int, j: int|
        0 <= i < s.len() && 0 <= j < s.len() && i != j ==> s[i].dispatch_id != s[j].dispatch_id
}

/// What `receipt_index` reports lies inside the sequence and carries the
/// identity; when it reports nothing, no receipt carries it.
pub proof fn lemma_receipt_index(s: Seq<DispatchReceiptView>, dispatch_id: Seq<char>)
    ensures
        receipt_index(s, dispatch_id) matches Some(i) ==> 0 <= i < s.len() && s[i].dispatch_id
            == dispatch_id,
        receipt_index(s, dispatch_id) is None ==> forall|k: int|
            0 <= k < s.len() ==> s[k].dispatch_id != dispatch_id,
    decreases s.len(),
{
    if s.len() > 0 {
        lemma_receipt_index(s.drop_last(), dispatch_id);
        assert forall|k: int| 0 <= k < s.len() - 1 implies s.drop_last()[k] == s[k] by {}
    }
}

/// The receipts one served composition recorded, at most one per dispatch
/// identity.
#[derive(Debug)]
pub struct DispatchLedger {
    receipts: Vec<DispatchReceipt>,
}

impl View for DispatchLedger {
    type V = Seq<DispatchReceiptView>;

    closed spec fn view(&self) -> Seq<DispatchReceiptView> {
        receipt_views(self.receipts@)
    }
}

/// The schema of a durable ledger image.
pub const DISPATCH_LEDGER_SCHEMA: &'static str = "ascension.dispatch-ledger.v1";

/// Why a durable ledger could not be read, restored or written.
#[derive(Clone, Copy, Debug, PartialEq, Eq, Structural)]
pub enum DispatchLedgerError {
    /// The store could not be reached.
    Unavailable,
    /// The image is not a consistent ledger.
    Inconsistent,
}

/// The durable image of a dispatch ledger.
#[derive(Debug, PartialEq, Eq)]
pub struct DurableDispatchLedger {
    pub schema: String,
    pub receipts: Vec<DispatchReceipt>,
}

impl Clone for DurableDispatchLedger {
    fn clone(&self) -> (r: Self)
        ensures
            r.schema@ == self.schema@,
            receipt_views(r.receipts@) == receipt_views(self.receipts@),
    {
        DurableDispatchLedger { schema: self.schema.clone(), receipts: clone_receipts(&self.receipts) }
    }
}

fn clone_receipts(v: &Vec<DispatchReceipt>) -> (r: Vec<DispatchReceipt>)
    ensures
        receipt_views(r@) == receipt_views(v@),
{
    let mut out: Vec<DispatchReceipt> = Vec::new();
    let mut i: usize = 0;
    while i < v.len()
        invariant
            i <= v.len(),
            out.len() == i,
            forall|k: int| 0 <= k < i ==> #[trigger] out@[k]@ == v@[k]@,
        decreases v.len() - i,
    {
        out.push(v[i].clone());
        i = i + 1;
    }
    assert(receipt_views(out@) =~= receipt_views(v@));
    out
}

/// Whether a durable image restores: the current schema and no dispatch
/// identity twice.
pub open spec fn image_restores(schema: Seq<char>, receipts: Seq<DispatchReceiptView>) -> bool {
    schema == DISPATCH_LEDGER_SCHEMA@ && receipts_unique(receipts)
}

impl DurableDispatchLedger {
    /// Restores the ledger an image holds, refusing one of another schema or
    /// one that retains a dispatch identity twice.
    pub fn restore(&self) -> (r: Result<DispatchLedger, DispatchLedgerError>)
        ensures
            image_restores(self.schema@, receipt_views(self.receipts@)) <==> r is Ok,
            r matches Ok(l) ==> l@ == receipt_views(self.receipts@),
            r matches Err(e) ==> e == DispatchLedgerError::Inconsistent,
    {
        if !text_is(&self.schema, DISPATCH_LEDGER_SCHEMA) {
            return Err(DispatchLedgerError::Inconsistent);
        }
        let ghost s = receipt_views(self.receipts@);
        let mut i: usize = 0;
        while i < self.receipts.len()
            invariant
                i <= self.receipts.len(),
                s == receipt_views(self.receipts@),
                forall|a: int, b: int|
                    0 <= a < i && 0 <= b < i && a != b ==> s[a].dispatch_id != s[b].dispatch_id,
            decreases self.receipts.len() - i,
        {
            let mut k: usize = 0;
            while k < i
                invariant
                    k <= i < self.receipts.len(),
                    s == receipt_views(self.receipts@),
                    forall|l: int| 0 <= l < k ==> s[l].dispatch_id != s[i as int].dispatch_id,
                decreases i - k,
            {
                if self.receipts[k].dispatch_id == self.receipts[i].dispatch_id {
                    assert(s[k as int].dispatch_id == s[i as int].dispatch_id);
                    return Err(DispatchLedgerError::Inconsistent);
                }
                k = k + 1;
            }
            i = i + 1;
        }
        Ok(DispatchLedger { receipts: clone_receipts(&self.receipts) })
    }
}

impl DispatchLedger {
    /// An empty ledger.
    pub fn new() -> (r: Self)
        ensures
            r@ == Seq::<DispatchReceiptView>::empty(),
    {
        let r = DispatchLedger { receipts: Vec::new() };
        assert(r@ =~= Seq::<DispatchReceiptView>::empty());
        r
    }

    /// The index of the receipt retained for a dispatch identity.
    fn position(&self, dispatch_id: &str) -> (r: Option<usize>)
        ensures
            match r {
                Some(k) => k < self.receipts@.len() && receipt_index(self@, dispatch_id@) == Some(
                    k as int,
                ),
                None => receipt_index(self@, dispatch_id@) is None,
            },
    {
        let ghost s = self@;
        let mut i: usize = self.receipts.len();
        assert(s.take(i as int) =~= s);
        while i > 0
            invariant
                i <= self.receipts.len(),
                s == self@,
                receipt_index(s, dispatch_id@) == receipt_index(s.take(i as int), dispatch_id@),
            decreases i,
        {
            let ghost t = s.take(i as int);
            assert(t.last() == s[i - 1]);
            assert(t.drop_last() =~= s.take(i - 1));
            if text_is(&self.receipts[i - 1].dispatch_id, dispatch_id) {
                return Some(i - 1);
            }
            i = i - 1;
        }
        assert(s.take(0) =~= Seq::<DispatchReceiptView>::empty());
        None
    }

    /// The receipt retained for a dispatch identity.
    pub fn receipt(&self, dispatch_id: &str) -> (r: Option<&DispatchReceipt>)
        ensures
            match receipt_of(self@, dispatch_id@) {
                Some(x) => r matches Some(y) && y@ == x,
                None => r is None,
            },
    {
        match self.position(dispatch_id) {
            Some(i) => Some(&self.receipts[i]),
            None => None,
        }
    }

    /// Retains a receipt under the dispatch identity it reconciles.
    pub fn record_receipt(&mut self, receipt: DispatchReceipt)
        ensures
            final(self)@ == receipt_put(old(self)@, receipt@),
    {
        let ghost s = self@;
        match self.position(receipt.dispatch_id.as_str()) {
            Some(i) => {
                let ghost rv = receipt@;
                self.receipts.set(i, receipt);
                assert(self@ =~= s.update(i as int, rv));
            },
            None => {
                let ghost rv = receipt@;
                self.receipts.push(receipt);
                assert(self@ =~= s.push(rv));
            },
        }
    }

    /// The durable image of this ledger.
    pub fn durable(&self) -> (r: DurableDispatchLedger)
        ensures
            r.schema@ == DISPATCH_LEDGER_SCHEMA@,
            receipt_views(r.receipts@) == self@,
    {
        DurableDispatchLedger {
            schema: DISPATCH_LEDGER_SCHEMA.to_owned(),
            receipts: clone_receipts(&self.receipts),
        }
    }
}

/// An owner-supplied durable store for the dispatch ledger.
pub trait DispatchLedgerPort {
    fn load(&mut self) -> Result<Option<DurableDispatchLedger>, DispatchLedgerError>;

    fn save(&mut self, ledger: &DurableDispatchLedger) -> Result<(), DispatchLedgerError>;
}

/// The store used when an owner attaches none: it holds no image and persists
/// nothing.
pub struct NoopDispatchLedgerPort;

impl DispatchLedgerPort for NoopDispatchLedgerPort {
    fn load(&mut self) -> (r: Result<Option<DurableDispatchLedger>, DispatchLedgerError>)
        ensures
            r == Ok::<Option<DurableDispatchLedger>, DispatchLedgerError>(None),
    {
        Ok(None)
    }

    fn save(&mut self, ledger: &DurableDispatchLedger) -> (r: Result<(), DispatchLedgerError>)
        ensures
            r is Ok,
    {
        Ok(())
    }
}

/// An in-memory store that keeps the last image saved.
pub struct InMemoryDispatchLedgerPort {
    pub image: Option<DurableDispatchLedger>,
}

impl InMemoryDispatchLedgerPort {
    pub fn new() -> (r: Self)
        ensures
            r.image is None,
    {
        InMemoryDispatchLedgerPort { image: None }
    }
}

/// Whether two images hold the same schema and receipts.
pub open spec fn same_image(a: DurableDispatchLedger, b: DurableDispatchLedger) -> bool {
    a.schema@ == b.schema@ && receipt_views(a.receipts@) == receipt_views(b.receipts@)
}

impl DispatchLedgerPort for InMemoryDispatchLedgerPort {
    /// The image saved last, if any.
    fn load(&mut self) -> (r: Result<Option<DurableDispatchLedger>, DispatchLedgerError>)
        ensures
            match old(self).image {
                Some(i) => r matches Ok(Some(x)) && same_image(x, i),
                None => r == Ok::<Option<DurableDispatchLedger>, DispatchLedgerError>(None),
            },
            final(self).image == old(self).image,
    {
        match &self.image {
            Some(image) => Ok(Some(image.clone())),
            None => Ok(None),
        }
    }

    /// Keeps one image, replacing the one saved before.
    fn save(&mut self, ledger: &DurableDispatchLedger) -> (r: Result<(), DispatchLedgerError>)
        ensures
            r is Ok,
            final(self).image matches Some(i) && same_image(i, *ledger),
    {
        self.image = Some(ledger.clone());
        Ok(())
    }
}

/// The largest number of records an in-memory capture ring holds.
pub const MAX_CAPTURE_RECORDS: usize = 256;

/// The largest number of captured bytes an in-memory capture ring holds.
pub const MAX_CAPTURE_BYTES: usize = 1048576;

/// Why a capture sink could not be built.
#[derive(Clone, Copy, Debug, PartialEq, Eq, Structural)]
pub enum CaptureError {
    /// A ring bound is zero or above the module limit.
    InvalidBounds,
}

/// Where a capture sink keeps what it records.
#[derive(Clone, Copy, Debug, PartialEq, Eq, Structural)]
pub enum CaptureSink {
    /// Records nothing.
    Disabled,
    /// Keeps the latest records in a bounded ring.
    MemoryRing { max_records: usize, max_bytes: usize },
}

/// The recording sink attached to the served boundary. A sink that cannot
/// record makes the served boundary refuse before any provider write.
#[derive(Clone, Copy, Debug, PartialEq, Eq, Structural)]
pub struct BoundaryCaptureSink {
    pub sink: CaptureSink,
}

impl BoundaryCaptureSink {
    /// Attaches one sink.
    pub fn new(sink: CaptureSink) -> (r: Self)
        ensures
            r.sink == sink,
    {
        BoundaryCaptureSink { sink }
    }

    /// A sink that cannot record.
    pub fn disabled() -> (r: Self)
        ensures
            r.sink == CaptureSink::Disabled,
            !r.spec_enabled(),
    {
        Self::new(CaptureSink::Disabled)
    }

    /// The recording sink the served composition attaches: a bounded in-memory
    /// ring at the module limits.
    pub fn memory_ring() -> (r: Result<Self, CaptureError>)
        ensures
            r matches Ok(s) && s.sink == (CaptureSink::MemoryRing {
                max_records: MAX_CAPTURE_RECORDS,
                max_bytes: MAX_CAPTURE_BYTES,
            }) && s.spec_enabled(),
    {
        Self::ring(MAX_CAPTURE_RECORDS, MAX_CAPTURE_BYTES)
    }

    /// A bounded in-memory ring, refused unless each bound is positive and
    /// within the module limits.
    pub fn ring(max_records: usize, max_bytes: usize) -> (r: Result<Self, CaptureError>)
        ensures
            (0 < max_records <= MAX_CAPTURE_RECORDS && 0 < max_bytes <= MAX_CAPTURE_BYTES) <==> r is Ok,
            r matches Ok(s) ==> s.sink == (CaptureSink::MemoryRing { max_records, max_bytes }),
            r matches Err(e) ==> e == CaptureError::InvalidBounds,
    {
        if max_records == 0 || max_records > MAX_CAPTURE_RECORDS || max_bytes == 0 || max_bytes
            > MAX_CAPTURE_BYTES {
            return Err(CaptureError::InvalidBounds);
        }
        Ok(Self::new(CaptureSink::MemoryRing { max_records, max_bytes }))
    }

    /// Whether the sink records.
    pub open spec fn spec_enabled(&self) -> bool {
        self.sink !is Disabled
    }

    /// Whether the sink records.
    pub fn enabled(&self) -> (r: bool)
        ensures
            r == self.spec_enabled(),
    {
        match self.sink {
            CaptureSink::Disabled => false,
            _ => true,
        }
    }
}

} // verus!
