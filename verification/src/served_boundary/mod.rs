//! The served release of the exact managed application boundary: the receipts
//! of approvals already written, carried through an owner-supplied durable
//! store, and the identities and fences a held approval is bound to.

mod capture;

pub use capture::{
    adapter_support, advertised_exact_adapters, AdapterSupport, BoundaryCaptureSink,
    CaptureBoundary, CaptureComponent, CaptureComponentKind, CaptureError, CaptureSink,
    DispatchError, DispatchLedger, DispatchLedgerError, DispatchLedgerPort, DispatchOutcome,
    DispatchReceipt, DurableDispatchLedger, EffectiveContextClaim, InMemoryDispatchLedgerPort,
    NoopDispatchLedgerPort, PreparedApplicationInput, DISPATCH_LEDGER_SCHEMA, MAX_CAPTURE_BYTES,
    MAX_CAPTURE_RECORDS,
};
mod ledger;

pub use ledger::{
    restore_image, LedgerCall, LedgerRestoreRefusal, ServedBoundaryLedger, ServedDispatchLedger,
};
mod fences;
mod logged;
mod port;
mod release;

pub use release::ManagedBoundary;

pub use port::{
    dispatch_refusal, CapturePort, PreparedExchange, ServedBoundaryPort,
};

pub use fences::{
    boundary_attempt_id, boundary_fences, dispatch_id, fence_binding, identity_attempt_id,
    ContextRenderSourceIdentity, DispatchFences, RenderBoundary, BOUNDARY_ADAPTER_ID,
};

pub use logged::{CaptureCall, ExchangeCall, LoggedCapture, LoggedExchange};
