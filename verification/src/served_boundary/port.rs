//! The served write port of one held prepared-application approval: the only
//! place a held approval reaches the provider. It records the approved bytes
//! first and performs the exchange second, so the approved material and the
//! bytes the boundary wrote are one value; a sink that cannot record stops the
//! boundary before anything reaches the provider.

use vstd::prelude::*;
use crate::error::{ErrorClass, ManagementError, Refusal, exchange_unresolved, refusal};
use crate::live_node::Decision;
use crate::served_live::{ProviderFailure, decision_provider_error, decision_provider_refusal};
use super::capture::{DispatchError, PreparedApplicationInput};
use super::logged::{CaptureCall, ExchangeCall, LoggedCapture, LoggedExchange, material_bytes};

verus! {

/// The refusal a dispatch error maps to when it happened before the write: a
/// boundary that cannot be recorded is an unsupported capability, anything
/// else a refused release.
pub open spec fn dispatch_refusal_of(error: DispatchError) -> Refusal {
    match error {
        DispatchError::UnsupportedAdapter | DispatchError::CaptureDisabled
        | DispatchError::Capture => refusal(ErrorClass::Capability, "prepared_boundary_unsupported"),
        _ => refusal(ErrorClass::Conflict, "prepared_boundary_refused"),
    }
}

/// Maps a pre-exchange refusal of the served boundary.
pub fn dispatch_refusal(error: DispatchError) -> (e: ManagementError)
    ensures
        e.refusal() == dispatch_refusal_of(error),
{
    match error {
        DispatchError::UnsupportedAdapter => ManagementError::capability(
            "prepared_boundary_unsupported",
            "the adapter advertises no exact application boundary",
        ),
        DispatchError::CaptureDisabled => ManagementError::capability(
            "prepared_boundary_unsupported",
            "the attached capture sink cannot record the boundary",
        ),
        DispatchError::Capture => ManagementError::capability(
            "prepared_boundary_unsupported",
            "the capture sink refused to record the boundary",
        ),
        DispatchError::InvalidMaterial => ManagementError::conflict(
            "prepared_boundary_refused",
            "the approved material is not the single component this boundary writes",
        ),
        DispatchError::Indeterminate => ManagementError::conflict(
            "prepared_boundary_refused",
            "the boundary write may or may not have reached the provider",
        ),
    }
}

/// The capture sink the port records through.
pub trait CapturePort {
    fn enabled(&self) -> bool;

    /// Records the approved input before it is written.
    fn prepared_input(&mut self, input: &PreparedApplicationInput) -> Result<(), ()>;

    /// Records that the write completed.
    fn write_completed(&mut self, input: &PreparedApplicationInput) -> Result<(), ()>;

    /// Records that the write's outcome is unknown.
    fn write_unknown(&mut self, input: &PreparedApplicationInput, reason: &str);
}

/// The provider exchange of the prepared bytes.
pub trait PreparedExchange {
    fn decide_prepared(&mut self, provider_bytes: &[u8]) -> Result<Decision, ProviderFailure>;
}

/// Whether a material is the single component of exactly the given bytes.
pub open spec fn material_matches(material: PreparedApplicationInput, bytes: Seq<u8>) -> bool {
    material.components@.len() == 1 && material.components@[0].bytes@ == bytes
}

/// What one write of approved material does to the sink's and the provider's
/// logs, and what it returns; `None` marks logs no write leaves.
///
/// The sink is asked first whether it records: a sink that cannot record
/// refuses before anything else. Material that is not the single component of
/// exactly the bytes this boundary writes is refused next, with nothing
/// recorded and nothing sent. Otherwise the bytes are recorded first: a
/// refused recording stops before the provider. The bytes are then handed to
/// the provider once: a decision whose completion is recorded returns the
/// byte count, one whose completion the sink refused is a capture failure,
/// and a failed exchange, recorded as unknown, is indeterminate.
pub open spec fn write_effect(
    valid: bool,
    bytes: Seq<u8>,
    capture_before: Seq<CaptureCall>,
    capture_after: Seq<CaptureCall>,
    exchange_before: Seq<ExchangeCall>,
    exchange_after: Seq<ExchangeCall>,
) -> Option<Result<usize, DispatchError>> {
    let checked = capture_before.push(CaptureCall::Enabled(true));
    if capture_after == capture_before.push(CaptureCall::Enabled(false)) && exchange_after
        == exchange_before {
        Some(Err(DispatchError::CaptureDisabled))
    } else if !valid {
        if capture_after == checked && exchange_after == exchange_before {
            Some(Err(DispatchError::InvalidMaterial))
        } else {
            None
        }
    } else if capture_after == checked.push(CaptureCall::Prepared(bytes, false)) && exchange_after
        == exchange_before {
        Some(Err(DispatchError::Capture))
    } else if exchange_after.len() == exchange_before.len() + 1 && exchange_after.drop_last()
        == exchange_before && exchange_after.last().bytes == bytes {
        let recorded = checked.push(CaptureCall::Prepared(bytes, true));
        match exchange_after.last().failure {
            None => {
                if capture_after == recorded.push(CaptureCall::Completed(true)) {
                    Some(Ok(bytes.len() as usize))
                } else if capture_after == recorded.push(CaptureCall::Completed(false)) {
                    Some(Err(DispatchError::Capture))
                } else {
                    None
                }
            },
            Some(_) => {
                if capture_after == recorded.push(CaptureCall::Unknown) {
                    Some(Err(DispatchError::Indeterminate))
                } else {
                    None
                }
            },
        }
    } else {
        None
    }
}

/// A write sends at most one exchange, and only of the bytes it writes; a sink
/// that cannot record stops it before the provider.
pub proof fn lemma_write_effect_bounds(
    valid: bool,
    bytes: Seq<u8>,
    capture_before: Seq<CaptureCall>,
    capture_after: Seq<CaptureCall>,
    exchange_before: Seq<ExchangeCall>,
    exchange_after: Seq<ExchangeCall>,
)
    requires
        write_effect(valid, bytes, capture_before, capture_after, exchange_before, exchange_after)
            is Some,
    ensures
        exchange_after.len() <= exchange_before.len() + 1,
        exchange_after.len() == exchange_before.len() + 1 ==> exchange_after.last().bytes == bytes,
        capture_after == capture_before.push(CaptureCall::Enabled(false)) ==> exchange_after
            == exchange_before,
{
    if capture_after == capture_before.push(CaptureCall::Enabled(false)) {
        let checked = capture_before.push(CaptureCall::Enabled(true));
        assert(capture_after != checked) by {
            assert(capture_after.last() != checked.last());
        }
        assert(capture_after != checked.push(CaptureCall::Prepared(bytes, false))) by {
            assert(capture_after.len() != checked.len() + 1);
        }
        let recorded = checked.push(CaptureCall::Prepared(bytes, true));
        assert(capture_after != recorded.push(CaptureCall::Completed(true))) by {
            assert(capture_after.len() != recorded.len() + 1);
        }
        assert(capture_after != recorded.push(CaptureCall::Completed(false))) by {
            assert(capture_after.len() != recorded.len() + 1);
        }
        assert(capture_after != recorded.push(CaptureCall::Unknown)) by {
            assert(capture_after.len() != recorded.len() + 1);
        }
    }
}

/// The served write port: records the approved bytes, then writes them to the
/// provider boundary.
pub struct ServedBoundaryPort {
    provider_bytes: Vec<u8>,
    decision: Option<Decision>,
    provider_error: Option<ProviderFailure>,
    attempted: bool,
}

impl ServedBoundaryPort {
    /// Binds one release to the prepared bytes it writes.
    pub fn new(provider_bytes: Vec<u8>) -> (r: Self)
        ensures
            !r.attempted(),
            r.provider_bytes() == provider_bytes@,
            !r.decided(),
            r.provider_failure() is None,
    {
        ServedBoundaryPort { provider_bytes, decision: None, provider_error: None, attempted: false }
    }

    /// Whether the provider exchange was attempted.
    pub closed spec fn attempted(&self) -> bool {
        self.attempted
    }

    /// The bytes this boundary writes.
    pub closed spec fn provider_bytes(&self) -> Seq<u8> {
        self.provider_bytes@
    }

    /// Whether the exchange returned a decision not yet taken.
    pub closed spec fn decided(&self) -> bool {
        self.decision is Some
    }

    /// The provider failure of the exchange, if it failed.
    pub closed spec fn provider_failure(&self) -> Option<ProviderFailure> {
        self.provider_error
    }

    /// Writes one approved material through the sink and the provider; see
    /// [`write_effect`] for what it records, what it sends and what it
    /// returns.
    pub fn write_prepared<X: PreparedExchange, K: CapturePort>(
        &mut self,
        exchange: &mut LoggedExchange<X>,
        capture: &mut LoggedCapture<K>,
        material: &PreparedApplicationInput,
    ) -> (r: Result<usize, DispatchError>)
        ensures
            final(self).provider_bytes() == old(self).provider_bytes(),
            write_effect(
                material_matches(*material, old(self).provider_bytes()),
                old(self).provider_bytes(),
                old(capture).log(),
                final(capture).log(),
                old(exchange).log(),
                final(exchange).log(),
            ) == Some(r),
            final(exchange).log().len() == old(exchange).log().len() || final(exchange).log().len()
                == old(exchange).log().len() + 1,
            final(self).attempted() == (old(self).attempted() || final(exchange).log().len()
                > old(exchange).log().len()),
            final(self).decided() == (old(self).decided() || (final(exchange).log().len()
                > old(exchange).log().len() && final(exchange).log().last().failure is None)),
            final(self).provider_failure() == (if final(exchange).log().len() > old(
                exchange,
            ).log().len() && final(exchange).log().last().failure is Some {
                final(exchange).log().last().failure
            } else {
                old(self).provider_failure()
            }),
    {
        let ghost capture_before = capture.log();
        let ghost exchange_before = exchange.log();
        let ghost bytes = self.provider_bytes@;
        let ghost valid = material_matches(*material, bytes);
        if !capture.enabled() {
            return Err(DispatchError::CaptureDisabled);
        }
        assert(capture.log() != capture_before.push(CaptureCall::Enabled(false))) by {
            assert(capture.log().last() != capture_before.push(CaptureCall::Enabled(false)).last());
        }
        if material.components.len() != 1 {
            return Err(DispatchError::InvalidMaterial);
        }
        let approved = &material.components[0].bytes;
        if !bytes_equal(approved, &self.provider_bytes) {
            return Err(DispatchError::InvalidMaterial);
        }
        assert(valid);
        let approved_bytes = approved.len();
        let recorded = capture.prepared_input(material);
        assert(material_bytes(*material) == bytes);
        match recorded {
            Err(()) => {
                assert(capture.log() != capture_before.push(CaptureCall::Enabled(false))) by {
                    assert(capture.log().len() != capture_before.len() + 1);
                }
                assert(write_effect(
                    valid,
                    bytes,
                    capture_before,
                    capture.log(),
                    exchange_before,
                    exchange.log(),
                ) == Some(Err::<usize, DispatchError>(DispatchError::Capture)));
                return Err(DispatchError::Capture);
            },
            Ok(()) => {},
        }
        let ghost checked = capture_before.push(CaptureCall::Enabled(true));
        let ghost recorded_log = capture.log();
        assert(recorded_log == checked.push(CaptureCall::Prepared(bytes, true)));
        assert(recorded_log != checked.push(CaptureCall::Prepared(bytes, false))) by {
            assert(recorded_log.last() != checked.push(CaptureCall::Prepared(bytes, false)).last());
        }
        assert(recorded_log != capture_before.push(CaptureCall::Enabled(false))) by {
            assert(recorded_log.len() != capture_before.len() + 1);
        }
        self.attempted = true;
        let decided = exchange.decide_prepared(self.provider_bytes.as_slice());
        assert(exchange.log().drop_last() =~= exchange_before);
        assert(exchange.log().last().bytes == bytes);
        assert(exchange.log() != exchange_before);
        match decided {
            Ok(decision) => {
                self.decision = Some(decision);
                let completed = capture.write_completed(material);
                assert(capture.log() != checked.push(CaptureCall::Prepared(bytes, false))) by {
                    assert(capture.log().len() != checked.len() + 1);
                }
                assert(capture.log() != capture_before.push(CaptureCall::Enabled(false))) by {
                    assert(capture.log().len() != capture_before.len() + 1);
                }
                match completed {
                    Err(()) => {
                        assert(capture.log() != recorded_log.push(CaptureCall::Completed(true))) by {
                            assert(capture.log().last() != recorded_log.push(CaptureCall::Completed(true)).last());
                        }
                        assert(write_effect(
                            valid,
                            bytes,
                            capture_before,
                            capture.log(),
                            exchange_before,
                            exchange.log(),
                        ) == Some(Err::<usize, DispatchError>(DispatchError::Capture)));
                        Err(DispatchError::Capture)
                    },
                    Ok(()) => {
                        assert(capture.log() != recorded_log.push(CaptureCall::Completed(false))) by {
                            assert(capture.log().last() != recorded_log.push(CaptureCall::Completed(false)).last());
                        }
                        assert(write_effect(
                            valid,
                            bytes,
                            capture_before,
                            capture.log(),
                            exchange_before,
                            exchange.log(),
                        ) == Some(Ok::<usize, DispatchError>(approved_bytes)));
                        Ok(approved_bytes)
                    },
                }
            },
            Err(error) => {
                capture.write_unknown(material, "prepared_boundary_transport_unknown");
                assert(capture.log() != checked.push(CaptureCall::Prepared(bytes, false))) by {
                    assert(capture.log().len() != checked.len() + 1);
                }
                assert(capture.log() != capture_before.push(CaptureCall::Enabled(false))) by {
                    assert(capture.log().len() != capture_before.len() + 1);
                }
                self.provider_error = Some(error);
                assert(write_effect(
                    valid,
                    bytes,
                    capture_before,
                    capture.log(),
                    exchange_before,
                    exchange.log(),
                ) == Some(Err::<usize, DispatchError>(DispatchError::Indeterminate)));
                Err(DispatchError::Indeterminate)
            },
        }
    }

    /// The decision the port exchanged, if the release reached the provider.
    pub fn take_decision(&mut self) -> (r: Option<Decision>)
        ensures
            r is Some == old(self).decided(),
            !final(self).decided(),
            final(self).attempted() == old(self).attempted(),
            final(self).provider_failure() == old(self).provider_failure(),
    {
        self.decision.take()
    }

    /// Classifies a refused release against the boundary it actually reached:
    /// a provider failure as a paid exchange, any other refusal after the
    /// exchange was attempted as unresolved, and one before it as a clean
    /// refusal.
    pub fn release_error(&mut self, error: DispatchError) -> (e: ManagementError)
        ensures
            old(self).provider_failure() matches Some(f) ==> e.refusal()
                == decision_provider_refusal(f),
            old(self).provider_failure() is None && old(self).attempted() ==> e.class
                == ErrorClass::Unresolved && e.code@ == dispatch_refusal_of(error).code,
            old(self).provider_failure() is None && !old(self).attempted() ==> e.refusal()
                == dispatch_refusal_of(error),
            final(self).provider_failure() is None,
            final(self).attempted() == old(self).attempted(),
    {
        match self.provider_error.take() {
            Some(f) => return decision_provider_error(f),
            None => {},
        }
        if self.attempted {
            return exchange_unresolved(dispatch_refusal(error));
        }
        dispatch_refusal(error)
    }
}

/// Whether two byte strings are equal.
fn bytes_equal(a: &Vec<u8>, b: &Vec<u8>) -> (r: bool)
    ensures
        r == (a@ == b@),
{
    if a.len() != b.len() {
        return false;
    }
    let mut i: usize = 0;
    while i < a.len()
        invariant
            a.len() == b.len(),
            i <= a.len(),
            forall|j: int| 0 <= j < i ==> a@[j] == b@[j],
        decreases a.len() - i,
    {
        if a[i] != b[i] {
            return false;
        }
        i = i + 1;
    }
    assert(a@ =~= b@);
    true
}

} // verus!
