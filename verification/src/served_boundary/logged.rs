//! The capture sink and the provider exchange of a served boundary, each held
//! with the log of the calls made on it and what it answered. Only the
//! methods here add to a log, one entry for each call they make, so the log
//! is the record of what the port was asked and what it said.

use vstd::prelude::*;
use crate::live_node::Decision;
use crate::served_live::ProviderFailure;
use super::capture::PreparedApplicationInput;
use super::port::{CapturePort, PreparedExchange};

verus! {

/// One call made on a capture sink, with its answer.
pub enum CaptureCall {
    /// The sink was asked whether it records: its answer.
    Enabled(bool),
    /// The approved bytes were recorded before the write: the bytes, and
    /// whether the sink accepted them.
    Prepared(Seq<u8>, bool),
    /// The completion of the write was recorded: whether the sink accepted it.
    Completed(bool),
    /// The write's outcome was recorded as unknown.
    Unknown,
}

/// One provider exchange: the bytes handed to the provider, and its failure,
/// or `None` when it answered with a decision.
pub struct ExchangeCall {
    pub bytes: Seq<u8>,
    pub failure: Option<ProviderFailure>,
}

/// The bytes one approved material holds: those of its single component.
pub open spec fn material_bytes(material: PreparedApplicationInput) -> Seq<u8> {
    if material.components@.len() == 1 {
        material.components@[0].bytes@
    } else {
        Seq::empty()
    }
}

/// A capture sink with the log of the calls made on it.
pub struct LoggedCapture<K> {
    sink: K,
    log: Ghost<Seq<CaptureCall>>,
}

impl<K: CapturePort> LoggedCapture<K> {
    /// Holds one sink, with nothing asked of it yet.
    pub fn new(sink: K) -> (r: Self)
        ensures
            r.log() == Seq::<CaptureCall>::empty(),
    {
        LoggedCapture { sink, log: Ghost(Seq::empty()) }
    }

    /// The calls made on the sink, in order, with its answers.
    pub closed spec fn log(&self) -> Seq<CaptureCall> {
        self.log@
    }

    /// The sink, for its owner to inspect.
    pub fn sink(&self) -> &K {
        &self.sink
    }

    /// Asks the sink whether it records.
    pub fn enabled(&mut self) -> (r: bool)
        ensures
            final(self).log() == old(self).log().push(CaptureCall::Enabled(r)),
    {
        let r = self.sink.enabled();
        self.log = Ghost(self.log@.push(CaptureCall::Enabled(r)));
        r
    }

    /// Records the approved input before it is written.
    pub fn prepared_input(&mut self, input: &PreparedApplicationInput) -> (r: Result<(), ()>)
        ensures
            final(self).log() == old(self).log().push(
                CaptureCall::Prepared(material_bytes(*input), r is Ok),
            ),
    {
        let r = self.sink.prepared_input(input);
        self.log = Ghost(self.log@.push(CaptureCall::Prepared(material_bytes(*input), r is Ok)));
        r
    }

    /// Records that the write completed.
    pub fn write_completed(&mut self, input: &PreparedApplicationInput) -> (r: Result<(), ()>)
        ensures
            final(self).log() == old(self).log().push(CaptureCall::Completed(r is Ok)),
    {
        let r = self.sink.write_completed(input);
        self.log = Ghost(self.log@.push(CaptureCall::Completed(r is Ok)));
        r
    }

    /// Records that the write's outcome is unknown.
    pub fn write_unknown(&mut self, input: &PreparedApplicationInput, reason: &str)
        ensures
            final(self).log() == old(self).log().push(CaptureCall::Unknown),
    {
        self.sink.write_unknown(input, reason);
        self.log = Ghost(self.log@.push(CaptureCall::Unknown));
    }
}

/// A provider exchange with the log of the exchanges made through it.
pub struct LoggedExchange<X> {
    exchange: X,
    log: Ghost<Seq<ExchangeCall>>,
}

impl<X: PreparedExchange> LoggedExchange<X> {
    /// Holds one provider exchange, with nothing sent yet.
    pub fn new(exchange: X) -> (r: Self)
        ensures
            r.log() == Seq::<ExchangeCall>::empty(),
    {
        LoggedExchange { exchange, log: Ghost(Seq::empty()) }
    }

    /// The exchanges made, in order, with the provider's answers.
    pub closed spec fn log(&self) -> Seq<ExchangeCall> {
        self.log@
    }

    /// The exchange, for its owner to inspect.
    pub fn exchange(&self) -> &X {
        &self.exchange
    }

    /// Hands the prepared bytes to the provider for one decision.
    pub fn decide_prepared(&mut self, provider_bytes: &[u8]) -> (r: Result<Decision, ProviderFailure>)
        ensures
            final(self).log() == old(self).log().push(
                ExchangeCall {
                    bytes: provider_bytes@,
                    failure: match r {
                        Ok(_) => None,
                        Err(f) => Some(f),
                    },
                },
            ),
    {
        let r = self.exchange.decide_prepared(provider_bytes);
        let ghost failure: Option<ProviderFailure> = match &r {
            Ok(_) => None,
            Err(f) => Some(*f),
        };
        self.log = Ghost(self.log@.push(ExchangeCall { bytes: provider_bytes@, failure }));
        r
    }
}

} // verus!
