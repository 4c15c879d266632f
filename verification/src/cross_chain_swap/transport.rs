//! The boundary to the cross-chain transport: the request and response
//! envelopes, and the dispatcher that a host injects.

use vstd::prelude::*;

verus! {

/// The kind and number of a state machine that takes part in the protocol.
#[derive(Clone, Copy, Debug, PartialEq, Eq, Structural)]
pub enum StateMachine {
    Evm(u32),
    Polkadot(u32),
    Kusama(u32),
}

/// An outbound request.
#[derive(Clone, Debug, PartialEq, Eq)]
pub struct IsmpRequest {
    pub source: StateMachine,
    pub dest: StateMachine,
    /// The identifier by which the response is matched to this request.
    pub nonce: u64,
    /// The module that sends.
    pub from: Vec<u8>,
    /// The module that is to receive.
    pub to: Vec<u8>,
    /// The time at which the request expires.
    pub timeout_timestamp: u64,
    pub body: Vec<u8>,
}

/// An outbound request as a value of the model.
pub struct RequestView {
    pub source: StateMachine,
    pub dest: StateMachine,
    pub nonce: u64,
    pub from: Seq<u8>,
    pub to: Seq<u8>,
    pub timeout_timestamp: u64,
    pub body: Seq<u8>,
}

impl View for IsmpRequest {
    type V = RequestView;

    open spec fn view(&self) -> RequestView {
        RequestView {
            source: self.source,
            dest: self.dest,
            nonce: self.nonce,
            from: self.from@,
            to: self.to@,
            timeout_timestamp: self.timeout_timestamp,
            body: self.body@,
        }
    }
}

/// The response to a request. An empty `response` reports a failure.
#[derive(Clone, Debug, PartialEq, Eq)]
pub struct IsmpResponse {
    /// The request that is answered.
    pub post: IsmpRequest,
    pub response: Vec<u8>,
    pub timeout_timestamp: u64,
}

/// The transport, as far as the engine uses it. The engine hands a request
/// over and learns only whether it was accepted; delivery is the
/// transport's affair.
pub trait IsmpDispatcher {
    fn dispatch_request(&self, request: IsmpRequest) -> Result<(), String>;

    fn dispatch_response(&self, response: IsmpResponse) -> Result<(), String>;
}

/// A dispatcher that accepts everything and sends nothing.
#[derive(Clone, Copy, Debug, PartialEq, Eq)]
pub struct MockIsmpDispatcher;

impl IsmpDispatcher for MockIsmpDispatcher {
    fn dispatch_request(&self, _request: IsmpRequest) -> (r: Result<(), String>)
        ensures
            r is Ok,
    {
        Ok(())
    }

    fn dispatch_response(&self, _response: IsmpResponse) -> (r: Result<(), String>)
        ensures
            r is Ok,
    {
        Ok(())
    }
}

} // verus!
