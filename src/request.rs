//! Assembling the outbound request of a call.

use vstd::prelude::*;
use crate::envelope::{Call, encode_call, encoded};

verus! {

/// Time budget of a call that sets none, in seconds.
pub const DEFAULT_TIMEOUT_SECS: u64 = 30;

/// A destination process on a node of the bus.
#[derive(Clone, Debug, PartialEq, Eq)]
pub struct Address {
    pub node: String,
    pub process: String,
}

/// Per-call delivery options.
#[derive(Clone, Copy, Debug, PartialEq, Eq, Structural)]
pub struct CallOptions {
    /// Time budget in seconds; the default budget where absent.
    pub timeout_secs: Option<u64>,
    /// Whether the caller awaits a reply, or fires and forgets.
    pub expects_response: bool,
}

/// A request ready for dispatch.
#[derive(Clone, Debug, PartialEq, Eq)]
pub struct OutboundRequest {
    pub target: Address,
    pub body: Vec<u8>,
    pub timeout_secs: u64,
    pub expects_response: bool,
}

/// Why a request could not be assembled.
#[derive(Clone, Copy, Debug, PartialEq, Eq, Structural)]
pub enum BuildError {
    /// A time budget of zero seconds.
    ZeroTimeout,
}

/// The time budget that options give.
pub open spec fn effective_timeout(o: CallOptions) -> u64 {
    match o.timeout_secs {
        Some(t) => t,
        None => DEFAULT_TIMEOUT_SECS,
    }
}

/// Options of an awaited call with the default time budget.
pub fn default_options() -> (r: CallOptions)
    ensures
        r.timeout_secs is None,
        r.expects_response,
{
    CallOptions { timeout_secs: None, expects_response: true }
}

/// Assembles a request to `target` carrying `body`; a zero time budget is
/// refused before anything is sent.
pub fn build_request(target: Address, body: Vec<u8>, options: CallOptions) -> (r: Result<
    OutboundRequest,
    BuildError,
>)
    ensures
        options.timeout_secs == Some(0u64) <==> r is Err,
        match r {
            Ok(req) => req.target == target && req.body@ == body@ && req.timeout_secs
                == effective_timeout(options) && req.expects_response == options.expects_response,
            Err(e) => e == BuildError::ZeroTimeout,
        },
{
    let timeout_secs = match options.timeout_secs {
        Some(t) => {
            if t == 0 {
                return Err(BuildError::ZeroTimeout);
            }
            t
        },
        None => DEFAULT_TIMEOUT_SECS,
    };
    Ok(OutboundRequest { target, body, timeout_secs, expects_response: options.expects_response })
}

/// Assembles the request of a call: its encoded envelope sent to `target`.
pub fn prepare_call(target: Address, call: &Call, options: CallOptions) -> (r: Result<
    OutboundRequest,
    BuildError,
>)
    ensures
        options.timeout_secs == Some(0u64) <==> r is Err,
        match r {
            Ok(req) => req.target == target && req.body@ == encoded(*call) && req.timeout_secs
                == effective_timeout(options) && req.expects_response == options.expects_response,
            Err(e) => e == BuildError::ZeroTimeout,
        },
{
    let body = encode_call(call);
    build_request(target, body, options)
}

} // verus!
