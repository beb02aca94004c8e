//! Classifying how a call ended: one `SendResult` for every terminal
//! condition, with the remote method's own `Result` nested in `Success`.

use vstd::prelude::*;

verus! {

/// Outcome of one call. `Success` means the call completed; what the remote
/// method returned, error or not, is inside it.
#[derive(Clone, Debug, PartialEq, Eq)]
pub enum SendResult<T> {
    Success(T),
    /// No reply came within the call's time budget.
    Timeout,
    /// The bus reported the destination process or node as unreachable.
    Offline,
    /// The local bus refused to send the request.
    DeliveryFailed,
    /// A reply came but did not parse as the expected type; `raw` is the reply.
    DecodeFailure { cause: String, raw: Vec<u8> },
}

/// A terminal condition that carries no reply.
#[derive(Clone, Copy, Debug, PartialEq, Eq, Structural)]
pub enum TransportFailure {
    TimedOut,
    Unreachable,
    Rejected,
}

/// What the bus hands back for a call.
#[derive(Clone, Debug, PartialEq, Eq)]
pub enum BusEvent {
    Reply(Vec<u8>),
    Failed(TransportFailure),
}

/// The outcome of a failed transport.
pub open spec fn failure_outcome<T>(f: TransportFailure) -> SendResult<T> {
    match f {
        TransportFailure::TimedOut => SendResult::Timeout,
        TransportFailure::Unreachable => SendResult::Offline,
        TransportFailure::Rejected => SendResult::DeliveryFailed,
    }
}

/// Maps a failed transport to its outcome.
pub fn settle_failure<T>(f: TransportFailure) -> (r: SendResult<T>)
    ensures
        r == failure_outcome::<T>(f),
{
    match f {
        TransportFailure::TimedOut => SendResult::Timeout,
        TransportFailure::Unreachable => SendResult::Offline,
        TransportFailure::Rejected => SendResult::DeliveryFailed,
    }
}

/// Each failed transport has its own outcome, and none of them reads as a
/// success or as a reply that failed to decode.
pub proof fn lemma_failures_distinct<T>(f: TransportFailure, g: TransportFailure)
    ensures
        failure_outcome::<T>(f) == failure_outcome::<T>(g) <==> f == g,
        !(failure_outcome::<T>(f) is Success),
        !(failure_outcome::<T>(f) is DecodeFailure),
{
}

/// Maps a reply and what it decoded to into the outcome: a decoded value is
/// a success, a decoding error keeps its cause and the reply's bytes.
pub fn settle_reply<T>(raw: Vec<u8>, decoded: Result<T, String>) -> (r: SendResult<T>)
    ensures
        match decoded {
            Ok(v) => r == SendResult::Success(v),
            Err(cause) => r == (SendResult::<T>::DecodeFailure { cause, raw }),
        },
{
    match decoded {
        Ok(v) => SendResult::Success(v),
        Err(cause) => SendResult::DecodeFailure { cause, raw },
    }
}

/// What `serde_json` reads from a reply to `sign`, if it reads one.
pub uninterp spec fn sign_reply_of(raw: Seq<u8>) -> Option<Result<Seq<u8>, Seq<char>>>;

/// What `serde_json` reads from a reply to `verify`, if it reads one.
pub uninterp spec fn verify_reply_of(raw: Seq<u8>) -> Option<Result<bool, Seq<char>>>;

/// Relies on `serde_json::from_slice::<Result<Vec<u8>, String>>`: whether the
/// bytes parse, and to what, depends on the bytes alone; its error becomes
/// its message.
#[verifier::external_body]
fn decode_sign_reply(raw: &Vec<u8>) -> (r: Result<Result<Vec<u8>, String>, String>)
    ensures
        match r {
            Ok(Ok(v)) => sign_reply_of(raw@) == Some(Ok::<Seq<u8>, Seq<char>>(v@)),
            Ok(Err(e)) => sign_reply_of(raw@) == Some(Err::<Seq<u8>, Seq<char>>(e@)),
            Err(_) => sign_reply_of(raw@).is_none(),
        },
{
    match serde_json::from_slice::<Result<Vec<u8>, String>>(raw) {
        Ok(v) => Ok(v),
        Err(e) => Err(e.to_string()),
    }
}

/// Relies on `serde_json::from_slice::<Result<bool, String>>`: whether the
/// bytes parse, and to what, depends on the bytes alone; its error becomes
/// its message.
#[verifier::external_body]
fn decode_verify_reply(raw: &Vec<u8>) -> (r: Result<Result<bool, String>, String>)
    ensures
        match r {
            Ok(Ok(v)) => verify_reply_of(raw@) == Some(Ok::<bool, Seq<char>>(v)),
            Ok(Err(e)) => verify_reply_of(raw@) == Some(Err::<bool, Seq<char>>(e@)),
            Err(_) => verify_reply_of(raw@).is_none(),
        },
{
    match serde_json::from_slice::<Result<bool, String>>(raw) {
        Ok(v) => Ok(v),
        Err(e) => Err(e.to_string()),
    }
}

/// Classifies what the bus handed back for a `sign` call.
pub fn classify_sign_reply(event: BusEvent) -> (r: SendResult<Result<Vec<u8>, String>>)
    ensures
        match event {
            BusEvent::Failed(f) => r == failure_outcome::<Result<Vec<u8>, String>>(f),
            BusEvent::Reply(raw) => match r {
                SendResult::Success(Ok(v)) => sign_reply_of(raw@) == Some(
                    Ok::<Seq<u8>, Seq<char>>(v@),
                ),
                SendResult::Success(Err(e)) => sign_reply_of(raw@) == Some(
                    Err::<Seq<u8>, Seq<char>>(e@),
                ),
                SendResult::DecodeFailure { cause, raw: kept } => sign_reply_of(raw@).is_none()
                    && kept == raw,
                _ => false,
            },
        },
{
    match event {
        BusEvent::Failed(f) => settle_failure(f),
        BusEvent::Reply(raw) => {
            let decoded = decode_sign_reply(&raw);
            settle_reply(raw, decoded)
        },
    }
}

/// Classifies what the bus handed back for a `verify` call.
pub fn classify_verify_reply(event: BusEvent) -> (r: SendResult<Result<bool, String>>)
    ensures
        match event {
            BusEvent::Failed(f) => r == failure_outcome::<Result<bool, String>>(f),
            BusEvent::Reply(raw) => match r {
                SendResult::Success(Ok(v)) => verify_reply_of(raw@) == Some(
                    Ok::<bool, Seq<char>>(v),
                ),
                SendResult::Success(Err(e)) => verify_reply_of(raw@) == Some(
                    Err::<bool, Seq<char>>(e@),
                ),
                SendResult::DecodeFailure { cause, raw: kept } => verify_reply_of(raw@).is_none()
                    && kept == raw,
                _ => false,
            },
        },
{
    match event {
        BusEvent::Failed(f) => settle_failure(f),
        BusEvent::Reply(raw) => {
            let decoded = decode_verify_reply(&raw);
            settle_reply(raw, decoded)
        },
    }
}

} // verus!
