use caller_utils::outcome::{
    classify_sign_reply, classify_verify_reply, settle_failure, settle_reply, BusEvent,
    SendResult, TransportFailure,
};
use caller_utils::pending::{Event, PendingCalls, Resolution};

fn sign_reply(r: Result<Vec<u8>, String>) -> Vec<u8> {
    serde_json::to_vec(&r).unwrap()
}

#[test]
fn scenario_sign_success() {
    let signature = vec![1u8, 2, 3, 4];
    let mut calls = PendingCalls::new();
    let id = calls.register(100, 30).unwrap();
    assert_eq!(calls.handle(Event::Reply { id, now: 101 }), Some(Resolution::Replied));
    let outcome = classify_sign_reply(BusEvent::Reply(sign_reply(Ok(signature.clone()))));
    assert_eq!(outcome, SendResult::Success(Ok(signature)));
}

#[test]
fn scenario_verify_timeout() {
    let mut calls = PendingCalls::new();
    let id = calls.register(0, 2).unwrap();
    assert_eq!(calls.handle(Event::Timer { id, now: 1 }), None);
    assert!(calls.is_pending(id));
    assert_eq!(calls.handle(Event::Timer { id, now: 2 }), Some(Resolution::TimedOut));
    let outcome = classify_verify_reply(BusEvent::Failed(TransportFailure::TimedOut));
    assert_eq!(outcome, SendResult::Timeout);
    assert_eq!(calls.handle(Event::Reply { id, now: 3 }), None);
    assert!(!calls.is_pending(id));
}

#[test]
fn scenario_offline_target() {
    let outcome = classify_sign_reply(BusEvent::Failed(TransportFailure::Unreachable));
    assert_eq!(outcome, SendResult::Offline);
}

#[test]
fn scenario_malformed_reply() {
    let raw = b"not json at all".to_vec();
    let outcome = classify_verify_reply(BusEvent::Reply(raw.clone()));
    match outcome {
        SendResult::DecodeFailure { cause, raw: kept } => {
            assert_eq!(kept, raw);
            assert!(!cause.is_empty());
        }
        other => panic!("expected a decode failure, got {:?}", other),
    }
}

#[test]
fn wrong_shape_reply_is_decode_failure() {
    let raw = serde_json::to_vec(&Ok::<bool, String>(true)).unwrap();
    let outcome = classify_sign_reply(BusEvent::Reply(raw.clone()));
    assert!(matches!(outcome, SendResult::DecodeFailure { raw: ref kept, .. } if *kept == raw));
}

#[test]
fn domain_error_is_nested_success() {
    let outcome = classify_sign_reply(BusEvent::Reply(sign_reply(Err("no key".to_string()))));
    assert_eq!(outcome, SendResult::Success(Err("no key".to_string())));
}

#[test]
fn verify_reply_decodes_bool() {
    let raw = br#"{"Ok":false}"#.to_vec();
    assert_eq!(classify_verify_reply(BusEvent::Reply(raw)), SendResult::Success(Ok(false)));
    let raw = br#"{"Ok":true}"#.to_vec();
    assert_eq!(classify_verify_reply(BusEvent::Reply(raw)), SendResult::Success(Ok(true)));
}

#[test]
fn rejected_send_is_delivery_failure() {
    let outcome = classify_sign_reply(BusEvent::Failed(TransportFailure::Rejected));
    assert_eq!(outcome, SendResult::DeliveryFailed);
}

#[test]
fn failures_map_one_to_one() {
    assert_eq!(settle_failure::<u8>(TransportFailure::TimedOut), SendResult::Timeout);
    assert_eq!(settle_failure::<u8>(TransportFailure::Unreachable), SendResult::Offline);
    assert_eq!(settle_failure::<u8>(TransportFailure::Rejected), SendResult::DeliveryFailed);
}

#[test]
fn settle_reply_keeps_value_or_cause() {
    assert_eq!(settle_reply(vec![1], Ok::<u8, String>(5)), SendResult::Success(5));
    assert_eq!(
        settle_reply(vec![1, 2], Err::<u8, String>("bad".to_string())),
        SendResult::DecodeFailure { cause: "bad".to_string(), raw: vec![1, 2] }
    );
}

#[test]
fn classes_are_distinct() {
    let outcomes: Vec<SendResult<Result<Vec<u8>, String>>> = vec![
        classify_sign_reply(BusEvent::Reply(sign_reply(Ok(vec![1])))),
        classify_sign_reply(BusEvent::Reply(sign_reply(Err("e".to_string())))),
        classify_sign_reply(BusEvent::Failed(TransportFailure::TimedOut)),
        classify_sign_reply(BusEvent::Failed(TransportFailure::Unreachable)),
        classify_sign_reply(BusEvent::Failed(TransportFailure::Rejected)),
        classify_sign_reply(BusEvent::Reply(b"{".to_vec())),
    ];
    for i in 0..outcomes.len() {
        for j in 0..outcomes.len() {
            assert_eq!(i == j, outcomes[i] == outcomes[j]);
        }
    }
}
