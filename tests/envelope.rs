use caller_utils::envelope::{
    decode_envelope, encode_call, encode_envelope, method_of_tag, sign_request_body, tag_bytes,
    verify_request_body, Call, Method,
};

#[test]
fn sign_body_is_single_key_object() {
    let body = sign_request_body(b"hello".to_vec());
    assert_eq!(body, br#"{"Sign":[104,101,108,108,111]}"#.to_vec());
}

#[test]
fn sign_body_of_empty_message() {
    let body = sign_request_body(Vec::new());
    assert_eq!(body, br#"{"Sign":[]}"#.to_vec());
}

#[test]
fn verify_body_carries_ordered_pair() {
    let body = verify_request_body(vec![0, 9, 10], vec![255, 100]);
    assert_eq!(body, br#"{"Verify":[[0,9,10],[255,100]]}"#.to_vec());
}

#[test]
fn body_matches_serde_json_of_tagged_value() {
    let message = vec![1u8, 2, 3];
    let signature = vec![200u8];
    let mut map = serde_json::Map::new();
    map.insert(
        "Verify".to_string(),
        serde_json::to_value((message.clone(), signature.clone())).unwrap(),
    );
    let expected = serde_json::to_vec(&serde_json::Value::Object(map)).unwrap();
    assert_eq!(verify_request_body(message, signature), expected);
}

#[test]
fn envelope_round_trip_sign() {
    let call = Call::Sign { message: b"abc".to_vec() };
    let bytes = encode_call(&call);
    let (tag, data) = decode_envelope(&bytes).unwrap();
    assert_eq!(method_of_tag(&tag), Some(Method::Sign));
    let back: Vec<u8> = serde_json::from_slice(&data).unwrap();
    assert_eq!(back, b"abc".to_vec());
}

#[test]
fn envelope_round_trip_verify() {
    let call = Call::Verify { message: vec![7, 8], signature: vec![9] };
    let bytes = encode_call(&call);
    let (tag, data) = decode_envelope(&bytes).unwrap();
    assert_eq!(method_of_tag(&tag), Some(Method::Verify));
    let back: (Vec<u8>, Vec<u8>) = serde_json::from_slice(&data).unwrap();
    assert_eq!(back, (vec![7, 8], vec![9]));
}

#[test]
fn envelope_round_trip_any_data() {
    let tag = b"Other".to_vec();
    let data = b"{\"x\":\"y\"}".to_vec();
    let bytes = encode_envelope(&tag, &data);
    assert_eq!(bytes, b"{\"Other\":{\"x\":\"y\"}}".to_vec());
    assert_eq!(decode_envelope(&bytes), Some((tag, data)));
    assert_eq!(method_of_tag(&b"Other".to_vec()), None);
}

#[test]
fn malformed_envelopes_are_refused() {
    assert_eq!(decode_envelope(&b"".to_vec()), None);
    assert_eq!(decode_envelope(&b"[1,2,3]".to_vec()), None);
    assert_eq!(decode_envelope(&b"{\"Sign\"[1]}".to_vec()), None);
    assert_eq!(decode_envelope(&b"{\"Sign:1}".to_vec()), None);
    assert_eq!(decode_envelope(&b"{\"Sign\":1".to_vec()), None);
}

#[test]
fn tags_are_method_names() {
    assert_eq!(tag_bytes(Method::Sign), b"Sign".to_vec());
    assert_eq!(tag_bytes(Method::Verify), b"Verify".to_vec());
}
