use ctrader_rs::json::{
    decode_json, encode_json, envelope_value, read_envelope, EnvelopeError, JsonObject,
};
use serde_json::{Number, Value};

fn auth_payload() -> JsonObject {
    let mut payload = JsonObject::new();
    payload.insert("clientId".to_string(), Value::String("id-1".to_string()));
    payload.insert("clientSecret".to_string(), Value::String("s3cret".to_string()));
    payload
}

fn nested_payload() -> JsonObject {
    let mut inner = JsonObject::new();
    inner.insert("volume".to_string(), Value::Number(Number::from(100)));
    inner.insert("side".to_string(), Value::String("BUY \"quoted\" \\ é".to_string()));
    inner.insert("flags".to_string(), Value::Array(vec![Value::Bool(true), Value::Null]));
    let mut payload = JsonObject::new();
    payload.insert("order".to_string(), Value::Object(inner));
    payload.insert("ctidTraderAccountId".to_string(), Value::Number(Number::from(-7)));
    payload
}

#[test]
fn encode_json_prints_the_three_fields() {
    let text = encode_json(2100, auth_payload(), Some("m-1".to_string())).unwrap();
    let value: Value = serde_json::from_str(&text).unwrap();
    let object = value.as_object().unwrap();
    assert_eq!(object.len(), 3);
    assert_eq!(object.get("clientMsgId"), Some(&Value::String("m-1".to_string())));
    assert_eq!(object.get("payloadType"), Some(&Value::Number(Number::from(2100))));
    assert_eq!(object.get("payload"), Some(&Value::Object(auth_payload())));
}

#[test]
fn encode_json_exact_text() {
    let text = encode_json(2100, auth_payload(), Some("m-1".to_string())).unwrap();
    assert_eq!(
        text,
        "{\"clientMsgId\":\"m-1\",\"payload\":{\"clientId\":\"id-1\",\"clientSecret\":\"s3cret\"},\"payloadType\":2100}"
    );
    let text = encode_json(51, JsonObject::new(), None).unwrap();
    assert_eq!(text, "{\"payload\":{},\"payloadType\":51}");
}

#[test]
fn encode_json_leaves_out_an_id_that_is_not_given() {
    let text = encode_json(2100, auth_payload(), None).unwrap();
    let value: Value = serde_json::from_str(&text).unwrap();
    let object = value.as_object().unwrap();
    assert_eq!(object.len(), 2);
    assert!(!object.contains_key("clientMsgId"));
}

#[test]
fn encode_json_is_deterministic() {
    let first = encode_json(2106, nested_payload(), Some("x".to_string())).unwrap();
    let second = encode_json(2106, nested_payload(), Some("x".to_string())).unwrap();
    assert_eq!(first, second);
}

#[test]
fn json_round_trip() {
    for payload_type in [0u32, 51, 2100, 2187, u32::MAX] {
        for payload in [JsonObject::new(), auth_payload(), nested_payload()] {
            for id in [None, Some(String::new()), Some("id \"7\"\n".to_string())] {
                let text = encode_json(payload_type, payload.clone(), id.clone()).unwrap();
                let envelope = decode_json(&text).unwrap();
                assert_eq!(envelope.payload_type, payload_type);
                assert_eq!(envelope.payload, payload);
                assert_eq!(envelope.client_msg_id, id);
            }
        }
    }
}

#[test]
fn read_envelope_undoes_envelope_value() {
    let value = envelope_value(2149, auth_payload(), Some("abc".to_string()));
    let envelope = read_envelope(value).unwrap();
    assert_eq!(envelope.payload_type, 2149);
    assert_eq!(envelope.payload, auth_payload());
    assert_eq!(envelope.client_msg_id, Some("abc".to_string()));
}

#[test]
fn decode_json_reads_an_envelope_from_the_gateway() {
    let envelope = decode_json(
        " { \"payloadType\" : 2101, \"extra\": [1, 2], \"payload\": {\"ok\": true}, \"clientMsgId\": \"c-9\" } ",
    )
    .unwrap();
    assert_eq!(envelope.payload_type, 2101);
    assert_eq!(envelope.client_msg_id, Some("c-9".to_string()));
    let mut payload = JsonObject::new();
    payload.insert("ok".to_string(), Value::Bool(true));
    assert_eq!(envelope.payload, payload);
}

#[test]
fn decode_json_refuses_what_is_not_json() {
    assert!(matches!(decode_json(""), Err(EnvelopeError::Syntax(_))));
    assert!(matches!(decode_json("{\"payloadType\": 1"), Err(EnvelopeError::Syntax(_))));
    assert!(matches!(decode_json("heartbeat"), Err(EnvelopeError::Syntax(_))));
}

#[test]
fn decode_json_refuses_what_is_not_an_object() {
    assert!(matches!(decode_json("[1, 2]"), Err(EnvelopeError::NotAnObject)));
    assert!(matches!(decode_json("\"text\""), Err(EnvelopeError::NotAnObject)));
    assert!(matches!(decode_json("null"), Err(EnvelopeError::NotAnObject)));
    assert!(matches!(decode_json("17"), Err(EnvelopeError::NotAnObject)));
}

#[test]
fn decode_json_refuses_a_bad_payload_type() {
    assert!(matches!(decode_json("{\"payload\": {}}"), Err(EnvelopeError::PayloadType)));
    assert!(matches!(decode_json("{\"payloadType\": \"2100\", \"payload\": {}}"), Err(EnvelopeError::PayloadType)));
    assert!(matches!(decode_json("{\"payloadType\": -1, \"payload\": {}}"), Err(EnvelopeError::PayloadType)));
    assert!(matches!(decode_json("{\"payloadType\": 1.5, \"payload\": {}}"), Err(EnvelopeError::PayloadType)));
    assert!(matches!(decode_json("{\"payloadType\": 4294967296, \"payload\": {}}"), Err(EnvelopeError::PayloadType)));
    assert_eq!(decode_json("{\"payloadType\": 4294967295, \"payload\": {}}").unwrap().payload_type, u32::MAX);
}

#[test]
fn decode_json_refuses_a_bad_payload() {
    assert!(matches!(decode_json("{\"payloadType\": 1}"), Err(EnvelopeError::Payload)));
    assert!(matches!(decode_json("{\"payloadType\": 1, \"payload\": [1]}"), Err(EnvelopeError::Payload)));
    assert!(matches!(decode_json("{\"payloadType\": 1, \"payload\": null}"), Err(EnvelopeError::Payload)));
}

#[test]
fn decode_json_refuses_an_id_that_is_no_string() {
    assert!(matches!(
        decode_json("{\"payloadType\": 1, \"payload\": {}, \"clientMsgId\": 5}"),
        Err(EnvelopeError::ClientMsgId)
    ));
    assert!(matches!(
        decode_json("{\"payloadType\": 1, \"payload\": {}, \"clientMsgId\": null}"),
        Err(EnvelopeError::ClientMsgId)
    ));
}

#[test]
fn the_first_fault_is_the_one_reported() {
    assert!(matches!(
        decode_json("{\"payload\": 3, \"clientMsgId\": 5}"),
        Err(EnvelopeError::PayloadType)
    ));
    assert!(matches!(
        decode_json("{\"payloadType\": 1, \"payload\": 3, \"clientMsgId\": 5}"),
        Err(EnvelopeError::Payload)
    ));
}

#[test]
fn encode_json_gives_a_text_for_every_input() {
    let mut odd = JsonObject::new();
    odd.insert(String::new(), Value::Null);
    odd.insert("\u{0}\"\n".to_string(), Value::Array(vec![]));
    odd.insert("big".to_string(), Value::Number(Number::from(u64::MAX)));
    odd.insert("small".to_string(), Value::Number(Number::from(i64::MIN)));
    odd.insert("half".to_string(), Value::Number(Number::from_f64(0.5).unwrap()));
    let mut deep = Value::Null;
    for _ in 0..200 {
        deep = Value::Array(vec![deep]);
    }
    odd.insert("deep".to_string(), deep);
    for payload in [JsonObject::new(), auth_payload(), nested_payload(), odd] {
        for id in [None, Some(String::new()), Some("\u{1F600}".to_string())] {
            assert!(encode_json(0, payload.clone(), id.clone()).is_ok());
            assert!(encode_json(u32::MAX, payload.clone(), id).is_ok());
        }
    }
}

#[test]
fn a_payload_nested_too_deep_prints_and_does_not_parse_back() {
    let mut deep = Value::Null;
    for _ in 0..200 {
        deep = Value::Array(vec![deep]);
    }
    let mut payload = JsonObject::new();
    payload.insert("deep".to_string(), deep);
    let text = encode_json(1, payload, None).unwrap();
    assert!(matches!(decode_json(&text), Err(EnvelopeError::Syntax(_))));
}
