use ingestor::internal::error::IngestError as PayloadError;
use ingestor::json::JsonValue;
use ingestor::prelude::IngestError;

fn text(v: &JsonValue) -> String {
    match v {
        JsonValue::String(s) => s.clone(),
        _ => panic!("not a string"),
    }
}

fn member<'a>(v: &'a JsonValue, key: &str) -> &'a JsonValue {
    match v {
        JsonValue::Object(members) => &members.iter().find(|(k, _)| k == key).unwrap().1,
        _ => panic!("not an object"),
    }
}

#[test]
fn ingest_errors_carry_code_status_and_message() {
    let e = IngestError::bad_request("ERR-CAPTURE-002", "missing field");
    assert_eq!((e.code.as_str(), e.status, e.message.as_str()), ("ERR-CAPTURE-002", 400, "missing field"));
    let g = IngestError::bad_gateway("ERR-OTEL-003", "");
    assert_eq!(g.status, 502);
    assert_eq!(IngestError::new("X", 418, "m").status, 418);
    assert_eq!(e.describe(), "ERR-CAPTURE-002 with status 400 Bad Request: missing field");
    let (status, body) = e.response_parts();
    assert_eq!(status, 400);
    let inner = member(&body, "error");
    assert_eq!(text(member(inner, "code")), "ERR-CAPTURE-002");
    assert_eq!(text(member(inner, "message")), "missing field");
}

#[test]
fn payload_errors_are_answered_as_json() {
    let (status, body) = PayloadError::InvalidPayload("unsupported HAR payload").response_parts();
    assert_eq!(status, 400);
    assert_eq!(text(member(&body, "status")), "error");
    assert_eq!(text(member(&body, "message")), "unsupported HAR payload");
    let (status, body) = PayloadError::Export("collector down".to_string()).response_parts();
    assert_eq!(status, 502);
    assert_eq!(text(member(&body, "message")), "collector down");
}
