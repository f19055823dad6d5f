use ingestor::internal::normalize::identity::{digest_parts, hash_parts, stable_hash};
use ingestor::internal::specs::network::{HttpRequestSpec, NetworkRequest, RequestIdentity};
use ingestor::internal::specs::capture::{HarRecord, HarRequest, HarResponse};
use ingestor::internal::specs::network::TraceContext;
use ingestor::internal::specs::timing::RequestTiming;
use ingestor::internal::telemetry::ids::{compact_hash, ids_for_request, traceparent_ids};

fn request(method: &str, url: &str, headers: Vec<(&str, &str)>) -> HarRequest {
    HarRequest {
        method: Some(method.to_string()),
        url: Some(url.to_string()),
        http_version: None,
        headers: headers
            .into_iter()
            .map(|(name, value)| ingestor::internal::specs::capture::HarHeader {
                name: name.to_string(),
                value: value.to_string(),
            })
            .collect(),
        headers_size: None,
        body_size: None,
        post_data: None,
    }
}

fn response() -> HarResponse {
    HarResponse {
        status: Some(200),
        status_text: None,
        http_version: None,
        headers: Vec::new(),
        headers_size: None,
        body_size: None,
        content: None,
    }
}

fn record(headers: Vec<(&str, &str)>) -> NetworkRequest {
    let har = HarRecord {
        request: request("GET", "https://a.test/", headers),
        response: response(),
        timing: RequestTiming::empty(),
        trace: TraceContext::empty(),
    };
    NetworkRequest::from(har, "{\"a\":1}")
}

#[test]
fn hash_parts_of_a_prefix_alone_is_its_sha256() {
    assert_eq!(
        hash_parts("abc", &[]),
        "sha256:ba7816bf8f01cfea414140de5dae2223b00361a396177a9cb410ff61f20015ad"
    );
    assert_eq!(
        digest_parts("abc", &[]),
        "ba7816bf8f01cfea414140de5dae2223b00361a396177a9cb410ff61f20015ad"
    );
}

#[test]
fn hash_parts_separates_parts_with_zero_bytes() {
    assert_eq!(
        hash_parts("hosho.har.dedupe.v1", &["sha256:x", "GET", "https://a.test/"]),
        "sha256:37cb335795eb6b52046bae976c272af26245f80ad51be6dee00e7633eb512980"
    );
    assert_ne!(hash_parts("a", &["bc"]), hash_parts("ab", &["c"]));
}

#[test]
fn stable_hash_hashes_prefix_and_json_text() {
    assert_eq!(
        stable_hash("hosho.har.payload.v1", "{\"a\":1}"),
        "sha256:0b08b172cb58f46bebe54f7a99d047b23b4031e1e11dafe334ac1ed25798197d"
    );
}

#[test]
fn identity_from_payload_hashes_payload_then_method_and_url() {
    let spec = HttpRequestSpec::from(&request("GET", "https://a.test/", Vec::new()));
    let id = RequestIdentity::from_payload("{\"a\":1}", &spec);
    assert_eq!(id.request_id, None);
    assert_eq!(
        id.entry_hash,
        "sha256:0b08b172cb58f46bebe54f7a99d047b23b4031e1e11dafe334ac1ed25798197d"
    );
    assert_eq!(
        id.dedupe_key,
        hash_parts("hosho.har.dedupe.v1", &[&id.entry_hash, "GET", "https://a.test/"])
    );
}

#[test]
fn compact_hash_keeps_the_first_hex_digits() {
    assert_eq!(compact_hash("hosho.span.v1", vec!["k"], 16), "d68966c5f4c64f4d");
    assert_eq!(
        compact_hash("hosho.trace.v1", vec!["s", "p", "h", "2026-06-08T10:15:30.123Z"], 32),
        "89812d6f520ba32fb2985fb3026f1ec3"
    );
    assert_eq!(compact_hash("hosho.span.v1", vec!["k"], 100).len(), 64);
}

#[test]
fn traceparent_ids_reads_well_formed_values_only() {
    assert_eq!(
        traceparent_ids("00-4bf92f3577b34da6a3ce929d0e0e4736-00f067aa0ba902b7-01"),
        Some((
            "4bf92f3577b34da6a3ce929d0e0e4736".to_string(),
            "00f067aa0ba902b7".to_string()
        ))
    );
    assert_eq!(traceparent_ids("00-4bf92f3577b34da6a3ce929d0e0e4736-00f067aa0ba902b7"), None);
    assert_eq!(traceparent_ids("00-4bf92f35-00f067aa0ba902b7-01"), None);
    assert_eq!(
        traceparent_ids("00-4bf92f3577b34da6a3ce929d0e0e4736-00f067aa0ba902b7-01-extra"),
        None
    );
}

#[test]
fn span_ids_come_from_traceparent_when_present() {
    let r = record(vec![(
        "traceparent",
        "00-4bf92f3577b34da6a3ce929d0e0e4736-00f067aa0ba902b7-01",
    )]);
    let ids = ids_for_request(&r);
    assert_eq!(ids.trace_id, "4bf92f3577b34da6a3ce929d0e0e4736");
    assert_eq!(ids.span_id, "00f067aa0ba902b7");
}

#[test]
fn span_ids_are_derived_from_hashes_otherwise() {
    let r = record(vec![("traceparent", "garbage")]);
    let ids = ids_for_request(&r);
    assert_eq!(ids.trace_id, compact_hash("hosho.trace.v1", vec!["", "", "a.test", ""], 32));
    assert_eq!(ids.span_id, compact_hash("hosho.span.v1", vec![r.identity.dedupe_key.as_str()], 16));
    assert_eq!(ids.trace_id.len(), 32);
    assert_eq!(ids.span_id.len(), 16);
    assert!(ids.trace_id.chars().all(|c| c.is_ascii_hexdigit() && !c.is_ascii_uppercase()));
    let again = ids_for_request(&record(vec![("traceparent", "garbage")]));
    assert_eq!(again.trace_id, ids.trace_id);
    assert_eq!(again.span_id, ids.span_id);
}

#[test]
fn traceparent_ids_must_be_lowercase_hex_and_not_zero() {
    assert_eq!(traceparent_ids("00-4bf92f3577b34da6a3ce929d0e0e473x-00f067aa0ba902b7-01"), None);
    assert_eq!(traceparent_ids("00-4BF92F3577B34DA6A3CE929D0E0E4736-00f067aa0ba902b7-01"), None);
    assert_eq!(traceparent_ids("00-00000000000000000000000000000000-00f067aa0ba902b7-01"), None);
    assert_eq!(traceparent_ids("00-4bf92f3577b34da6a3ce929d0e0e4736-0000000000000000-01"), None);
    let r = record(vec![("traceparent", "00-zzzzzzzzzzzzzzzzzzzzzzzzzzzzzzzz-00f067aa0ba902b7-01")]);
    let ids = ids_for_request(&r);
    assert_eq!(ids.trace_id.len(), 32);
    assert!(ids.trace_id.chars().all(|c| c.is_ascii_hexdigit()));
}

#[test]
fn requests_of_one_page_share_a_trace() {
    let mut a = record(Vec::new());
    let mut b = NetworkRequest::from(
        HarRecord {
            request: request("POST", "https://b.test/x", Vec::new()),
            response: response(),
            timing: RequestTiming::empty(),
            trace: TraceContext::empty(),
        },
        "{\"b\":2}",
    );
    for r in [&mut a, &mut b] {
        r.capture.session_id = Some("s".to_string());
        r.capture.page_id = Some("p".to_string());
    }
    let (ia, ib) = (ids_for_request(&a), ids_for_request(&b));
    assert_eq!(ia.trace_id, ib.trace_id);
    assert_eq!(ia.trace_id, compact_hash("hosho.trace.v1", vec!["s", "p"], 32));
    assert_ne!(ia.span_id, ib.span_id);
}
