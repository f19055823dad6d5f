use ingestor::internal::error::IngestError;
use ingestor::internal::normalize::console::normalize_console_payload;
use ingestor::internal::normalize::har::{extract_entries, looks_like_har_entry, normalize_entries, normalize_entry};
use ingestor::internal::normalize::headers::har_headers;
use ingestor::internal::normalize::identity::{identity_for_entry, stable_hash};
use ingestor::internal::normalize::initiator::browser_context;
use ingestor::internal::specs::capture::ConsoleRecord as CapturedConsole;
use ingestor::internal::specs::har::HarCapture;
use ingestor::internal::specs::network::NETWORK_REQUEST_SCHEMA;
use ingestor::internal::specs::timing::RequestTiming;
use ingestor::json::{Json, JsonNumber};

fn to_json(v: &serde_json::Value) -> Json {
    let text = serde_json::to_string(v).unwrap();
    match v {
        serde_json::Value::Null => Json::Null { text },
        serde_json::Value::Bool(flag) => Json::Bool { flag: *flag, text },
        serde_json::Value::Number(n) => {
            let number = if let Some(u) = n.as_u64() {
                JsonNumber::PosInt(u)
            } else if let Some(i) = n.as_i64() {
                JsonNumber::NegInt(i)
            } else {
                JsonNumber::Float(n.as_f64().unwrap().to_bits())
            };
            Json::Number { number, text }
        }
        serde_json::Value::String(s) => Json::String { value: s.clone(), text },
        serde_json::Value::Array(items) => Json::Array { items: items.iter().map(to_json).collect(), text },
        serde_json::Value::Object(map) => Json::Object {
            members: map.iter().map(|(k, v)| (k.clone(), to_json(v))).collect(),
            text,
        },
    }
}

fn parse(text: &str) -> Json {
    to_json(&serde_json::from_str::<serde_json::Value>(text).unwrap())
}

fn message(e: IngestError) -> &'static str {
    match e {
        IngestError::InvalidPayload(m) => m,
        IngestError::Export(_) => "export",
    }
}

const ENTRY: &str = r#"{"startedDateTime":"2026-06-08T10:15:30.123Z","_requestId":"125636","_resourceType":"fetch","_priority":"High","connection":"125636","request":{"method":"GET","url":"https://user:pw@github.com/org/repo/pull/1/files?short_path=abc&token=t","httpVersion":"HTTP/2","headers":[{"name":"Traceparent","value":"00-4bf92f3577b34da6a3ce929d0e0e4736-00f067aa0ba902b7-01"},{"name":"Cookie","value":"c=1"}],"headersSize":412,"bodySize":-1},"response":{"status":200,"statusText":"OK","httpVersion":"HTTP/2","content":{"mimeType":"text/html"},"headers":[{"name":"Content-Type","value":"text/html; charset=utf-8"},{"name":"Set-Cookie","value":"s=1"}],"headersSize":820,"bodySize":41325,"_fromDiskCache":true}}"#;

#[test]
fn a_bare_har_entry_is_wrapped_with_empty_capture() {
    let payload = parse(ENTRY);
    assert!(looks_like_har_entry(&payload));
    let entries = extract_entries(payload).unwrap();
    assert_eq!(entries.len(), 1);
    assert_eq!(entries[0].0.session_id, None);
    assert_eq!(entries[0].1.text(), &serde_json::to_string(&serde_json::from_str::<serde_json::Value>(ENTRY).unwrap()).unwrap());
}

#[test]
fn an_entry_envelope_reads_its_entry_and_capture() {
    let text = format!(r#"{{"schema":"hosho.har.entry.v1","capture":{{"sessionId":"s1","pageId":"tab-125:nav-4","tabId":125}},"entry":{}}}"#, ENTRY);
    let entries = extract_entries(parse(&text)).unwrap();
    assert_eq!(entries.len(), 1);
    assert_eq!(entries[0].0.session_id.as_deref(), Some("s1"));
    assert_eq!(entries[0].0.page_id.as_deref(), Some("tab-125:nav-4"));
    assert_eq!(entries[0].0.tab_id, Some(125));
}

#[test]
fn a_batch_envelope_shares_its_capture_across_entries() {
    let text = format!(r#"{{"schema":"hosho.har.batch.v1","capture":{{"sessionId":"s1"}},"entries":[{},{}]}}"#, ENTRY, ENTRY);
    let entries = extract_entries(parse(&text)).unwrap();
    assert_eq!(entries.len(), 2);
    assert_eq!(entries[1].0.session_id.as_deref(), Some("s1"));
}

#[test]
fn a_har_log_yields_each_entry() {
    let text = format!(r#"{{"log":{{"entries":[{},{}]}}}}"#, ENTRY, ENTRY);
    let entries = extract_entries(parse(&text)).unwrap();
    assert_eq!(entries.len(), 2);
    assert_eq!(entries[0].0.session_id, None);
}

#[test]
fn har_payload_errors() {
    assert_eq!(message(extract_entries(parse(r#"{"foo":1}"#)).unwrap_err()), "unsupported HAR payload");
    assert_eq!(
        message(extract_entries(parse(r#"{"schema":"hosho.har.entry.v1","capture":{"tabId":"x"},"entry":{}}"#)).unwrap_err()),
        "invalid HAR entry envelope"
    );
    assert_eq!(
        message(extract_entries(parse(r#"{"schema":"hosho.har.batch.v1","entries":5}"#)).unwrap_err()),
        "invalid HAR batch envelope"
    );
    assert_eq!(message(extract_entries(parse(r#"{"log":{"entries":5}}"#)).unwrap_err()), "invalid HAR log");
    let missing = normalize_entry(HarCapture::empty(), &parse(r#"{"response":{}}"#), RequestTiming::empty());
    assert_eq!(message(missing.unwrap_err()), "HAR entry missing request");
}

#[test]
fn an_entry_is_normalized_into_one_request_record() {
    let entry = parse(ENTRY);
    let record = normalize_entry(HarCapture::empty(), &entry, RequestTiming::empty()).unwrap();
    assert_eq!(record.schema, NETWORK_REQUEST_SCHEMA);
    assert_eq!(record.request.method, "GET");
    assert_eq!(record.request.url, "https://user:pw@github.com/org/repo/pull/1/files?short_path=abc&token=t");
    assert_eq!(
        record.request.url_sanitized.as_deref(),
        Some("https://github.com/org/repo/pull/1/files?short_path=REDACTED&token=REDACTED")
    );
    assert_eq!(record.request.scheme.as_deref(), Some("https"));
    assert_eq!(record.request.host.as_deref(), Some("github.com"));
    assert_eq!(record.request.port, Some(443));
    assert_eq!(record.request.headers_size, Some(412));
    assert_eq!(record.request.body_size, None);
    assert_eq!(record.request.headers.len(), 1);
    assert_eq!(record.request.headers.get("cookie"), None);
    assert_eq!(record.response.status, Some(200));
    assert_eq!(record.response.mime_type.as_deref(), Some("text/html"));
    assert_eq!(record.response.headers.get("set-cookie"), None);
    assert!(record.response.from_cache);
    assert_eq!(record.identity.request_id.as_deref(), Some("125636"));
    assert_eq!(record.identity.entry_hash, stable_hash("hosho.har.entry.v1", entry.text()));
    assert_eq!(record.browser.resource_type.as_deref(), Some("fetch"));
    assert_eq!(record.browser.priority.as_deref(), Some("High"));
}

#[test]
fn identity_for_entry_matches_normalization() {
    let entry = parse(ENTRY);
    let record = normalize_entry(HarCapture::empty(), &entry, RequestTiming::empty()).unwrap();
    let id = identity_for_entry(&entry, &record.request);
    assert_eq!(id.dedupe_key, record.identity.dedupe_key);
}

#[test]
fn normalize_entries_refuses_the_batch_on_a_missing_request() {
    let ok = normalize_entries(vec![(HarCapture::empty(), parse(ENTRY), RequestTiming::empty())]).unwrap();
    assert_eq!(ok.len(), 1);
    let bad = normalize_entries(vec![
        (HarCapture::empty(), parse(ENTRY), RequestTiming::empty()),
        (HarCapture::empty(), parse(r#"{"response":{}}"#), RequestTiming::empty()),
    ]);
    assert_eq!(message(bad.unwrap_err()), "HAR entry missing request");
}

#[test]
fn har_headers_of_json_lowercase_and_drop_sensitive() {
    let v = parse(r#"[{"name":"Accept","value":"*/*"},{"name":"Authorization","value":"x"},{"name":"X","value":3},{"name":5,"value":"y"}]"#);
    let map = har_headers(Some(&v));
    assert_eq!(map.len(), 2);
    assert_eq!(map.get("accept"), Some(&vec!["*/*".to_string()]));
    assert_eq!(map.get("x"), Some(&vec!["".to_string()]));
    assert_eq!(har_headers(None).len(), 0);
}

#[test]
fn browser_context_keeps_the_top_frame() {
    let entry = parse(r#"{"_resourceType":"script","_initiator":{"type":"script","stack":{"callFrames":[{"functionName":"f","url":"https://a.test/x.js","lineNumber":2,"columnNumber":5570},{"functionName":"g"}]}}}"#);
    let b = browser_context(&entry);
    let init = b.initiator.unwrap();
    assert_eq!(init.top_function.as_deref(), Some("f"));
    assert_eq!(init.top_url.as_deref(), Some("https://a.test/x.js"));
    assert_eq!(init.top_line, Some(2));
    assert_eq!(init.top_column, Some(5570));
}

#[test]
fn console_event_envelope_and_batch() {
    let one = normalize_console_payload(parse(
        r#"{"schema":"hosho.console.event.v1","capture":{"sessionId":"s","tabId":7},"event":{"level":"warn","args":["a",1,{"k":true}]}}"#,
    ))
    .unwrap();
    assert_eq!(one.len(), 1);
    assert_eq!(one[0].level, "warn");
    assert_eq!(one[0].body, "a 1 {\"k\":true}");
    assert_eq!(one[0].tab_id, Some(7));
    assert_eq!(one[0].capture.session_id.as_deref(), Some("s"));
    let batch = normalize_console_payload(parse(
        r#"{"schema":"hosho.console.batch.v1","events":[{"level":"info","args":[]},{"args":["x"],"tabId":3}]}"#,
    ))
    .unwrap();
    assert_eq!(batch.len(), 2);
    assert_eq!(batch[1].level, "log");
    assert_eq!(batch[1].body, "x");
    assert_eq!(batch[1].tab_id, Some(3));
    let bare = normalize_console_payload(parse(r#"{"level":"error","args":["boom"]}"#)).unwrap();
    assert_eq!(bare[0].body, "boom");
}

#[test]
fn console_payload_errors() {
    assert_eq!(message(normalize_console_payload(parse(r#"{"args":[]}"#)).unwrap_err()), "unsupported console payload");
    assert_eq!(
        message(normalize_console_payload(parse(r#"{"schema":"hosho.console.event.v1"}"#)).unwrap_err()),
        "invalid console event envelope"
    );
    assert_eq!(
        message(normalize_console_payload(parse(r#"{"schema":"hosho.console.batch.v1","events":3}"#)).unwrap_err()),
        "invalid console batch envelope"
    );
}

#[test]
fn captured_console_events_need_a_level() {
    let e = CapturedConsole::try_from(parse(r#"{"args":["x"]}"#)).unwrap_err();
    assert_eq!(e.code, "ERR-CAPTURE-001");
    assert_eq!(e.status, 400);
    let c = CapturedConsole::try_from(parse(r#"{"level":"debug","args":["x",null],"url":"https://a.test"}"#)).unwrap();
    assert_eq!(c.body, "x null");
    assert_eq!(c.url.as_deref(), Some("https://a.test"));
}
