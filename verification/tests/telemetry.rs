use ingestor::internal::telemetry::traces::{error_type, protocol_version_of, total_size};
use ingestor::internal::telemetry::traces::phase_spans;
use ingestor::internal::exporter::traces::is_error_status;
use ingestor::internal::specs::timing::InitiatorContext;
use ingestor::handlers::ingest::accepted_body;
use ingestor::internal::exporter::logs::{
    level_name, log_attributes, log_body_fields, severity, ConsoleLogPayload, LogBodyValue, LogSeverity,
};
use ingestor::internal::exporter::metrics::{har_attributes, normalized_level, status_class};
use ingestor::internal::exporter::traces::{request_attributes, request_span_name};
use ingestor::internal::metrics::console::metrics_for_console;
use ingestor::internal::metrics::har::metrics_for_har;
use ingestor::internal::specs::capture::{HarHeader, HarRecord, HarRequest, HarResponse};
use ingestor::internal::specs::console::{ConsoleCapture, ConsoleRecord};
use ingestor::internal::specs::metrics::{MetricKind, MetricValue};
use ingestor::internal::specs::network::{NetworkRequest, TraceContext, TraceTrigger};
use ingestor::internal::specs::telemetry::{TelemetryAttribute, TelemetryValue};
use ingestor::internal::specs::timing::{Milliseconds, RequestTiming};
use ingestor::internal::telemetry::attributes::{double_attr, int_attr, otlp_attributes, otlp_value, string_array_attr, string_attr};
use ingestor::internal::telemetry::logs::{console_logs, log_record, logs_payload, severity_number};
use ingestor::internal::telemetry::metrics::{metric, metric_payload, metrics_payload};
use ingestor::internal::telemetry::resource::resource_attributes;
use ingestor::internal::telemetry::traces::{har_traces, span_for_request, span_status, traces_payload};
use ingestor::internal::telemetry::{console_batch, har_batch};
use ingestor::json::{JsonNumber, JsonValue};
use serde_json::Value;

fn to_value(v: &JsonValue) -> Value {
    match v {
        JsonValue::Null => Value::Null,
        JsonValue::Bool(b) => Value::Bool(*b),
        JsonValue::Number(JsonNumber::PosInt(u)) => Value::from(*u),
        JsonValue::Number(JsonNumber::NegInt(i)) => Value::from(*i),
        JsonValue::Number(JsonNumber::Float(bits)) => Value::from(f64::from_bits(*bits)),
        JsonValue::String(s) => Value::String(s.clone()),
        JsonValue::Array(items) => Value::Array(items.iter().map(to_value).collect()),
        JsonValue::Object(members) => {
            Value::Object(members.iter().map(|(k, v)| (k.clone(), to_value(v))).collect())
        }
    }
}

fn expect(text: &str) -> Value {
    serde_json::from_str(text).unwrap()
}

fn ms(value: f64) -> Milliseconds {
    Milliseconds { bits: value.to_bits(), nanos: (value * 1_000_000.0).round() as u64 }
}

fn har_record(status: Option<i64>, headers: Vec<(&str, &str)>) -> HarRecord {
    let mut timing = RequestTiming::empty();
    timing.started_at = Some("2026-06-08T10:15:30.123Z".to_string());
    timing.duration_ms = Some(ms(143.7));
    timing.wait_ms = Some(ms(95.4));
    HarRecord {
        request: HarRequest {
            method: Some("GET".to_string()),
            url: Some("https://github.com/org/repo/pull/1/files?short_path=abc".to_string()),
            http_version: Some("HTTP/2".to_string()),
            headers: headers
                .into_iter()
                .map(|(n, v)| HarHeader { name: n.to_string(), value: v.to_string() })
                .collect(),
            headers_size: Some(412),
            body_size: Some(0),
            post_data: None,
        },
        response: HarResponse {
            status,
            status_text: None,
            http_version: None,
            headers: vec![HarHeader { name: "Content-Type".to_string(), value: "text/html".to_string() }],
            headers_size: None,
            body_size: None,
            content: None,
        },
        timing,
        trace: TraceContext::empty(),
    }
}

fn network(status: Option<i64>) -> NetworkRequest {
    NetworkRequest::from(
        har_record(status, vec![("traceparent", "00-4bf92f3577b34da6a3ce929d0e0e4736-00f067aa0ba902b7-01")]),
        "{}",
    )
}

fn console(level: &str, session: Option<&str>) -> ConsoleRecord {
    let mut capture = ConsoleCapture::empty();
    capture.session_id = session.map(str::to_string);
    capture.page_id = Some("tab-1:nav-1".to_string());
    ConsoleRecord {
        level: level.to_string(),
        body: "hello".to_string(),
        args: Vec::new(),
        url: Some("https://a.test/".to_string()),
        tab_id: Some(7),
        captured_at: Some("2026-06-08T10:15:30.123Z".to_string()),
        capture,
    }
}

#[test]
fn attribute_values_in_otlp_json() {
    assert_eq!(to_value(&otlp_value(&TelemetryValue::Bool(true))), expect(r#"{"boolValue":true}"#));
    assert_eq!(to_value(&otlp_value(&TelemetryValue::Int(-443))), expect(r#"{"intValue":"-443"}"#));
    assert_eq!(
        to_value(&otlp_value(&TelemetryValue::Double(95.4f64.to_bits()))),
        expect(r#"{"doubleValue":95.4}"#)
    );
    assert_eq!(to_value(&otlp_value(&TelemetryValue::String("x".to_string()))), expect(r#"{"stringValue":"x"}"#));
    assert_eq!(
        to_value(&otlp_value(&TelemetryValue::StringArray(vec!["a".to_string(), "b".to_string()]))),
        expect(r#"{"arrayValue":{"values":[{"stringValue":"a"},{"stringValue":"b"}]}}"#)
    );
    let attrs = vec![TelemetryAttribute::new("k", TelemetryValue::Int(1))];
    let encoded: Vec<Value> = otlp_attributes(&attrs).iter().map(to_value).collect();
    assert_eq!(encoded, vec![expect(r#"{"key":"k","value":{"intValue":"1"}}"#)]);
}

#[test]
fn optional_attribute_builders() {
    assert!(string_attr("k", &None).is_none());
    assert_eq!(string_attr("k", &Some("v".to_string())).unwrap().key, "k");
    assert!(int_attr("k", None).is_none());
    assert!(matches!(int_attr("k", Some(3)).unwrap().value, TelemetryValue::Int(3)));
    assert!(matches!(double_attr("k", Some(ms(1.5))).unwrap().value, TelemetryValue::Double(b) if b == 1.5f64.to_bits()));
    let a = string_array_attr("h".to_string(), vec!["x".to_string()]);
    assert!(matches!(a.value, TelemetryValue::StringArray(ref v) if v == &vec!["x".to_string()]));
}

#[test]
fn resource_attributes_describe_the_browser_service() {
    let mut pairs: Vec<(String, String)> = resource_attributes(Some("session-1"))
        .into_iter()
        .map(|a| match a.value {
            TelemetryValue::String(s) => (a.key, s),
            _ => panic!("not a string"),
        })
        .collect();
    pairs.sort();
    assert_eq!(
        pairs,
        vec![
            ("service.instance.id".to_string(), "session-1".to_string()),
            ("service.name".to_string(), "hosho-browser".to_string()),
            ("service.namespace".to_string(), "hosho".to_string()),
            ("telemetry.sdk.language".to_string(), "webjs".to_string()),
            ("telemetry.sdk.name".to_string(), "hosho".to_string()),
        ]
    );
    assert_eq!(resource_attributes(None).len(), 4);
}

#[test]
fn span_status_follows_the_http_status() {
    assert_eq!(to_value(&span_status(Some(200))), expect("{}"));
    assert_eq!(to_value(&span_status(Some(100))), expect("{}"));
    assert_eq!(to_value(&span_status(Some(399))), expect("{}"));
    assert_eq!(to_value(&span_status(Some(404))), expect(r#"{"code":2}"#));
    assert_eq!(to_value(&span_status(Some(599))), expect(r#"{"code":2}"#));
    assert_eq!(to_value(&span_status(Some(0))), expect(r#"{"code":2,"message":"network_error"}"#));
    assert_eq!(to_value(&span_status(Some(600))), expect(r#"{"code":2,"message":"network_error"}"#));
    assert_eq!(to_value(&span_status(None)), expect(r#"{"code":2,"message":"network_error"}"#));
}

#[test]
fn a_request_span_in_otlp_json() {
    let record = network(Some(200));
    let span = to_value(&span_for_request(&record));
    let mut expected = expect(
        r#"{"traceId":"4bf92f3577b34da6a3ce929d0e0e4736","spanId":"00f067aa0ba902b7","name":"GET","kind":3,
            "startTimeUnixNano":"1780913730123000000","endTimeUnixNano":"1780913730266700000","status":{}}"#,
    );
    let attrs = span.get("attributes").unwrap().clone();
    expected.as_object_mut().unwrap().insert("attributes".to_string(), attrs.clone());
    assert_eq!(span, expected);
    let keys: Vec<&str> = attrs.as_array().unwrap().iter().map(|a| a["key"].as_str().unwrap()).collect();
    assert_eq!(
        keys,
        vec![
            "hosho.schema",
            "http.request.method",
            "url.full",
            "url.scheme",
            "server.address",
            "server.port",
            "http.response.status_code",
            "hosho.har.entry_hash",
            "hosho.har.dedupe_key",
            "network.protocol.name",
            "network.protocol.version",
            "http.request.body.size",
            "http.request.size",
            "hosho.har.timing.wait_ms",
            "http.request.header.traceparent",
            "http.response.header.content-type",
        ]
    );
    assert_eq!(attrs[10]["value"], expect(r#"{"stringValue":"2"}"#));
    assert_eq!(attrs[12]["value"], expect(r#"{"intValue":"412"}"#));
    assert_eq!(attrs[2]["value"], expect(r#"{"stringValue":"https://github.com/org/repo/pull/1/files?short_path=REDACTED"}"#));
    assert_eq!(attrs[5]["value"], expect(r#"{"intValue":"443"}"#));
    assert_eq!(attrs[13]["value"], expect(r#"{"doubleValue":95.4}"#));
    assert_eq!(attrs[8]["value"]["stringValue"].as_str().unwrap(), record.identity.dedupe_key);
}

#[test]
fn zero_status_is_not_exported_as_status_code() {
    let record = network(Some(0));
    let span = to_value(&span_for_request(&record));
    let keys: Vec<&str> = span["attributes"].as_array().unwrap().iter().map(|a| a["key"].as_str().unwrap()).collect();
    assert!(!keys.contains(&"http.response.status_code"));
    assert_eq!(keys.last(), Some(&"error.type"));
    assert_eq!(span["status"], expect(r#"{"code":2,"message":"network_error"}"#));
}

#[test]
fn trigger_attributes_come_from_the_trace_context() {
    let mut har = har_record(Some(200), Vec::new());
    har.trace.trigger = Some(TraceTrigger {
        function_name: Some("f".to_string()),
        url: None,
        line_number: Some(2),
        column_number: None,
    });
    let record = NetworkRequest::from(har, "{}");
    let span = to_value(&span_for_request(&record));
    let attrs = span["attributes"].as_array().unwrap();
    let n = attrs.len();
    assert_eq!(attrs[n - 2], expect(r#"{"key":"code.function","value":{"stringValue":"f"}}"#));
    assert_eq!(attrs[n - 1], expect(r#"{"key":"code.line.number","value":{"intValue":"2"}}"#));
}

#[test]
fn traces_document_shape() {
    let records = vec![network(Some(200)), network(Some(500))];
    let doc = to_value(&traces_payload(&[], &records));
    assert_eq!(doc["resourceSpans"][0]["resource"], expect(r#"{"attributes":[]}"#));
    assert_eq!(doc["resourceSpans"][0]["scopeSpans"][0]["scope"], expect(r#"{"name":"hosho.har","version":"0.1.0"}"#));
    let spans = doc["resourceSpans"][0]["scopeSpans"][0]["spans"].as_array().unwrap();
    assert_eq!(spans.len(), 2);
    assert_eq!(spans[1]["status"], expect(r#"{"code":2}"#));
    let last = spans[1]["attributes"].as_array().unwrap().last().unwrap().clone();
    assert_eq!(last, expect(r#"{"key":"error.type","value":{"stringValue":"500"}}"#));
    assert!(har_traces(&[]).is_none());
    let full = to_value(&har_traces(&records).unwrap());
    assert_eq!(full["resourceSpans"][0]["resource"]["attributes"].as_array().unwrap().len(), 4);
}

#[test]
fn console_log_records() {
    assert_eq!(severity_number("debug"), 5);
    assert_eq!(severity_number("warn"), 13);
    assert_eq!(severity_number("error"), 17);
    assert_eq!(severity_number("log"), 9);
    let rec = to_value(&log_record(&console("warn", Some("s"))));
    assert_eq!(
        rec,
        expect(
            r#"{"timeUnixNano":"1780913730123000000","severityText":"WARN","severityNumber":13,
                "body":{"stringValue":"hello"},
                "attributes":[{"key":"hosho.schema","value":{"stringValue":"hosho.console.record.v1"}},
                              {"key":"url.full","value":{"stringValue":"https://a.test/"}},
                              {"key":"hosho.browser.tab_id","value":{"intValue":"7"}},
                              {"key":"hosho.capture.page_id","value":{"stringValue":"tab-1:nav-1"}}]}"#
        )
    );
    let doc = to_value(&logs_payload(&[], &[console("info", None)]));
    assert_eq!(doc["resourceLogs"][0]["scopeLogs"][0]["scope"]["name"], "hosho.console");
    assert!(console_logs(&[]).is_none());
    let with_session = to_value(&console_logs(&[console("info", Some("sess"))]).unwrap());
    let res = with_session["resourceLogs"][0]["resource"]["attributes"].as_array().unwrap().clone();
    assert!(res.contains(&expect(r#"{"key":"service.instance.id","value":{"stringValue":"sess"}}"#)));
}

#[test]
fn har_and_console_metrics() {
    let points = metrics_for_har(&[network(Some(404))]);
    assert_eq!(points.len(), 2);
    assert_eq!(points[0].name, "hosho.har.requests");
    assert_eq!(points[0].kind, MetricKind::Counter);
    assert_eq!(points[0].value, MetricValue::Int(1));
    assert_eq!(points[0].time_unix_nano, Some(1_780_913_730_123_000_000));
    assert_eq!(points[1].name, "hosho.har.request.duration");
    assert_eq!(points[1].kind, MetricKind::Gauge);
    assert_eq!(points[1].value, MetricValue::Double(143.7f64.to_bits()));
    let m = to_value(&metric(&points[0]));
    assert_eq!(
        m,
        expect(
            r#"{"name":"hosho.har.requests","description":"Browser HAR requests captured by Hosho","unit":"1",
                "sum":{"aggregationTemporality":2,"isMonotonic":true,"dataPoints":[{
                  "attributes":[{"key":"http.request.method","value":{"stringValue":"GET"}},
                                {"key":"http.response.status_code","value":{"intValue":"404"}}],
                  "timeUnixNano":"1780913730123000000","asInt":"1"}]}}"#
        )
    );
    let g = to_value(&metric(&points[1]));
    assert_eq!(g["gauge"]["dataPoints"][0]["asDouble"], expect("143.7"));
    let logs = metrics_for_console(&[console("error", None)]);
    assert_eq!(logs.len(), 1);
    assert_eq!(logs[0].name, "hosho.console.logs");
    assert!(matches!(&logs[0].attributes[0].value, TelemetryValue::String(s) if s == "error"));
    assert!(metric_payload(&[]).is_none());
    let doc = to_value(&metrics_payload(&[], &points));
    assert_eq!(doc["resourceMetrics"][0]["scopeMetrics"][0]["metrics"].as_array().unwrap().len(), 2);
}

#[test]
fn batches_hold_the_payloads_of_their_signal() {
    let har = har_batch(&[network(Some(200))]);
    assert!(har.traces.is_some() && har.metrics.is_some() && har.logs.is_none());
    let empty = har_batch(&[]);
    assert!(empty.traces.is_none() && empty.metrics.is_none());
    let con = console_batch(&[console("log", None)]);
    assert!(con.logs.is_some() && con.metrics.is_some() && con.traces.is_none());
    assert!(console_batch(&[]).logs.is_none());
}

#[test]
fn sdk_attributes_of_har_records() {
    assert_eq!(request_span_name(&har_record(None, Vec::new())), "GET");
    let mut nameless = har_record(None, Vec::new());
    nameless.request.method = Some(String::new());
    assert_eq!(request_span_name(&nameless), "HTTP");
    nameless.request.method = None;
    assert_eq!(request_span_name(&nameless), "HTTP");
    let keys: Vec<String> = request_attributes(&har_record(Some(201), Vec::new())).into_iter().map(|a| a.key).collect();
    assert_eq!(
        keys,
        vec![
            "hosho.signal",
            "http.request.method",
            "url.full",
            "http.response.status_code",
            "hosho.har.started_at",
            "hosho.har.timing.duration_ms",
            "hosho.har.timing.wait_ms",
        ]
    );
    let sdk = request_attributes(&har_record(Some(201), Vec::new()));
    assert!(matches!(&sdk[2].value, TelemetryValue::String(u) if u == "https://github.com/org/repo/pull/1/files?short_path=REDACTED"));
    let failed: Vec<String> = request_attributes(&har_record(Some(0), Vec::new())).into_iter().map(|a| a.key).collect();
    assert!(!failed.contains(&"http.response.status_code".to_string()));
    assert_eq!(failed.last().map(String::as_str), Some("error.type"));
    let not_found = request_attributes(&har_record(Some(404), Vec::new()));
    assert!(matches!(&not_found.last().unwrap().value, TelemetryValue::String(s) if s == "404"));
    let attrs = har_attributes(&har_record(Some(503), Vec::new()));
    let keys: Vec<&str> = attrs.iter().map(|a| a.key.as_str()).collect();
    assert_eq!(keys, vec!["hosho.signal", "http.response.status_class", "http.request.method", "http.response.status_code", "error", "url.full"]);
    assert!(matches!(&attrs[1].value, TelemetryValue::String(s) if s == "5xx"));
    assert!(matches!(attrs[4].value, TelemetryValue::Bool(true)));
}

#[test]
fn status_classes() {
    assert_eq!(status_class(Some(204)), "2xx");
    assert_eq!(status_class(Some(301)), "3xx");
    assert_eq!(status_class(Some(404)), "4xx");
    assert_eq!(status_class(Some(500)), "5xx");
    assert_eq!(status_class(Some(0)), "other");
    assert_eq!(status_class(None), "unknown");
}

#[test]
fn console_levels_and_severities() {
    let log = |level: &str| ConsoleLogPayload {
        tab_id: Some(3),
        level: level.to_string(),
        args: Vec::new(),
        url: None,
        captured_at: None,
    };
    assert_eq!(severity(&log("debug")), LogSeverity::Debug);
    assert_eq!(severity(&log("warn")), LogSeverity::Warn);
    assert_eq!(severity(&log("error")), LogSeverity::Error);
    assert_eq!(severity(&log("log")), LogSeverity::Info);
    assert_eq!(severity(&log("trace")), LogSeverity::Info);
    assert_eq!(level_name(&log("log")), "log");
    assert_eq!(level_name(&log("trace")), "info");
    assert_eq!(normalized_level(&log("warn")), "warn");
    let keys: Vec<String> = log_attributes(&log("warn")).into_iter().map(|a| a.key).collect();
    assert_eq!(keys, vec!["hosho.signal", "log.level", "browser.tab.id"]);
}

#[test]
fn accepted_answer() {
    assert_eq!(to_value(&accepted_body(3)), expect(r#"{"accepted":3}"#));
}

#[test]
fn protocol_versions_and_sizes() {
    assert_eq!(protocol_version_of("HTTP/1.1"), Some("1.1"));
    assert_eq!(protocol_version_of("h2"), Some("2"));
    assert_eq!(protocol_version_of("http/2.0"), Some("2"));
    assert_eq!(protocol_version_of("h3"), Some("3"));
    assert_eq!(protocol_version_of("spdy"), None);
    assert_eq!(total_size(Some(820), Some(41325)), Some(42145));
    assert_eq!(total_size(Some(820), None), None);
    assert_eq!(total_size(Some(-1), Some(3)), None);
    assert_eq!(total_size(Some(i64::MAX), Some(1)), None);
    assert_eq!(error_type(Some(200)), None);
    assert_eq!(error_type(Some(404)).as_deref(), Some("404"));
    assert_eq!(error_type(Some(0)).as_deref(), Some("network_error"));
    assert_eq!(error_type(None).as_deref(), Some("network_error"));
}

#[test]
fn phase_spans_follow_one_another() {
    let (spans, closed) = phase_spans(
        1_000,
        [Some(400), None, None, None, Some(1_200), Some(95_400), Some(46_700)],
        Some(143_700),
    );
    let got: Vec<(String, u128, u128)> = spans.into_iter().map(|p| (p.name, p.start, p.end)).collect();
    assert_eq!(
        got,
        vec![
            ("request.blocked".to_string(), 1_000, 1_400),
            ("request.send".to_string(), 1_400, 2_600),
            ("response.wait".to_string(), 2_600, 98_000),
            ("response.receive".to_string(), 98_000, 144_700),
        ]
    );
    assert_eq!(closed, Some(144_700));
    let (none, no_close) = phase_spans(5, [None; 7], None);
    assert!(none.is_empty());
    assert_eq!(no_close, None);
}

#[test]
fn error_statuses_are_missing_or_outside_100_to_399() {
    assert!(is_error_status(Some(500)));
    assert!(is_error_status(Some(404)));
    assert!(is_error_status(Some(0)));
    assert!(is_error_status(None));
    assert!(!is_error_status(Some(200)));
    assert!(!is_error_status(Some(399)));
    assert!(!is_error_status(Some(100)));
}

#[test]
fn capture_and_initiator_attributes() {
    let mut record = network(Some(200));
    record.capture.session_id = Some("s".to_string());
    record.capture.page_id = Some("p".to_string());
    record.browser.priority = Some("High".to_string());
    record.browser.initiator = Some(InitiatorContext {
        top_function: Some("f".to_string()),
        top_url: None,
        top_line: Some(2),
        top_column: None,
        stack_depth: Some(1),
    });
    let span = to_value(&span_for_request(&record));
    let keys: Vec<&str> = span["attributes"].as_array().unwrap().iter().map(|a| a["key"].as_str().unwrap()).collect();
    for key in ["hosho.capture.session_id", "hosho.capture.page_id", "hosho.har.priority", "code.function", "code.line.number"] {
        assert!(keys.contains(&key), "{key}");
    }
}

#[test]
fn spans_sanitize_a_url_without_sanitized_form() {
    let mut record = network(Some(200));
    record.request.url = "https://u:p@a.test/x?token=t&k=v".to_string();
    record.request.url_sanitized = None;
    let span = to_value(&span_for_request(&record));
    assert_eq!(
        span["attributes"][2],
        expect(r#"{"key":"url.full","value":{"stringValue":"https://a.test/x?token=REDACTED&k=v"}}"#)
    );
}

#[test]
fn console_log_body_fields() {
    let log = ConsoleLogPayload {
        tab_id: Some(3),
        level: "trace".to_string(),
        args: Vec::new(),
        url: None,
        captured_at: Some("2026-06-08T10:15:30.123Z".to_string()),
    };
    let fields = log_body_fields(&log);
    let keys: Vec<&str> = fields.iter().map(|f| f.0).collect();
    assert_eq!(keys, vec!["level", "args", "tabId", "capturedAt"]);
    assert!(matches!(&fields[0].1, LogBodyValue::Text(s) if s == "info"));
    assert!(matches!(fields[1].1, LogBodyValue::Args));
    assert!(matches!(fields[2].1, LogBodyValue::Int(3)));
}
