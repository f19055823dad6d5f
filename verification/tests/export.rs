use ingestor::internal::telemetry::config::OtlpSignal;
use ingestor::internal::telemetry::exporter::{otel_url, ExportAction, ExportEvent, OtlpHttpExporter};
use ingestor::internal::telemetry::payload::TelemetryBatch;
use ingestor::internal::telemetry::strategy::{ExportStrategy, OtlpCollectorStrategy};
use ingestor::json::JsonValue;

fn batch(traces: bool, logs: bool, metrics: bool) -> TelemetryBatch {
    TelemetryBatch {
        traces: traces.then(|| JsonValue::String("t".to_string())),
        logs: logs.then(|| JsonValue::String("l".to_string())),
        metrics: metrics.then(|| JsonValue::String("m".to_string())),
    }
}

fn url_of(action: &ExportAction) -> Option<String> {
    match action {
        ExportAction::Send(call) => Some(call.url.clone()),
        ExportAction::Finished(_) => None,
    }
}

#[test]
fn signal_paths() {
    assert_eq!(OtlpSignal::Traces.path(), "/v1/traces");
    assert_eq!(OtlpSignal::Logs.path(), "/v1/logs");
    assert_eq!(OtlpSignal::Metrics.path(), "/v1/metrics");
    assert_eq!(otel_url("http://collector:4318", "/v1/logs"), "http://collector:4318/v1/logs");
}

#[test]
fn strategy_orders_traces_logs_metrics() {
    let requests = OtlpCollectorStrategy.requests(batch(true, true, true));
    let signals: Vec<OtlpSignal> = requests.iter().map(|r| r.signal).collect();
    assert_eq!(signals, vec![OtlpSignal::Traces, OtlpSignal::Logs, OtlpSignal::Metrics]);
    let only_metrics = OtlpCollectorStrategy.requests(batch(false, false, true));
    assert_eq!(only_metrics.len(), 1);
    assert_eq!(only_metrics[0].signal, OtlpSignal::Metrics);
    assert!(OtlpCollectorStrategy.requests(batch(false, false, false)).is_empty());
}

#[test]
fn a_run_sends_each_request_then_succeeds() {
    let exporter = OtlpHttpExporter::new("http://c");
    assert_eq!(exporter.url(OtlpSignal::Traces), "http://c/v1/traces");
    let mut run = exporter.start(batch(true, false, true), &OtlpCollectorStrategy);
    let first = run.next(ExportEvent::Started);
    assert_eq!(url_of(&first).as_deref(), Some("http://c/v1/traces"));
    let second = run.next(ExportEvent::Answered(200));
    assert_eq!(url_of(&second).as_deref(), Some("http://c/v1/metrics"));
    match run.next(ExportEvent::Answered(204)) {
        ExportAction::Finished(Ok(())) => {}
        _ => panic!("expected success"),
    }
}

#[test]
fn a_run_stops_at_the_first_failure() {
    let exporter = OtlpHttpExporter::new("http://c");
    let mut run = exporter.start(batch(true, true, true), &OtlpCollectorStrategy);
    run.next(ExportEvent::Started);
    match run.next(ExportEvent::Answered(503)) {
        ExportAction::Finished(Err(e)) => {
            assert_eq!(e.code, "ERR-OTEL-003");
            assert_eq!(e.status, 500);
        }
        _ => panic!("expected failure"),
    }
    match run.next(ExportEvent::Started) {
        ExportAction::Finished(Ok(())) => {}
        _ => panic!("nothing is left to send"),
    }
}

#[test]
fn transport_failures_end_the_run() {
    let exporter = OtlpHttpExporter::new("http://c");
    let mut run = exporter.start(batch(true, false, false), &OtlpCollectorStrategy);
    run.next(ExportEvent::Started);
    match run.next(ExportEvent::SendFailed) {
        ExportAction::Finished(Err(e)) => assert_eq!((e.code.as_str(), e.status), ("ERR-OTEL-002", 400)),
        _ => panic!("expected failure"),
    }
    let mut run = exporter.start(batch(true, false, false), &OtlpCollectorStrategy);
    match run.next(ExportEvent::RequestFailed("bad header".to_string())) {
        ExportAction::Finished(Err(e)) => {
            assert_eq!((e.code.as_str(), e.status), ("ERR-OTEL-002", 500));
            assert_eq!(e.message, "bad header");
        }
        _ => panic!("expected failure"),
    }
    let mut run = exporter.start(batch(true, false, false), &OtlpCollectorStrategy);
    match run.next(ExportEvent::EncodeFailed) {
        ExportAction::Finished(Err(e)) => assert_eq!((e.code.as_str(), e.status), ("ERR-OTEL-001", 400)),
        _ => panic!("expected failure"),
    }
    let mut empty = exporter.start(batch(false, false, false), &OtlpCollectorStrategy);
    assert!(matches!(empty.next(ExportEvent::Started), ExportAction::Finished(Ok(()))));
}
