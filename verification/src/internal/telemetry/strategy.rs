//! Which collector requests an export makes, and in what order.
use vstd::prelude::*;

use crate::internal::telemetry::config::OtlpSignal;
use crate::internal::telemetry::payload::{ExportRequest, TelemetryBatch};
use crate::json::{model, JsonModel, JsonValue};

verus! {

/// The document of an optional payload.
pub open spec fn payload_model(p: Option<JsonValue>) -> Option<JsonModel> {
    match p {
        Some(v) => Some(model(v)),
        None => None,
    }
}

/// One request for a payload that is present, none for an absent one.
pub open spec fn request_for(signal: OtlpSignal, p: Option<JsonModel>) -> Seq<(OtlpSignal, JsonModel)> {
    match p {
        Some(body) => seq![(signal, body)],
        None => Seq::empty(),
    }
}

/// The requests of a batch: traces, then logs, then metrics, each when present.
pub open spec fn batch_requests(batch: TelemetryBatch) -> Seq<(OtlpSignal, JsonModel)> {
    request_for(OtlpSignal::Traces, payload_model(batch.traces)) + request_for(
        OtlpSignal::Logs,
        payload_model(batch.logs),
    ) + request_for(OtlpSignal::Metrics, payload_model(batch.metrics))
}

/// The payload of a batch for a signal.
pub open spec fn payload_for(batch: TelemetryBatch, signal: OtlpSignal) -> Option<JsonModel> {
    match signal {
        OtlpSignal::Traces => payload_model(batch.traces),
        OtlpSignal::Logs => payload_model(batch.logs),
        OtlpSignal::Metrics => payload_model(batch.metrics),
    }
}

/// An export sends each payload of a batch once, to its own signal, and nothing
/// else: every request carries the batch's payload for its signal, no signal is
/// sent twice, each present payload is sent, and traces come before logs and logs
/// before metrics.
pub proof fn law_batch_requests(batch: TelemetryBatch)
    ensures
        ({
            let r = batch_requests(batch);
            let rank = |s: OtlpSignal|
                match s {
                    OtlpSignal::Traces => 0int,
                    OtlpSignal::Logs => 1int,
                    OtlpSignal::Metrics => 2int,
                };
            &&& forall|i: int|
                0 <= i < r.len() ==> payload_for(batch, (#[trigger] r[i]).0) == Some(r[i].1)
            &&& forall|i: int, j: int|
                0 <= i < j < r.len() ==> rank((#[trigger] r[i]).0) < rank((#[trigger] r[j]).0)
            &&& forall|s: OtlpSignal|
                #[trigger] payload_for(batch, s) is Some ==> r.contains(
                    (s, payload_for(batch, s)->Some_0),
                )
        }),
{
    let t = request_for(OtlpSignal::Traces, payload_model(batch.traces));
    let l = request_for(OtlpSignal::Logs, payload_model(batch.logs));
    let m = request_for(OtlpSignal::Metrics, payload_model(batch.metrics));
    let r = batch_requests(batch);
    assert(r == t + l + m);
    assert forall|s: OtlpSignal| #[trigger] payload_for(batch, s) is Some implies r.contains(
        (s, payload_for(batch, s)->Some_0),
    ) by {
        let body = payload_for(batch, s)->Some_0;
        match s {
            OtlpSignal::Traces => {
                assert(r[0] == (s, body));
            },
            OtlpSignal::Logs => {
                assert(r[t.len() as int] == (s, body));
            },
            OtlpSignal::Metrics => {
                assert(r[t.len() + l.len() as int] == (s, body));
            },
        }
    }
}

/// The signal and document of each request.
pub open spec fn request_views(requests: Seq<ExportRequest>) -> Seq<(OtlpSignal, JsonModel)> {
    requests.map_values(|r: ExportRequest| (r.signal, model(r.body)))
}

/// A way of turning a batch of payloads into collector requests.
pub trait ExportStrategy {
    fn requests(&self, batch: TelemetryBatch) -> Vec<ExportRequest>;
}

/// One request per signal, to an OpenTelemetry collector's OTLP/HTTP endpoints.
pub struct OtlpCollectorStrategy;

/// Appends a request for a payload when it is present.
fn push_request(requests: &mut Vec<ExportRequest>, signal: OtlpSignal, body: Option<JsonValue>)
    ensures
        request_views(final(requests)@) == request_views(old(requests)@) + request_for(
            signal,
            payload_model(body),
        ),
{
    let ghost before = requests@;
    match body {
        Some(body) => {
            requests.push(ExportRequest { signal, body });
            assert(request_views(requests@) =~= request_views(before) + request_for(
                signal,
                payload_model(Some(body)),
            ));
        },
        None => {
            assert(request_views(requests@) =~= request_views(before) + Seq::empty());
        },
    }
}

impl ExportStrategy for OtlpCollectorStrategy {
    /// Traces, then logs, then metrics, each when the batch has it.
    fn requests(&self, batch: TelemetryBatch) -> (r: Vec<ExportRequest>)
        ensures
            request_views(r@) == batch_requests(batch),
    {
        let ghost whole = batch;
        let mut requests: Vec<ExportRequest> = Vec::new();
        assert(request_views(requests@) =~= Seq::empty());
        push_request(&mut requests, OtlpSignal::Traces, batch.traces);
        push_request(&mut requests, OtlpSignal::Logs, batch.logs);
        push_request(&mut requests, OtlpSignal::Metrics, batch.metrics);
        assert(request_views(requests@) =~= batch_requests(whole));
        requests
    }
}

} // verus!
