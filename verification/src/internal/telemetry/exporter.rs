//! Export of a batch to an OpenTelemetry collector over OTLP/HTTP, as a run of
//! steps: each step either asks the host to send one request or finishes with the
//! outcome. The host performs the sends and reports what each one met.
use vstd::prelude::*;

use crate::internal::telemetry::config::{signal_path, OtlpSignal};
use crate::internal::telemetry::payload::{ExportRequest, TelemetryBatch};
use crate::internal::telemetry::strategy::{
    batch_requests, request_views, ExportStrategy, OtlpCollectorStrategy,
};
use crate::json::{model, JsonModel, JsonValue};
use crate::prelude::IngestError;
use crate::text::concat;

verus! {

/// The collector endpoint followed by a path.
pub fn otel_url(endpoint: &str, path: &str) -> (url: String)
    ensures
        url@ == endpoint@ + path@,
{
    concat(endpoint, path)
}

/// Sends telemetry to the collector at `endpoint`.
pub struct OtlpHttpExporter {
    pub endpoint: String,
}

/// One request to send: where to, and what.
pub struct ExportCall {
    pub url: String,
    pub body: JsonValue,
}

/// What the host met when it last acted on a run.
pub enum ExportEvent {
    /// The run has just begun.
    Started,
    /// The collector answered with this HTTP status.
    Answered(u16),
    /// The body could not be encoded.
    EncodeFailed,
    /// The request could not be built; the text says why.
    RequestFailed(String),
    /// The request could not be sent.
    SendFailed,
}

/// What the host is to do next.
pub enum ExportAction {
    Send(ExportCall),
    Finished(Result<(), IngestError>),
}

/// The requests of an export that are still to be sent, in order.
pub struct ExportRun {
    pending: Vec<ExportCall>,
}

/// Whether the collector took a request: a 2xx status.
pub open spec fn accepted(status: u16) -> bool {
    200 <= status < 300
}

/// The error that ends a run on an event, if the event is a failure: a status
/// other than 2xx is `ERR-OTEL-003` (500); a body that cannot be encoded is
/// `ERR-OTEL-001` (400); a request that cannot be built is `ERR-OTEL-002` (500,
/// with the reason), one that cannot be sent `ERR-OTEL-002` (400).
pub open spec fn failure_of(event: ExportEvent) -> Option<(Seq<char>, u16, Seq<char>)> {
    match event {
        ExportEvent::Started => None,
        ExportEvent::Answered(s) => if accepted(s) {
            None
        } else {
            Some(("ERR-OTEL-003"@, 500u16, Seq::empty()))
        },
        ExportEvent::EncodeFailed => Some(("ERR-OTEL-001"@, 400u16, Seq::empty())),
        ExportEvent::RequestFailed(why) => Some(("ERR-OTEL-002"@, 500u16, why@)),
        ExportEvent::SendFailed => Some(("ERR-OTEL-002"@, 400u16, Seq::empty())),
    }
}

/// The URL and document of each call.
pub open spec fn call_views(calls: Seq<ExportCall>) -> Seq<(Seq<char>, JsonModel)> {
    calls.map_values(|c: ExportCall| (c.url@, model(c.body)))
}

impl View for ExportRun {
    type V = Seq<(Seq<char>, JsonModel)>;

    closed spec fn view(&self) -> Seq<(Seq<char>, JsonModel)> {
        call_views(self.pending@)
    }
}

/// The calls of a list of requests: each signal's path under the endpoint.
pub open spec fn planned_calls(endpoint: Seq<char>, requests: Seq<(OtlpSignal, JsonModel)>) -> Seq<
    (Seq<char>, JsonModel),
> {
    requests.map_values(|r: (OtlpSignal, JsonModel)| (endpoint + signal_path(r.0), r.1))
}

impl OtlpHttpExporter {
    pub fn new(endpoint: &str) -> (e: Self)
        ensures
            e.endpoint@ == endpoint@,
    {
        OtlpHttpExporter { endpoint: endpoint.to_owned() }
    }

    /// The URL that a signal is posted to.
    pub fn url(&self, signal: OtlpSignal) -> (url: String)
        ensures
            url@ == self.endpoint@ + signal_path(signal),
    {
        otel_url(self.endpoint.as_str(), signal.path())
    }

    /// A run that posts each request of the batch, in the collector strategy's order
    /// (traces, logs, metrics), to its signal's path.
    pub fn start(&self, batch: TelemetryBatch, strategy: &OtlpCollectorStrategy) -> (run: ExportRun)
        ensures
            run@ == planned_calls(self.endpoint@, batch_requests(batch)),
    {
        let requests = strategy.requests(batch);
        let ghost planned = planned_calls(self.endpoint@, request_views(requests@));
        let mut remaining = requests;
        let mut pending: Vec<ExportCall> = Vec::new();
        let ghost all = remaining@;
        while remaining.len() > 0
            invariant
                pending@.len() + remaining@.len() == all.len(),
                remaining@ == all.skip(pending@.len() as int),
                planned == planned_calls(self.endpoint@, request_views(all)),
                call_views(pending@) == planned.take(pending@.len() as int),
            decreases remaining@.len(),
        {
            let k = pending.len();
            let request: ExportRequest = remaining.remove(0);
            assert(remaining@ =~= all.skip(k + 1));
            let ghost before = pending@;
            let url = self.url(request.signal);
            pending.push(ExportCall { url, body: request.body });
            assert(call_views(pending@) =~= call_views(before).push(planned[k as int]));
            assert(planned.take(k + 1) =~= planned.take(k as int).push(planned[k as int]));
        }
        assert(planned.take(all.len() as int) =~= planned);
        ExportRun { pending }
    }
}

impl ExportRun {
    /// The next step after an event: a failure ends the run with its error and
    /// drops what is left; otherwise the first pending call is to be sent, or,
    /// when none is left, the run ends with success.
    pub fn next(&mut self, event: ExportEvent) -> (action: ExportAction)
        ensures
            match failure_of(event) {
                Some((code, status, message)) => {
                    &&& action matches ExportAction::Finished(Err(e)) && e.code@ == code
                        && e.status == status && e.message@ == message
                    &&& final(self)@ == Seq::<(Seq<char>, JsonModel)>::empty()
                },
                None => if old(self)@.len() == 0 {
                    &&& action matches ExportAction::Finished(Ok(()))
                    &&& final(self)@ == Seq::<(Seq<char>, JsonModel)>::empty()
                } else {
                    &&& action matches ExportAction::Send(call) && (call.url@, model(call.body))
                        == old(self)@[0]
                    &&& final(self)@ == old(self)@.drop_first()
                },
            },
    {
        let failure: Option<IngestError> = match event {
            ExportEvent::Started => None,
            ExportEvent::Answered(s) => if 200 <= s && s < 300 {
                None
            } else {
                Some(IngestError::new("ERR-OTEL-003", 500, ""))
            },
            ExportEvent::EncodeFailed => Some(IngestError::new("ERR-OTEL-001", 400, "")),
            ExportEvent::RequestFailed(why) => Some(IngestError::new("ERR-OTEL-002", 500, why.as_str())),
            ExportEvent::SendFailed => Some(IngestError::new("ERR-OTEL-002", 400, "")),
        };
        proof {
            reveal_strlit("");
        }
        match failure {
            Some(e) => {
                self.pending = Vec::new();
                assert(self@ =~= Seq::<(Seq<char>, JsonModel)>::empty());
                ExportAction::Finished(Err(e))
            },
            None => {
                if self.pending.len() == 0 {
                    ExportAction::Finished(Ok(()))
                } else {
                    let ghost before = self.pending@;
                    let call = self.pending.remove(0);
                    assert(call_views(self.pending@) =~= call_views(before).drop_first());
                    ExportAction::Send(call)
                }
            },
        }
    }

}

} // verus!
