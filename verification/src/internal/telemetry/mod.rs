pub mod attributes;
pub mod config;
pub mod ids;
pub mod payload;
pub mod resource;
pub mod traces;
pub mod logs;
pub mod metrics;
pub mod strategy;
pub mod exporter;

use vstd::prelude::*;

use crate::internal::metrics::console::{log_count_of, metrics_for_console};
use crate::internal::metrics::har::{har_points_of, metrics_for_har};
use crate::internal::specs::console::ConsoleRecord;
use crate::internal::specs::network::NetworkRequest;
use crate::internal::specs::telemetry::ValueView;
use crate::json::{model, opt_chars};
use logs::{console_logs, logs_doc};
use metrics::{metric_payload, metrics_doc};
use payload::TelemetryBatch;
use resource::{reordered, resource_attr_views};
use traces::{har_traces, traces_doc};

verus! {

/// The payloads that export requests: their spans and their metrics (a count and a
/// duration per request), none of either when there are no requests.
pub fn har_batch(records: &[NetworkRequest]) -> (b: TelemetryBatch)
    ensures
        b.traces is None <==> records@.len() == 0,
        b.metrics is None <==> records@.len() == 0,
        b.logs is None,
        b.traces matches Some(v) ==> exists|resource: Seq<(Seq<char>, ValueView)>|
            reordered(resource, resource_attr_views(None)) && model(v) == traces_doc(
                resource,
                records@,
            ),
        b.metrics matches Some(v) ==> exists|resource: Seq<(Seq<char>, ValueView)>|
            reordered(resource, resource_attr_views(None)) && model(v) == metrics_doc(
                resource,
                har_points_of(records@),
            ),
{
    let points = metrics_for_har(records);
    proof {
        if records@.len() > 0 {
            assert(har_points_of(records@).len() > 0);
        } else {
            assert(har_points_of(records@) =~= Seq::empty());
        }
    }
    TelemetryBatch {
        traces: har_traces(records),
        logs: None,
        metrics: metric_payload(points.as_slice()),
    }
}

/// The payloads that export console events: their log records and their metrics
/// (a count per event), none of either when there are no events.
pub fn console_batch(records: &[ConsoleRecord]) -> (b: TelemetryBatch)
    ensures
        b.logs is None <==> records@.len() == 0,
        b.metrics is None <==> records@.len() == 0,
        b.traces is None,
        b.logs matches Some(v) ==> exists|resource: Seq<(Seq<char>, ValueView)>|
            reordered(resource, resource_attr_views(opt_chars(records@[0].capture.session_id)))
                && model(v) == logs_doc(resource, records@),
        b.metrics matches Some(v) ==> exists|resource: Seq<(Seq<char>, ValueView)>|
            reordered(resource, resource_attr_views(None)) && model(v) == metrics_doc(
                resource,
                records@.map_values(|c: ConsoleRecord| log_count_of(c)),
            ),
{
    let points = metrics_for_console(records);
    TelemetryBatch {
        traces: None,
        logs: console_logs(records),
        metrics: metric_payload(points.as_slice()),
    }
}

} // verus!
