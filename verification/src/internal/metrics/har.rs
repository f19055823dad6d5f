//! Measurements of network requests: a count and a duration per request.
use vstd::prelude::*;

use crate::internal::specs::metrics::{point_views, MetricKind, MetricPoint, MetricPointView, MetricValue};
use crate::internal::specs::network::NetworkRequest;
use crate::internal::specs::telemetry::{attr_views, TelemetryAttribute, TelemetryValue, ValueView};
use crate::internal::specs::timing::unix_nanos_of;
use crate::json::opt_chars;

verus! {

/// The method and status code of a request (0 when it has no status).
pub open spec fn request_attrs_of(record: NetworkRequest) -> Seq<(Seq<char>, ValueView)> {
    seq![
        ("http.request.method"@, ValueView::Text(record.request.method@)),
        (
            "http.response.status_code"@,
            ValueView::Int(
                match record.response.status {
                    Some(s) => s,
                    None => 0,
                },
            ),
        ),
    ]
}

/// The count of one request, at its start.
pub open spec fn request_count_of(record: NetworkRequest) -> MetricPointView {
    MetricPointView {
        name: "hosho.har.requests"@,
        description: "Browser HAR requests captured by Hosho"@,
        unit: "1"@,
        kind: MetricKind::Counter,
        value: MetricValue::Int(1),
        attributes: request_attrs_of(record),
        time_unix_nano: unix_nanos_of(opt_chars(record.timing.started_at)),
    }
}

/// The duration of one request in milliseconds (0.0 when unknown), at its start.
pub open spec fn request_duration_of(record: NetworkRequest) -> MetricPointView {
    MetricPointView {
        name: "hosho.har.request.duration"@,
        description: "Browser HAR request duration"@,
        unit: "ms"@,
        kind: MetricKind::Gauge,
        value: MetricValue::Double(
            match record.timing.duration_ms {
                Some(ms) => ms.bits,
                None => 0,
            },
        ),
        attributes: request_attrs_of(record),
        time_unix_nano: unix_nanos_of(opt_chars(record.timing.started_at)),
    }
}

/// The measurements of requests: for each, its count and then its duration.
pub open spec fn har_points_of(records: Seq<NetworkRequest>) -> Seq<MetricPointView>
    decreases records.len(),
{
    if records.len() == 0 {
        Seq::empty()
    } else {
        har_points_of(records.drop_last()).push(request_count_of(records.last())).push(
            request_duration_of(records.last()),
        )
    }
}

/// Each request is measured once, in order, by two points: point `2i` counts
/// request `i` (`hosho.har.requests`, a counter of 1 in unit `1`) and point
/// `2i + 1` is its duration (`hosho.har.request.duration`, a gauge in `ms`, the
/// duration of that request or 0.0 when unknown); both carry that request's
/// method and status code (0 when it has none) and its start time.
pub proof fn law_har_points(records: Seq<NetworkRequest>)
    ensures
        har_points_of(records).len() == 2 * records.len(),
        forall|i: int|
            0 <= i < records.len() ==> {
                let r = #[trigger] records[i];
                let attrs = seq![
                    ("http.request.method"@, ValueView::Text(r.request.method@)),
                    (
                        "http.response.status_code"@,
                        ValueView::Int(
                            match r.response.status {
                                Some(s) => s,
                                None => 0,
                            },
                        ),
                    ),
                ];
                let t = unix_nanos_of(opt_chars(r.timing.started_at));
                &&& har_points_of(records)[2 * i] == MetricPointView {
                    name: "hosho.har.requests"@,
                    description: "Browser HAR requests captured by Hosho"@,
                    unit: "1"@,
                    kind: MetricKind::Counter,
                    value: MetricValue::Int(1),
                    attributes: attrs,
                    time_unix_nano: t,
                }
                &&& har_points_of(records)[2 * i + 1] == MetricPointView {
                    name: "hosho.har.request.duration"@,
                    description: "Browser HAR request duration"@,
                    unit: "ms"@,
                    kind: MetricKind::Gauge,
                    value: MetricValue::Double(
                        match r.timing.duration_ms {
                            Some(ms) => ms.bits,
                            None => 0,
                        },
                    ),
                    attributes: attrs,
                    time_unix_nano: t,
                }
            },
    decreases records.len(),
{
    if records.len() > 0 {
        let front = records.drop_last();
        law_har_points(front);
        let all = har_points_of(records);
        let before = har_points_of(front);
        assert(all == before.push(request_count_of(records.last())).push(
            request_duration_of(records.last()),
        ));
        assert forall|i: int| 0 <= i < records.len() implies {
            let r = #[trigger] records[i];
            &&& all[2 * i] == request_count_of(r)
            &&& all[2 * i + 1] == request_duration_of(r)
        } by {
            if i < records.len() - 1 {
                assert(front[i] == records[i]);
                assert(all[2 * i] == before[2 * i]);
                assert(all[2 * i + 1] == before[2 * i + 1]);
            }
        }
    }
}

/// The method and status code attributes of a request.
pub fn request_attrs(record: &NetworkRequest) -> (r: Vec<TelemetryAttribute>)
    ensures
        attr_views(r@) == request_attrs_of(*record),
{
    let mut attrs: Vec<TelemetryAttribute> = Vec::new();
    attrs.push(
        TelemetryAttribute::new(
            "http.request.method",
            TelemetryValue::String(record.request.method.clone()),
        ),
    );
    let status: i64 = match record.response.status {
        Some(s) => s,
        None => 0,
    };
    attrs.push(TelemetryAttribute::new("http.response.status_code", TelemetryValue::Int(status)));
    assert(attr_views(attrs@) =~= request_attrs_of(*record));
    attrs
}

fn request_count(record: &NetworkRequest) -> (p: MetricPoint)
    ensures
        p@ == request_count_of(*record),
{
    MetricPoint {
        name: "hosho.har.requests",
        description: "Browser HAR requests captured by Hosho",
        unit: "1",
        kind: MetricKind::Counter,
        value: MetricValue::Int(1),
        attributes: request_attrs(record),
        time_unix_nano: record.timing.start_unix_nano(),
    }
}

fn request_duration(record: &NetworkRequest) -> (p: MetricPoint)
    ensures
        p@ == request_duration_of(*record),
{
    let bits: u64 = match record.timing.duration_ms {
        Some(ms) => ms.bits,
        None => 0,
    };
    MetricPoint {
        name: "hosho.har.request.duration",
        description: "Browser HAR request duration",
        unit: "ms",
        kind: MetricKind::Gauge,
        value: MetricValue::Double(bits),
        attributes: request_attrs(record),
        time_unix_nano: record.timing.start_unix_nano(),
    }
}

/// For each request, in order, its count and then its duration.
pub fn metrics_for_har(records: &[NetworkRequest]) -> (r: Vec<MetricPoint>)
    ensures
        point_views(r@) == har_points_of(records@),
{
    let mut r: Vec<MetricPoint> = Vec::new();
    let mut i: usize = 0;
    while i < records.len()
        invariant
            0 <= i <= records@.len(),
            point_views(r@) == har_points_of(records@.take(i as int)),
        decreases records@.len() - i,
    {
        let ghost before = r@;
        r.push(request_count(&records[i]));
        r.push(request_duration(&records[i]));
        assert(records@.take(i + 1).drop_last() =~= records@.take(i as int));
        assert(point_views(r@) =~= point_views(before).push(request_count_of(records@[i as int])).push(
            request_duration_of(records@[i as int]),
        ));
        i = i + 1;
    }
    assert(records@.take(records@.len() as int) =~= records@);
    r
}

} // verus!
