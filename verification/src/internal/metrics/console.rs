//! Measurements of console events: one count per event, by severity.
use vstd::prelude::*;

use crate::internal::specs::console::ConsoleRecord;
use crate::internal::specs::metrics::{point_views, MetricKind, MetricPoint, MetricPointView, MetricValue};
use crate::internal::specs::telemetry::{TelemetryAttribute, TelemetryValue, ValueView};
use crate::internal::specs::timing::{unix_nano, unix_nanos_of};
use crate::json::opt_chars;

verus! {

/// The count of one console event, at the time it was captured, by severity.
pub open spec fn log_count_of(record: ConsoleRecord) -> MetricPointView {
    MetricPointView {
        name: "hosho.console.logs"@,
        description: "Browser console logs captured by Hosho"@,
        unit: "1"@,
        kind: MetricKind::Counter,
        value: MetricValue::Int(1),
        attributes: seq![("log.severity"@, ValueView::Text(record.level@))],
        time_unix_nano: unix_nanos_of(opt_chars(record.captured_at)),
    }
}

/// Each console event is counted once, in order: point `i` is a counter
/// `hosho.console.logs` of 1 in unit `1`, whose one attribute `log.severity` is
/// event `i`'s level and whose time is when event `i` was captured.
pub proof fn law_console_points(records: Seq<ConsoleRecord>)
    ensures
        ({
            let points = records.map_values(|c: ConsoleRecord| log_count_of(c));
            &&& points.len() == records.len()
            &&& forall|i: int|
                0 <= i < records.len() ==> #[trigger] points[i] == MetricPointView {
                    name: "hosho.console.logs"@,
                    description: "Browser console logs captured by Hosho"@,
                    unit: "1"@,
                    kind: MetricKind::Counter,
                    value: MetricValue::Int(1),
                    attributes: seq![("log.severity"@, ValueView::Text(records[i].level@))],
                    time_unix_nano: unix_nanos_of(opt_chars(records[i].captured_at)),
                }
        }),
{
}

fn log_count(record: &ConsoleRecord) -> (p: MetricPoint)
    ensures
        p@ == log_count_of(*record),
{
    let mut attributes: Vec<TelemetryAttribute> = Vec::new();
    attributes.push(
        TelemetryAttribute::new("log.severity", TelemetryValue::String(record.level.clone())),
    );
    let time = match &record.captured_at {
        Some(t) => unix_nano(Some(t.as_str())),
        None => unix_nano(None),
    };
    let p = MetricPoint {
        name: "hosho.console.logs",
        description: "Browser console logs captured by Hosho",
        unit: "1",
        kind: MetricKind::Counter,
        value: MetricValue::Int(1),
        attributes,
        time_unix_nano: time,
    };
    assert(p@.attributes =~= log_count_of(*record).attributes);
    p
}

/// One count per console event, in order.
pub fn metrics_for_console(records: &[ConsoleRecord]) -> (r: Vec<MetricPoint>)
    ensures
        point_views(r@) == records@.map_values(|c: ConsoleRecord| log_count_of(c)),
{
    let mut r: Vec<MetricPoint> = Vec::new();
    let mut i: usize = 0;
    while i < records.len()
        invariant
            0 <= i <= records@.len(),
            point_views(r@) == records@.take(i as int).map_values(|c: ConsoleRecord| log_count_of(c)),
        decreases records@.len() - i,
    {
        let ghost before = r@;
        r.push(log_count(&records[i]));
        assert(point_views(r@) =~= point_views(before).push(log_count_of(records@[i as int])));
        assert(records@.take(i + 1).map_values(|c: ConsoleRecord| log_count_of(c)) =~= records@.take(
            i as int,
        ).map_values(|c: ConsoleRecord| log_count_of(c)).push(log_count_of(records@[i as int])));
        i = i + 1;
    }
    assert(records@.take(records@.len() as int) =~= records@);
    r
}

} // verus!
