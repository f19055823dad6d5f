//! Measurements in the OTLP JSON encoding: a counter as a monotonic cumulative
//! sum, a gauge as a gauge, each with one data point.
use vstd::prelude::*;

use crate::internal::specs::metrics::{point_views, MetricKind, MetricPoint, MetricPointView, MetricValue};
use crate::internal::specs::telemetry::{TelemetryAttribute, ValueView};
use crate::internal::specs::telemetry::attr_views;
use crate::internal::telemetry::attributes::{attribute_models, otlp_attributes};
use crate::internal::telemetry::payload::{otlp_doc, otlp_document};
use crate::internal::telemetry::resource::{reordered, resource_attr_views, resource_attributes};
use crate::json::{
    json_string, json_uint, member_models, model, models, push_item, push_member, single,
    JsonModel, JsonNumber, JsonValue,
};
use crate::text::{decimal, i64_decimal, signed_decimal, u128_decimal};

verus! {

/// The data point of a measurement: its attributes, its time (0 when unknown),
/// and its value, an integer as decimal text under `asInt` or a floating-point
/// number under `asDouble`.
pub open spec fn data_point_model(p: MetricPointView) -> JsonModel {
    let time = match p.time_unix_nano {
        Some(t) => t as nat,
        None => 0,
    };
    JsonModel::Object(
        seq![
            ("attributes"@, JsonModel::Array(attribute_models(p.attributes))),
            ("timeUnixNano"@, JsonModel::String(decimal(time))),
            match p.value {
                MetricValue::Int(n) => ("asInt"@, JsonModel::String(signed_decimal(n as int))),
                MetricValue::Double(bits) => ("asDouble"@, JsonModel::Number(JsonNumber::Float(bits))),
            },
        ],
    )
}

/// The OTLP JSON metric of a measurement.
pub open spec fn metric_model(p: MetricPointView) -> JsonModel {
    let head = seq![
        ("name"@, JsonModel::String(p.name)),
        ("description"@, JsonModel::String(p.description)),
        ("unit"@, JsonModel::String(p.unit)),
    ];
    let points = JsonModel::Array(seq![data_point_model(p)]);
    match p.kind {
        MetricKind::Counter => JsonModel::Object(
            head.push(
                (
                    "sum"@,
                    JsonModel::Object(
                        seq![
                            ("aggregationTemporality"@, JsonModel::Number(JsonNumber::PosInt(2))),
                            ("isMonotonic"@, JsonModel::Bool(true)),
                            ("dataPoints"@, points),
                        ],
                    ),
                ),
            ),
        ),
        MetricKind::Gauge => JsonModel::Object(head.push(("gauge"@, single("dataPoints"@, points)))),
    }
}

/// A measurement is encoded with its name, description and unit, then a counter
/// as a monotonic cumulative (`aggregationTemporality` 2) `sum` and a gauge as a
/// `gauge`, each with one data point that carries the measurement's attributes,
/// its time (0 when unknown), and its value: an integer as decimal text under
/// `asInt`, a floating-point number under `asDouble`.
pub proof fn law_metric_encoding(p: MetricPointView)
    ensures
        ({
            let m = metric_model(p)->Object_0;
            let time: nat = match p.time_unix_nano {
                Some(t) => t as nat,
                None => 0,
            };
            let value = match p.value {
                MetricValue::Int(n) => ("asInt"@, JsonModel::String(signed_decimal(n as int))),
                MetricValue::Double(bits) => ("asDouble"@, JsonModel::Number(JsonNumber::Float(bits))),
            };
            let point = JsonModel::Object(
                seq![
                    ("attributes"@, JsonModel::Array(attribute_models(p.attributes))),
                    ("timeUnixNano"@, JsonModel::String(decimal(time))),
                    value,
                ],
            );
            &&& metric_model(p) is Object
            &&& m.len() == 4
            &&& m[0] == ("name"@, JsonModel::String(p.name))
            &&& m[1] == ("description"@, JsonModel::String(p.description))
            &&& m[2] == ("unit"@, JsonModel::String(p.unit))
            &&& p.kind == MetricKind::Counter ==> m[3] == (
                "sum"@,
                JsonModel::Object(
                    seq![
                        ("aggregationTemporality"@, JsonModel::Number(JsonNumber::PosInt(2))),
                        ("isMonotonic"@, JsonModel::Bool(true)),
                        ("dataPoints"@, JsonModel::Array(seq![point])),
                    ],
                ),
            )
            &&& p.kind == MetricKind::Gauge ==> m[3] == (
                "gauge"@,
                JsonModel::Object(seq![("dataPoints"@, JsonModel::Array(seq![point]))]),
            )
        }),
{
    let time: nat = match p.time_unix_nano {
        Some(t) => t as nat,
        None => 0,
    };
    let value = match p.value {
        MetricValue::Int(n) => ("asInt"@, JsonModel::String(signed_decimal(n as int))),
        MetricValue::Double(bits) => ("asDouble"@, JsonModel::Number(JsonNumber::Float(bits))),
    };
    let members = seq![
        ("attributes"@, JsonModel::Array(attribute_models(p.attributes))),
        ("timeUnixNano"@, JsonModel::String(decimal(time))),
        value,
    ];
    assert(data_point_model(p)->Object_0 =~= members);
    assert(data_point_model(p) == JsonModel::Object(members));
}

/// The metrics of a list of measurements, in order.
pub open spec fn metric_models(points: Seq<MetricPointView>) -> Seq<JsonModel> {
    points.map_values(|p: MetricPointView| metric_model(p))
}

/// The OTLP JSON metrics document of measurements under a resource.
pub open spec fn metrics_doc(resource: Seq<(Seq<char>, ValueView)>, points: Seq<MetricPointView>) -> JsonModel {
    otlp_doc(
        "resourceMetrics"@,
        "scopeMetrics"@,
        "metrics"@,
        "hosho.metrics"@,
        attribute_models(resource),
        metric_models(points),
    )
}

/// The data point of a measurement.
pub fn data_point(point: &MetricPoint) -> (v: JsonValue)
    ensures
        model(v) == data_point_model(point@),
{
    let time: u64 = match point.time_unix_nano {
        Some(t) => t,
        None => 0,
    };
    let mut members: Vec<(String, JsonValue)> = Vec::new();
    push_member(&mut members, "attributes", JsonValue::Array(otlp_attributes(point.attributes.as_slice())));
    push_member(&mut members, "timeUnixNano", json_string(u128_decimal(time as u128).as_str()));
    match point.value {
        MetricValue::Int(n) => push_member(&mut members, "asInt", json_string(i64_decimal(n).as_str())),
        MetricValue::Double(bits) => push_member(
            &mut members,
            "asDouble",
            JsonValue::Number(JsonNumber::Float(bits)),
        ),
    }
    assert(member_models(members@) =~= match data_point_model(point@) {
        JsonModel::Object(m) => m,
        _ => Seq::empty(),
    });
    JsonValue::Object(members)
}

/// The OTLP JSON metric of a measurement.
pub fn metric(point: &MetricPoint) -> (v: JsonValue)
    ensures
        model(v) == metric_model(point@),
{
    let mut points: Vec<JsonValue> = Vec::new();
    push_item(&mut points, data_point(point));
    assert(models(points@) =~= seq![data_point_model(point@)]);
    let mut members: Vec<(String, JsonValue)> = Vec::new();
    push_member(&mut members, "name", json_string(point.name));
    push_member(&mut members, "description", json_string(point.description));
    push_member(&mut members, "unit", json_string(point.unit));
    match point.kind {
        MetricKind::Counter => {
            let mut sum: Vec<(String, JsonValue)> = Vec::new();
            push_member(&mut sum, "aggregationTemporality", json_uint(2));
            push_member(&mut sum, "isMonotonic", JsonValue::Bool(true));
            push_member(&mut sum, "dataPoints", JsonValue::Array(points));
            assert(member_models(sum@) =~= seq![
                ("aggregationTemporality"@, JsonModel::Number(JsonNumber::PosInt(2))),
                ("isMonotonic"@, JsonModel::Bool(true)),
                ("dataPoints"@, JsonModel::Array(seq![data_point_model(point@)])),
            ]);
            push_member(&mut members, "sum", JsonValue::Object(sum));
        },
        MetricKind::Gauge => {
            let mut gauge: Vec<(String, JsonValue)> = Vec::new();
            push_member(&mut gauge, "dataPoints", JsonValue::Array(points));
            assert(member_models(gauge@) =~= seq![
                ("dataPoints"@, JsonModel::Array(seq![data_point_model(point@)])),
            ]);
            push_member(&mut members, "gauge", JsonValue::Object(gauge));
        },
    }
    assert(member_models(members@) =~= match metric_model(point@) {
        JsonModel::Object(m) => m,
        _ => Seq::empty(),
    });
    JsonValue::Object(members)
}

/// The OTLP JSON metrics document of measurements under the given resource
/// attributes.
pub fn metrics_payload(resource: &[TelemetryAttribute], points: &[MetricPoint]) -> (v: JsonValue)
    ensures
        model(v) == metrics_doc(attr_views(resource@), point_views(points@)),
{
    let mut items: Vec<JsonValue> = Vec::new();
    let mut i: usize = 0;
    while i < points.len()
        invariant
            0 <= i <= points@.len(),
            models(items@) == metric_models(point_views(points@)).take(i as int),
        decreases points@.len() - i,
    {
        push_item(&mut items, metric(&points[i]));
        assert(metric_models(point_views(points@)).take(i + 1) =~= metric_models(
            point_views(points@),
        ).take(i as int).push(metric_model(points@[i as int]@)));
        i = i + 1;
    }
    assert(metric_models(point_views(points@)).take(points@.len() as int) =~= metric_models(
        point_views(points@),
    ));
    otlp_document(
        "resourceMetrics",
        "scopeMetrics",
        "metrics",
        "hosho.metrics",
        otlp_attributes(resource),
        items,
    )
}

/// The OTLP JSON metrics document of measurements, `None` when there are none.
pub fn metric_payload(points: &[MetricPoint]) -> (r: Option<JsonValue>)
    ensures
        r is None <==> points@.len() == 0,
        r matches Some(v) ==> exists|resource: Seq<(Seq<char>, ValueView)>|
            reordered(resource, resource_attr_views(None)) && model(v) == metrics_doc(
                resource,
                point_views(points@),
            ),
{
    if points.len() == 0 {
        return None;
    }
    let resource = resource_attributes(None);
    let v = metrics_payload(resource.as_slice(), points);
    assert(reordered(attr_views(resource@), resource_attr_views(None)));
    Some(v)
}

} // verus!
