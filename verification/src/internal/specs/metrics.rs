//! One measurement to export: what it measures, its value and its attributes.
use vstd::prelude::*;

use crate::internal::specs::telemetry::{attr_views, TelemetryAttribute, ValueView};

verus! {

/// A measurement, with the unit and description of the instrument it belongs to.
#[derive(Debug)]
pub struct MetricPoint {
    pub name: &'static str,
    pub description: &'static str,
    pub unit: &'static str,
    pub kind: MetricKind,
    pub value: MetricValue,
    pub attributes: Vec<TelemetryAttribute>,
    pub time_unix_nano: Option<u64>,
}

/// A counter adds up; a gauge reports the last value.
#[derive(Clone, Copy, Debug, PartialEq, Eq, Structural)]
pub enum MetricKind {
    Counter,
    Gauge,
}

/// An integer, or a floating-point value given by its IEEE-754 bit pattern.
#[derive(Clone, Copy, Debug, PartialEq, Eq, Structural)]
pub enum MetricValue {
    Int(i64),
    Double(u64),
}

/// What a measurement is, mathematically.
pub struct MetricPointView {
    pub name: Seq<char>,
    pub description: Seq<char>,
    pub unit: Seq<char>,
    pub kind: MetricKind,
    pub value: MetricValue,
    pub attributes: Seq<(Seq<char>, ValueView)>,
    pub time_unix_nano: Option<u64>,
}

impl View for MetricPoint {
    type V = MetricPointView;

    open spec fn view(&self) -> MetricPointView {
        MetricPointView {
            name: self.name@,
            description: self.description@,
            unit: self.unit@,
            kind: self.kind,
            value: self.value,
            attributes: attr_views(self.attributes@),
            time_unix_nano: self.time_unix_nano,
        }
    }
}

/// The views of a list of measurements.
pub open spec fn point_views(points: Seq<MetricPoint>) -> Seq<MetricPointView> {
    points.map_values(|p: MetricPoint| p@)
}

} // verus!
