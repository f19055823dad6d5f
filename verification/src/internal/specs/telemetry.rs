//! Telemetry attributes: a key and a typed value, as OTLP carries them.
use vstd::prelude::*;

use crate::internal::specs::network::strings;

verus! {

/// The value of an attribute. A floating-point value is held by its IEEE-754 bit
/// pattern.
#[derive(Debug)]
pub enum TelemetryValue {
    Bool(bool),
    Int(i64),
    Double(u64),
    String(String),
    StringArray(Vec<String>),
}

/// What an attribute value is, mathematically.
pub enum ValueView {
    Bool(bool),
    Int(i64),
    Double(u64),
    Text(Seq<char>),
    TextArray(Seq<Seq<char>>),
}

impl View for TelemetryValue {
    type V = ValueView;

    open spec fn view(&self) -> ValueView {
        match self {
            TelemetryValue::Bool(b) => ValueView::Bool(*b),
            TelemetryValue::Int(n) => ValueView::Int(*n),
            TelemetryValue::Double(bits) => ValueView::Double(*bits),
            TelemetryValue::String(s) => ValueView::Text(s@),
            TelemetryValue::StringArray(v) => ValueView::TextArray(strings(v@)),
        }
    }
}

/// A key and its value.
#[derive(Debug)]
pub struct TelemetryAttribute {
    pub key: String,
    pub value: TelemetryValue,
}

impl View for TelemetryAttribute {
    type V = (Seq<char>, ValueView);

    open spec fn view(&self) -> (Seq<char>, ValueView) {
        (self.key@, self.value@)
    }
}

/// The keys and values of a list of attributes.
pub open spec fn attr_views(attrs: Seq<TelemetryAttribute>) -> Seq<(Seq<char>, ValueView)> {
    attrs.map_values(|a: TelemetryAttribute| a@)
}

impl TelemetryAttribute {
    pub fn new(key: &str, value: TelemetryValue) -> (a: Self)
        ensures
            a.key@ == key@,
            a.value == value,
    {
        TelemetryAttribute { key: key.to_owned(), value }
    }
}

} // verus!
