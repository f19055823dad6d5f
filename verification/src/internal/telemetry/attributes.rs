//! Attributes in the OTLP JSON encoding: `{"key": .., "value": {"<type>Value": ..}}`.
use vstd::prelude::*;

use crate::internal::specs::network::strings;
use crate::internal::specs::telemetry::{attr_views, TelemetryAttribute, TelemetryValue, ValueView};
use crate::internal::specs::timing::Milliseconds;
use crate::json::{
    json_single, json_string, member_models, model, models, push_item,
    push_member, single, JsonModel, JsonNumber, JsonValue,
};
use crate::text::{i64_decimal, signed_decimal};

verus! {

/// An array value: `{"values": [{"stringValue": ..}, ..]}`.
pub open spec fn string_values(items: Seq<Seq<char>>) -> Seq<JsonModel> {
    items.map_values(|s: Seq<char>| single("stringValue"@, JsonModel::String(s)))
}

/// The OTLP JSON encoding of an attribute value. Integers are written as decimal
/// strings, as OTLP JSON encodes 64-bit integers.
pub open spec fn value_model(v: ValueView) -> JsonModel {
    match v {
        ValueView::Bool(b) => single("boolValue"@, JsonModel::Bool(b)),
        ValueView::Int(n) => single("intValue"@, JsonModel::String(signed_decimal(n as int))),
        ValueView::Double(bits) => single("doubleValue"@, JsonModel::Number(JsonNumber::Float(bits))),
        ValueView::Text(s) => single("stringValue"@, JsonModel::String(s)),
        ValueView::TextArray(items) => single(
            "arrayValue"@,
            single("values"@, JsonModel::Array(string_values(items))),
        ),
    }
}

/// The OTLP JSON encoding of an attribute.
pub open spec fn attribute_model(a: (Seq<char>, ValueView)) -> JsonModel {
    JsonModel::Object(seq![("key"@, JsonModel::String(a.0)), ("value"@, value_model(a.1))])
}

/// The OTLP JSON encoding of a list of attributes, in order.
pub open spec fn attribute_models(attrs: Seq<(Seq<char>, ValueView)>) -> Seq<JsonModel> {
    attrs.map_values(|a: (Seq<char>, ValueView)| attribute_model(a))
}

/// The OTLP JSON encoding of an attribute value.
pub fn otlp_value(value: &TelemetryValue) -> (v: JsonValue)
    ensures
        model(v) == value_model(value@),
{
    match value {
        TelemetryValue::Bool(b) => json_single("boolValue", JsonValue::Bool(*b)),
        TelemetryValue::Int(n) => json_single("intValue", json_string(i64_decimal(*n).as_str())),
        TelemetryValue::Double(bits) => json_single(
            "doubleValue",
            JsonValue::Number(JsonNumber::Float(*bits)),
        ),
        TelemetryValue::String(s) => json_single("stringValue", json_string(s.as_str())),
        TelemetryValue::StringArray(values) => {
            let mut items: Vec<JsonValue> = Vec::new();
            let mut i: usize = 0;
            while i < values.len()
                invariant
                    0 <= i <= values@.len(),
                    models(items@) == string_values(strings(values@)).take(i as int),
                decreases values@.len() - i,
            {
                push_item(&mut items, json_single("stringValue", json_string(values[i].as_str())));
                assert(string_values(strings(values@)).take(i + 1) =~= string_values(
                    strings(values@),
                ).take(i as int).push(single("stringValue"@, JsonModel::String(values@[i as int]@))));
                i = i + 1;
            }
            assert(string_values(strings(values@)).take(values@.len() as int) =~= string_values(
                strings(values@),
            ));
            json_single("arrayValue", json_single("values", JsonValue::Array(items)))
        },
    }
}

/// The OTLP JSON encoding of one attribute.
pub fn otlp_attribute(attr: &TelemetryAttribute) -> (v: JsonValue)
    ensures
        model(v) == attribute_model(attr@),
{
    let mut members: Vec<(String, JsonValue)> = Vec::new();
    push_member(&mut members, "key", json_string(attr.key.as_str()));
    push_member(&mut members, "value", otlp_value(&attr.value));
    assert(member_models(members@) =~= seq![
        ("key"@, JsonModel::String(attr.key@)),
        ("value"@, value_model(attr.value@)),
    ]);
    JsonValue::Object(members)
}

/// The OTLP JSON encoding of a list of attributes, in order.
pub fn otlp_attributes(attrs: &[TelemetryAttribute]) -> (r: Vec<JsonValue>)
    ensures
        models(r@) == attribute_models(attr_views(attrs@)),
{
    let mut r: Vec<JsonValue> = Vec::new();
    let mut i: usize = 0;
    while i < attrs.len()
        invariant
            0 <= i <= attrs@.len(),
            models(r@) == attribute_models(attr_views(attrs@)).take(i as int),
        decreases attrs@.len() - i,
    {
        push_item(&mut r, otlp_attribute(&attrs[i]));
        assert(attribute_models(attr_views(attrs@)).take(i + 1) =~= attribute_models(
            attr_views(attrs@),
        ).take(i as int).push(attribute_model(attrs@[i as int]@)));
        i = i + 1;
    }
    assert(attribute_models(attr_views(attrs@)).take(attrs@.len() as int) =~= attribute_models(
        attr_views(attrs@),
    ));
    r
}

/// A string attribute when the value is present.
pub fn string_attr(key: &str, value: &Option<String>) -> (r: Option<TelemetryAttribute>)
    ensures
        match value {
            Some(s) => r matches Some(a) && a@ == (key@, ValueView::Text(s@)),
            None => r is None,
        },
{
    match value {
        Some(s) => Some(TelemetryAttribute::new(key, TelemetryValue::String(s.clone()))),
        None => None,
    }
}

/// An integer attribute when the value is present.
pub fn int_attr(key: &str, value: Option<i64>) -> (r: Option<TelemetryAttribute>)
    ensures
        match value {
            Some(n) => r matches Some(a) && a@ == (key@, ValueView::Int(n)),
            None => r is None,
        },
{
    match value {
        Some(n) => Some(TelemetryAttribute::new(key, TelemetryValue::Int(n))),
        None => None,
    }
}

/// A floating-point attribute when the value is present.
pub fn double_attr(key: &str, value: Option<Milliseconds>) -> (r: Option<TelemetryAttribute>)
    ensures
        match value {
            Some(ms) => r matches Some(a) && a@ == (key@, ValueView::Double(ms.bits)),
            None => r is None,
        },
{
    match value {
        Some(ms) => Some(TelemetryAttribute::new(key, TelemetryValue::Double(ms.bits))),
        None => None,
    }
}

/// A string-array attribute.
pub fn string_array_attr(key: String, values: Vec<String>) -> (a: TelemetryAttribute)
    ensures
        a@ == (key@, ValueView::TextArray(strings(values@))),
{
    TelemetryAttribute { key, value: TelemetryValue::StringArray(values) }
}

} // verus!
