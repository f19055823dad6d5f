//! One OTLP log record per normalized console event.
use vstd::prelude::*;

use crate::internal::exporter::logs::lemma_level_texts_distinct;
use crate::internal::specs::console::ConsoleRecord;
use crate::internal::specs::telemetry::{attr_views, TelemetryAttribute, TelemetryValue, ValueView};
use crate::internal::specs::timing::{unix_nano, unix_nanos_of};
use crate::internal::telemetry::attributes::{attribute_models, int_attr, otlp_attributes, string_attr};
use crate::internal::telemetry::payload::{otlp_doc, otlp_document};
use crate::internal::telemetry::resource::{reordered, resource_attr_views, resource_attributes};
use crate::internal::telemetry::traces::{int_attr_of, text_attr};
use crate::json::{
    json_single, json_string, json_uint, member_models, model, models, opt_chars, push_item,
    push_member, single, JsonModel, JsonNumber, JsonValue,
};
use crate::text::{ascii_uppercase, decimal, str_eq, uppercase};

verus! {

/// The OTLP severity number of a console level: 5 for `debug`, 13 for `warn`, 17
/// for `error`, and 9 (info) for any other level.
pub open spec fn severity_of(level: Seq<char>) -> u64 {
    if level == "debug"@ {
        5
    } else if level == "warn"@ {
        13
    } else if level == "error"@ {
        17
    } else {
        9
    }
}

/// The severity number of a console level is 5 (DEBUG) exactly for `debug`, 13
/// (WARN) exactly for `warn`, 17 (ERROR) exactly for `error`, and 9 (INFO) for
/// every other level, `info` and `log` among them.
pub proof fn law_severity(level: Seq<char>)
    ensures
        severity_of(level) == 5 <==> level == "debug"@,
        severity_of(level) == 13 <==> level == "warn"@,
        severity_of(level) == 17 <==> level == "error"@,
        level != "debug"@ && level != "warn"@ && level != "error"@ ==> severity_of(level) == 9,
        severity_of("info"@) == 9,
        severity_of("log"@) == 9,
{
    lemma_level_texts_distinct();
}

/// The OTLP severity number of a console level.
pub fn severity_number(level: &str) -> (n: i64)
    ensures
        n == severity_of(level@),
        level@ == "debug"@ ==> n == 5,
        level@ == "warn"@ ==> n == 13,
        level@ == "error"@ ==> n == 17,
        level@ != "debug"@ && level@ != "warn"@ && level@ != "error"@ ==> n == 9,
{
    proof {
        lemma_level_texts_distinct();
    }
    if str_eq(level, "debug") {
        5
    } else if str_eq(level, "warn") {
        13
    } else if str_eq(level, "error") {
        17
    } else {
        9
    }
}

/// The attributes of a console log record: its schema, and its URL, tab id and page
/// id when known.
pub open spec fn log_attrs_of(record: ConsoleRecord) -> Seq<(Seq<char>, ValueView)> {
    seq![("hosho.schema"@, ValueView::Text("hosho.console.record.v1"@))] + text_attr(
        "url.full"@,
        opt_chars(record.url),
    ) + int_attr_of("hosho.browser.tab_id"@, record.tab_id) + text_attr(
        "hosho.capture.page_id"@,
        opt_chars(record.capture.page_id),
    )
}

/// Unix nanoseconds of when a console event was captured, 0 when unknown.
pub open spec fn captured_nanos(record: ConsoleRecord) -> nat {
    match unix_nanos_of(opt_chars(record.captured_at)) {
        Some(n) => n as nat,
        None => 0,
    }
}

/// The OTLP JSON log record of a console event: its time, its level in upper case
/// as severity text, its severity number, its message as body, and its attributes.
pub open spec fn log_model(record: ConsoleRecord) -> JsonModel {
    JsonModel::Object(
        seq![
            ("timeUnixNano"@, JsonModel::String(decimal(captured_nanos(record)))),
            ("severityText"@, JsonModel::String(uppercase(record.level@))),
            ("severityNumber"@, JsonModel::Number(JsonNumber::PosInt(severity_of(record.level@)))),
            ("body"@, single("stringValue"@, JsonModel::String(record.body@))),
            ("attributes"@, JsonModel::Array(attribute_models(log_attrs_of(record)))),
        ],
    )
}

/// The log record of a console event carries, in order: the time it was captured
/// in Unix nanoseconds (0 when unknown), its level in upper case as severity text,
/// the severity number of its level, its message as the string body, and the
/// attributes `hosho.schema` (`hosho.console.record.v1`), then `url.full`,
/// `hosho.browser.tab_id` and `hosho.capture.page_id` when known.
pub proof fn law_log_record(record: ConsoleRecord)
    ensures
        ({
            let m = log_model(record)->Object_0;
            let t = match unix_nanos_of(opt_chars(record.captured_at)) {
                Some(n) => n as nat,
                None => 0,
            };
            &&& log_model(record) is Object
            &&& m.len() == 5
            &&& m[0] == ("timeUnixNano"@, JsonModel::String(decimal(t)))
            &&& m[1] == ("severityText"@, JsonModel::String(uppercase(record.level@)))
            &&& m[2] == ("severityNumber"@, JsonModel::Number(
                JsonNumber::PosInt(severity_of(record.level@)),
            ))
            &&& m[3] == ("body"@, JsonModel::Object(
                seq![("stringValue"@, JsonModel::String(record.body@))],
            ))
        }),
        log_attrs_of(record)[0] == ("hosho.schema"@, ValueView::Text("hosho.console.record.v1"@)),
        log_attrs_of(record).len() == 1 + (if record.url is Some {
            1int
        } else {
            0
        }) + (if record.tab_id is Some {
            1int
        } else {
            0
        }) + (if record.capture.page_id is Some {
            1int
        } else {
            0
        }),
        record.url matches Some(u) ==> log_attrs_of(record)[1] == ("url.full"@, ValueView::Text(
            u@,
        )),
        record.capture.page_id matches Some(p) ==> log_attrs_of(record).last() == (
            "hosho.capture.page_id"@,
            ValueView::Text(p@),
        ),
{
}

/// The log records of a list of console events, in order.
pub open spec fn log_models(records: Seq<ConsoleRecord>) -> Seq<JsonModel> {
    records.map_values(|r: ConsoleRecord| log_model(r))
}

/// The OTLP JSON logs document of console events under a resource.
pub open spec fn logs_doc(resource: Seq<(Seq<char>, ValueView)>, records: Seq<ConsoleRecord>) -> JsonModel {
    otlp_doc(
        "resourceLogs"@,
        "scopeLogs"@,
        "logRecords"@,
        "hosho.console"@,
        attribute_models(resource),
        log_models(records),
    )
}

/// The attributes of a console log record.
pub fn log_attrs(record: &ConsoleRecord) -> (r: Vec<TelemetryAttribute>)
    ensures
        attr_views(r@) == log_attrs_of(*record),
{
    let mut attrs: Vec<TelemetryAttribute> = Vec::new();
    attrs.push(
        TelemetryAttribute::new(
            "hosho.schema",
            TelemetryValue::String("hosho.console.record.v1".to_owned()),
        ),
    );
    let ghost first = attr_views(attrs@);
    assert(first =~= seq![("hosho.schema"@, ValueView::Text("hosho.console.record.v1"@))]);
    match string_attr("url.full", &record.url) {
        Some(a) => attrs.push(a),
        None => {},
    }
    let ghost second = attr_views(attrs@);
    assert(second =~= first + text_attr("url.full"@, opt_chars(record.url)));
    match int_attr("hosho.browser.tab_id", record.tab_id) {
        Some(a) => attrs.push(a),
        None => {},
    }
    let ghost third = attr_views(attrs@);
    assert(third =~= second + int_attr_of("hosho.browser.tab_id"@, record.tab_id));
    match string_attr("hosho.capture.page_id", &record.capture.page_id) {
        Some(a) => attrs.push(a),
        None => {},
    }
    assert(attr_views(attrs@) =~= third + text_attr(
        "hosho.capture.page_id"@,
        opt_chars(record.capture.page_id),
    ));
    attrs
}

/// The OTLP JSON log record of a console event.
pub fn log_record(record: &ConsoleRecord) -> (v: JsonValue)
    ensures
        model(v) == log_model(*record),
{
    let time: u64 = match &record.captured_at {
        Some(t) => match unix_nano(Some(t.as_str())) {
            Some(n) => n,
            None => 0,
        },
        None => 0,
    };
    let attrs = log_attrs(record);
    let severity = severity_number(record.level.as_str());
    let mut members: Vec<(String, JsonValue)> = Vec::new();
    push_member(&mut members, "timeUnixNano", json_string(crate::text::u128_decimal(time as u128).as_str()));
    push_member(&mut members, "severityText", json_string(ascii_uppercase(record.level.as_str()).as_str()));
    push_member(&mut members, "severityNumber", json_uint(severity as u64));
    push_member(&mut members, "body", json_single("stringValue", json_string(record.body.as_str())));
    push_member(&mut members, "attributes", JsonValue::Array(otlp_attributes(attrs.as_slice())));
    assert(member_models(members@) =~= match log_model(*record) {
        JsonModel::Object(m) => m,
        _ => Seq::empty(),
    });
    JsonValue::Object(members)
}

/// The OTLP JSON logs document of console events under the given resource
/// attributes.
pub fn logs_payload(resource: &[TelemetryAttribute], records: &[ConsoleRecord]) -> (v: JsonValue)
    ensures
        model(v) == logs_doc(attr_views(resource@), records@),
{
    let mut items: Vec<JsonValue> = Vec::new();
    let mut i: usize = 0;
    while i < records.len()
        invariant
            0 <= i <= records@.len(),
            models(items@) == log_models(records@).take(i as int),
        decreases records@.len() - i,
    {
        push_item(&mut items, log_record(&records[i]));
        assert(log_models(records@).take(i + 1) =~= log_models(records@).take(i as int).push(
            log_model(records@[i as int]),
        ));
        i = i + 1;
    }
    assert(log_models(records@).take(records@.len() as int) =~= log_models(records@));
    otlp_document(
        "resourceLogs",
        "scopeLogs",
        "logRecords",
        "hosho.console",
        otlp_attributes(resource),
        items,
    )
}

/// The OTLP JSON logs document of console events, `None` when there are none. Its
/// resource carries the session id of the first event as instance id.
pub fn console_logs(records: &[ConsoleRecord]) -> (r: Option<JsonValue>)
    ensures
        r is None <==> records@.len() == 0,
        r matches Some(v) ==> exists|resource: Seq<(Seq<char>, ValueView)>|
            reordered(resource, resource_attr_views(opt_chars(records@[0].capture.session_id)))
                && model(v) == logs_doc(resource, records@),
{
    if records.len() == 0 {
        return None;
    }
    let instance: Option<&str> = match &records[0].capture.session_id {
        Some(s) => Some(s.as_str()),
        None => None,
    };
    let resource = resource_attributes(instance);
    let v = logs_payload(resource.as_slice(), records);
    assert(reordered(
        attr_views(resource@),
        resource_attr_views(opt_chars(records@[0].capture.session_id)),
    ));
    Some(v)
}

} // verus!
