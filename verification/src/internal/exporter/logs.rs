//! Console log payloads sent through the OpenTelemetry SDK: their severity, their
//! level name, and their attributes.
use vstd::prelude::*;

use crate::internal::specs::telemetry::{attr_views, TelemetryAttribute, TelemetryValue, ValueView};
use crate::internal::telemetry::attributes::{int_attr, string_attr};
use crate::internal::telemetry::traces::{int_attr_of, text_attr};
use crate::json::{opt_chars, Json};
use crate::text::str_eq;

verus! {

/// A console log as the extension posts it: its tab, level, arguments, page URL
/// and capture time.
#[derive(Debug)]
pub struct ConsoleLogPayload {
    pub tab_id: Option<i64>,
    pub level: String,
    pub args: Vec<Json>,
    pub url: Option<String>,
    pub captured_at: Option<String>,
}

/// The OpenTelemetry severities that console levels map to.
#[derive(Clone, Copy, Debug, PartialEq, Eq, Structural)]
pub enum LogSeverity {
    Debug,
    Info,
    Warn,
    Error,
}

/// The severity of a console level: `debug`, `warn` and `error` as named, any other
/// level (`info`, `log` among them) as info.
pub open spec fn severity_of_level(level: Seq<char>) -> LogSeverity {
    if level == "debug"@ {
        LogSeverity::Debug
    } else if level == "warn"@ {
        LogSeverity::Warn
    } else if level == "error"@ {
        LogSeverity::Error
    } else {
        LogSeverity::Info
    }
}

/// A console level maps to severity DEBUG exactly when it is `debug`, WARN
/// exactly when it is `warn`, ERROR exactly when it is `error`, and INFO for every
/// other level, `info` and `log` among them.
pub proof fn law_level_severity(level: Seq<char>)
    ensures
        severity_of_level(level) == LogSeverity::Debug <==> level == "debug"@,
        severity_of_level(level) == LogSeverity::Warn <==> level == "warn"@,
        severity_of_level(level) == LogSeverity::Error <==> level == "error"@,
        level != "debug"@ && level != "warn"@ && level != "error"@ ==> severity_of_level(level)
            == LogSeverity::Info,
        severity_of_level("info"@) == LogSeverity::Info,
        severity_of_level("log"@) == LogSeverity::Info,
{
    lemma_level_texts_distinct();
}

/// The five level names are different texts.
pub proof fn lemma_level_texts_distinct()
    ensures
        "debug"@ != "warn"@,
        "debug"@ != "error"@,
        "debug"@ != "info"@,
        "debug"@ != "log"@,
        "warn"@ != "error"@,
        "warn"@ != "info"@,
        "warn"@ != "log"@,
        "error"@ != "info"@,
        "error"@ != "log"@,
        "info"@ != "log"@,
{
    reveal_strlit("debug");
    reveal_strlit("warn");
    reveal_strlit("error");
    reveal_strlit("info");
    reveal_strlit("log");
    assert("debug"@.len() == 5 && "warn"@.len() == 4 && "error"@.len() == 5 && "info"@.len()
        == 4 && "log"@.len() == 3);
    assert("debug"@[0] == 'd' && "error"@[0] == 'e' && "warn"@[0] == 'w' && "info"@[0] == 'i');
}

/// The severity of a console log.
pub fn severity(log: &ConsoleLogPayload) -> (s: LogSeverity)
    ensures
        s == severity_of_level(log.level@),
{
    let level = log.level.as_str();
    if str_eq(level, "debug") {
        LogSeverity::Debug
    } else if str_eq(level, "warn") {
        LogSeverity::Warn
    } else if str_eq(level, "error") {
        LogSeverity::Error
    } else {
        LogSeverity::Info
    }
}

/// The name of a console level: `debug`, `warn`, `error`, `info` and `log` as
/// they are, any other level as `info`.
pub open spec fn level_name_of(level: Seq<char>) -> Seq<char> {
    if level == "debug"@ || level == "warn"@ || level == "error"@ || level == "info"@ || level
        == "log"@ {
        level
    } else {
        "info"@
    }
}

/// The level name of `debug`, `warn`, `error`, `info` and `log` is the level
/// itself, and that of any other level is `info`.
pub proof fn law_level_name(level: Seq<char>)
    ensures
        (level == "debug"@ || level == "warn"@ || level == "error"@ || level == "info"@ || level
            == "log"@) ==> level_name_of(level) == level,
        !(level == "debug"@ || level == "warn"@ || level == "error"@ || level == "info"@ || level
            == "log"@) ==> level_name_of(level) == "info"@,
{
}

/// The name of a console level.
pub fn level_name(log: &ConsoleLogPayload) -> (name: &'static str)
    ensures
        name@ == level_name_of(log.level@),
{
    known_level(log.level.as_str())
}

/// The known name of a level, `info` for an unknown one.
pub fn known_level(level: &str) -> (name: &'static str)
    ensures
        name@ == level_name_of(level@),
{
    if str_eq(level, "debug") {
        "debug"
    } else if str_eq(level, "warn") {
        "warn"
    } else if str_eq(level, "error") {
        "error"
    } else if str_eq(level, "info") {
        "info"
    } else if str_eq(level, "log") {
        "log"
    } else {
        "info"
    }
}

/// The attributes of a console log: `hosho.signal` = `console`, its level name,
/// and its tab id and URL when known.
pub open spec fn log_attributes_of(log: ConsoleLogPayload) -> Seq<(Seq<char>, ValueView)> {
    seq![
        ("hosho.signal"@, ValueView::Text("console"@)),
        ("log.level"@, ValueView::Text(level_name_of(log.level@))),
    ] + int_attr_of("browser.tab.id"@, log.tab_id) + text_attr("url.full"@, opt_chars(log.url))
}

/// The attributes of a console log are `hosho.signal` = `console` and
/// `log.level` = its level name, then `browser.tab.id` when its tab is known and
/// `url.full` when its URL is known; its body holds `level` (the level name) and
/// `args`, then `tabId`, `url` and `capturedAt`, each when known.
pub proof fn law_console_log_fields(log: ConsoleLogPayload)
    ensures
        ({
            let a = log_attributes_of(log);
            let tab: int = if log.tab_id is Some {
                1
            } else {
                0
            };
            &&& a[0] == ("hosho.signal"@, ValueView::Text("console"@))
            &&& a[1] == ("log.level"@, ValueView::Text(level_name_of(log.level@)))
            &&& a.len() == 2 + tab + if log.url is Some {
                1int
            } else {
                0
            }
            &&& log.tab_id matches Some(t) ==> a[2] == ("browser.tab.id"@, ValueView::Int(t))
            &&& log.url matches Some(u) ==> a[2 + tab] == ("url.full"@, ValueView::Text(u@))
        }),
        ({
            let b = log_body_of(log);
            let tab: int = if log.tab_id is Some {
                1
            } else {
                0
            };
            let url: int = if log.url is Some {
                1
            } else {
                0
            };
            &&& b[0] == ("level"@, LogBodyView::Text(level_name_of(log.level@)))
            &&& b[1] == ("args"@, LogBodyView::Args)
            &&& b.len() == 2 + tab + url + if log.captured_at is Some {
                1int
            } else {
                0
            }
            &&& log.tab_id matches Some(t) ==> b[2] == ("tabId"@, LogBodyView::Int(t))
            &&& log.url matches Some(u) ==> b[2 + tab] == ("url"@, LogBodyView::Text(u@))
            &&& log.captured_at matches Some(c) ==> b[2 + tab + url] == (
                "capturedAt"@,
                LogBodyView::Text(c@),
            )
        }),
{
}

/// The attributes of a console log.
pub fn log_attributes(log: &ConsoleLogPayload) -> (r: Vec<TelemetryAttribute>)
    ensures
        attr_views(r@) == log_attributes_of(*log),
{
    let mut attributes: Vec<TelemetryAttribute> = Vec::new();
    attributes.push(
        TelemetryAttribute::new("hosho.signal", TelemetryValue::String("console".to_owned())),
    );
    attributes.push(
        TelemetryAttribute::new("log.level", TelemetryValue::String(level_name(log).to_owned())),
    );
    let ghost head = attr_views(attributes@);
    match int_attr("browser.tab.id", log.tab_id) {
        Some(a) => attributes.push(a),
        None => {},
    }
    let ghost middle = attr_views(attributes@);
    assert(middle =~= head + int_attr_of("browser.tab.id"@, log.tab_id));
    match string_attr("url.full", &log.url) {
        Some(a) => attributes.push(a),
        None => {},
    }
    assert(attr_views(attributes@) =~= log_attributes_of(*log));
    attributes
}

/// A value of the body of a console log record: a text, an integer, or the
/// log's arguments.
#[derive(Debug)]
pub enum LogBodyValue {
    Text(String),
    Int(i64),
    Args,
}

/// What a body value is, mathematically.
pub enum LogBodyView {
    Text(Seq<char>),
    Int(i64),
    Args,
}

/// The name and value of each field of a body.
pub open spec fn body_views(fields: Seq<(&'static str, LogBodyValue)>) -> Seq<(Seq<char>, LogBodyView)> {
    fields.map_values(
        |f: (&'static str, LogBodyValue)|
            (
                f.0@,
                match f.1 {
                    LogBodyValue::Text(s) => LogBodyView::Text(s@),
                    LogBodyValue::Int(n) => LogBodyView::Int(n),
                    LogBodyValue::Args => LogBodyView::Args,
                },
            ),
    )
}

/// The fields of the body of a console log record: its level name and its
/// arguments, then its tab id, URL and capture time, those that are known.
pub open spec fn log_body_of(log: ConsoleLogPayload) -> Seq<(Seq<char>, LogBodyView)> {
    seq![("level"@, LogBodyView::Text(level_name_of(log.level@))), ("args"@, LogBodyView::Args)]
        + match log.tab_id {
        Some(t) => seq![("tabId"@, LogBodyView::Int(t))],
        None => Seq::empty(),
    } + match log.url {
        Some(u) => seq![("url"@, LogBodyView::Text(u@))],
        None => Seq::empty(),
    } + match log.captured_at {
        Some(c) => seq![("capturedAt"@, LogBodyView::Text(c@))],
        None => Seq::empty(),
    }
}

/// Appends a text field when the value is present.
fn push_text_field(fields: &mut Vec<(&'static str, LogBodyValue)>, key: &'static str, value: &Option<String>)
    ensures
        body_views(final(fields)@) == body_views(old(fields)@) + match value {
            Some(v) => seq![(key@, LogBodyView::Text(v@))],
            None => Seq::empty(),
        },
{
    let ghost before = fields@;
    match value {
        Some(v) => fields.push((key, LogBodyValue::Text(v.clone()))),
        None => {},
    }
    assert(body_views(fields@) =~= body_views(before) + match value {
        Some(v) => seq![(key@, LogBodyView::Text(v@))],
        None => Seq::<(Seq<char>, LogBodyView)>::empty(),
    });
}

/// The fields of the body of a console log record.
pub fn log_body_fields(log: &ConsoleLogPayload) -> (r: Vec<(&'static str, LogBodyValue)>)
    ensures
        body_views(r@) == log_body_of(*log),
{
    let mut fields: Vec<(&'static str, LogBodyValue)> = Vec::new();
    fields.push(("level", LogBodyValue::Text(level_name(log).to_owned())));
    fields.push(("args", LogBodyValue::Args));
    let ghost head = body_views(fields@);
    assert(head =~= seq![("level"@, LogBodyView::Text(level_name_of(log.level@))), ("args"@, LogBodyView::Args)]);
    match log.tab_id {
        Some(t) => fields.push(("tabId", LogBodyValue::Int(t))),
        None => {},
    }
    let ghost with_tab = body_views(fields@);
    assert(with_tab =~= head + match log.tab_id {
        Some(t) => seq![("tabId"@, LogBodyView::Int(t))],
        None => Seq::<(Seq<char>, LogBodyView)>::empty(),
    });
    push_text_field(&mut fields, "url", &log.url);
    push_text_field(&mut fields, "capturedAt", &log.captured_at);
    assert(body_views(fields@) =~= log_body_of(*log));
    fields
}

} // verus!
