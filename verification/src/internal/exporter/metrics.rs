//! Attributes of the metrics sent through the OpenTelemetry SDK.
use vstd::prelude::*;

use crate::internal::exporter::logs::{known_level, level_name_of, ConsoleLogPayload};
use crate::internal::specs::capture::HarRecord;
use crate::internal::specs::telemetry::{attr_views, TelemetryAttribute, TelemetryValue, ValueView};
use crate::internal::telemetry::attributes::string_attr;
use crate::internal::telemetry::traces::text_attr;
use crate::json::opt_chars;

verus! {

/// The class of an HTTP status: `2xx` to `5xx` for 200 to 599, `other` for any
/// other status, `unknown` when there is none.
pub open spec fn status_class_of(status: Option<i64>) -> Seq<char> {
    match status {
        Some(s) => if 200 <= s <= 299 {
            "2xx"@
        } else if 300 <= s <= 399 {
            "3xx"@
        } else if 400 <= s <= 499 {
            "4xx"@
        } else if 500 <= s <= 599 {
            "5xx"@
        } else {
            "other"@
        },
        None => "unknown"@,
    }
}

/// The class of a status is `2xx` exactly for 200 to 299, `3xx` exactly for 300
/// to 399, `4xx` exactly for 400 to 499, `5xx` exactly for 500 to 599, `unknown`
/// exactly when there is no status, and `other` for every other status.
pub proof fn law_status_class(status: Option<i64>)
    ensures
        ({
            let c = status_class_of(status);
            let within = |lo: int, hi: int|
                match status {
                    Some(s) => lo <= s <= hi,
                    None => false,
                };
            &&& c == "2xx"@ <==> within(200, 299)
            &&& c == "3xx"@ <==> within(300, 399)
            &&& c == "4xx"@ <==> within(400, 499)
            &&& c == "5xx"@ <==> within(500, 599)
            &&& c == "unknown"@ <==> status is None
            &&& c == "other"@ <==> (status is Some && !within(200, 599))
        }),
{
    reveal_strlit("2xx");
    reveal_strlit("3xx");
    reveal_strlit("4xx");
    reveal_strlit("5xx");
    reveal_strlit("other");
    reveal_strlit("unknown");
    assert("2xx"@.len() == 3 && "3xx"@.len() == 3 && "4xx"@.len() == 3 && "5xx"@.len() == 3
        && "other"@.len() == 5 && "unknown"@.len() == 7);
    assert("2xx"@[0] == '2' && "3xx"@[0] == '3' && "4xx"@[0] == '4' && "5xx"@[0] == '5');
}

/// The class of an HTTP status.
pub fn status_class(status: Option<i64>) -> (class: &'static str)
    ensures
        class@ == status_class_of(status),
{
    match status {
        Some(s) => if 200 <= s && s <= 299 {
            "2xx"
        } else if 300 <= s && s <= 399 {
            "3xx"
        } else if 400 <= s && s <= 499 {
            "4xx"
        } else if 500 <= s && s <= 599 {
            "5xx"
        } else {
            "other"
        },
        None => "unknown",
    }
}

/// The level name that console metrics are counted under.
pub fn normalized_level(log: &ConsoleLogPayload) -> (name: &'static str)
    ensures
        name@ == level_name_of(log.level@),
{
    known_level(log.level.as_str())
}

/// The attributes of the metrics of a typed HAR record: `hosho.signal` = `har`, the
/// status class, the method when known, the status code and whether it is 500 or
/// more (`error`) when there is a status, and the URL when known.
pub open spec fn har_attributes_of(har: HarRecord) -> Seq<(Seq<char>, ValueView)> {
    seq![
        ("hosho.signal"@, ValueView::Text("har"@)),
        ("http.response.status_class"@, ValueView::Text(status_class_of(har.response.status))),
    ] + text_attr("http.request.method"@, opt_chars(har.request.method)) + match har.response.status {
        Some(s) => seq![
            ("http.response.status_code"@, ValueView::Int(s)),
            ("error"@, ValueView::Bool(s >= 500)),
        ],
        None => Seq::empty(),
    } + text_attr("url.full"@, opt_chars(har.request.url))
}

/// The metric attributes of a typed HAR record are `hosho.signal` = `har` and the
/// status class of its response status, then `http.request.method` when the
/// method is known, then, when there is a status `s`, `http.response.status_code`
/// = `s` and `error` = whether `s` is 500 or more, and last `url.full` when the
/// URL is known.
pub proof fn law_har_attributes(har: HarRecord)
    ensures
        ({
            let a = har_attributes_of(har);
            let m: int = if har.request.method is Some {
                1
            } else {
                0
            };
            let st: int = if har.response.status is Some {
                2
            } else {
                0
            };
            &&& a[0] == ("hosho.signal"@, ValueView::Text("har"@))
            &&& a[1] == ("http.response.status_class"@, ValueView::Text(
                status_class_of(har.response.status),
            ))
            &&& a.len() == 2 + m + st + if har.request.url is Some {
                1int
            } else {
                0
            }
            &&& har.request.method matches Some(v) ==> a[2] == ("http.request.method"@, ValueView::Text(v@))
            &&& har.response.status matches Some(s) ==> a[2 + m] == ("http.response.status_code"@, ValueView::Int(s))
                && a[3 + m] == ("error"@, ValueView::Bool(s >= 500))
            &&& har.request.url matches Some(u) ==> a[2 + m + st] == ("url.full"@, ValueView::Text(u@))
        }),
{
}

/// The attributes of the metrics of a typed HAR record.
pub fn har_attributes(har: &HarRecord) -> (r: Vec<TelemetryAttribute>)
    ensures
        attr_views(r@) == har_attributes_of(*har),
{
    let mut attributes: Vec<TelemetryAttribute> = Vec::new();
    attributes.push(TelemetryAttribute::new("hosho.signal", TelemetryValue::String("har".to_owned())));
    attributes.push(
        TelemetryAttribute::new(
            "http.response.status_class",
            TelemetryValue::String(status_class(har.response.status).to_owned()),
        ),
    );
    let ghost head = attr_views(attributes@);
    match string_attr("http.request.method", &har.request.method) {
        Some(a) => attributes.push(a),
        None => {},
    }
    let ghost with_method = attr_views(attributes@);
    assert(with_method =~= head + text_attr("http.request.method"@, opt_chars(har.request.method)));
    match har.response.status {
        Some(s) => {
            attributes.push(TelemetryAttribute::new("http.response.status_code", TelemetryValue::Int(s)));
            attributes.push(TelemetryAttribute::new("error", TelemetryValue::Bool(s >= 500)));
        },
        None => {},
    }
    let ghost with_status = attr_views(attributes@);
    assert(with_status =~= with_method + match har.response.status {
        Some(s) => seq![
            ("http.response.status_code"@, ValueView::Int(s)),
            ("error"@, ValueView::Bool(s >= 500)),
        ],
        None => Seq::<(Seq<char>, ValueView)>::empty(),
    });
    match string_attr("url.full", &har.request.url) {
        Some(a) => attributes.push(a),
        None => {},
    }
    assert(attr_views(attributes@) =~= har_attributes_of(*har));
    attributes
}

} // verus!
