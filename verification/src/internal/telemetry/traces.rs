//! One OTLP client span per normalized network request.
use vstd::prelude::*;

use crate::internal::specs::network::{
    allowed_attributes, allowed_header_attributes, attribute_views, exported_from,
    law_exported_headers, non_negative, non_negative_i64, NetworkRequest,
};
use crate::internal::normalize::url::{
    redacted, sanitize_url, sanitized_of, url_parses, url_query_pairs, url_rewritten,
};
use crate::internal::specs::telemetry::{attr_views, TelemetryAttribute, ValueView};
use crate::internal::specs::timing::{end_nanos, unix_nanos_of, Milliseconds};
use crate::internal::telemetry::attributes::{
    attribute_models, double_attr, int_attr, otlp_attributes, string_array_attr, string_attr,
};
use crate::internal::telemetry::ids::{ids_for_request, span_ids_of};
use crate::internal::telemetry::payload::{otlp_doc, otlp_document};
use crate::internal::telemetry::resource::{reordered, resource_attr_views, resource_attributes};
use crate::json::{
    json_string, json_uint, member_models, model, models, opt_chars, push_item, push_member,
    JsonModel, JsonNumber, JsonValue,
};
use crate::text::{ascii_lowercase, decimal, i64_decimal, lowercase, signed_decimal, str_eq, u128_decimal};

verus! {

/// A string attribute, when the value is present.
pub open spec fn text_attr(key: Seq<char>, value: Option<Seq<char>>) -> Seq<(Seq<char>, ValueView)> {
    match value {
        Some(s) => seq![(key, ValueView::Text(s))],
        None => Seq::empty(),
    }
}

/// An integer attribute, when the value is present.
pub open spec fn int_attr_of(key: Seq<char>, value: Option<i64>) -> Seq<(Seq<char>, ValueView)> {
    match value {
        Some(n) => seq![(key, ValueView::Int(n))],
        None => Seq::empty(),
    }
}

/// A floating-point attribute, when the value is present.
pub open spec fn double_attr_of(key: Seq<char>, value: Option<Milliseconds>) -> Seq<
    (Seq<char>, ValueView),
> {
    match value {
        Some(ms) => seq![(key, ValueView::Double(ms.bits))],
        None => Seq::empty(),
    }
}

/// A status code when it is greater than zero.
pub open spec fn positive(status: Option<i64>) -> Option<i64> {
    match status {
        Some(n) => if n > 0 {
            Some(n)
        } else {
            None
        },
        None => None,
    }
}

/// The URL that a span reports: the record's sanitized URL, or the record's URL
/// sanitized when it has none.
pub open spec fn reported_url(record: NetworkRequest) -> Seq<char> {
    match record.request.url_sanitized {
        Some(s) => s@,
        None => sanitized_of(record.request.url@),
    }
}

/// The port as an integer attribute value.
pub open spec fn port_value(port: Option<u16>) -> Option<i64> {
    match port {
        Some(p) => Some(p as i64),
        None => None,
    }
}

/// Schema, method, URL, scheme, host, port, status code, entry hash and
/// deduplication key of a request, those that are known.
pub open spec fn base_attrs_of(record: NetworkRequest) -> Seq<(Seq<char>, ValueView)> {
    seq![
        ("hosho.schema"@, ValueView::Text(record.schema@)),
        ("http.request.method"@, ValueView::Text(record.request.method@)),
        ("url.full"@, ValueView::Text(reported_url(record))),
    ] + text_attr("url.scheme"@, opt_chars(record.request.scheme)) + text_attr(
        "server.address"@,
        opt_chars(record.request.host),
    ) + int_attr_of("server.port"@, port_value(record.request.port)) + int_attr_of(
        "http.response.status_code"@,
        positive(record.response.status),
    ) + seq![
        ("hosho.har.entry_hash"@, ValueView::Text(record.identity.entry_hash@)),
        ("hosho.har.dedupe_key"@, ValueView::Text(record.identity.dedupe_key@)),
    ]
}

/// The known phase durations of a request, in milliseconds.
pub open spec fn timing_attrs_of(record: NetworkRequest) -> Seq<(Seq<char>, ValueView)> {
    let t = record.timing;
    double_attr_of("hosho.har.timing.blocked_ms"@, t.blocked_ms) + double_attr_of(
        "hosho.har.timing.dns_ms"@,
        t.dns_ms,
    ) + double_attr_of("hosho.har.timing.connect_ms"@, t.connect_ms) + double_attr_of(
        "hosho.har.timing.ssl_ms"@,
        t.ssl_ms,
    ) + double_attr_of("hosho.har.timing.send_ms"@, t.send_ms) + double_attr_of(
        "hosho.har.timing.wait_ms"@,
        t.wait_ms,
    ) + double_attr_of("hosho.har.timing.receive_ms"@, t.receive_ms)
}

/// Exportable headers as string-array attributes.
pub open spec fn array_attrs(s: Seq<(Seq<char>, Seq<Seq<char>>)>) -> Seq<(Seq<char>, ValueView)> {
    s.map_values(|p: (Seq<char>, Seq<Seq<char>>)| (p.0, ValueView::TextArray(p.1)))
}

/// The allowed request headers, then the allowed response headers.
pub open spec fn header_attrs_of(record: NetworkRequest) -> Seq<(Seq<char>, ValueView)> {
    array_attrs(allowed_attributes("http.request.header"@, record.request.headers@)) + array_attrs(
        allowed_attributes("http.response.header"@, record.response.headers@),
    )
}

/// The code location that triggered the request, the parts that are known.
pub open spec fn trigger_attrs_of(record: NetworkRequest) -> Seq<(Seq<char>, ValueView)> {
    match record.trace.trigger {
        Some(t) => text_attr("code.function"@, opt_chars(t.function_name)) + text_attr(
            "code.file.path"@,
            opt_chars(t.url),
        ) + int_attr_of("code.line.number"@, t.line_number) + int_attr_of(
            "code.column.number"@,
            t.column_number,
        ),
        None => match record.browser.initiator {
            Some(i) => text_attr("code.function"@, opt_chars(i.top_function)) + text_attr(
                "code.file.path"@,
                opt_chars(i.top_url),
            ) + int_attr_of("code.line.number"@, i.top_line) + int_attr_of(
                "code.column.number"@,
                i.top_column,
            ),
            None => Seq::empty(),
        },
    }
}

/// The protocol version that a HAR HTTP version names, compared without case:
/// `1.0`, `1.1`, `2` (`HTTP/2`, `HTTP/2.0`, `h2`) or `3` (`HTTP/3`, `HTTP/3.0`,
/// `h3`); none for any other text.
pub open spec fn protocol_version(version: Seq<char>) -> Option<Seq<char>> {
    let v = lowercase(version);
    if v == "http/1.0"@ {
        Some("1.0"@)
    } else if v == "http/1.1"@ {
        Some("1.1"@)
    } else if v == "http/2"@ || v == "http/2.0"@ || v == "h2"@ {
        Some("2"@)
    } else if v == "http/3"@ || v == "http/3.0"@ || v == "h3"@ {
        Some("3"@)
    } else {
        None
    }
}

/// `network.protocol.name` = `http` and `network.protocol.version`, when the
/// request's HTTP version is known.
pub open spec fn protocol_attrs_of(record: NetworkRequest) -> Seq<(Seq<char>, ValueView)> {
    match opt_chars(record.request.http_version) {
        Some(v) => match protocol_version(v) {
            Some(p) => seq![
                ("network.protocol.name"@, ValueView::Text("http"@)),
                ("network.protocol.version"@, ValueView::Text(p)),
            ],
            None => Seq::empty(),
        },
        None => Seq::empty(),
    }
}

/// Headers size plus body size, when both are known, not negative, and their sum
/// fits `i64`.
pub open spec fn size_sum(headers: Option<i64>, body: Option<i64>) -> Option<i64> {
    match (headers, body) {
        (Some(h), Some(b)) => if h >= 0 && b >= 0 && h + b <= i64::MAX {
            Some((h + b) as i64)
        } else {
            None
        },
        _ => None,
    }
}

/// Body and total sizes of request and response, those that are known.
pub open spec fn size_attrs_of(record: NetworkRequest) -> Seq<(Seq<char>, ValueView)> {
    int_attr_of("http.request.body.size"@, non_negative(record.request.body_size)) + int_attr_of(
        "http.request.size"@,
        size_sum(record.request.headers_size, record.request.body_size),
    ) + int_attr_of("http.response.body.size"@, non_negative(record.response.body_size))
        + int_attr_of(
        "http.response.size"@,
        size_sum(record.response.headers_size, record.response.body_size),
    )
}

/// Where the request was captured and what the browser says of it, those that
/// are known.
pub open spec fn capture_attrs_of(record: NetworkRequest) -> Seq<(Seq<char>, ValueView)> {
    let c = record.capture;
    let b = record.browser;
    text_attr("hosho.capture.source"@, opt_chars(c.source)) + text_attr(
        "hosho.capture.session_id"@,
        opt_chars(c.session_id),
    ) + text_attr("hosho.capture.page_id"@, opt_chars(c.page_id)) + int_attr_of(
        "hosho.browser.tab_id"@,
        c.tab_id,
    ) + text_attr("hosho.har.connection_id"@, opt_chars(b.connection_id)) + text_attr(
        "hosho.har.resource_type"@,
        opt_chars(b.resource_type),
    ) + text_attr("hosho.har.priority"@, opt_chars(b.priority))
}

/// The error type of a response: none for 100 to 399, the status for 400 to 599,
/// and `network_error` otherwise (no status, status 0, any other number).
pub open spec fn error_type_of(status: Option<i64>) -> Option<Seq<char>> {
    match status {
        Some(s) => if 100 <= s <= 399 {
            None
        } else if 400 <= s <= 599 {
            Some(signed_decimal(s as int))
        } else {
            Some("network_error"@)
        },
        None => Some("network_error"@),
    }
}

/// All attributes of a request span, in order.
pub open spec fn span_attrs_of(record: NetworkRequest) -> Seq<(Seq<char>, ValueView)> {
    base_attrs_of(record) + protocol_attrs_of(record) + size_attrs_of(record) + capture_attrs_of(
        record,
    ) + timing_attrs_of(record) + header_attrs_of(record) + trigger_attrs_of(record) + text_attr(
        "error.type"@,
        error_type_of(record.response.status),
    )
}

/// The span status: unset for 100 to 399; an error without description for 400 to
/// 599, whose status code the attributes carry; and an error `network_error`
/// otherwise.
pub open spec fn status_model(status: Option<i64>) -> JsonModel {
    match status {
        Some(s) => if 100 <= s <= 399 {
            JsonModel::Object(Seq::empty())
        } else if 400 <= s <= 599 {
            JsonModel::Object(seq![("code"@, JsonModel::Number(JsonNumber::PosInt(2)))])
        } else {
            JsonModel::Object(
                seq![
                    ("code"@, JsonModel::Number(JsonNumber::PosInt(2))),
                    ("message"@, JsonModel::String("network_error"@)),
                ],
            )
        },
        None => JsonModel::Object(
            seq![
                ("code"@, JsonModel::Number(JsonNumber::PosInt(2))),
                ("message"@, JsonModel::String("network_error"@)),
            ],
        ),
    }
}

/// Start of a span in Unix nanoseconds, 0 when unknown.
pub open spec fn span_start(record: NetworkRequest) -> nat {
    match unix_nanos_of(opt_chars(record.timing.started_at)) {
        Some(n) => n as nat,
        None => 0,
    }
}

/// End of a span in Unix nanoseconds: start plus duration, else the start.
pub open spec fn span_end(record: NetworkRequest) -> nat {
    match end_nanos(unix_nanos_of(opt_chars(record.timing.started_at)), record.timing.duration_ms) {
        Some(n) => n as nat,
        None => span_start(record),
    }
}

/// The OTLP JSON span of a request: a client span (`kind` 3) named by the method.
pub open spec fn span_model(record: NetworkRequest) -> JsonModel {
    let ids = span_ids_of(record);
    JsonModel::Object(
        seq![
            ("traceId"@, JsonModel::String(ids.0)),
            ("spanId"@, JsonModel::String(ids.1)),
            ("name"@, JsonModel::String(record.request.method@)),
            ("kind"@, JsonModel::Number(JsonNumber::PosInt(3))),
            ("startTimeUnixNano"@, JsonModel::String(decimal(span_start(record)))),
            ("endTimeUnixNano"@, JsonModel::String(decimal(span_end(record)))),
            ("attributes"@, JsonModel::Array(attribute_models(span_attrs_of(record)))),
            ("status"@, status_model(record.response.status)),
        ],
    )
}

/// The spans of a list of requests, in order.
pub open spec fn span_models(records: Seq<NetworkRequest>) -> Seq<JsonModel> {
    records.map_values(|r: NetworkRequest| span_model(r))
}

/// The OTLP JSON traces document of requests under a resource.
pub open spec fn traces_doc(resource: Seq<(Seq<char>, ValueView)>, records: Seq<NetworkRequest>) -> JsonModel {
    otlp_doc(
        "resourceSpans"@,
        "scopeSpans"@,
        "spans"@,
        "hosho.har"@,
        attribute_models(resource),
        span_models(records),
    )
}

/// Every request span carries the request's entry hash and deduplication key, as
/// `hosho.har.entry_hash` and `hosho.har.dedupe_key`, and its method as
/// `http.request.method`.
pub proof fn law_span_identity_attributes(record: NetworkRequest)
    ensures
        span_attrs_of(record).contains(("hosho.har.dedupe_key"@, ValueView::Text(record.identity.dedupe_key@))),
        span_attrs_of(record).contains(("hosho.har.entry_hash"@, ValueView::Text(record.identity.entry_hash@))),
        span_attrs_of(record).contains(("http.request.method"@, ValueView::Text(record.request.method@))),
{
    let base = base_attrs_of(record);
    let all = span_attrs_of(record);
    let n = base.len();
    assert(all[n - 1] == base[n - 1]);
    assert(all[n - 2] == base[n - 2]);
    assert(all[1] == base[1]);
    assert(base[n - 1] == ("hosho.har.dedupe_key"@, ValueView::Text(record.identity.dedupe_key@)));
    assert(base[n - 2] == ("hosho.har.entry_hash"@, ValueView::Text(record.identity.entry_hash@)));
}

/// No span carries a header that is not allowed: every header attribute of a
/// request span is `http.request.header.<name>` or `http.response.header.<name>`
/// for a header of the request or response whose name is `accept`,
/// `content-type` or `traceparent` (never `authorization`, `cookie`,
/// `proxy-authorization` or `set-cookie`), with that header's values.
pub proof fn law_span_headers_allowed(record: NetworkRequest)
    ensures
        forall|i: int|
            0 <= i < header_attrs_of(record).len() ==> {
                let a = #[trigger] header_attrs_of(record)[i];
                ||| a.1 is TextArray && exported_from(
                    "http.request.header"@,
                    record.request.headers@,
                    (a.0, a.1->TextArray_0),
                )
                ||| a.1 is TextArray && exported_from(
                    "http.response.header"@,
                    record.response.headers@,
                    (a.0, a.1->TextArray_0),
                )
            },
{
    let req = allowed_attributes("http.request.header"@, record.request.headers@);
    let resp = allowed_attributes("http.response.header"@, record.response.headers@);
    law_exported_headers("http.request.header"@, record.request.headers@);
    law_exported_headers("http.response.header"@, record.response.headers@);
    let all = header_attrs_of(record);
    assert forall|i: int| 0 <= i < all.len() implies {
        let a = #[trigger] all[i];
        ||| a.1 is TextArray && exported_from(
            "http.request.header"@,
            record.request.headers@,
            (a.0, a.1->TextArray_0),
        )
        ||| a.1 is TextArray && exported_from(
            "http.response.header"@,
            record.response.headers@,
            (a.0, a.1->TextArray_0),
        )
    } by {
        if i < req.len() {
            assert(all[i] == (req[i].0, ValueView::TextArray(req[i].1)));
            assert(exported_from("http.request.header"@, record.request.headers@, req[i]));
        } else {
            let k = i - req.len();
            assert(all[i] == (resp[k].0, ValueView::TextArray(resp[k].1)));
            assert(exported_from("http.response.header"@, record.response.headers@, resp[k]));
        }
    }
}

/// A span reports the sanitized URL: for every record whose sanitized URL is
/// absent or is its URL sanitized (every record that normalization or
/// `NetworkRequest::from` builds), `url.full` is the URL sanitized, which, for a
/// text that parses as a URL, is its rewriting with the redacted query (see
/// `law_redaction` and `law_redaction_hides_sensitive_values`).
pub proof fn law_span_url_sanitized(record: NetworkRequest)
    requires
        record.request.url_sanitized matches Some(s) ==> s@ == sanitized_of(record.request.url@),
    ensures
        base_attrs_of(record)[2] == ("url.full"@, ValueView::Text(sanitized_of(record.request.url@))),
        span_attrs_of(record).contains(("url.full"@, ValueView::Text(sanitized_of(record.request.url@)))),
        url_parses(record.request.url@) ==> sanitized_of(record.request.url@) == url_rewritten(
            record.request.url@,
            redacted(url_query_pairs(record.request.url@)),
        ),
{
    assert(span_attrs_of(record)[2] == base_attrs_of(record)[2]);
}

/// A one-attribute list holds exactly its attribute; an empty one holds nothing.
proof fn lemma_single_contains(s: Seq<(Seq<char>, ValueView)>, a: (Seq<char>, ValueView))
    requires
        s.len() <= 1,
    ensures
        s.contains(a) <==> (s.len() == 1 && s[0] == a),
{
    if s.len() == 1 && s[0] == a {
        assert(s[0] == a);
    }
}

/// What the four code-location attributes built from a function name `f`, a file
/// `u`, a line `l` and a column `c` hold: `code.function` is `f`,
/// `code.file.path` is `u`, `code.line.number` is `l` and `code.column.number` is
/// `c`, each exactly when that part is known.
proof fn lemma_location_attrs(
    f: Option<Seq<char>>,
    u: Option<Seq<char>>,
    l: Option<i64>,
    c: Option<i64>,
)
    ensures
        ({
            let s = text_attr("code.function"@, f) + text_attr("code.file.path"@, u) + int_attr_of(
                "code.line.number"@,
                l,
            ) + int_attr_of("code.column.number"@, c);
            &&& forall|n: i64| #[trigger]
                s.contains(("code.column.number"@, ValueView::Int(n))) <==> c == Some(n)
            &&& forall|n: i64| #[trigger]
                s.contains(("code.line.number"@, ValueView::Int(n))) <==> l == Some(n)
            &&& forall|t: Seq<char>| #[trigger]
                s.contains(("code.function"@, ValueView::Text(t))) <==> f == Some(t)
            &&& forall|t: Seq<char>| #[trigger]
                s.contains(("code.file.path"@, ValueView::Text(t))) <==> u == Some(t)
        }),
{
    broadcast use vstd::seq_lib::lemma_seq_concat_contains_all_elements;

    reveal_strlit("code.function");
    reveal_strlit("code.file.path");
    reveal_strlit("code.line.number");
    reveal_strlit("code.column.number");
    let kf = "code.function"@;
    let ku = "code.file.path"@;
    let kl = "code.line.number"@;
    let kc = "code.column.number"@;
    assert(kf[5] == 'f' && ku[5] == 'f' && kl[5] == 'l' && kc[5] == 'c');
    assert(kf[6] == 'u' && ku[6] == 'i');
    assert(kf != ku && kf != kl && kf != kc && ku != kl && ku != kc && kl != kc);
    let a = text_attr(kf, f);
    let b = text_attr(ku, u);
    let d = int_attr_of(kl, l);
    let e = int_attr_of(kc, c);
    let s = a + b + d + e;
    assert forall|x: (Seq<char>, ValueView)| #[trigger]
        s.contains(x) <==> (a.contains(x) || b.contains(x) || d.contains(x) || e.contains(
            x,
        )) by {
        assert((a + b + d).contains(x) <==> (a + b).contains(x) || d.contains(x));
        assert((a + b).contains(x) <==> a.contains(x) || b.contains(x));
    }
    assert forall|x: (Seq<char>, ValueView)|
        #![trigger a.contains(x)]
        #![trigger b.contains(x)]
        #![trigger d.contains(x)]
        #![trigger e.contains(x)]
        (a.contains(x) <==> (a.len() == 1 && a[0] == x)) && (b.contains(x) <==> (b.len() == 1
            && b[0] == x)) && (d.contains(x) <==> (d.len() == 1 && d[0] == x)) && (e.contains(x)
            <==> (e.len() == 1 && e[0] == x)) by {
        lemma_single_contains(a, x);
        lemma_single_contains(b, x);
        lemma_single_contains(d, x);
        lemma_single_contains(e, x);
    }
}

/// The code location of a span comes from the trace trigger when the record has
/// one, and otherwise from the browser initiator: `code.function`,
/// `code.file.path`, `code.line.number` and `code.column.number` are the
/// initiator's top function, top URL, top line and top column, each present
/// exactly when that part is known, and the span carries each one that is known.
pub proof fn law_span_location_from_initiator(record: NetworkRequest)
    requires
        record.trace.trigger is None,
        record.browser.initiator is Some,
    ensures
        ({
            let i = record.browser.initiator->Some_0;
            let s = trigger_attrs_of(record);
            &&& forall|n: i64| #[trigger]
                s.contains(("code.column.number"@, ValueView::Int(n))) <==> i.top_column == Some(
                    n,
                )
            &&& forall|n: i64| #[trigger]
                s.contains(("code.line.number"@, ValueView::Int(n))) <==> i.top_line == Some(n)
            &&& forall|t: Seq<char>| #[trigger]
                s.contains(("code.function"@, ValueView::Text(t))) <==> opt_chars(i.top_function)
                    == Some(t)
            &&& forall|t: Seq<char>| #[trigger]
                s.contains(("code.file.path"@, ValueView::Text(t))) <==> opt_chars(i.top_url)
                    == Some(t)
            &&& forall|n: i64|
                i.top_column == Some(n) ==> #[trigger] span_attrs_of(record).contains(
                    ("code.column.number"@, ValueView::Int(n)),
                )
            &&& forall|n: i64|
                i.top_line == Some(n) ==> #[trigger] span_attrs_of(record).contains(
                    ("code.line.number"@, ValueView::Int(n)),
                )
        }),
{
    let i = record.browser.initiator->Some_0;
    lemma_location_attrs(opt_chars(i.top_function), opt_chars(i.top_url), i.top_line, i.top_column);
    lemma_span_includes(record);
    let s = trigger_attrs_of(record);
    assert forall|n: i64| i.top_column == Some(n) implies #[trigger] span_attrs_of(record).contains(
        ("code.column.number"@, ValueView::Int(n)),
    ) by {
        assert(s.contains(("code.column.number"@, ValueView::Int(n))));
    }
    assert forall|n: i64| i.top_line == Some(n) implies #[trigger] span_attrs_of(record).contains(
        ("code.line.number"@, ValueView::Int(n)),
    ) by {
        assert(s.contains(("code.line.number"@, ValueView::Int(n))));
    }
}

/// The code location of a span with a trace trigger is the trigger's: its
/// function name, URL, line and column, each present exactly when known.
pub proof fn law_span_location_from_trigger(record: NetworkRequest)
    requires
        record.trace.trigger is Some,
    ensures
        ({
            let t = record.trace.trigger->Some_0;
            let s = trigger_attrs_of(record);
            &&& forall|n: i64| #[trigger]
                s.contains(("code.column.number"@, ValueView::Int(n))) <==> t.column_number
                    == Some(n)
            &&& forall|n: i64| #[trigger]
                s.contains(("code.line.number"@, ValueView::Int(n))) <==> t.line_number == Some(n)
            &&& forall|x: Seq<char>| #[trigger]
                s.contains(("code.function"@, ValueView::Text(x))) <==> opt_chars(t.function_name)
                    == Some(x)
            &&& forall|x: Seq<char>| #[trigger]
                s.contains(("code.file.path"@, ValueView::Text(x))) <==> opt_chars(t.url) == Some(
                    x,
                )
        }),
{
    let t = record.trace.trigger->Some_0;
    lemma_location_attrs(opt_chars(t.function_name), opt_chars(t.url), t.line_number, t.column_number);
}

/// Every attribute of the base, size and code-location parts is an attribute of
/// the span.
proof fn lemma_span_includes(record: NetworkRequest)
    ensures
        forall|x: (Seq<char>, ValueView)|
            #[trigger] base_attrs_of(record).contains(x) ==> span_attrs_of(record).contains(x),
        forall|x: (Seq<char>, ValueView)|
            #[trigger] size_attrs_of(record).contains(x) ==> span_attrs_of(record).contains(x),
        forall|x: (Seq<char>, ValueView)|
            #[trigger] text_attr("error.type"@, error_type_of(record.response.status)).contains(x)
                ==> span_attrs_of(record).contains(x),
        forall|x: (Seq<char>, ValueView)|
            #[trigger] capture_attrs_of(record).contains(x) ==> span_attrs_of(record).contains(x),
        forall|x: (Seq<char>, ValueView)|
            #[trigger] timing_attrs_of(record).contains(x) ==> span_attrs_of(record).contains(x),
        forall|x: (Seq<char>, ValueView)|
            #[trigger] protocol_attrs_of(record).contains(x) ==> span_attrs_of(record).contains(x),
        forall|x: (Seq<char>, ValueView)|
            #[trigger] trigger_attrs_of(record).contains(x) ==> span_attrs_of(record).contains(x),
{
    broadcast use vstd::seq_lib::lemma_seq_concat_contains_all_elements;

    let c = capture_attrs_of(record);
    let t = timing_attrs_of(record);
    let h = header_attrs_of(record);
    let g = trigger_attrs_of(record);
    assert forall|x: (Seq<char>, ValueView)| #[trigger] c.contains(x) implies (c + t + h + g).contains(
        x,
    ) by {
        assert((c + t).contains(x));
        assert((c + t + h).contains(x));
    }
    assert forall|x: (Seq<char>, ValueView)| #[trigger] t.contains(x) implies (c + t + h + g).contains(
        x,
    ) by {
        assert((c + t).contains(x));
        assert((c + t + h).contains(x));
    }
    assert forall|x: (Seq<char>, ValueView)| #[trigger] g.contains(x) implies (c + t + h + g).contains(
        x,
    ) by {
    }
    let base = base_attrs_of(record);
    let p = protocol_attrs_of(record);
    let sz = size_attrs_of(record);
    let rest = capture_attrs_of(record) + timing_attrs_of(record) + header_attrs_of(record)
        + trigger_attrs_of(record);
    let tail = text_attr("error.type"@, error_type_of(record.response.status));
    let front = base + p + sz;
    assert(span_attrs_of(record) =~= front + rest + tail);
    assert forall|x: (Seq<char>, ValueView)| #[trigger] base.contains(x) implies span_attrs_of(
        record,
    ).contains(x) by {
        assert((base + p).contains(x));
        assert(front.contains(x));
        assert((front + rest).contains(x));
    }
    assert forall|x: (Seq<char>, ValueView)| #[trigger] p.contains(x) implies span_attrs_of(
        record,
    ).contains(x) by {
        assert((base + p).contains(x));
        assert(front.contains(x));
        assert((front + rest).contains(x));
    }
    assert forall|x: (Seq<char>, ValueView)| #[trigger] sz.contains(x) implies span_attrs_of(
        record,
    ).contains(x) by {
        assert(front.contains(x));
        assert((front + rest).contains(x));
    }
    assert forall|x: (Seq<char>, ValueView)| #[trigger] tail.contains(x) implies span_attrs_of(
        record,
    ).contains(x) by {
        assert((front + rest + tail).contains(x));
    }
    assert(rest =~= c + t + h + g);
    assert forall|x: (Seq<char>, ValueView)| #[trigger] rest.contains(x) implies span_attrs_of(
        record,
    ).contains(x) by {
        assert((front + rest).contains(x));
    }
}

/// The sizes of a span: `http.request.body.size` and `http.response.body.size`
/// are the request's and the response's body sizes, and `http.request.size` and
/// `http.response.size` their headers size plus body size; each is present exactly
/// when the sizes it needs are known and not negative (and the sum fits), and the
/// span carries each one that is present.
pub proof fn law_span_sizes(record: NetworkRequest)
    ensures
        ({
            let s = size_attrs_of(record);
            let q = record.request;
            let r = record.response;
            &&& forall|n: i64| #[trigger]
                s.contains(("http.request.body.size"@, ValueView::Int(n))) <==> (q.body_size
                    == Some(n) && n >= 0)
            &&& forall|n: i64| #[trigger]
                s.contains(("http.response.body.size"@, ValueView::Int(n))) <==> (r.body_size
                    == Some(n) && n >= 0)
            &&& forall|n: i64| #[trigger]
                s.contains(("http.request.size"@, ValueView::Int(n))) <==> (exists|h: i64, b: i64|
                    q.headers_size == Some(h) && q.body_size == Some(b) && h >= 0 && b >= 0 && n
                        == h + b)
            &&& forall|n: i64| #[trigger]
                s.contains(("http.response.size"@, ValueView::Int(n))) <==> (exists|h: i64, b: i64|
                    r.headers_size == Some(h) && r.body_size == Some(b) && h >= 0 && b >= 0 && n
                        == h + b)
            &&& forall|x: (Seq<char>, ValueView)| #[trigger]
                s.contains(x) ==> span_attrs_of(record).contains(x)
        }),
{
    broadcast use vstd::seq_lib::lemma_seq_concat_contains_all_elements;

    reveal_strlit("http.request.body.size");
    reveal_strlit("http.request.size");
    reveal_strlit("http.response.body.size");
    reveal_strlit("http.response.size");
    let k1 = "http.request.body.size"@;
    let k2 = "http.request.size"@;
    let k3 = "http.response.body.size"@;
    let k4 = "http.response.size"@;
    assert(k1.len() == 22 && k2.len() == 17 && k3.len() == 23 && k4.len() == 18);
    let q = record.request;
    let r = record.response;
    let a = int_attr_of(k1, non_negative(q.body_size));
    let b = int_attr_of(k2, size_sum(q.headers_size, q.body_size));
    let d = int_attr_of(k3, non_negative(r.body_size));
    let e = int_attr_of(k4, size_sum(r.headers_size, r.body_size));
    let s = size_attrs_of(record);
    assert(s == a + b + d + e);
    assert forall|x: (Seq<char>, ValueView)| #[trigger]
        s.contains(x) <==> (a.contains(x) || b.contains(x) || d.contains(x) || e.contains(
            x,
        )) by {
        assert((a + b + d).contains(x) <==> (a + b).contains(x) || d.contains(x));
        assert((a + b).contains(x) <==> a.contains(x) || b.contains(x));
    }
    assert forall|x: (Seq<char>, ValueView)|
        #![trigger a.contains(x)]
        #![trigger b.contains(x)]
        #![trigger d.contains(x)]
        #![trigger e.contains(x)]
        (a.contains(x) <==> (a.len() == 1 && a[0] == x)) && (b.contains(x) <==> (b.len() == 1
            && b[0] == x)) && (d.contains(x) <==> (d.len() == 1 && d[0] == x)) && (e.contains(x)
            <==> (e.len() == 1 && e[0] == x)) by {
        lemma_single_contains(a, x);
        lemma_single_contains(b, x);
        lemma_single_contains(d, x);
        lemma_single_contains(e, x);
    }
    assert forall|n: i64| #[trigger]
        s.contains((k2, ValueView::Int(n))) <==> (exists|h: i64, bb: i64|
            q.headers_size == Some(h) && q.body_size == Some(bb) && h >= 0 && bb >= 0 && n == h
                + bb) by {
        if s.contains((k2, ValueView::Int(n))) {
            let h = q.headers_size->Some_0;
            let bb = q.body_size->Some_0;
            assert(q.headers_size == Some(h) && q.body_size == Some(bb) && h >= 0 && bb >= 0 && n
                == h + bb);
        }
    }
    assert forall|n: i64| #[trigger]
        s.contains((k4, ValueView::Int(n))) <==> (exists|h: i64, bb: i64|
            r.headers_size == Some(h) && r.body_size == Some(bb) && h >= 0 && bb >= 0 && n == h
                + bb) by {
        if s.contains((k4, ValueView::Int(n))) {
            let h = r.headers_size->Some_0;
            let bb = r.body_size->Some_0;
            assert(r.headers_size == Some(h) && r.body_size == Some(bb) && h >= 0 && bb >= 0 && n
                == h + bb);
        }
    }
    lemma_span_includes(record);
}

/// The status code and error type of a span: it carries `http.response.status_code`
/// with the response status when that is greater than zero; and `error.type` is
/// absent for a status from 100 to 399, the status in decimal for 400 to 599, and
/// `network_error` for no status or any other number.
pub proof fn law_span_status_attributes(record: NetworkRequest)
    ensures
        forall|n: i64|
            record.response.status == Some(n) && n > 0 ==> #[trigger] span_attrs_of(
                record,
            ).contains(("http.response.status_code"@, ValueView::Int(n))),
        ({
            let e = text_attr("error.type"@, error_type_of(record.response.status));
            match record.response.status {
                Some(s) => if 100 <= s <= 399 {
                    e.len() == 0
                } else if 400 <= s <= 599 {
                    e == seq![("error.type"@, ValueView::Text(signed_decimal(s as int)))]
                } else {
                    e == seq![("error.type"@, ValueView::Text("network_error"@))]
                },
                None => e == seq![("error.type"@, ValueView::Text("network_error"@))],
            }
        }),
        forall|x: (Seq<char>, ValueView)|
            #[trigger] text_attr("error.type"@, error_type_of(record.response.status)).contains(x)
                ==> span_attrs_of(record).contains(x),
{
    broadcast use vstd::seq_lib::lemma_seq_concat_contains_all_elements;

    lemma_span_includes(record);
    assert forall|n: i64|
        record.response.status == Some(n) && n > 0 implies #[trigger] span_attrs_of(
        record,
    ).contains(("http.response.status_code"@, ValueView::Int(n))) by {
        let x = ("http.response.status_code"@, ValueView::Int(n));
        let st = int_attr_of("http.response.status_code"@, positive(record.response.status));
        assert(st[0] == x);
        assert(st.contains(x));
        let b0 = seq![
            ("hosho.schema"@, ValueView::Text(record.schema@)),
            ("http.request.method"@, ValueView::Text(record.request.method@)),
            ("url.full"@, ValueView::Text(reported_url(record))),
        ] + text_attr("url.scheme"@, opt_chars(record.request.scheme)) + text_attr(
            "server.address"@,
            opt_chars(record.request.host),
        ) + int_attr_of("server.port"@, port_value(record.request.port));
        assert((b0 + st).contains(x));
        assert(base_attrs_of(record) == b0 + st + seq![
            ("hosho.har.entry_hash"@, ValueView::Text(record.identity.entry_hash@)),
            ("hosho.har.dedupe_key"@, ValueView::Text(record.identity.dedupe_key@)),
        ]);
        assert(base_attrs_of(record).contains(x));
    }
}

/// The span status is an error (`code` 2) exactly when the response status is
/// absent or outside 100 to 399, and it carries the message `network_error`
/// exactly when the status is absent or outside 100 to 599.
pub proof fn law_span_status(status: Option<i64>)
    ensures
        ({
            let m = status_model(status)->Object_0;
            let error = match status {
                Some(s) => !(100 <= s <= 399),
                None => true,
            };
            let network = match status {
                Some(s) => !(100 <= s <= 599),
                None => true,
            };
            &&& status_model(status) is Object
            &&& error <==> m.contains(("code"@, JsonModel::Number(JsonNumber::PosInt(2))))
            &&& network <==> m.contains(("message"@, JsonModel::String("network_error"@)))
            &&& !error ==> m.len() == 0
        }),
{
    reveal_strlit("code");
    reveal_strlit("message");
    assert("code"@.len() == 4 && "message"@.len() == 7);
    let m = status_model(status)->Object_0;
    let c = ("code"@, JsonModel::Number(JsonNumber::PosInt(2)));
    let g = ("message"@, JsonModel::String("network_error"@));
    assert(c != g);
    if m.len() == 1 {
        assert(m[0] == c);
        if m.contains(g) {
            assert(m[0] == g);
        }
    } else if m.len() == 2 {
        assert(m[0] == c && m[1] == g);
    }
}

/// A span carries the request's scheme as `url.scheme`, its host as
/// `server.address` and its port as `server.port`, each when known.
pub proof fn law_span_server_attributes(record: NetworkRequest)
    ensures
        record.request.scheme matches Some(s) ==> span_attrs_of(record).contains(
            ("url.scheme"@, ValueView::Text(s@)),
        ),
        record.request.host matches Some(h) ==> span_attrs_of(record).contains(
            ("server.address"@, ValueView::Text(h@)),
        ),
        record.request.port matches Some(p) ==> span_attrs_of(record).contains(
            ("server.port"@, ValueView::Int(p as i64)),
        ),
{
    broadcast use vstd::seq_lib::lemma_seq_concat_contains_all_elements;

    lemma_span_includes(record);
    let b3 = seq![
        ("hosho.schema"@, ValueView::Text(record.schema@)),
        ("http.request.method"@, ValueView::Text(record.request.method@)),
        ("url.full"@, ValueView::Text(reported_url(record))),
    ];
    let sc = text_attr("url.scheme"@, opt_chars(record.request.scheme));
    let ho = text_attr("server.address"@, opt_chars(record.request.host));
    let po = int_attr_of("server.port"@, port_value(record.request.port));
    let st = int_attr_of("http.response.status_code"@, positive(record.response.status));
    let ids = seq![
        ("hosho.har.entry_hash"@, ValueView::Text(record.identity.entry_hash@)),
        ("hosho.har.dedupe_key"@, ValueView::Text(record.identity.dedupe_key@)),
    ];
    assert(base_attrs_of(record) == b3 + sc + ho + po + st + ids);
    if let Some(s) = record.request.scheme {
        let x = ("url.scheme"@, ValueView::Text(s@));
        assert(sc[0] == x);
        assert(sc.contains(x));
        assert((b3 + sc).contains(x));
        assert((b3 + sc + ho + po + st).contains(x));
        assert(base_attrs_of(record).contains(x));
    }
    if let Some(h) = record.request.host {
        let x = ("server.address"@, ValueView::Text(h@));
        assert(ho[0] == x);
        assert(ho.contains(x));
        assert((b3 + sc + ho).contains(x));
        assert((b3 + sc + ho + po + st).contains(x));
        assert(base_attrs_of(record).contains(x));
    }
    if let Some(p) = record.request.port {
        let x = ("server.port"@, ValueView::Int(p as i64));
        assert(po[0] == x);
        assert(po.contains(x));
        assert((b3 + sc + ho + po).contains(x));
        assert((b3 + sc + ho + po + st).contains(x));
        assert(base_attrs_of(record).contains(x));
    }
}

/// A span carries each known phase of the request's timing in milliseconds:
/// `blocked`, `dns`, `connect`, `ssl`, `send`, `wait` and `receive` as
/// `hosho.har.timing.<phase>_ms`.
pub proof fn law_span_timing_attributes(record: NetworkRequest)
    ensures
        ({
            let t = record.timing;
            let a = span_attrs_of(record);
            &&& t.blocked_ms matches Some(ms) ==> a.contains(
                ("hosho.har.timing.blocked_ms"@, ValueView::Double(ms.bits)),
            )
            &&& t.dns_ms matches Some(ms) ==> a.contains(
                ("hosho.har.timing.dns_ms"@, ValueView::Double(ms.bits)),
            )
            &&& t.connect_ms matches Some(ms) ==> a.contains(
                ("hosho.har.timing.connect_ms"@, ValueView::Double(ms.bits)),
            )
            &&& t.ssl_ms matches Some(ms) ==> a.contains(
                ("hosho.har.timing.ssl_ms"@, ValueView::Double(ms.bits)),
            )
            &&& t.send_ms matches Some(ms) ==> a.contains(
                ("hosho.har.timing.send_ms"@, ValueView::Double(ms.bits)),
            )
            &&& t.wait_ms matches Some(ms) ==> a.contains(
                ("hosho.har.timing.wait_ms"@, ValueView::Double(ms.bits)),
            )
            &&& t.receive_ms matches Some(ms) ==> a.contains(
                ("hosho.har.timing.receive_ms"@, ValueView::Double(ms.bits)),
            )
        }),
{
    broadcast use vstd::seq_lib::lemma_seq_concat_contains_all_elements;

    lemma_span_includes(record);
    let t = record.timing;
    let p1 = double_attr_of("hosho.har.timing.blocked_ms"@, t.blocked_ms);
    let p2 = double_attr_of("hosho.har.timing.dns_ms"@, t.dns_ms);
    let p3 = double_attr_of("hosho.har.timing.connect_ms"@, t.connect_ms);
    let p4 = double_attr_of("hosho.har.timing.ssl_ms"@, t.ssl_ms);
    let p5 = double_attr_of("hosho.har.timing.send_ms"@, t.send_ms);
    let p6 = double_attr_of("hosho.har.timing.wait_ms"@, t.wait_ms);
    let p7 = double_attr_of("hosho.har.timing.receive_ms"@, t.receive_ms);
    let all = timing_attrs_of(record);
    assert(all == p1 + p2 + p3 + p4 + p5 + p6 + p7);
    assert forall|x: (Seq<char>, ValueView)|
        #![trigger p1.contains(x)]
        #![trigger p2.contains(x)]
        #![trigger p3.contains(x)]
        #![trigger p4.contains(x)]
        #![trigger p5.contains(x)]
        #![trigger p6.contains(x)]
        #![trigger p7.contains(x)]
        p1.contains(x) || p2.contains(x) || p3.contains(x) || p4.contains(x) || p5.contains(x)
            || p6.contains(x) || p7.contains(x) implies all.contains(x) by {
        assert((p1 + p2).contains(x) <== p1.contains(x) || p2.contains(x));
        assert((p1 + p2 + p3).contains(x) <== (p1 + p2).contains(x) || p3.contains(x));
        assert((p1 + p2 + p3 + p4).contains(x) <== (p1 + p2 + p3).contains(x) || p4.contains(x));
        assert((p1 + p2 + p3 + p4 + p5).contains(x) <== (p1 + p2 + p3 + p4).contains(x)
            || p5.contains(x));
        assert((p1 + p2 + p3 + p4 + p5 + p6).contains(x) <== (p1 + p2 + p3 + p4 + p5).contains(x)
            || p6.contains(x));
        assert(all.contains(x) <== (p1 + p2 + p3 + p4 + p5 + p6).contains(x) || p7.contains(x));
    }
    if let Some(ms) = t.blocked_ms {
        assert(p1[0] == ("hosho.har.timing.blocked_ms"@, ValueView::Double(ms.bits)));
        assert(p1.contains(p1[0]));
    }
    if let Some(ms) = t.dns_ms {
        assert(p2[0] == ("hosho.har.timing.dns_ms"@, ValueView::Double(ms.bits)));
        assert(p2.contains(p2[0]));
    }
    if let Some(ms) = t.connect_ms {
        assert(p3[0] == ("hosho.har.timing.connect_ms"@, ValueView::Double(ms.bits)));
        assert(p3.contains(p3[0]));
    }
    if let Some(ms) = t.ssl_ms {
        assert(p4[0] == ("hosho.har.timing.ssl_ms"@, ValueView::Double(ms.bits)));
        assert(p4.contains(p4[0]));
    }
    if let Some(ms) = t.send_ms {
        assert(p5[0] == ("hosho.har.timing.send_ms"@, ValueView::Double(ms.bits)));
        assert(p5.contains(p5[0]));
    }
    if let Some(ms) = t.wait_ms {
        assert(p6[0] == ("hosho.har.timing.wait_ms"@, ValueView::Double(ms.bits)));
        assert(p6.contains(p6[0]));
    }
    if let Some(ms) = t.receive_ms {
        assert(p7[0] == ("hosho.har.timing.receive_ms"@, ValueView::Double(ms.bits)));
        assert(p7.contains(p7[0]));
    }
}

/// A span carries, when known, the capture's source, session id, page id and tab
/// id as `hosho.capture.source`, `hosho.capture.session_id`,
/// `hosho.capture.page_id` and `hosho.browser.tab_id`, and the browser's
/// connection id, resource type and priority as `hosho.har.connection_id`,
/// `hosho.har.resource_type` and `hosho.har.priority`.
pub proof fn law_span_capture_attributes(record: NetworkRequest)
    ensures
        ({
            let c = record.capture;
            let b = record.browser;
            let a = span_attrs_of(record);
            &&& c.source matches Some(v) ==> a.contains(
                ("hosho.capture.source"@, ValueView::Text(v@)),
            )
            &&& c.session_id matches Some(v) ==> a.contains(
                ("hosho.capture.session_id"@, ValueView::Text(v@)),
            )
            &&& c.page_id matches Some(v) ==> a.contains(
                ("hosho.capture.page_id"@, ValueView::Text(v@)),
            )
            &&& c.tab_id matches Some(v) ==> a.contains(("hosho.browser.tab_id"@, ValueView::Int(v)))
            &&& b.connection_id matches Some(v) ==> a.contains(
                ("hosho.har.connection_id"@, ValueView::Text(v@)),
            )
            &&& b.resource_type matches Some(v) ==> a.contains(
                ("hosho.har.resource_type"@, ValueView::Text(v@)),
            )
            &&& b.priority matches Some(v) ==> a.contains(
                ("hosho.har.priority"@, ValueView::Text(v@)),
            )
        }),
{
    broadcast use vstd::seq_lib::lemma_seq_concat_contains_all_elements;

    lemma_span_includes(record);
    let c = record.capture;
    let b = record.browser;
    let p1 = text_attr("hosho.capture.source"@, opt_chars(c.source));
    let p2 = text_attr("hosho.capture.session_id"@, opt_chars(c.session_id));
    let p3 = text_attr("hosho.capture.page_id"@, opt_chars(c.page_id));
    let p4 = int_attr_of("hosho.browser.tab_id"@, c.tab_id);
    let p5 = text_attr("hosho.har.connection_id"@, opt_chars(b.connection_id));
    let p6 = text_attr("hosho.har.resource_type"@, opt_chars(b.resource_type));
    let p7 = text_attr("hosho.har.priority"@, opt_chars(b.priority));
    let all = capture_attrs_of(record);
    assert(all == p1 + p2 + p3 + p4 + p5 + p6 + p7);
    assert forall|x: (Seq<char>, ValueView)|
        #![trigger p1.contains(x)]
        #![trigger p2.contains(x)]
        #![trigger p3.contains(x)]
        #![trigger p4.contains(x)]
        #![trigger p5.contains(x)]
        #![trigger p6.contains(x)]
        #![trigger p7.contains(x)]
        p1.contains(x) || p2.contains(x) || p3.contains(x) || p4.contains(x) || p5.contains(x)
            || p6.contains(x) || p7.contains(x) implies all.contains(x) by {
        assert((p1 + p2).contains(x) <== p1.contains(x) || p2.contains(x));
        assert((p1 + p2 + p3).contains(x) <== (p1 + p2).contains(x) || p3.contains(x));
        assert((p1 + p2 + p3 + p4).contains(x) <== (p1 + p2 + p3).contains(x) || p4.contains(x));
        assert((p1 + p2 + p3 + p4 + p5).contains(x) <== (p1 + p2 + p3 + p4).contains(x)
            || p5.contains(x));
        assert((p1 + p2 + p3 + p4 + p5 + p6).contains(x) <== (p1 + p2 + p3 + p4 + p5).contains(x)
            || p6.contains(x));
        assert(all.contains(x) <== (p1 + p2 + p3 + p4 + p5 + p6).contains(x) || p7.contains(x));
    }
    if c.source is Some {
        assert(p1.contains(p1[0]));
    }
    if c.session_id is Some {
        assert(p2.contains(p2[0]));
    }
    if c.page_id is Some {
        assert(p3.contains(p3[0]));
    }
    if c.tab_id is Some {
        assert(p4.contains(p4[0]));
    }
    if b.connection_id is Some {
        assert(p5.contains(p5[0]));
    }
    if b.resource_type is Some {
        assert(p6.contains(p6[0]));
    }
    if b.priority is Some {
        assert(p7.contains(p7[0]));
    }
}

/// An HTTP version names protocol version `1.0` exactly when, in lower case, it is
/// `http/1.0`; `1.1` exactly for `http/1.1`; `2` exactly for `http/2`, `http/2.0`
/// or `h2`; `3` exactly for `http/3`, `http/3.0` or `h3`; and none otherwise.
pub proof fn law_protocol_version(version: Seq<char>)
    ensures
        ({
            let v = lowercase(version);
            let p = protocol_version(version);
            &&& p == Some("1.0"@) <==> v == "http/1.0"@
            &&& p == Some("1.1"@) <==> v == "http/1.1"@
            &&& p == Some("2"@) <==> (v == "http/2"@ || v == "http/2.0"@ || v == "h2"@)
            &&& p == Some("3"@) <==> (v == "http/3"@ || v == "http/3.0"@ || v == "h3"@)
            &&& p is None <==> !(v == "http/1.0"@ || v == "http/1.1"@ || v == "http/2"@ || v
                == "http/2.0"@ || v == "h2"@ || v == "http/3"@ || v == "http/3.0"@ || v
                == "h3"@)
        }),
{
    reveal_strlit("1.0");
    reveal_strlit("1.1");
    reveal_strlit("2");
    reveal_strlit("3");
    assert("1.0"@.len() == 3 && "1.1"@.len() == 3 && "2"@.len() == 1 && "3"@.len() == 1);
    assert("1.0"@[2] == '0' && "1.1"@[2] == '1' && "2"@[0] == '2' && "3"@[0] == '3');
    assert("1.0"@ != "1.1"@ && "2"@ != "3"@ && "1.0"@ != "2"@ && "1.0"@ != "3"@ && "1.1"@
        != "2"@ && "1.1"@ != "3"@);
    reveal_strlit("http/1.0");
    reveal_strlit("http/1.1");
    reveal_strlit("http/2");
    reveal_strlit("http/2.0");
    reveal_strlit("h2");
    reveal_strlit("http/3");
    reveal_strlit("http/3.0");
    reveal_strlit("h3");
    assert("http/1.0"@.len() == 8 && "http/1.1"@.len() == 8 && "http/2.0"@.len() == 8
        && "http/3.0"@.len() == 8 && "http/2"@.len() == 6 && "http/3"@.len() == 6 && "h2"@.len()
        == 2 && "h3"@.len() == 2);
    assert("http/1.0"@[5] == '1' && "http/1.1"@[5] == '1' && "http/2.0"@[5] == '2'
        && "http/3.0"@[5] == '3' && "http/1.0"@[7] == '0' && "http/1.1"@[7] == '1');
    assert("http/2"@[5] == '2' && "http/3"@[5] == '3' && "h2"@[1] == '2' && "h3"@[1] == '3');
}

/// A span whose request has an HTTP version that names a protocol version carries
/// `network.protocol.name` `http` and that `network.protocol.version`.
pub proof fn law_span_protocol(record: NetworkRequest)
    ensures
        ({
            let a = span_attrs_of(record);
            match opt_chars(record.request.http_version) {
                Some(v) => match protocol_version(v) {
                    Some(p) => a.contains(("network.protocol.name"@, ValueView::Text("http"@)))
                        && a.contains(("network.protocol.version"@, ValueView::Text(p))),
                    None => true,
                },
                None => true,
            }
        }),
{
    lemma_span_includes(record);
    let pr = protocol_attrs_of(record);
    if let Some(v) = opt_chars(record.request.http_version) {
        if let Some(p) = protocol_version(v) {
            let xn = ("network.protocol.name"@, ValueView::Text("http"@));
            let xv = ("network.protocol.version"@, ValueView::Text(p));
            assert(pr[0] == xn && pr[1] == xv);
            assert(pr.contains(xn) && pr.contains(xv));
        }
    }
}

/// A request span is named by the request's method, is a client span (`kind` 3),
/// starts when the request started (0 when unknown), ends its duration later (at
/// its start when the duration is unknown or the end overflows), and carries the
/// request's attributes and the status of its response status.
pub proof fn law_span_shape(record: NetworkRequest)
    ensures
        ({
            let m = span_model(record)->Object_0;
            let started = unix_nanos_of(opt_chars(record.timing.started_at));
            let start: nat = match started {
                Some(n) => n as nat,
                None => 0,
            };
            let end: nat = match (started, record.timing.duration_ms) {
                (Some(s), Some(d)) => if s + d.nanos <= u64::MAX {
                    (s + d.nanos) as nat
                } else {
                    start
                },
                _ => start,
            };
            &&& span_model(record) is Object
            &&& m.len() == 8
            &&& m[2] == ("name"@, JsonModel::String(record.request.method@))
            &&& m[3] == ("kind"@, JsonModel::Number(JsonNumber::PosInt(3)))
            &&& m[4] == ("startTimeUnixNano"@, JsonModel::String(decimal(start)))
            &&& m[5] == ("endTimeUnixNano"@, JsonModel::String(decimal(end)))
            &&& m[6] == ("attributes"@, JsonModel::Array(attribute_models(span_attrs_of(record))))
            &&& m[7] == ("status"@, status_model(record.response.status))
        }),
{
}

/// Appends an attribute when there is one.
fn push_attr(attrs: &mut Vec<TelemetryAttribute>, attr: Option<TelemetryAttribute>)
    ensures
        attr_views(final(attrs)@) == attr_views(old(attrs)@) + match attr {
            Some(a) => seq![a@],
            None => Seq::empty(),
        },
{
    let ghost before = attrs@;
    match attr {
        Some(a) => {
            attrs.push(a);
            assert(attr_views(attrs@) =~= attr_views(before) + seq![attrs@[before.len() as int]@]);
        },
        None => {
            assert(attr_views(attrs@) =~= attr_views(before) + Seq::empty());
        },
    }
}

/// Appends a string attribute.
fn push_text(attrs: &mut Vec<TelemetryAttribute>, key: &str, value: &str)
    ensures
        attr_views(final(attrs)@) == attr_views(old(attrs)@) + seq![(key@, ValueView::Text(value@))],
{
    let ghost before = attrs@;
    attrs.push(TelemetryAttribute::new(key, crate::internal::specs::telemetry::TelemetryValue::String(value.to_owned())));
    assert(attr_views(attrs@) =~= attr_views(before) + seq![(key@, ValueView::Text(value@))]);
}

fn base_attrs(record: &NetworkRequest) -> (r: Vec<TelemetryAttribute>)
    ensures
        attr_views(r@) == base_attrs_of(*record),
{
    let mut attrs: Vec<TelemetryAttribute> = Vec::new();
    assert(attr_views(attrs@) =~= Seq::empty());
    push_text(&mut attrs, "hosho.schema", record.schema.as_str());
    push_text(&mut attrs, "http.request.method", record.request.method.as_str());
    let sanitized: String = match &record.request.url_sanitized {
        Some(s) => s.clone(),
        None => sanitize_url(record.request.url.as_str()).sanitized,
    };
    push_text(&mut attrs, "url.full", sanitized.as_str());
    push_attr(&mut attrs, string_attr("url.scheme", &record.request.scheme));
    push_attr(&mut attrs, string_attr("server.address", &record.request.host));
    let port: Option<i64> = match record.request.port {
        Some(p) => Some(p as i64),
        None => None,
    };
    push_attr(&mut attrs, int_attr("server.port", port));
    let status: Option<i64> = match record.response.status {
        Some(n) => if n > 0 {
            Some(n)
        } else {
            None
        },
        None => None,
    };
    push_attr(&mut attrs, int_attr("http.response.status_code", status));
    push_text(&mut attrs, "hosho.har.entry_hash", record.identity.entry_hash.as_str());
    push_text(&mut attrs, "hosho.har.dedupe_key", record.identity.dedupe_key.as_str());
    assert(attr_views(attrs@) =~= base_attrs_of(*record));
    attrs
}

fn timing_attrs(record: &NetworkRequest) -> (r: Vec<TelemetryAttribute>)
    ensures
        attr_views(r@) == timing_attrs_of(*record),
{
    let t = &record.timing;
    let mut attrs: Vec<TelemetryAttribute> = Vec::new();
    assert(attr_views(attrs@) =~= Seq::empty());
    push_attr(&mut attrs, double_attr("hosho.har.timing.blocked_ms", t.blocked_ms));
    push_attr(&mut attrs, double_attr("hosho.har.timing.dns_ms", t.dns_ms));
    push_attr(&mut attrs, double_attr("hosho.har.timing.connect_ms", t.connect_ms));
    push_attr(&mut attrs, double_attr("hosho.har.timing.ssl_ms", t.ssl_ms));
    push_attr(&mut attrs, double_attr("hosho.har.timing.send_ms", t.send_ms));
    push_attr(&mut attrs, double_attr("hosho.har.timing.wait_ms", t.wait_ms));
    push_attr(&mut attrs, double_attr("hosho.har.timing.receive_ms", t.receive_ms));
    assert(attr_views(attrs@) =~= timing_attrs_of(*record));
    attrs
}

/// Appends the exportable headers as string-array attributes.
fn push_arrays(attrs: &mut Vec<TelemetryAttribute>, headers: Vec<(String, Vec<String>)>)
    ensures
        attr_views(final(attrs)@) == attr_views(old(attrs)@) + array_attrs(attribute_views(headers@)),
{
    let ghost before = attr_views(attrs@);
    let ghost all = attribute_views(headers@);
    let mut i: usize = 0;
    while i < headers.len()
        invariant
            0 <= i <= headers@.len(),
            all == attribute_views(headers@),
            attr_views(attrs@) == before + array_attrs(all.take(i as int)),
        decreases headers@.len() - i,
    {
        let ghost prev = attrs@;
        let attr = string_array_attr(headers[i].0.clone(), headers[i].1.clone());
        attrs.push(attr);
        assert(attr_views(attrs@) =~= attr_views(prev).push(attr@));
        assert(array_attrs(all.take(i + 1)) =~= array_attrs(all.take(i as int)).push(
            (all[i as int].0, ValueView::TextArray(all[i as int].1)),
        ));
        assert(attr_views(attrs@) =~= before + array_attrs(all.take(i + 1)));
        i = i + 1;
    }
    assert(all.take(headers@.len() as int) =~= all);
}

fn header_attrs(record: &NetworkRequest) -> (r: Vec<TelemetryAttribute>)
    ensures
        attr_views(r@) == header_attrs_of(*record),
{
    let mut attrs: Vec<TelemetryAttribute> = Vec::new();
    assert(attr_views(attrs@) =~= Seq::empty());
    push_arrays(
        &mut attrs,
        allowed_header_attributes("http.request.header", &record.request.headers),
    );
    push_arrays(
        &mut attrs,
        allowed_header_attributes("http.response.header", &record.response.headers),
    );
    assert(attr_views(attrs@) =~= header_attrs_of(*record));
    attrs
}

fn trigger_attrs(record: &NetworkRequest) -> (r: Vec<TelemetryAttribute>)
    ensures
        attr_views(r@) == trigger_attrs_of(*record),
{
    let mut attrs: Vec<TelemetryAttribute> = Vec::new();
    assert(attr_views(attrs@) =~= Seq::empty());
    match &record.trace.trigger {
        Some(trigger) => {
            push_attr(&mut attrs, string_attr("code.function", &trigger.function_name));
            push_attr(&mut attrs, string_attr("code.file.path", &trigger.url));
            push_attr(&mut attrs, int_attr("code.line.number", trigger.line_number));
            push_attr(&mut attrs, int_attr("code.column.number", trigger.column_number));
        },
        None => match &record.browser.initiator {
            Some(i) => {
                push_attr(&mut attrs, string_attr("code.function", &i.top_function));
                push_attr(&mut attrs, string_attr("code.file.path", &i.top_url));
                push_attr(&mut attrs, int_attr("code.line.number", i.top_line));
                push_attr(&mut attrs, int_attr("code.column.number", i.top_column));
            },
            None => {},
        },
    }
    assert(attr_views(attrs@) =~= trigger_attrs_of(*record));
    attrs
}

/// The protocol version that a HAR HTTP version names.
pub fn protocol_version_of(version: &str) -> (r: Option<&'static str>)
    ensures
        match r {
            Some(p) => protocol_version(version@) == Some(p@),
            None => protocol_version(version@) is None,
        },
{
    let v = ascii_lowercase(version);
    let v = v.as_str();
    if str_eq(v, "http/1.0") {
        Some("1.0")
    } else if str_eq(v, "http/1.1") {
        Some("1.1")
    } else if str_eq(v, "http/2") || str_eq(v, "http/2.0") || str_eq(v, "h2") {
        Some("2")
    } else if str_eq(v, "http/3") || str_eq(v, "http/3.0") || str_eq(v, "h3") {
        Some("3")
    } else {
        None
    }
}

fn protocol_attrs(record: &NetworkRequest) -> (r: Vec<TelemetryAttribute>)
    ensures
        attr_views(r@) == protocol_attrs_of(*record),
{
    let mut attrs: Vec<TelemetryAttribute> = Vec::new();
    assert(attr_views(attrs@) =~= Seq::empty());
    match &record.request.http_version {
        Some(v) => match protocol_version_of(v.as_str()) {
            Some(p) => {
                push_text(&mut attrs, "network.protocol.name", "http");
                push_text(&mut attrs, "network.protocol.version", p);
            },
            None => {},
        },
        None => {},
    }
    assert(attr_views(attrs@) =~= protocol_attrs_of(*record));
    attrs
}

/// Headers size plus body size, when both are known, not negative, and their sum
/// fits `i64`.
pub fn total_size(headers: Option<i64>, body: Option<i64>) -> (r: Option<i64>)
    ensures
        r == size_sum(headers, body),
{
    match (headers, body) {
        (Some(h), Some(b)) => if h >= 0 && b >= 0 {
            h.checked_add(b)
        } else {
            None
        },
        _ => None,
    }
}

fn size_attrs(record: &NetworkRequest) -> (r: Vec<TelemetryAttribute>)
    ensures
        attr_views(r@) == size_attrs_of(*record),
{
    let mut attrs: Vec<TelemetryAttribute> = Vec::new();
    assert(attr_views(attrs@) =~= Seq::empty());
    push_attr(&mut attrs, int_attr("http.request.body.size", non_negative_i64(record.request.body_size)));
    push_attr(
        &mut attrs,
        int_attr("http.request.size", total_size(record.request.headers_size, record.request.body_size)),
    );
    push_attr(&mut attrs, int_attr("http.response.body.size", non_negative_i64(record.response.body_size)));
    push_attr(
        &mut attrs,
        int_attr("http.response.size", total_size(record.response.headers_size, record.response.body_size)),
    );
    assert(attr_views(attrs@) =~= size_attrs_of(*record));
    attrs
}

fn capture_attrs(record: &NetworkRequest) -> (r: Vec<TelemetryAttribute>)
    ensures
        attr_views(r@) == capture_attrs_of(*record),
{
    let c = &record.capture;
    let b = &record.browser;
    let mut attrs: Vec<TelemetryAttribute> = Vec::new();
    assert(attr_views(attrs@) =~= Seq::empty());
    push_attr(&mut attrs, string_attr("hosho.capture.source", &c.source));
    push_attr(&mut attrs, string_attr("hosho.capture.session_id", &c.session_id));
    push_attr(&mut attrs, string_attr("hosho.capture.page_id", &c.page_id));
    push_attr(&mut attrs, int_attr("hosho.browser.tab_id", c.tab_id));
    push_attr(&mut attrs, string_attr("hosho.har.connection_id", &b.connection_id));
    push_attr(&mut attrs, string_attr("hosho.har.resource_type", &b.resource_type));
    push_attr(&mut attrs, string_attr("hosho.har.priority", &b.priority));
    assert(attr_views(attrs@) =~= capture_attrs_of(*record));
    attrs
}

/// The error type of a response status, if it is an error.
pub fn error_type(status: Option<i64>) -> (r: Option<String>)
    ensures
        opt_chars(r) == error_type_of(status),
{
    match status {
        Some(s) => if 100 <= s && s <= 399 {
            None
        } else if 400 <= s && s <= 599 {
            Some(i64_decimal(s))
        } else {
            Some("network_error".to_owned())
        },
        None => Some("network_error".to_owned()),
    }
}

/// Moves the attributes of `extra` to the end of `attrs`.
fn extend_attrs(attrs: &mut Vec<TelemetryAttribute>, extra: Vec<TelemetryAttribute>)
    ensures
        attr_views(final(attrs)@) == attr_views(old(attrs)@) + attr_views(extra@),
{
    let ghost before = attrs@;
    let ghost added = extra@;
    let mut extra = extra;
    attrs.append(&mut extra);
    assert(attr_views(attrs@) =~= attr_views(before) + attr_views(added));
}

/// All attributes of the span of a request, in order: base, timing, header and
/// trigger attributes.
pub fn span_attrs(record: &NetworkRequest) -> (r: Vec<TelemetryAttribute>)
    ensures
        attr_views(r@) == span_attrs_of(*record),
{
    let mut attrs = base_attrs(record);
    extend_attrs(&mut attrs, protocol_attrs(record));
    extend_attrs(&mut attrs, size_attrs(record));
    extend_attrs(&mut attrs, capture_attrs(record));
    extend_attrs(&mut attrs, timing_attrs(record));
    extend_attrs(&mut attrs, header_attrs(record));
    extend_attrs(&mut attrs, trigger_attrs(record));
    push_attr(&mut attrs, string_attr("error.type", &error_type(record.response.status)));
    attrs
}

/// The status of the span of a request.
pub fn span_status(status: Option<i64>) -> (v: JsonValue)
    ensures
        model(v) == status_model(status),
{
    let mut members: Vec<(String, JsonValue)> = Vec::new();
    match status {
        Some(s) => {
            if 100 <= s && s <= 399 {
                assert(member_models(members@) =~= Seq::empty());
                return JsonValue::Object(members);
            }
            push_member(&mut members, "code", json_uint(2));
            if 400 <= s && s <= 599 {
            } else {
                push_member(&mut members, "message", json_string("network_error"));
            }
        },
        None => {
            push_member(&mut members, "code", json_uint(2));
            push_member(&mut members, "message", json_string("network_error"));
        },
    }
    assert(member_models(members@) =~= match status_model(status) {
        JsonModel::Object(m) => m,
        _ => Seq::empty(),
    });
    JsonValue::Object(members)
}

/// The OTLP JSON span of a request.
pub fn span_for_request(record: &NetworkRequest) -> (v: JsonValue)
    ensures
        model(v) == span_model(*record),
{
    let ids = ids_for_request(record);
    let start = record.timing.start_unix_nano();
    let end = record.timing.end_unix_nano();
    let start_ns: u64 = match start {
        Some(n) => n,
        None => 0,
    };
    let end_ns: u64 = match end {
        Some(n) => n,
        None => start_ns,
    };
    let attrs = span_attrs(record);
    let mut members: Vec<(String, JsonValue)> = Vec::new();
    push_member(&mut members, "traceId", json_string(ids.trace_id.as_str()));
    push_member(&mut members, "spanId", json_string(ids.span_id.as_str()));
    push_member(&mut members, "name", json_string(record.request.method.as_str()));
    push_member(&mut members, "kind", json_uint(3));
    push_member(&mut members, "startTimeUnixNano", json_string(u128_decimal(start_ns as u128).as_str()));
    push_member(&mut members, "endTimeUnixNano", json_string(u128_decimal(end_ns as u128).as_str()));
    push_member(&mut members, "attributes", JsonValue::Array(otlp_attributes(attrs.as_slice())));
    push_member(&mut members, "status", span_status(record.response.status));
    assert(member_models(members@) =~= match span_model(*record) {
        JsonModel::Object(m) => m,
        _ => Seq::empty(),
    });
    JsonValue::Object(members)
}

/// The OTLP JSON traces document of requests under the given resource attributes.
pub fn traces_payload(resource: &[TelemetryAttribute], records: &[NetworkRequest]) -> (v: JsonValue)
    ensures
        model(v) == traces_doc(attr_views(resource@), records@),
{
    let mut spans: Vec<JsonValue> = Vec::new();
    let mut i: usize = 0;
    while i < records.len()
        invariant
            0 <= i <= records@.len(),
            models(spans@) == span_models(records@).take(i as int),
        decreases records@.len() - i,
    {
        push_item(&mut spans, span_for_request(&records[i]));
        assert(span_models(records@).take(i + 1) =~= span_models(records@).take(i as int).push(
            span_model(records@[i as int]),
        ));
        i = i + 1;
    }
    assert(span_models(records@).take(records@.len() as int) =~= span_models(records@));
    otlp_document(
        "resourceSpans",
        "scopeSpans",
        "spans",
        "hosho.har",
        otlp_attributes(resource),
        spans,
    )
}

/// The OTLP JSON traces document of requests, `None` when there are none. Its
/// resource attributes are those of [`resource_attributes`] without instance id,
/// in the order the SDK gives them back.
pub fn har_traces(records: &[NetworkRequest]) -> (r: Option<JsonValue>)
    ensures
        r is None <==> records@.len() == 0,
        r matches Some(v) ==> exists|resource: Seq<(Seq<char>, ValueView)>|
            reordered(resource, resource_attr_views(None)) && model(v) == traces_doc(
                resource,
                records@,
            ),
{
    if records.len() == 0 {
        return None;
    }
    let resource = resource_attributes(None);
    let v = traces_payload(resource.as_slice(), records);
    assert(reordered(attr_views(resource@), resource_attr_views(None)));
    Some(v)
}

/// A child span for one timing phase of a request: its name, and when it starts
/// and ends, in Unix nanoseconds.
#[derive(Debug)]
pub struct PhaseSpan {
    pub name: String,
    pub start: u128,
    pub end: u128,
}

/// The names of the timing phases, in the order in which they happen.
pub open spec fn phase_name(i: int) -> Seq<char> {
    if i == 0 {
        "request.blocked"@
    } else if i == 1 {
        "connection.dns"@
    } else if i == 2 {
        "connection.tcp"@
    } else if i == 3 {
        "connection.tls"@
    } else if i == 4 {
        "request.send"@
    } else if i == 5 {
        "response.wait"@
    } else {
        "response.receive"@
    }
}

/// The total length of the phases given among the first `k`.
pub open spec fn phase_offset(phases: Seq<Option<u64>>, k: nat) -> int
    decreases k,
{
    if k == 0 {
        0
    } else {
        phase_offset(phases, (k - 1) as nat) + match phases[k - 1] {
            Some(d) => d as int,
            None => 0,
        }
    }
}

/// The spans of the phases given among the first `k`, in order: each starts where
/// the phases before it end, and lasts as long as the phase.
pub open spec fn phase_schedule(base: int, phases: Seq<Option<u64>>, k: nat) -> Seq<
    (Seq<char>, int, int),
>
    decreases k,
{
    if k == 0 {
        Seq::empty()
    } else {
        let before = phase_schedule(base, phases, (k - 1) as nat);
        let start = base + phase_offset(phases, (k - 1) as nat);
        match phases[k - 1] {
            Some(d) => before.push((phase_name(k - 1), start, start + d)),
            None => before,
        }
    }
}

/// The name, start and end of each phase span.
pub open spec fn phase_views(spans: Seq<PhaseSpan>) -> Seq<(Seq<char>, int, int)> {
    spans.map_values(|p: PhaseSpan| (p.name@, p.start as int, p.end as int))
}

fn phase_label(i: usize) -> (name: &'static str)
    requires
        i < 7,
    ensures
        name@ == phase_name(i as int),
{
    if i == 0 {
        "request.blocked"
    } else if i == 1 {
        "connection.dns"
    } else if i == 2 {
        "connection.tcp"
    } else if i == 3 {
        "connection.tls"
    } else if i == 4 {
        "request.send"
    } else if i == 5 {
        "response.wait"
    } else {
        "response.receive"
    }
}

/// The child spans of a request that started at `base`: one per phase given, in
/// the order blocked, dns, tcp, tls, send, wait, receive, each starting where the
/// phases before it end; and the instant at which the response closed, `base`
/// plus the request's duration, when that is known.
pub fn phase_spans(base: u128, phase_nanos: [Option<u64>; 7], closed_after: Option<u64>) -> (r: (
    Vec<PhaseSpan>,
    Option<u128>,
))
    requires
        base + 7 * u64::MAX <= u128::MAX,
    ensures
        phase_views(r.0@) == phase_schedule(base as int, phase_nanos@, 7),
        r.1 == match closed_after {
            Some(d) => Some((base + d) as u128),
            None => None,
        },
{
    let ghost phases = phase_nanos@;
    let mut spans: Vec<PhaseSpan> = Vec::new();
    let mut offset: u128 = 0;
    let mut i: usize = 0;
    assert(phase_views(spans@) =~= Seq::<(Seq<char>, int, int)>::empty());
    while i < 7
        invariant
            i <= 7,
            phases == phase_nanos@,
            phases.len() == 7,
            base + 7 * u64::MAX <= u128::MAX,
            offset == phase_offset(phases, i as nat),
            offset <= i * u64::MAX,
            phase_views(spans@) == phase_schedule(base as int, phases, i as nat),
        decreases 7 - i,
    {
        match phase_nanos[i] {
            Some(d) => {
                let start = base + offset;
                let end = start + d as u128;
                let ghost before = spans@;
                spans.push(PhaseSpan { name: phase_label(i).to_owned(), start, end });
                assert(phase_views(spans@) =~= phase_views(before).push(
                    (phase_name(i as int), start as int, end as int),
                ));
                offset = offset + d as u128;
            },
            None => {},
        }
        i = i + 1;
    }
    let closed = match closed_after {
        Some(d) => Some(base + d as u128),
        None => None,
    };
    (spans, closed)
}

} // verus!
